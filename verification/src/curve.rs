//! Curve arithmetic substrate: the narrow, trusted interface to the
//! arkworks implementation of the BN254 pairing-friendly curve.
//!
//! The arkworks point and field types are generic over parameter traits
//! that the verifier cannot reason about, so each value is held inside an
//! opaque type of this crate's own.  Every operation the verification
//! engine needs is a small wrapper whose contract is stated over
//! uninterpreted names for the results of the underlying arkworks
//! functions.  The key abstraction is [`g1_norm`]/[`g2_norm`]: the
//! canonical affine form of a projective value, under which two projective
//! representations of the same curve point coincide.  All point-level
//! equations in this crate are stated under these normalisation maps.

use ark_ec::{AffineCurve, PairingEngine, ProjectiveCurve};
use ark_ff::{PrimeField, Zero};
use core::str::FromStr;
use vstd::prelude::*;

verus! {

/// A G1 group element in projective form, the canonical in-memory
/// representation (it can hold the point at infinity without a division).
#[verifier::external_body]
pub struct G1Point {
    inner: ark_bn254::G1Projective,
}

/// A G2 group element in projective form.
#[verifier::external_body]
pub struct G2Point {
    inner: ark_bn254::G2Projective,
}

/// A G1 group element in affine form: two base-field coordinates, or the
/// designated infinity sentinel.
#[verifier::external_body]
pub struct G1AffinePoint {
    inner: ark_bn254::G1Affine,
}

/// A G2 group element in affine form.
#[verifier::external_body]
pub struct G2AffinePoint {
    inner: ark_bn254::G2Affine,
}

/// An element of the scalar field, always reduced modulo the field order;
/// public inputs are scalars.
#[verifier::external_body]
pub struct Scalar {
    inner: ark_bn254::Fr,
}

/// An element of the pairing-target group.
#[verifier::external_body]
pub struct GtElement {
    inner: ark_bn254::Fq12,
}

/// An element of the G1 base field.
#[verifier::external_body]
pub struct FqElement {
    inner: ark_bn254::Fq,
}

/// An element of the quadratic extension of the base field, in which G2
/// coordinates live.
#[verifier::external_body]
pub struct Fq2Element {
    inner: ark_bn254::Fq2,
}

/// The canonical affine form of a G1 projective value, as computed by
/// `ProjectiveCurve::into_affine`.  Two projective values represent the
/// same curve point exactly when their canonical affine forms are equal.
pub uninterp spec fn g1_norm(p: G1Point) -> G1AffinePoint;

/// The canonical affine form of a G2 projective value.
pub uninterp spec fn g2_norm(p: G2Point) -> G2AffinePoint;

/// The canonical affine form of the sum of the two points, as computed by
/// the group law of `GroupProjective`.
pub uninterp spec fn g1_add_pt(a: G1AffinePoint, b: G1AffinePoint) -> G1AffinePoint;

/// The canonical affine form of the scalar multiple `s * a`, as computed
/// by `AffineCurve::mul`.
pub uninterp spec fn g1_mul_pt(a: G1AffinePoint, s: Scalar) -> G1AffinePoint;

/// The additive inverse of an affine G2 point, as computed by `Neg`.
pub uninterp spec fn g2_neg_pt(a: G2AffinePoint) -> G2AffinePoint;

/// What `GroupAffine::is_on_curve` returns: whether the value satisfies
/// the curve equation of G1 (the point at infinity counts as on the
/// curve).
pub uninterp spec fn g1_on_curve(a: G1AffinePoint) -> bool;

/// What `GroupAffine::is_on_curve` returns for G2 points.
pub uninterp spec fn g2_on_curve(a: G2AffinePoint) -> bool;

/// The bilinear pairing e(p, q), as computed by `Bn254::pairing`.
pub uninterp spec fn pair_gt(p: G1AffinePoint, q: G2AffinePoint) -> GtElement;

/// The product of two pairing-target values, as computed by field
/// multiplication in Fq12.
pub uninterp spec fn gt_mul(a: GtElement, b: GtElement) -> GtElement;

/// The base-field element denoted by a decimal string, as parsed by
/// `Fq::from_str`.
pub uninterp spec fn fq_of_dec(s: Seq<char>) -> FqElement;

/// The scalar-field element denoted by a decimal string, as parsed by
/// `Fr::from_str`.
pub uninterp spec fn fr_of_dec(s: Seq<char>) -> Scalar;

/// The affine G1 value with the given finite-point coordinates, as built
/// by `GroupAffine::new`.
pub uninterp spec fn g1_make(x: FqElement, y: FqElement) -> G1AffinePoint;

/// The affine G2 value with the given finite-point coordinates.
pub uninterp spec fn g2_make(x: Fq2Element, y: Fq2Element) -> G2AffinePoint;

/// The quadratic-extension element with the given components, as built by
/// `Fq2::new`.
pub uninterp spec fn fq2_make(c0: FqElement, c1: FqElement) -> Fq2Element;

/// An affine G1 value is well formed when it is the canonical affine form
/// of some projective value: its coordinates are reduced and the point at
/// infinity carries the designated sentinel coordinates.
pub open spec fn g1_aff_ok(a: G1AffinePoint) -> bool {
    exists|p: G1Point| a == #[trigger] g1_norm(p)
}

/// Well-formedness of an affine G2 value, as for [`g1_aff_ok`].
pub open spec fn g2_aff_ok(a: G2AffinePoint) -> bool {
    exists|p: G2Point| a == #[trigger] g2_norm(p)
}

/// An affine value is the group identity: adding it to any well-formed
/// point changes nothing, and every scalar multiple of it is itself.
pub open spec fn g1_is_identity(z: G1AffinePoint) -> bool {
    &&& forall|a: G1AffinePoint| g1_aff_ok(a) ==> #[trigger] g1_add_pt(a, z) == a
    &&& forall|s: Scalar| #[trigger] g1_mul_pt(z, s) == z
}

/// A pairing-target value is the multiplicative identity: multiplying by
/// it, on either side, changes nothing.
pub open spec fn gt_is_identity(t: GtElement) -> bool {
    &&& forall|u: GtElement| #[trigger] gt_mul(u, t) == u
    &&& forall|u: GtElement| #[trigger] gt_mul(t, u) == u
}

/// Multiplication in the pairing-target group is commutative.
pub open spec fn gt_mul_commutes() -> bool {
    forall|t: GtElement, u: GtElement| #[trigger] gt_mul(t, u) == gt_mul(u, t)
}

/// Multiplication in the pairing-target group is associative.
pub open spec fn gt_mul_associates() -> bool {
    forall|t: GtElement, u: GtElement, v: GtElement|
        #[trigger] gt_mul(gt_mul(t, u), v) == gt_mul(t, gt_mul(u, v))
}

/// Pairing a point with the negation of a G2 point yields an inverse
/// factor: the product of the two pairings is the identity of the target
/// group.  This is the algebraic fact behind preparing `-gamma` and
/// `-delta` once and checking a three-pairing product against a stored
/// constant.
pub open spec fn pairing_respects_neg() -> bool {
    forall|p: G1AffinePoint, q: G2AffinePoint|
        gt_is_identity(#[trigger] gt_mul(pair_gt(p, q), pair_gt(p, g2_neg_pt(q))))
}

/// An affine G2 value is the group identity.  The crate never adds G2
/// points, so the only observation it can make of a G2 identity is
/// through the pairing: pairing anything with it yields the identity of
/// the target group.
pub open spec fn g2_is_identity(z: G2AffinePoint) -> bool {
    forall|p: G1AffinePoint| gt_is_identity(#[trigger] pair_gt(p, z))
}

/// The strings accepted by arkworks' `from_str` for prime-field elements:
/// a non-empty all-decimal string without an unnecessary leading zero.
pub open spec fn dec_str_ok(s: Seq<char>) -> bool {
    &&& s.len() > 0
    &&& forall|i: int| 0 <= i < s.len() ==> '0' <= #[trigger] s[i] <= '9'
    &&& s.len() > 1 ==> s[0] != '0'
}

/// Relies on `ProjectiveCurve::into_affine`: deterministic conversion of a
/// projective G1 value to its canonical affine form.
#[verifier::external_body]
pub(crate) fn g1_to_affine(p: &G1Point) -> (r: G1AffinePoint)
    ensures
        r == g1_norm(*p),
{
    G1AffinePoint { inner: p.inner.into_affine() }
}

/// Relies on `ProjectiveCurve::into_affine` for G2.
#[verifier::external_body]
pub(crate) fn g2_to_affine(p: &G2Point) -> (r: G2AffinePoint)
    ensures
        r == g2_norm(*p),
{
    G2AffinePoint { inner: p.inner.into_affine() }
}

/// Relies on `AffineCurve::into_projective`: embedding a canonical affine
/// value into projective form represents the same point, so normalising
/// the result gives the input back.
#[verifier::external_body]
pub(crate) fn g1_from_affine(a: &G1AffinePoint) -> (r: G1Point)
    requires
        g1_aff_ok(*a),
    ensures
        g1_norm(r) == *a,
{
    G1Point { inner: a.inner.into_projective() }
}

/// Relies on `AffineCurve::into_projective` for G2.
#[verifier::external_body]
pub(crate) fn g2_from_affine(a: &G2AffinePoint) -> (r: G2Point)
    requires
        g2_aff_ok(*a),
    ensures
        g2_norm(r) == *a,
{
    G2Point { inner: a.inner.into_projective() }
}

/// Relies on the `AddAssign` group law of `GroupProjective`: the result
/// represents the sum of the two input points, which is the same point in
/// either argument order, and the sum of two points on the curve lies on
/// the curve.
#[verifier::external_body]
pub(crate) fn g1_add(a: &G1Point, b: &G1Point) -> (r: G1Point)
    ensures
        g1_norm(r) == g1_add_pt(g1_norm(*a), g1_norm(*b)),
        g1_norm(r) == g1_add_pt(g1_norm(*b), g1_norm(*a)),
        g1_on_curve(g1_norm(*a)) && g1_on_curve(g1_norm(*b)) ==> g1_on_curve(g1_norm(r)),
{
    let mut inner = a.inner;
    inner += &b.inner;
    G1Point { inner }
}

/// Relies on `AffineCurve::mul` (with `PrimeField::into_repr` to express
/// the scalar): deterministic scalar multiplication, closed on the curve.
#[verifier::external_body]
pub(crate) fn g1_mul(base: &G1AffinePoint, scalar: &Scalar) -> (r: G1Point)
    ensures
        g1_norm(r) == g1_mul_pt(*base, *scalar),
        g1_on_curve(*base) ==> g1_on_curve(g1_norm(r)),
{
    G1Point { inner: base.inner.mul(scalar.inner.into_repr()) }
}

/// Relies on `Neg` for affine G2 points: negation is deterministic, keeps
/// canonical values canonical and keeps curve membership.
#[verifier::external_body]
pub(crate) fn g2_neg(a: &G2AffinePoint) -> (r: G2AffinePoint)
    ensures
        r == g2_neg_pt(*a),
        g2_aff_ok(*a) ==> g2_aff_ok(r),
        g2_on_curve(*a) ==> g2_on_curve(r),
{
    G2AffinePoint { inner: -a.inner }
}

/// Relies on `GroupAffine::is_on_curve` for G1: it decides exactly whether
/// the value satisfies the curve equation (or is the point at infinity).
#[verifier::external_body]
pub(crate) fn g1_is_on_curve(a: &G1AffinePoint) -> (r: bool)
    ensures
        r == g1_on_curve(*a),
{
    a.inner.is_on_curve()
}

/// Relies on `GroupAffine::is_on_curve` for G2.
#[verifier::external_body]
pub(crate) fn g2_is_on_curve(a: &G2AffinePoint) -> (r: bool)
    ensures
        r == g2_on_curve(*a),
{
    a.inner.is_on_curve()
}

/// Relies on `Bn254::pairing`: the bilinear pairing is a deterministic
/// function of its two affine arguments; on curve points it runs to
/// completion.
#[verifier::external_body]
pub(crate) fn pairing(p: &G1AffinePoint, q: &G2AffinePoint) -> (r: GtElement)
    requires
        g1_on_curve(*p),
        g2_on_curve(*q),
    ensures
        r == pair_gt(*p, *q),
{
    GtElement { inner: ark_bn254::Bn254::pairing(p.inner, q.inner) }
}

/// Relies on field multiplication in Fq12 (`Mul` for `QuadExtField`).
#[verifier::external_body]
pub(crate) fn gt_multiply(a: &GtElement, b: &GtElement) -> (r: GtElement)
    ensures
        r == gt_mul(*a, *b),
{
    GtElement { inner: a.inner * b.inner }
}

/// Relies on `PartialEq` for `QuadExtField`: field elements are stored in
/// a canonical (reduced Montgomery) form, so component-wise comparison
/// decides equality of the values.
#[verifier::external_body]
pub(crate) fn gt_eq(a: &GtElement, b: &GtElement) -> (r: bool)
    ensures
        r == (*a == *b),
{
    a.inner == b.inner
}

/// Relies on `PartialEq` for `GroupProjective`: arkworks compares
/// projective values as curve points, by cross-multiplied coordinates, so
/// the comparison holds exactly when the canonical affine forms agree.
#[verifier::external_body]
fn g1_point_eq(a: &G1Point, b: &G1Point) -> (r: bool)
    ensures
        r == (g1_norm(*a) == g1_norm(*b)),
{
    a.inner == b.inner
}

/// Whether two projective G1 values represent the same curve point.
pub fn g1_points_equal(a: &G1Point, b: &G1Point) -> (r: bool)
    ensures
        r == (g1_norm(*a) == g1_norm(*b)),
{
    g1_point_eq(a, b)
}

/// Relies on the derived `PartialEq` for `GroupAffine`: it compares the
/// coordinates and the infinity flag, so it decides value equality.
#[verifier::external_body]
pub(crate) fn g1_affine_eq(a: &G1AffinePoint, b: &G1AffinePoint) -> (r: bool)
    ensures
        r == (*a == *b),
{
    a.inner == b.inner
}

/// Relies on the derived `PartialEq` for `GroupAffine` in G2.
#[verifier::external_body]
pub(crate) fn g2_affine_eq(a: &G2AffinePoint, b: &G2AffinePoint) -> (r: bool)
    ensures
        r == (*a == *b),
{
    a.inner == b.inner
}

/// Relies on `Zero::zero` for `GroupProjective`: the point at infinity,
/// which lies on the curve and is the additive identity of the group, so
/// adding it to a point gives that point back and every scalar multiple
/// of it is again the identity.
#[verifier::external_body]
pub(crate) fn g1_zero() -> (r: G1Point)
    ensures
        g1_on_curve(g1_norm(r)),
        g1_is_identity(g1_norm(r)),
{
    G1Point { inner: ark_bn254::G1Projective::zero() }
}

/// Relies on `Zero::zero` for the G2 `GroupProjective`: the point at
/// infinity, on the curve and the additive identity, so `Bn254::pairing`
/// filters it out and returns the multiplicative identity of the target
/// field whatever the G1 argument is.
#[verifier::external_body]
pub(crate) fn g2_zero() -> (r: G2Point)
    ensures
        g2_on_curve(g2_norm(r)),
        g2_is_identity(g2_norm(r)),
{
    G2Point { inner: ark_bn254::G2Projective::zero() }
}

/// Relies on `Fq::from_str`: it accepts exactly the non-empty decimal
/// strings without unnecessary leading zeroes and interprets them as
/// (congruent) field elements.
#[verifier::external_body]
pub(crate) fn fq_from_dec(s: &str) -> (r: Option<FqElement>)
    ensures
        r is Some <==> dec_str_ok(s@),
        r is Some ==> r->Some_0 == fq_of_dec(s@),
{
    ark_bn254::Fq::from_str(s).ok().map(|inner| FqElement { inner })
}

/// Relies on `Fr::from_str`, as for [`fq_from_dec`].
#[verifier::external_body]
pub(crate) fn fr_from_dec(s: &str) -> (r: Option<Scalar>)
    ensures
        r is Some <==> dec_str_ok(s@),
        r is Some ==> r->Some_0 == fr_of_dec(s@),
{
    ark_bn254::Fr::from_str(s).ok().map(|inner| Scalar { inner })
}

/// Relies on `GroupAffine::new`: it stores the given reduced coordinates
/// with the finite-point flag, a canonical affine value.
#[verifier::external_body]
pub(crate) fn g1_affine_new(x: &FqElement, y: &FqElement) -> (r: G1AffinePoint)
    ensures
        r == g1_make(*x, *y),
        g1_aff_ok(r),
{
    G1AffinePoint { inner: ark_bn254::G1Affine::new(x.inner, y.inner, false) }
}

/// Relies on `GroupAffine::new` for G2, as for [`g1_affine_new`].
#[verifier::external_body]
pub(crate) fn g2_affine_new(x: &Fq2Element, y: &Fq2Element) -> (r: G2AffinePoint)
    ensures
        r == g2_make(*x, *y),
        g2_aff_ok(r),
{
    G2AffinePoint { inner: ark_bn254::G2Affine::new(x.inner, y.inner, false) }
}

/// Relies on `Fq2::new`: it stores the two given components.
#[verifier::external_body]
pub(crate) fn fq2_new(c0: &FqElement, c1: &FqElement) -> (r: Fq2Element)
    ensures
        r == fq2_make(*c0, *c1),
{
    Fq2Element { inner: ark_bn254::Fq2::new(c0.inner, c1.inner) }
}

} // verus!
