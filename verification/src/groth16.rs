//! Groth16 verification: key preparation, public-input aggregation and the
//! pairing equation check.
//!
//! The canonical check `e(A, B) = e(alpha, beta) * e(g_ic, gamma) * e(C,
//! delta)` is evaluated in its rearranged form `e(A, B) * e(g_ic, -gamma)
//! * e(C, -delta) = e(alpha, beta)`: the gamma and delta terms move to the
//! left through negations computed once at preparation time, so that only
//! one target-group constant has to be kept and compared.

use crate::curve::{
    g1_add, g1_add_pt, g1_aff_ok, g1_affine_eq, g1_from_affine, g1_is_identity, g1_mul, g1_mul_pt,
    g1_norm, g1_on_curve, g1_to_affine, g2_affine_eq, g2_neg, g2_neg_pt, g2_norm, g2_on_curve,
    g2_to_affine, gt_eq, gt_is_identity, gt_mul, gt_mul_associates, gt_mul_commutes, gt_multiply,
    pair_gt, pairing, pairing_respects_neg, G1AffinePoint, G1Point, G2AffinePoint, G2Point,
    GtElement, Scalar,
};
use vstd::prelude::*;

verus! {

/// A Groth16 proof: one proof is checked against one prepared key and one
/// public-input sequence.
pub struct Proof {
    pub a: G1Point,
    pub b: G2Point,
    pub c: G1Point,
}

/// A raw verification key, as imported from the artifact producer.  The
/// `ic` sequence holds one more point than the circuit has public inputs.
pub struct Vk {
    pub alpha_g1: G1Point,
    pub beta_g2: G2Point,
    pub gamma_g2: G2Point,
    pub delta_g2: G2Point,
    pub ic: Vec<G1Point>,
}

/// A verification key with the verification-time-invariant quantities
/// precomputed: affine forms, the negated gamma and delta points, and the
/// pairing of alpha with beta.
pub struct PreparedVk {
    pub alpha_g1: G1AffinePoint,
    pub beta_g2: G2AffinePoint,
    pub gamma_g2_neg: G2AffinePoint,
    pub delta_g2_neg: G2AffinePoint,
    pub gamma_abc_g1: Vec<G1AffinePoint>,
    pub e_alpha_beta: GtElement,
}

/// The ways a proof check can fail.
#[derive(Clone, Copy, Debug, PartialEq, Eq, Structural)]
pub enum Groth16Error {
    /// The number of public inputs plus one differs from the length of the
    /// key's `ic` sequence; no arithmetic is performed in this case.
    PublicInputCountMismatch,
    /// The pairing-product equality check failed: the proof is invalid.
    /// This is a definitive outcome, not a system error.
    VerificationFailure,
}

impl Vk {
    /// Every point of the key lies on its curve.  Membership is guaranteed
    /// upstream by the artifact importer; the arithmetic core never
    /// re-validates it.
    pub open spec fn wf(self) -> bool {
        &&& g1_on_curve(g1_norm(self.alpha_g1))
        &&& g2_on_curve(g2_norm(self.beta_g2))
        &&& g2_on_curve(g2_norm(self.gamma_g2))
        &&& g2_on_curve(g2_norm(self.delta_g2))
        &&& forall|i: int|
            0 <= i < self.ic@.len() ==> g1_on_curve(g1_norm(#[trigger] self.ic@[i]))
    }
}

impl PreparedVk {
    /// The prepared points are canonical affine values on their curves.
    pub open spec fn wf(self) -> bool {
        &&& g2_on_curve(self.gamma_g2_neg)
        &&& g2_on_curve(self.delta_g2_neg)
        &&& forall|i: int|
            0 <= i < self.gamma_abc_g1@.len() ==> g1_aff_ok(#[trigger] self.gamma_abc_g1@[i])
                && g1_on_curve(self.gamma_abc_g1@[i])
    }

    /// Field-by-field comparison of two prepared keys.
    pub fn equals(&self, other: &PreparedVk) -> (r: bool)
        ensures
            r == ({
                &&& self.alpha_g1 == other.alpha_g1
                &&& self.beta_g2 == other.beta_g2
                &&& self.gamma_g2_neg == other.gamma_g2_neg
                &&& self.delta_g2_neg == other.delta_g2_neg
                &&& self.gamma_abc_g1@ == other.gamma_abc_g1@
                &&& self.e_alpha_beta == other.e_alpha_beta
            }),
    {
        if !g1_affine_eq(&self.alpha_g1, &other.alpha_g1) {
            return false;
        }
        if !g2_affine_eq(&self.beta_g2, &other.beta_g2) {
            return false;
        }
        if !g2_affine_eq(&self.gamma_g2_neg, &other.gamma_g2_neg) {
            return false;
        }
        if !g2_affine_eq(&self.delta_g2_neg, &other.delta_g2_neg) {
            return false;
        }
        if !gt_eq(&self.e_alpha_beta, &other.e_alpha_beta) {
            return false;
        }
        let n = self.gamma_abc_g1.len();
        if n != other.gamma_abc_g1.len() {
            assert(self.gamma_abc_g1@ != other.gamma_abc_g1@);
            return false;
        }
        let mut i: usize = 0;
        while i < n
            invariant
                0 <= i <= n,
                n == self.gamma_abc_g1@.len(),
                n == other.gamma_abc_g1@.len(),
                forall|j: int|
                    0 <= j < i ==> #[trigger] self.gamma_abc_g1@[j] == other.gamma_abc_g1@[j],
            decreases n - i,
        {
            if !g1_affine_eq(&self.gamma_abc_g1[i], &other.gamma_abc_g1[i]) {
                assert(self.gamma_abc_g1@[i as int] != other.gamma_abc_g1@[i as int]);
                return false;
            }
            i = i + 1;
        }
        assert(self.gamma_abc_g1@ =~= other.gamma_abc_g1@);
        true
    }
}

/// What `Vk::prepare` computes, field by field.
pub open spec fn prepare_post(vk: Vk, r: PreparedVk) -> bool {
    &&& r.alpha_g1 == g1_norm(vk.alpha_g1)
    &&& r.beta_g2 == g2_norm(vk.beta_g2)
    &&& r.gamma_g2_neg == g2_neg_pt(g2_norm(vk.gamma_g2))
    &&& r.delta_g2_neg == g2_neg_pt(g2_norm(vk.delta_g2))
    &&& r.gamma_abc_g1@.len() == vk.ic@.len()
    &&& forall|i: int|
        0 <= i < vk.ic@.len() ==> #[trigger] r.gamma_abc_g1@[i] == g1_norm(vk.ic@[i])
    &&& r.e_alpha_beta == pair_gt(g1_norm(vk.alpha_g1), g2_norm(vk.beta_g2))
}

impl Vk {
    /// Prepare the verification key: a pure derivation with no failure
    /// modes on well-formed input.  Pairing and negation are the most
    /// expensive steps of a verification, so they are paid once here and
    /// amortised over every proof checked against this key.
    pub fn prepare(&self) -> (r: PreparedVk)
        requires
            self.wf(),
        ensures
            prepare_post(*self, r),
            r.wf(),
    {
        let alpha_affine = g1_to_affine(&self.alpha_g1);
        let beta_affine = g2_to_affine(&self.beta_g2);
        let gamma_affine = g2_to_affine(&self.gamma_g2);
        let delta_affine = g2_to_affine(&self.delta_g2);
        let e_alpha_beta = pairing(&alpha_affine, &beta_affine);

        let n = self.ic.len();
        let mut gamma_abc_g1: Vec<G1AffinePoint> = Vec::new();
        let mut i: usize = 0;
        while i < n
            invariant
                0 <= i <= n,
                n == self.ic@.len(),
                self.wf(),
                gamma_abc_g1@.len() == i,
                forall|j: int|
                    0 <= j < i ==> #[trigger] gamma_abc_g1@[j] == g1_norm(self.ic@[j]),
            decreases n - i,
        {
            gamma_abc_g1.push(g1_to_affine(&self.ic[i]));
            i = i + 1;
        }

        PreparedVk {
            alpha_g1: alpha_affine,
            beta_g2: beta_affine,
            gamma_g2_neg: g2_neg(&gamma_affine),
            delta_g2_neg: g2_neg(&delta_affine),
            gamma_abc_g1,
            e_alpha_beta,
        }
    }
}

/// Preparation is deterministic: two prepared keys derived from the same
/// verification key are identical, field by field.  There is no hidden
/// randomness in the derivation.
pub proof fn lemma_prepare_deterministic(vk: Vk, r1: PreparedVk, r2: PreparedVk)
    requires
        prepare_post(vk, r1),
        prepare_post(vk, r2),
    ensures
        r1.alpha_g1 == r2.alpha_g1,
        r1.beta_g2 == r2.beta_g2,
        r1.gamma_g2_neg == r2.gamma_g2_neg,
        r1.delta_g2_neg == r2.delta_g2_neg,
        r1.gamma_abc_g1@ == r2.gamma_abc_g1@,
        r1.e_alpha_beta == r2.e_alpha_beta,
{
    assert(r1.gamma_abc_g1@ =~= r2.gamma_abc_g1@);
}

/// The term of index `k` of an aggregation: the `ic` point of index `k +
/// 1` weighted by the public input of index `k`.  The index
/// correspondence is a wire-format contract with the key producer.
pub open spec fn agg_term(ic: Seq<G1AffinePoint>, inputs: Seq<Scalar>, k: int) -> G1AffinePoint {
    g1_mul_pt(ic[k + 1], inputs[k])
}

/// The left-to-right partial aggregation: `ic[0]` plus the first `n`
/// weighted terms, associated to the left.
pub open spec fn agg_prefix(
    ic: Seq<G1AffinePoint>,
    inputs: Seq<Scalar>,
    n: int,
) -> G1AffinePoint
    decreases n,
{
    if n <= 0 {
        ic[0]
    } else {
        g1_add_pt(agg_prefix(ic, inputs, n - 1), agg_term(ic, inputs, n - 1))
    }
}

/// The aggregated public-input point: `ic[0] + inputs[0] * ic[1] + ... +
/// inputs[n-1] * ic[n]`, folded left-to-right.
pub open spec fn aggregate_pt(ic: Seq<G1AffinePoint>, inputs: Seq<Scalar>) -> G1AffinePoint {
    agg_prefix(ic, inputs, inputs.len() as int)
}

/// The right-to-left sum of the weighted terms from index `k` on:
/// `term(k) + (term(k+1) + (... + term(n-1)))`.
pub open spec fn agg_suffix(
    ic: Seq<G1AffinePoint>,
    inputs: Seq<Scalar>,
    k: int,
) -> G1AffinePoint
    decreases inputs.len() - k,
{
    if k >= inputs.len() - 1 {
        agg_term(ic, inputs, k)
    } else {
        g1_add_pt(agg_term(ic, inputs, k), agg_suffix(ic, inputs, k + 1))
    }
}

/// The aggregated point with the terms associated right-to-left instead.
pub open spec fn aggregate_pt_rl(ic: Seq<G1AffinePoint>, inputs: Seq<Scalar>) -> G1AffinePoint {
    if inputs.len() == 0 {
        ic[0]
    } else {
        g1_add_pt(ic[0], agg_suffix(ic, inputs, 0))
    }
}

proof fn lemma_agg_shift(ic: Seq<G1AffinePoint>, inputs: Seq<Scalar>, k: int)
    requires
        0 <= k < inputs.len(),
        forall|a: G1AffinePoint, b: G1AffinePoint, c: G1AffinePoint|
            #[trigger] g1_add_pt(g1_add_pt(a, b), c) == g1_add_pt(a, g1_add_pt(b, c)),
    ensures
        g1_add_pt(agg_prefix(ic, inputs, k), agg_suffix(ic, inputs, k)) == agg_prefix(
            ic,
            inputs,
            inputs.len() as int,
        ),
    decreases inputs.len() - k,
{
    if k == inputs.len() - 1 {
        assert(g1_add_pt(agg_prefix(ic, inputs, k), agg_term(ic, inputs, k)) == agg_prefix(
            ic,
            inputs,
            k + 1,
        ));
    } else {
        assert(g1_add_pt(g1_add_pt(agg_prefix(ic, inputs, k), agg_term(ic, inputs, k)),
            agg_suffix(ic, inputs, k + 1)) == g1_add_pt(agg_prefix(ic, inputs, k), g1_add_pt(
            agg_term(ic, inputs, k),
            agg_suffix(ic, inputs, k + 1),
        )));
        lemma_agg_shift(ic, inputs, k + 1);
    }
}

/// Aggregating the inputs with the opposite association order yields the
/// same point: group addition is associative, a property of the curve
/// group that this lemma takes as its hypothesis, since the crate
/// otherwise relies on it only pointwise through the trusted group law.
pub proof fn lemma_aggregate_order_irrelevant(ic: Seq<G1AffinePoint>, inputs: Seq<Scalar>)
    requires
        forall|a: G1AffinePoint, b: G1AffinePoint, c: G1AffinePoint|
            #[trigger] g1_add_pt(g1_add_pt(a, b), c) == g1_add_pt(a, g1_add_pt(b, c)),
    ensures
        aggregate_pt_rl(ic, inputs) == aggregate_pt(ic, inputs),
{
    if inputs.len() > 0 {
        lemma_agg_shift(ic, inputs, 0);
    }
}

proof fn lemma_agg_prefix_push(
    ic: Seq<G1AffinePoint>,
    inputs: Seq<Scalar>,
    z: G1AffinePoint,
    s: Scalar,
    k: int,
)
    requires
        0 <= k <= inputs.len(),
        k < ic.len(),
    ensures
        agg_prefix(ic.push(z), inputs.push(s), k) == agg_prefix(ic, inputs, k),
    decreases k,
{
    if k > 0 {
        lemma_agg_prefix_push(ic, inputs, z, s, k - 1);
    }
}

/// An `ic` entry that is the group identity aggregates as the identity:
/// extending a key with such an entry, weighted by any further public
/// input, leaves the aggregated point unchanged.  This is how an entry
/// imported from a `z = "0"` artifact encoding behaves, since the
/// importer returns the identity for it.
pub proof fn lemma_identity_entry_changes_nothing(
    ic: Seq<G1AffinePoint>,
    inputs: Seq<Scalar>,
    z: G1AffinePoint,
    s: Scalar,
)
    requires
        ic.len() == inputs.len() + 1,
        g1_is_identity(z),
        g1_aff_ok(aggregate_pt(ic, inputs)),
    ensures
        aggregate_pt(ic.push(z), inputs.push(s)) == aggregate_pt(ic, inputs),
{
    let n = inputs.len() as int;
    lemma_agg_prefix_push(ic, inputs, z, s, n);
    assert(agg_term(ic.push(z), inputs.push(s), n) == g1_mul_pt(z, s));
}

proof fn lemma_agg_prefix_remove_front(
    ic: Seq<G1AffinePoint>,
    inputs: Seq<Scalar>,
    j: int,
    k: int,
)
    requires
        ic.len() == inputs.len() + 1,
        0 <= j < inputs.len(),
        0 <= k <= j,
    ensures
        agg_prefix(ic.remove(j + 1), inputs.remove(j), k) == agg_prefix(ic, inputs, k),
    decreases k,
{
    if k > 0 {
        lemma_agg_prefix_remove_front(ic, inputs, j, k - 1);
        assert(ic.remove(j + 1)[k] == ic[k]);
        assert(inputs.remove(j)[k - 1] == inputs[k - 1]);
    } else {
        assert(ic.remove(j + 1)[0] == ic[0]);
    }
}

proof fn lemma_agg_prefix_remove_back(ic: Seq<G1AffinePoint>, inputs: Seq<Scalar>, j: int, k: int)
    requires
        ic.len() == inputs.len() + 1,
        0 <= j < inputs.len(),
        j + 1 <= k <= inputs.len(),
        g1_is_identity(ic[j + 1]),
        g1_aff_ok(agg_prefix(ic, inputs, j)),
    ensures
        agg_prefix(ic, inputs, k) == agg_prefix(ic.remove(j + 1), inputs.remove(j), k - 1),
    decreases k,
{
    if k == j + 1 {
        assert(g1_mul_pt(ic[j + 1], inputs[j]) == ic[j + 1]);
        assert(agg_prefix(ic, inputs, j + 1) == g1_add_pt(agg_prefix(ic, inputs, j), ic[j + 1]));
        assert(g1_add_pt(agg_prefix(ic, inputs, j), ic[j + 1]) == agg_prefix(ic, inputs, j));
        lemma_agg_prefix_remove_front(ic, inputs, j, j);
    } else {
        lemma_agg_prefix_remove_back(ic, inputs, j, k - 1);
        assert(ic.remove(j + 1)[k - 1] == ic[k]);
        assert(inputs.remove(j)[k - 2] == inputs[k - 1]);
    }
}

/// An `ic` entry that is the group identity aggregates as the identity
/// wherever it stands: removing it, together with the public input that
/// weights it, leaves the aggregated point unchanged.  The partial sum up
/// to the entry must be well formed — which is true of every partial sum
/// the aggregator actually computes, since each is the canonical form of
/// a point it holds.
pub proof fn lemma_identity_entry_at_any_position(
    ic: Seq<G1AffinePoint>,
    inputs: Seq<Scalar>,
    j: int,
)
    requires
        ic.len() == inputs.len() + 1,
        0 <= j < inputs.len(),
        g1_is_identity(ic[j + 1]),
        g1_aff_ok(agg_prefix(ic, inputs, j)),
    ensures
        aggregate_pt(ic, inputs) == aggregate_pt(ic.remove(j + 1), inputs.remove(j)),
{
    lemma_agg_prefix_remove_back(ic, inputs, j, inputs.len() as int);
}

/// Fold the public inputs into a single G1 element: starting from the
/// constant term `ic[0]`, add `inputs[i] * ic[i + 1]` for each input, in
/// index order.  The count precondition is checked first: on a mismatch
/// the function reports `PublicInputCountMismatch` before any arithmetic
/// rather than proceeding with a partial aggregation.
pub fn aggregate_inputs(pvk: &PreparedVk, public_inputs: &[Scalar]) -> (r: Result<
    G1Point,
    Groth16Error,
>)
    requires
        pvk.wf(),
    ensures
        public_inputs@.len() + 1 != pvk.gamma_abc_g1@.len() ==> r == Err::<
            G1Point,
            Groth16Error,
        >(Groth16Error::PublicInputCountMismatch),
        public_inputs@.len() + 1 == pvk.gamma_abc_g1@.len() ==> {
            &&& r is Ok
            &&& g1_norm(r->Ok_0) == aggregate_pt(pvk.gamma_abc_g1@, public_inputs@)
            &&& g1_on_curve(g1_norm(r->Ok_0))
        },
{
    let n_ic = pvk.gamma_abc_g1.len();
    let n = public_inputs.len();
    if n_ic == 0 || n != n_ic - 1 {
        return Err(Groth16Error::PublicInputCountMismatch);
    }

    let mut acc = g1_from_affine(&pvk.gamma_abc_g1[0]);
    let mut i: usize = 0;
    while i < n
        invariant
            0 <= i <= n,
            n + 1 == pvk.gamma_abc_g1@.len(),
            n == public_inputs@.len(),
            pvk.wf(),
            g1_norm(acc) == agg_prefix(pvk.gamma_abc_g1@, public_inputs@, i as int),
            g1_on_curve(g1_norm(acc)),
        decreases n - i,
    {
        let term = g1_mul(&pvk.gamma_abc_g1[i + 1], &public_inputs[i]);
        acc = g1_add(&acc, &term);
        i = i + 1;
    }
    Ok(acc)
}

/// A proof is well formed when its three points lie on their curves;
/// membership is guaranteed upstream by the artifact importer.
pub open spec fn proof_wf(p: Proof) -> bool {
    &&& g1_on_curve(g1_norm(p.a))
    &&& g2_on_curve(g2_norm(p.b))
    &&& g1_on_curve(g1_norm(p.c))
}

/// The left side of the rearranged verification equation: `e(A, B) *
/// e(g_ic, -gamma) * e(C, -delta)`.
pub open spec fn lhs_product(pvk: PreparedVk, proof: Proof, inputs: Seq<Scalar>) -> GtElement {
    gt_mul(
        gt_mul(
            pair_gt(g1_norm(proof.a), g2_norm(proof.b)),
            pair_gt(aggregate_pt(pvk.gamma_abc_g1@, inputs), pvk.gamma_g2_neg),
        ),
        pair_gt(g1_norm(proof.c), pvk.delta_g2_neg),
    )
}

/// Check a proof against a prepared key: aggregate the public inputs,
/// compute the three pairings, and accept exactly when their product
/// equals the precomputed `e(alpha, beta)`.  The comparison is exact
/// algebraic equality; there are no retries and no transient outcomes.
pub fn verify_proof_prepared(pvk: &PreparedVk, proof: &Proof, public_inputs: &[Scalar]) -> (r:
    Result<(), Groth16Error>)
    requires
        pvk.wf(),
        proof_wf(*proof),
    ensures
        public_inputs@.len() + 1 != pvk.gamma_abc_g1@.len() ==> r == Err::<(), Groth16Error>(
            Groth16Error::PublicInputCountMismatch,
        ),
        public_inputs@.len() + 1 == pvk.gamma_abc_g1@.len() ==> {
            &&& (r is Ok <==> lhs_product(*pvk, *proof, public_inputs@) == pvk.e_alpha_beta)
            &&& (r is Err ==> r == Err::<(), Groth16Error>(Groth16Error::VerificationFailure))
        },
{
    let g_ic = match aggregate_inputs(pvk, public_inputs) {
        Ok(p) => p,
        Err(e) => {
            return Err(e);
        },
    };

    let proof_a = g1_to_affine(&proof.a);
    let proof_b = g2_to_affine(&proof.b);
    let proof_c = g1_to_affine(&proof.c);
    let g_ic_affine = g1_to_affine(&g_ic);

    let e_a_b = pairing(&proof_a, &proof_b);
    let e_ic_gamma = pairing(&g_ic_affine, &pvk.gamma_g2_neg);
    let e_c_delta = pairing(&proof_c, &pvk.delta_g2_neg);

    let lhs = gt_multiply(&gt_multiply(&e_a_b, &e_ic_gamma), &e_c_delta);

    if gt_eq(&lhs, &pvk.e_alpha_beta) {
        Ok(())
    } else {
        Err(Groth16Error::VerificationFailure)
    }
}

proof fn lemma_gt_inv_cancel(u: GtElement, w: GtElement, wi: GtElement)
    requires
        gt_mul_associates(),
        gt_is_identity(gt_mul(w, wi)),
    ensures
        gt_mul(gt_mul(u, w), wi) == u,
{
    assert(gt_mul(gt_mul(u, w), wi) == gt_mul(u, gt_mul(w, wi)));
    assert(gt_mul(u, gt_mul(w, wi)) == u);
}

proof fn lemma_gt_cancel(u: GtElement, v: GtElement, w: GtElement, wi: GtElement)
    requires
        gt_mul_associates(),
        gt_is_identity(gt_mul(w, wi)),
        gt_mul(u, w) == gt_mul(v, w),
    ensures
        u == v,
{
    lemma_gt_inv_cancel(u, w, wi);
    lemma_gt_inv_cancel(v, w, wi);
}

proof fn lemma_rearranged_product_faithful(
    x: GtElement,
    g: GtElement,
    gn: GtElement,
    d: GtElement,
    dn: GtElement,
    r: GtElement,
)
    requires
        gt_mul_commutes(),
        gt_mul_associates(),
        gt_is_identity(gt_mul(g, gn)),
        gt_is_identity(gt_mul(d, dn)),
    ensures
        gt_mul(gt_mul(x, gn), dn) == r <==> x == gt_mul(gt_mul(r, g), d),
{
    if x == gt_mul(gt_mul(r, g), d) {
        let q = gt_mul(r, g);
        assert(gt_mul(gt_mul(q, d), gn) == gt_mul(q, gt_mul(d, gn)));
        assert(gt_mul(d, gn) == gt_mul(gn, d));
        assert(gt_mul(q, gt_mul(gn, d)) == gt_mul(gt_mul(q, gn), d));
        lemma_gt_inv_cancel(gt_mul(q, gn), d, dn);
        assert(gt_mul(gt_mul(r, g), gn) == gt_mul(r, gt_mul(g, gn)));
        assert(gt_mul(r, gt_mul(g, gn)) == r);
        assert(gt_mul(gt_mul(x, gn), dn) == r);
    }
    if gt_mul(gt_mul(x, gn), dn) == r {
        let p = gt_mul(x, gn);
        assert(gt_mul(gt_mul(p, dn), g) == gt_mul(p, gt_mul(dn, g)));
        assert(gt_mul(dn, g) == gt_mul(g, dn));
        assert(gt_mul(p, gt_mul(g, dn)) == gt_mul(gt_mul(p, g), dn));
        assert(gt_mul(gt_mul(x, gn), g) == gt_mul(x, gt_mul(gn, g)));
        assert(gt_mul(gn, g) == gt_mul(g, gn));
        assert(gt_mul(x, gt_mul(g, gn)) == x);
        assert(gt_mul(r, g) == gt_mul(x, dn));
        assert(gt_mul(dn, d) == gt_mul(d, dn));
        lemma_gt_inv_cancel(x, dn, d);
        assert(gt_mul(gt_mul(r, g), d) == gt_mul(gt_mul(x, dn), d));
        assert(x == gt_mul(gt_mul(r, g), d));
    }
}

/// The rearranged check is the canonical Groth16 equation: `e(A, B) *
/// e(g_ic, -gamma) * e(C, -delta) == e(alpha, beta)` holds exactly when
/// `e(A, B) == e(alpha, beta) * e(g_ic, gamma) * e(C, delta)` does,
/// given that target-group multiplication is commutative and associative
/// and that pairing against a negated G2 point contributes an inverse
/// factor — properties of the curve's pairing that the crate otherwise
/// takes on trust only pointwise.
pub proof fn lemma_check_matches_canonical_equation(vk: Vk, proof: Proof, inputs: Seq<Scalar>)
    requires
        gt_mul_commutes(),
        gt_mul_associates(),
        pairing_respects_neg(),
    ensures
        vk_lhs_product(vk, proof, inputs) == pair_gt(g1_norm(vk.alpha_g1), g2_norm(vk.beta_g2))
            <==> pair_gt(g1_norm(proof.a), g2_norm(proof.b)) == gt_mul(
            gt_mul(
                pair_gt(g1_norm(vk.alpha_g1), g2_norm(vk.beta_g2)),
                pair_gt(aggregate_pt(vk_ic_norm(vk), inputs), g2_norm(vk.gamma_g2)),
            ),
            pair_gt(g1_norm(proof.c), g2_norm(vk.delta_g2)),
        ),
{
    let gic = aggregate_pt(vk_ic_norm(vk), inputs);
    let g = pair_gt(gic, g2_norm(vk.gamma_g2));
    let gn = pair_gt(gic, g2_neg_pt(g2_norm(vk.gamma_g2)));
    let d = pair_gt(g1_norm(proof.c), g2_norm(vk.delta_g2));
    let dn = pair_gt(g1_norm(proof.c), g2_neg_pt(g2_norm(vk.delta_g2)));
    assert(gt_is_identity(gt_mul(g, gn)));
    assert(gt_is_identity(gt_mul(d, dn)));
    lemma_rearranged_product_faithful(
        pair_gt(g1_norm(proof.a), g2_norm(proof.b)),
        g,
        gn,
        d,
        dn,
        pair_gt(g1_norm(vk.alpha_g1), g2_norm(vk.beta_g2)),
    );
}

proof fn lemma_changed_first_factor(
    x: GtElement,
    x2: GtElement,
    gn: GtElement,
    gni: GtElement,
    dn: GtElement,
    dni: GtElement,
    r: GtElement,
)
    requires
        gt_mul_associates(),
        gt_is_identity(gt_mul(gn, gni)),
        gt_is_identity(gt_mul(dn, dni)),
        gt_mul(gt_mul(x, gn), dn) == r,
        x2 != x,
    ensures
        gt_mul(gt_mul(x2, gn), dn) != r,
{
    if gt_mul(gt_mul(x2, gn), dn) == r {
        lemma_gt_cancel(gt_mul(x2, gn), gt_mul(x, gn), dn, dni);
        lemma_gt_cancel(x2, x, gn, gni);
    }
}

proof fn lemma_changed_last_factor(
    x: GtElement,
    xi: GtElement,
    gn: GtElement,
    gni: GtElement,
    dn: GtElement,
    dn2: GtElement,
    r: GtElement,
)
    requires
        gt_mul_commutes(),
        gt_mul_associates(),
        gt_is_identity(gt_mul(x, xi)),
        gt_is_identity(gt_mul(gn, gni)),
        gt_mul(gt_mul(x, gn), dn) == r,
        dn2 != dn,
    ensures
        gt_mul(gt_mul(x, gn), dn2) != r,
{
    if gt_mul(gt_mul(x, gn), dn2) == r {
        let q = gt_mul(x, gn);
        let qi = gt_mul(gni, xi);
        assert(gt_mul(gt_mul(x, gn), gt_mul(gni, xi)) == gt_mul(x, gt_mul(gn, gt_mul(gni, xi))));
        assert(gt_mul(gt_mul(gn, gni), xi) == gt_mul(gn, gt_mul(gni, xi)));
        assert(gt_mul(gt_mul(gn, gni), xi) == xi);
        assert(gt_mul(q, qi) == gt_mul(x, xi));
        assert(gt_is_identity(gt_mul(q, qi)));
        assert(gt_mul(dn2, q) == gt_mul(q, dn2));
        assert(gt_mul(dn, q) == gt_mul(q, dn));
        lemma_gt_cancel(dn2, dn, q, qi);
    }
}

/// Soundness against a perturbed `a`: if a proof passes the pairing
/// check and its `a` point is replaced by a different curve point — any
/// single-bit change of a canonical representation gives one — while `b`
/// and `c` stay, the check fails.  Beside the group structure of the
/// target group, the hypothesis is injectivity of the pairing in its G1
/// argument at the proof's `b`: the non-degeneracy of the pairing, which
/// the crate cannot derive from its pointwise trusted facts.
pub proof fn lemma_perturbed_a_rejected(
    pvk: PreparedVk,
    proof0: Proof,
    proof: Proof,
    inputs: Seq<Scalar>,
)
    requires
        gt_mul_commutes(),
        gt_mul_associates(),
        pairing_respects_neg(),
        forall|p1: G1AffinePoint, p2: G1AffinePoint|
            #![trigger pair_gt(p1, g2_norm(proof0.b)), pair_gt(p2, g2_norm(proof0.b))]
            pair_gt(p1, g2_norm(proof0.b)) == pair_gt(p2, g2_norm(proof0.b)) ==> p1 == p2,
        lhs_product(pvk, proof0, inputs) == pvk.e_alpha_beta,
        proof.b == proof0.b,
        proof.c == proof0.c,
        g1_norm(proof.a) != g1_norm(proof0.a),
    ensures
        lhs_product(pvk, proof, inputs) != pvk.e_alpha_beta,
{
    let agg = aggregate_pt(pvk.gamma_abc_g1@, inputs);
    let gn = pair_gt(agg, pvk.gamma_g2_neg);
    let gni = pair_gt(agg, g2_neg_pt(pvk.gamma_g2_neg));
    let dn = pair_gt(g1_norm(proof0.c), pvk.delta_g2_neg);
    let dni = pair_gt(g1_norm(proof0.c), g2_neg_pt(pvk.delta_g2_neg));
    assert(gt_is_identity(gt_mul(gn, gni)));
    assert(gt_is_identity(gt_mul(dn, dni)));
    let x = pair_gt(g1_norm(proof0.a), g2_norm(proof0.b));
    let x2 = pair_gt(g1_norm(proof.a), g2_norm(proof0.b));
    assert(x2 != x);
    lemma_changed_first_factor(x, x2, gn, gni, dn, dni, pvk.e_alpha_beta);
}

/// Soundness against a perturbed `b`, with injectivity of the pairing in
/// its G2 argument at the proof's `a` as the non-degeneracy hypothesis.
pub proof fn lemma_perturbed_b_rejected(
    pvk: PreparedVk,
    proof0: Proof,
    proof: Proof,
    inputs: Seq<Scalar>,
)
    requires
        gt_mul_commutes(),
        gt_mul_associates(),
        pairing_respects_neg(),
        forall|q1: G2AffinePoint, q2: G2AffinePoint|
            #![trigger pair_gt(g1_norm(proof0.a), q1), pair_gt(g1_norm(proof0.a), q2)]
            pair_gt(g1_norm(proof0.a), q1) == pair_gt(g1_norm(proof0.a), q2) ==> q1 == q2,
        lhs_product(pvk, proof0, inputs) == pvk.e_alpha_beta,
        proof.a == proof0.a,
        proof.c == proof0.c,
        g2_norm(proof.b) != g2_norm(proof0.b),
    ensures
        lhs_product(pvk, proof, inputs) != pvk.e_alpha_beta,
{
    let agg = aggregate_pt(pvk.gamma_abc_g1@, inputs);
    let gn = pair_gt(agg, pvk.gamma_g2_neg);
    let gni = pair_gt(agg, g2_neg_pt(pvk.gamma_g2_neg));
    let dn = pair_gt(g1_norm(proof0.c), pvk.delta_g2_neg);
    let dni = pair_gt(g1_norm(proof0.c), g2_neg_pt(pvk.delta_g2_neg));
    assert(gt_is_identity(gt_mul(gn, gni)));
    assert(gt_is_identity(gt_mul(dn, dni)));
    let x = pair_gt(g1_norm(proof0.a), g2_norm(proof0.b));
    let x2 = pair_gt(g1_norm(proof0.a), g2_norm(proof.b));
    assert(x2 != x);
    lemma_changed_first_factor(x, x2, gn, gni, dn, dni, pvk.e_alpha_beta);
}

/// Soundness against a perturbed `c`, with injectivity of the pairing in
/// its G1 argument at the prepared `-delta` as the non-degeneracy
/// hypothesis.
pub proof fn lemma_perturbed_c_rejected(
    pvk: PreparedVk,
    proof0: Proof,
    proof: Proof,
    inputs: Seq<Scalar>,
)
    requires
        gt_mul_commutes(),
        gt_mul_associates(),
        pairing_respects_neg(),
        forall|p1: G1AffinePoint, p2: G1AffinePoint|
            #![trigger pair_gt(p1, pvk.delta_g2_neg), pair_gt(p2, pvk.delta_g2_neg)]
            pair_gt(p1, pvk.delta_g2_neg) == pair_gt(p2, pvk.delta_g2_neg) ==> p1 == p2,
        lhs_product(pvk, proof0, inputs) == pvk.e_alpha_beta,
        proof.a == proof0.a,
        proof.b == proof0.b,
        g1_norm(proof.c) != g1_norm(proof0.c),
    ensures
        lhs_product(pvk, proof, inputs) != pvk.e_alpha_beta,
{
    let agg = aggregate_pt(pvk.gamma_abc_g1@, inputs);
    let gn = pair_gt(agg, pvk.gamma_g2_neg);
    let gni = pair_gt(agg, g2_neg_pt(pvk.gamma_g2_neg));
    let x = pair_gt(g1_norm(proof0.a), g2_norm(proof0.b));
    let xi = pair_gt(g1_norm(proof0.a), g2_neg_pt(g2_norm(proof0.b)));
    assert(gt_is_identity(gt_mul(gn, gni)));
    assert(gt_is_identity(gt_mul(x, xi)));
    let dn = pair_gt(g1_norm(proof0.c), pvk.delta_g2_neg);
    let dn2 = pair_gt(g1_norm(proof.c), pvk.delta_g2_neg);
    assert(dn2 != dn);
    lemma_changed_last_factor(x, xi, gn, gni, dn, dn2, pvk.e_alpha_beta);
}

/// The canonical affine forms of a raw key's `ic` points.
pub open spec fn vk_ic_norm(vk: Vk) -> Seq<G1AffinePoint> {
    Seq::new(vk.ic@.len(), |i: int| g1_norm(vk.ic@[i]))
}

/// The left side of the verification equation stated over a raw key.
pub open spec fn vk_lhs_product(vk: Vk, proof: Proof, inputs: Seq<Scalar>) -> GtElement {
    gt_mul(
        gt_mul(
            pair_gt(g1_norm(proof.a), g2_norm(proof.b)),
            pair_gt(aggregate_pt(vk_ic_norm(vk), inputs), g2_neg_pt(g2_norm(vk.gamma_g2))),
        ),
        pair_gt(g1_norm(proof.c), g2_neg_pt(g2_norm(vk.delta_g2))),
    )
}

/// Check a proof against a raw key by preparing it first.  Preparing once
/// and calling [`verify_proof_prepared`] directly is cheaper when several
/// proofs are checked against the same key.
pub fn verify_proof(vk: &Vk, proof: &Proof, public_inputs: &[Scalar]) -> (r: Result<
    (),
    Groth16Error,
>)
    requires
        vk.wf(),
        proof_wf(*proof),
    ensures
        public_inputs@.len() + 1 != vk.ic@.len() ==> r == Err::<(), Groth16Error>(
            Groth16Error::PublicInputCountMismatch,
        ),
        public_inputs@.len() + 1 == vk.ic@.len() ==> {
            &&& (r is Ok <==> vk_lhs_product(*vk, *proof, public_inputs@) == pair_gt(
                g1_norm(vk.alpha_g1),
                g2_norm(vk.beta_g2),
            ))
            &&& (r is Err ==> r == Err::<(), Groth16Error>(Groth16Error::VerificationFailure))
        },
{
    let pvk = vk.prepare();
    proof {
        assert(pvk.gamma_abc_g1@ =~= vk_ic_norm(*vk));
    }
    verify_proof_prepared(&pvk, proof, public_inputs)
}

} // verus!
