//! Artifact importer: the data contract with the offline proving-system
//! exporter.
//!
//! Points arrive as nested arrays of decimal strings.  A G1 point is `[x,
//! y, z]`; a G2 point is `[[x_c0, x_c1], [y_c0, y_c1], [z_c0, z_c1]]`.
//! The third coordinate is a sentinel, not a true projective coordinate:
//! `z == "0"` (or `["0", "0"]` for G2) denotes the point at infinity, and
//! any other value denotes an affine point with the given coordinates,
//! `z` being otherwise ignored.  That convention is confined to this
//! module; inside the core every point is a [`G1Point`]/[`G2Point`] of
//! its own.  A coordinate that fails to parse as a field element, or a
//! point that is not on its curve, is rejected here, before any key or
//! proof value is ever constructed: the arithmetic core performs no
//! membership re-validation.
//!
//! The `*_to_rust` functions render points in the same encoding as Rust
//! source text, for the offline converter that bakes imported artifacts
//! into a build.

use crate::curve::{
    dec_str_ok, fq2_make, fq2_new, fq_from_dec, fq_of_dec, fr_from_dec, fr_of_dec, g1_affine_new,
    g1_from_affine, g1_is_identity, g1_is_on_curve, g1_make, g1_norm, g1_on_curve, g1_zero,
    g2_affine_new, g2_from_affine, g2_is_identity, g2_is_on_curve, g2_make, g2_norm, g2_on_curve,
    g2_zero, G1AffinePoint, G1Point, G2AffinePoint, G2Point, Scalar,
};
use vstd::prelude::*;
use vstd::slice::slice_index_get;
use vstd::string::StrSliceExecFns;
use vstd::string::StringExecFns;

verus! {

/// The affine G1 point denoted by a finite artifact entry with the given
/// decimal coordinates.
pub open spec fn g1_entry_pt(x: Seq<char>, y: Seq<char>) -> G1AffinePoint {
    g1_make(fq_of_dec(x), fq_of_dec(y))
}

/// A finite G1 artifact entry is importable: both coordinates parse as
/// decimal field elements and the denoted point lies on the curve.
pub open spec fn g1_entry_ok(x: Seq<char>, y: Seq<char>) -> bool {
    &&& dec_str_ok(x)
    &&& dec_str_ok(y)
    &&& g1_on_curve(g1_entry_pt(x, y))
}

/// The affine G2 point denoted by a finite artifact entry with the given
/// decimal coordinate components.
pub open spec fn g2_entry_pt(
    x0: Seq<char>,
    x1: Seq<char>,
    y0: Seq<char>,
    y1: Seq<char>,
) -> G2AffinePoint {
    g2_make(fq2_make(fq_of_dec(x0), fq_of_dec(x1)), fq2_make(fq_of_dec(y0), fq_of_dec(y1)))
}

/// A finite G2 artifact entry is importable.
pub open spec fn g2_entry_ok(x0: Seq<char>, x1: Seq<char>, y0: Seq<char>, y1: Seq<char>) -> bool {
    &&& dec_str_ok(x0)
    &&& dec_str_ok(x1)
    &&& dec_str_ok(y0)
    &&& dec_str_ok(y1)
    &&& g2_on_curve(g2_entry_pt(x0, x1, y0, y1))
}

/// Whether a string is exactly the infinity sentinel `"0"`.
fn str_eq_zero(s: &str) -> (b: bool)
    ensures
        b == (s@ == "0"@),
{
    proof {
        reveal_strlit("0");
    }
    if s.unicode_len() == 1 {
        let c = s.get_char(0);
        if c == '0' {
            proof {
                assert(s@ =~= "0"@);
            }
            true
        } else {
            false
        }
    } else {
        false
    }
}

/// Import a G1 point from the artifact encoding.  `z == "0"` yields the
/// point at infinity (the group identity), whose coordinates are ignored;
/// any other `z` yields the affine point `(x, y)`.  The result is `None`
/// exactly when a used coordinate does not parse as a decimal field
/// element or the point is not on the curve.
pub fn import_g1(x: &str, y: &str, z: &str) -> (r: Option<G1Point>)
    ensures
        r is Some ==> g1_on_curve(g1_norm(r->Some_0)),
        z@ == "0"@ ==> r is Some && g1_is_identity(g1_norm(r->Some_0)),
        z@ != "0"@ ==> {
            &&& (r is Some <==> g1_entry_ok(x@, y@))
            &&& (r is Some ==> g1_norm(r->Some_0) == g1_entry_pt(x@, y@))
        },
{
    if str_eq_zero(z) {
        return Some(g1_zero());
    }
    let xf = match fq_from_dec(x) {
        Some(v) => v,
        None => {
            return None;
        },
    };
    let yf = match fq_from_dec(y) {
        Some(v) => v,
        None => {
            return None;
        },
    };
    let aff = g1_affine_new(&xf, &yf);
    if !g1_is_on_curve(&aff) {
        return None;
    }
    Some(g1_from_affine(&aff))
}

/// Import a G2 point from the artifact encoding; the six arguments are
/// the two components of each of the `x`, `y` and `z` coordinates.
pub fn import_g2(x0: &str, x1: &str, y0: &str, y1: &str, z0: &str, z1: &str) -> (r: Option<
    G2Point,
>)
    ensures
        r is Some ==> g2_on_curve(g2_norm(r->Some_0)),
        z0@ == "0"@ && z1@ == "0"@ ==> r is Some && g2_is_identity(g2_norm(r->Some_0)),
        !(z0@ == "0"@ && z1@ == "0"@) ==> {
            &&& (r is Some <==> g2_entry_ok(x0@, x1@, y0@, y1@))
            &&& (r is Some ==> g2_norm(r->Some_0) == g2_entry_pt(x0@, x1@, y0@, y1@))
        },
{
    if str_eq_zero(z0) && str_eq_zero(z1) {
        return Some(g2_zero());
    }
    let x0f = match fq_from_dec(x0) {
        Some(v) => v,
        None => {
            return None;
        },
    };
    let x1f = match fq_from_dec(x1) {
        Some(v) => v,
        None => {
            return None;
        },
    };
    let y0f = match fq_from_dec(y0) {
        Some(v) => v,
        None => {
            return None;
        },
    };
    let y1f = match fq_from_dec(y1) {
        Some(v) => v,
        None => {
            return None;
        },
    };
    let xf = fq2_new(&x0f, &x1f);
    let yf = fq2_new(&y0f, &y1f);
    let aff = g2_affine_new(&xf, &yf);
    if !g2_is_on_curve(&aff) {
        return None;
    }
    Some(g2_from_affine(&aff))
}

/// Import a public-input scalar from its decimal encoding.
pub fn import_fr(s: &str) -> (r: Option<Scalar>)
    ensures
        r is Some <==> dec_str_ok(s@),
        r is Some ==> r->Some_0 == fr_of_dec(s@),
{
    fr_from_dec(s)
}

/// The Rust source text denoting a finite G1 point with the given decimal
/// coordinates.
pub open spec fn g1_point_text(x: Seq<char>, y: Seq<char>) -> Seq<char> {
    "G1Affine::new(\n      Fq::from_str(\""@ + x + "\").unwrap(),\n      Fq::from_str(\""@ + y
        + "\").unwrap(),\n      false\n    ).into()"@
}

/// Render a G1 artifact point `[x, y, z]` as Rust source text; `z == "0"`
/// renders as the point at infinity.
pub fn g1_to_rust(p: &[String]) -> (r: String)
    requires
        p@.len() >= 2,
    ensures
        p@.len() >= 3 && p@[2]@ == "0"@ ==> r@ == "G1Projective::zero()"@,
        !(p@.len() >= 3 && p@[2]@ == "0"@) ==> r@ == g1_point_text(p@[0]@, p@[1]@),
{
    if p.len() >= 3 && str_eq_zero(slice_index_get(p, 2).as_str()) {
        return "G1Projective::zero()".to_owned();
    }
    let mut out = "G1Affine::new(\n      Fq::from_str(\"".to_owned();
    out.append(slice_index_get(p, 0).as_str());
    out.append("\").unwrap(),\n      Fq::from_str(\"");
    out.append(slice_index_get(p, 1).as_str());
    out.append("\").unwrap(),\n      false\n    ).into()");
    out
}

/// The Rust source text denoting a finite G2 point with the given decimal
/// coordinate components.
pub open spec fn g2_point_text(
    x0: Seq<char>,
    x1: Seq<char>,
    y0: Seq<char>,
    y1: Seq<char>,
) -> Seq<char> {
    "G2Affine::new(\n      Fq2::new(\n        Fq::from_str(\""@ + x0
        + "\").unwrap(),\n        Fq::from_str(\""@ + x1
        + "\").unwrap()\n      ),\n      Fq2::new(\n        Fq::from_str(\""@ + y0
        + "\").unwrap(),\n        Fq::from_str(\""@ + y1
        + "\").unwrap()\n      ),\n      false\n    ).into()"@
}

/// Render a G2 artifact point `[[x_c0, x_c1], [y_c0, y_c1], [z_c0,
/// z_c1]]` as Rust source text; `z == ["0", "0"]` renders as the point at
/// infinity.
pub fn g2_to_rust(p: &[Vec<String>]) -> (r: String)
    requires
        p@.len() >= 2,
        p@[0]@.len() >= 2,
        p@[1]@.len() >= 2,
        p@.len() >= 3 ==> p@[2]@.len() >= 2,
    ensures
        p@.len() >= 3 && p@[2]@[0]@ == "0"@ && p@[2]@[1]@ == "0"@ ==> r@
            == "G2Projective::zero()"@,
        !(p@.len() >= 3 && p@[2]@[0]@ == "0"@ && p@[2]@[1]@ == "0"@) ==> r@ == g2_point_text(
            p@[0]@[0]@,
            p@[0]@[1]@,
            p@[1]@[0]@,
            p@[1]@[1]@,
        ),
{
    if p.len() >= 3 {
        let zs = slice_index_get(p, 2);
        if str_eq_zero(zs[0].as_str()) && str_eq_zero(zs[1].as_str()) {
            return "G2Projective::zero()".to_owned();
        }
    }
    let xs = slice_index_get(p, 0);
    let ys = slice_index_get(p, 1);
    let mut out = "G2Affine::new(\n      Fq2::new(\n        Fq::from_str(\"".to_owned();
    out.append(xs[0].as_str());
    out.append("\").unwrap(),\n        Fq::from_str(\"");
    out.append(xs[1].as_str());
    out.append("\").unwrap()\n      ),\n      Fq2::new(\n        Fq::from_str(\"");
    out.append(ys[0].as_str());
    out.append("\").unwrap(),\n        Fq::from_str(\"");
    out.append(ys[1].as_str());
    out.append("\").unwrap()\n      ),\n      false\n    ).into()");
    out
}

/// Render a public-input scalar as Rust source text.
pub fn fr_to_rust(x: &str) -> (r: String)
    ensures
        r@ == "Fr::from_str(\""@ + x@ + "\").unwrap()"@,
{
    let mut out = "Fr::from_str(\"".to_owned();
    out.append(x);
    out.append("\").unwrap()");
    out
}

} // verus!
