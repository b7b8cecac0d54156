//! A baked-in sample verification key, proof and public input, in the
//! artifact importer's decimal encoding: the material a build of the
//! demo converter would emit.
//!
//! Both constructors return `Some` exactly when every baked-in entry is
//! importable — its coordinates parse and the denoted point lies on its
//! curve — and in that case the contracts fix each imported point as the
//! one the decimal constants denote, so both functions return the same
//! values on every call.  Whether the constants do denote curve points is
//! a fact about the curve equation that only the trusted membership check
//! can settle, so `Some`-ness itself is established at run time.

use crate::artifact::{
    g1_entry_ok, g1_entry_pt, g2_entry_ok, g2_entry_pt, import_fr, import_g1, import_g2,
};
use crate::curve::{
    dec_str_ok, fr_of_dec, g1_is_identity, g1_norm, g2_norm, G1AffinePoint, G2AffinePoint, Scalar,
};
use crate::groth16::{proof_wf, Proof, Vk};
use vstd::prelude::*;

verus! {

/// The sample key's alpha point.
pub open spec fn sample_alpha() -> G1AffinePoint {
    g1_entry_pt("1"@, "2"@)
}

/// The G2 point shared by the sample key's beta, gamma and delta.
pub open spec fn sample_g2() -> G2AffinePoint {
    g2_entry_pt(
        "10857046999023057135944570762232829481370756359578518086990519993285655852781"@,
        "11559732032986387107991004021392285783925812861821192530917403151452391805634"@,
        "8495653923123431417604973247489272438418190587263600148770280649306958101930"@,
        "4082367875863433681332203403145435568316851327593401208105741076214120093531"@,
    )
}

/// The sample key's constant `ic` term.
pub open spec fn sample_ic0() -> G1AffinePoint {
    g1_entry_pt(
        "1"@,
        "21888242871839275222246405745257275088696311157297823662689037894645226208581"@,
    )
}

/// Every finite entry of the sample key is importable.
pub open spec fn sample_vk_ok() -> bool {
    &&& g1_entry_ok("1"@, "2"@)
    &&& g2_entry_ok(
        "10857046999023057135944570762232829481370756359578518086990519993285655852781"@,
        "11559732032986387107991004021392285783925812861821192530917403151452391805634"@,
        "8495653923123431417604973247489272438418190587263600148770280649306958101930"@,
        "4082367875863433681332203403145435568316851327593401208105741076214120093531"@,
    )
    &&& g1_entry_ok(
        "1"@,
        "21888242871839275222246405745257275088696311157297823662689037894645226208581"@,
    )
}

/// The sample verification key: alpha is the point the constants `(1, 2)`
/// denote, beta, gamma and delta are all [`sample_g2`], and the `ic`
/// sequence holds [`sample_ic0`] followed by the artifact encoding of the
/// point at infinity, so the key fits circuits with exactly one public
/// input.
pub fn verification_key() -> (r: Option<Vk>)
    ensures
        r is Some <==> sample_vk_ok(),
        r is Some ==> r->Some_0.wf(),
        r is Some ==> r->Some_0.ic@.len() == 2,
        r is Some ==> g1_norm(r->Some_0.alpha_g1) == sample_alpha(),
        r is Some ==> g2_norm(r->Some_0.beta_g2) == sample_g2(),
        r is Some ==> g2_norm(r->Some_0.gamma_g2) == sample_g2(),
        r is Some ==> g2_norm(r->Some_0.delta_g2) == sample_g2(),
        r is Some ==> g1_norm(r->Some_0.ic@[0]) == sample_ic0(),
        r is Some ==> g1_is_identity(g1_norm(r->Some_0.ic@[1])),
{
    proof {
        reveal_strlit("0");
        reveal_strlit("1");
        assert("0"@.len() == 1 && "0"@[0] == '0');
        assert("1"@.len() == 1 && "1"@[0] == '1');
        assert("1"@ != "0"@);
    }
    let alpha_g1 = match import_g1("1", "2", "1") {
        Some(p) => p,
        None => {
            return None;
        },
    };
    let beta_g2 = match import_g2(
        "10857046999023057135944570762232829481370756359578518086990519993285655852781",
        "11559732032986387107991004021392285783925812861821192530917403151452391805634",
        "8495653923123431417604973247489272438418190587263600148770280649306958101930",
        "4082367875863433681332203403145435568316851327593401208105741076214120093531",
        "1",
        "0",
    ) {
        Some(p) => p,
        None => {
            return None;
        },
    };
    let gamma_g2 = match import_g2(
        "10857046999023057135944570762232829481370756359578518086990519993285655852781",
        "11559732032986387107991004021392285783925812861821192530917403151452391805634",
        "8495653923123431417604973247489272438418190587263600148770280649306958101930",
        "4082367875863433681332203403145435568316851327593401208105741076214120093531",
        "1",
        "0",
    ) {
        Some(p) => p,
        None => {
            return None;
        },
    };
    let delta_g2 = match import_g2(
        "10857046999023057135944570762232829481370756359578518086990519993285655852781",
        "11559732032986387107991004021392285783925812861821192530917403151452391805634",
        "8495653923123431417604973247489272438418190587263600148770280649306958101930",
        "4082367875863433681332203403145435568316851327593401208105741076214120093531",
        "1",
        "0",
    ) {
        Some(p) => p,
        None => {
            return None;
        },
    };
    let ic0 = match import_g1(
        "1",
        "21888242871839275222246405745257275088696311157297823662689037894645226208581",
        "1",
    ) {
        Some(p) => p,
        None => {
            return None;
        },
    };
    let ic1 = match import_g1("0", "1", "0") {
        Some(p) => p,
        None => {
            return None;
        },
    };
    let mut ic = Vec::new();
    ic.push(ic0);
    ic.push(ic1);
    Some(Vk { alpha_g1, beta_g2, gamma_g2, delta_g2, ic })
}

/// The `a` point of the sample proof.
pub open spec fn sample_proof_a() -> G1AffinePoint {
    g1_entry_pt(
        "5846067817534501029168219758664959042318162400101284663795922097724883505222"@,
        "10976197405737721333488952110323761168740735339378490158153265794290976899646"@,
    )
}

/// The `b` point of the sample proof.
pub open spec fn sample_proof_b() -> G2AffinePoint {
    g2_entry_pt(
        "5941609983153469020012280960721666409926273015922154969498594507087015854680"@,
        "8836719669744972275721198312956446745168340442154705538528481296230285294558"@,
        "3480701898224563411932641606285736377482641858927593172848682636984436244374"@,
        "489700308443953829354817105151096139602860112340426234009604985073453462233"@,
    )
}

/// The `c` point of the sample proof.
pub open spec fn sample_proof_c() -> G1AffinePoint {
    g1_entry_pt(
        "11099538397044349801466183978400408533965706819252075854811832834022244673239"@,
        "7118650027467702224847974637409557263182673231661819166195649449954026323460"@,
    )
}

/// The sample proof's single public input.
pub open spec fn sample_input() -> Scalar {
    fr_of_dec("5719944538356554403817391916218209963465482684641156206505489751898082045988"@)
}

/// Every entry of the sample proof is importable.
pub open spec fn sample_proof_ok() -> bool {
    &&& g1_entry_ok(
        "5846067817534501029168219758664959042318162400101284663795922097724883505222"@,
        "10976197405737721333488952110323761168740735339378490158153265794290976899646"@,
    )
    &&& g2_entry_ok(
        "5941609983153469020012280960721666409926273015922154969498594507087015854680"@,
        "8836719669744972275721198312956446745168340442154705538528481296230285294558"@,
        "3480701898224563411932641606285736377482641858927593172848682636984436244374"@,
        "489700308443953829354817105151096139602860112340426234009604985073453462233"@,
    )
    &&& g1_entry_ok(
        "11099538397044349801466183978400408533965706819252075854811832834022244673239"@,
        "7118650027467702224847974637409557263182673231661819166195649449954026323460"@,
    )
    &&& dec_str_ok(
        "5719944538356554403817391916218209963465482684641156206505489751898082045988"@,
    )
}

/// The sample proof and its single public input, with each point fixed as
/// the one its decimal constants denote.
pub fn sample_proof() -> (r: Option<(Proof, Vec<Scalar>)>)
    ensures
        r is Some <==> sample_proof_ok(),
        r is Some ==> proof_wf(r->Some_0.0),
        r is Some ==> g1_norm(r->Some_0.0.a) == sample_proof_a(),
        r is Some ==> g2_norm(r->Some_0.0.b) == sample_proof_b(),
        r is Some ==> g1_norm(r->Some_0.0.c) == sample_proof_c(),
        r is Some ==> r->Some_0.1@.len() == 1 && r->Some_0.1@[0] == sample_input(),
{
    proof {
        reveal_strlit("0");
        reveal_strlit("1");
        assert("0"@.len() == 1 && "0"@[0] == '0');
        assert("1"@.len() == 1 && "1"@[0] == '1');
        assert("1"@ != "0"@);
    }
    let a = match import_g1(
        "5846067817534501029168219758664959042318162400101284663795922097724883505222",
        "10976197405737721333488952110323761168740735339378490158153265794290976899646",
        "1",
    ) {
        Some(p) => p,
        None => {
            return None;
        },
    };
    let b = match import_g2(
        "5941609983153469020012280960721666409926273015922154969498594507087015854680",
        "8836719669744972275721198312956446745168340442154705538528481296230285294558",
        "3480701898224563411932641606285736377482641858927593172848682636984436244374",
        "489700308443953829354817105151096139602860112340426234009604985073453462233",
        "1",
        "0",
    ) {
        Some(p) => p,
        None => {
            return None;
        },
    };
    let c = match import_g1(
        "11099538397044349801466183978400408533965706819252075854811832834022244673239",
        "7118650027467702224847974637409557263182673231661819166195649449954026323460",
        "1",
    ) {
        Some(p) => p,
        None => {
            return None;
        },
    };
    let s = match import_fr(
        "5719944538356554403817391916218209963465482684641156206505489751898082045988",
    ) {
        Some(v) => v,
        None => {
            return None;
        },
    };
    let mut public_inputs = Vec::new();
    public_inputs.push(s);
    Some((Proof { a, b, c }, public_inputs))
}

} // verus!
