//! End-to-end behaviour of the Groth16 engine, cross-checked against
//! curve arithmetic performed directly with arkworks.

use ark_bn254::{Fq, Fr, G1Affine, G1Projective, G2Affine, G2Projective};
use ark_ec::{AffineCurve, ProjectiveCurve};
use ark_ff::{BigInteger, One, PrimeField};
use num_bigint::BigUint;

use groth16_core::artifact::{import_fr, import_g1, import_g2};
use groth16_core::curve::{g1_points_equal, G1Point, G2Point, Scalar};
use groth16_core::groth16::{
    aggregate_inputs, verify_proof, verify_proof_prepared, Groth16Error, Proof, Vk,
};
use groth16_core::vk_proof;

fn dec_fq(f: &Fq) -> String {
    BigUint::from_bytes_be(&f.into_repr().to_bytes_be()).to_str_radix(10)
}

fn dec_fr(f: &Fr) -> String {
    BigUint::from_bytes_be(&f.into_repr().to_bytes_be()).to_str_radix(10)
}

/// Move a finite arkworks G1 point into the library through the artifact
/// importer.
fn lift_g1(p: &G1Projective) -> G1Point {
    let a = p.into_affine();
    assert!(!a.infinity, "finite point expected");
    import_g1(&dec_fq(&a.x), &dec_fq(&a.y), "1").expect("on-curve point imports")
}

fn lift_g2(p: &G2Projective) -> G2Point {
    let a = p.into_affine();
    assert!(!a.infinity, "finite point expected");
    import_g2(
        &dec_fq(&a.x.c0),
        &dec_fq(&a.x.c1),
        &dec_fq(&a.y.c0),
        &dec_fq(&a.y.c1),
        "1",
        "0",
    )
    .expect("on-curve point imports")
}

fn lift_fr(s: &Fr) -> Scalar {
    import_fr(&dec_fr(s)).expect("reduced scalar imports")
}

struct TestCircuit {
    vk: Vk,
    proof: Proof,
    inputs: Vec<Scalar>,
    /// The scalars behind the key and proof, for cross-checks.
    u: Fr,
    v: Fr,
    s: Fr,
}

/// A one-public-input key with alpha = x*G, beta = y*H, gamma = delta = H,
/// ic = [u*G, v*G], and an honestly built proof for public input s:
/// A = a*G, B = b*H, C = c*G with a*b = x*y + (u + s*v) + c.
fn honest_circuit() -> TestCircuit {
    let g = G1Affine::prime_subgroup_generator();
    let h = G2Affine::prime_subgroup_generator();
    let x = Fr::from(3u64);
    let y = Fr::from(7u64);
    let u = Fr::from(5u64);
    let v = Fr::from(11u64);
    let s = Fr::from(13u64);
    let a_sc = Fr::from(17u64);
    let b_sc = Fr::from(19u64);
    let c_sc = a_sc * b_sc - x * y - (u + s * v);

    let vk = Vk {
        alpha_g1: lift_g1(&g.mul(x)),
        beta_g2: lift_g2(&h.mul(y)),
        gamma_g2: lift_g2(&h.into_projective()),
        delta_g2: lift_g2(&h.into_projective()),
        ic: vec![lift_g1(&g.mul(u)), lift_g1(&g.mul(v))],
    };
    let proof = Proof { a: lift_g1(&g.mul(a_sc)), b: lift_g2(&h.mul(b_sc)), c: lift_g1(&g.mul(c_sc)) };
    let inputs = vec![lift_fr(&s)];
    TestCircuit { vk, proof, inputs, u, v, s }
}

#[test]
fn honest_proof_verifies() {
    let t = honest_circuit();
    assert_eq!(verify_proof(&t.vk, &t.proof, &t.inputs), Ok(()));
    let pvk = t.vk.prepare();
    assert_eq!(verify_proof_prepared(&pvk, &t.proof, &t.inputs), Ok(()));
}

#[test]
fn aggregator_computes_p0_plus_s_p1() {
    let t = honest_circuit();
    let g = G1Affine::prime_subgroup_generator();
    let pvk = t.vk.prepare();
    let agg = aggregate_inputs(&pvk, &t.inputs).expect("count matches");
    let expected = lift_g1(&g.mul(t.u + t.s * t.v));
    assert!(g1_points_equal(&agg, &expected));
}

#[test]
fn perturbed_public_input_fails() {
    let t = honest_circuit();
    let s_bad = vec![lift_fr(&(t.s + Fr::one()))];
    assert_eq!(
        verify_proof(&t.vk, &t.proof, &s_bad),
        Err(Groth16Error::VerificationFailure)
    );
}

#[test]
fn perturbed_proof_points_fail() {
    let g = G1Affine::prime_subgroup_generator();
    let h = G2Affine::prime_subgroup_generator();
    let t = honest_circuit();
    let pvk = t.vk.prepare();

    // Each perturbation replaces one proof point by another valid curve
    // point (the original plus a generator).
    let a_ark = g.mul(Fr::from(17u64));
    let b_ark = h.mul(Fr::from(19u64));
    let c_ark = {
        let x = Fr::from(3u64);
        let y = Fr::from(7u64);
        let u = Fr::from(5u64);
        let v = Fr::from(11u64);
        let s = Fr::from(13u64);
        g.mul(Fr::from(17u64) * Fr::from(19u64) - x * y - (u + s * v))
    };

    let bad_a = Proof {
        a: lift_g1(&(a_ark + g.into_projective())),
        b: lift_g2(&b_ark),
        c: lift_g1(&c_ark),
    };
    assert_eq!(
        verify_proof_prepared(&pvk, &bad_a, &t.inputs),
        Err(Groth16Error::VerificationFailure)
    );

    let bad_b = Proof {
        a: lift_g1(&a_ark),
        b: lift_g2(&(b_ark + h.into_projective())),
        c: lift_g1(&c_ark),
    };
    assert_eq!(
        verify_proof_prepared(&pvk, &bad_b, &t.inputs),
        Err(Groth16Error::VerificationFailure)
    );

    let bad_c = Proof {
        a: lift_g1(&a_ark),
        b: lift_g2(&b_ark),
        c: lift_g1(&(c_ark + g.into_projective())),
    };
    assert_eq!(
        verify_proof_prepared(&pvk, &bad_c, &t.inputs),
        Err(Groth16Error::VerificationFailure)
    );
}

#[test]
fn input_count_mismatch_is_reported() {
    let t = honest_circuit();
    let pvk = t.vk.prepare();

    let none: Vec<Scalar> = vec![];
    assert!(matches!(
        aggregate_inputs(&pvk, &none),
        Err(Groth16Error::PublicInputCountMismatch)
    ));
    assert_eq!(
        verify_proof_prepared(&pvk, &t.proof, &none),
        Err(Groth16Error::PublicInputCountMismatch)
    );

    let two = vec![lift_fr(&t.s), lift_fr(&t.s)];
    assert_eq!(
        verify_proof(&t.vk, &t.proof, &two),
        Err(Groth16Error::PublicInputCountMismatch)
    );
}

#[test]
fn prepare_is_deterministic() {
    let t = honest_circuit();
    let pvk1 = t.vk.prepare();
    let pvk2 = t.vk.prepare();
    assert!(pvk1.equals(&pvk2));
}

#[test]
fn infinity_ic_entry_aggregates_as_identity() {
    let g = G1Affine::prime_subgroup_generator();
    let h = G2Affine::prime_subgroup_generator();
    let u = Fr::from(21u64);
    let p0 = g.mul(u);

    // The second ic entry comes from a z = "0" artifact encoding; its
    // other coordinates are ignored.
    let vk = Vk {
        alpha_g1: lift_g1(&g.into_projective()),
        beta_g2: lift_g2(&h.into_projective()),
        gamma_g2: lift_g2(&h.into_projective()),
        delta_g2: lift_g2(&h.into_projective()),
        ic: vec![
            lift_g1(&p0),
            import_g1("123", "456", "0").expect("infinity import succeeds"),
        ],
    };
    let pvk = vk.prepare();
    let inputs = vec![lift_fr(&Fr::from(997u64))];
    let agg = aggregate_inputs(&pvk, &inputs).expect("count matches");
    assert!(g1_points_equal(&agg, &lift_g1(&p0)));
}

#[test]
fn aggregation_order_is_irrelevant() {
    let g = G1Affine::prime_subgroup_generator();
    let h = G2Affine::prime_subgroup_generator();
    let u = Fr::from(4u64);
    let v1 = Fr::from(6u64);
    let v2 = Fr::from(8u64);
    let s1 = Fr::from(10u64);
    let s2 = Fr::from(12u64);

    let vk = Vk {
        alpha_g1: lift_g1(&g.into_projective()),
        beta_g2: lift_g2(&h.into_projective()),
        gamma_g2: lift_g2(&h.into_projective()),
        delta_g2: lift_g2(&h.into_projective()),
        ic: vec![lift_g1(&g.mul(u)), lift_g1(&g.mul(v1)), lift_g1(&g.mul(v2))],
    };
    let pvk = vk.prepare();
    let inputs = vec![lift_fr(&s1), lift_fr(&s2)];
    let agg = aggregate_inputs(&pvk, &inputs).expect("count matches");

    // Right-to-left association, computed directly with arkworks.
    let t1 = g.mul(v1 * s1);
    let t2 = g.mul(v2 * s2);
    let rl = g.mul(u) + (t1 + t2);
    assert!(g1_points_equal(&agg, &lift_g1(&rl)));
}

#[test]
fn importer_rejects_malformed_points() {
    // Not on the curve.
    assert!(import_g1("1", "3", "1").is_none());
    // Not a decimal string.
    assert!(import_g1("abc", "2", "1").is_none());
    // Unnecessary leading zero.
    assert!(import_g1("01", "2", "1").is_none());
    // The generator imports.
    assert!(import_g1("1", "2", "1").is_some());
    // Scalars.
    assert!(import_fr("").is_none());
    assert!(import_fr("0").is_some());
    assert!(import_fr("12x").is_none());
    // G2: component not on curve.
    assert!(import_g2("1", "0", "2", "0", "1", "0").is_none());
    // G2 infinity sentinel: the other coordinates are ignored.
    assert!(import_g2("9", "9", "9", "9", "0", "0").is_some());
}

#[test]
fn baked_in_artifacts_import() {
    let vk = vk_proof::verification_key().expect("sample key imports");
    assert_eq!(vk.ic.len(), 2);
    let (_proof, inputs) = vk_proof::sample_proof().expect("sample proof imports");
    assert_eq!(inputs.len(), 1);
}

#[test]
fn baked_in_proof_count_mismatch() {
    let vk = vk_proof::verification_key().expect("sample key imports");
    let (proof, _inputs) = vk_proof::sample_proof().expect("sample proof imports");
    let none: Vec<Scalar> = vec![];
    assert_eq!(
        verify_proof(&vk, &proof, &none),
        Err(Groth16Error::PublicInputCountMismatch)
    );
}

#[test]
fn baked_in_proof_outcome_is_definitive() {
    let vk = vk_proof::verification_key().expect("sample key imports");
    let (proof, inputs) = vk_proof::sample_proof().expect("sample proof imports");
    assert_eq!(verify_proof(&vk, &proof, &inputs), Ok(()));
}
