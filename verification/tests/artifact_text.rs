//! The converter's rendering of artifact points as Rust source text.

use groth16_core::artifact::{fr_to_rust, g1_to_rust, g2_to_rust};

#[test]
fn g1_finite_point_text() {
    let p = vec!["1".to_string(), "2".to_string(), "1".to_string()];
    let expected = format!(
        "G1Affine::new(\n      Fq::from_str(\"{}\").unwrap(),\n      Fq::from_str(\"{}\").unwrap(),\n      false\n    ).into()",
        "1", "2"
    );
    assert_eq!(g1_to_rust(&p), expected);
}

#[test]
fn g1_point_without_sentinel_is_finite() {
    let p = vec!["7".to_string(), "8".to_string()];
    let expected = format!(
        "G1Affine::new(\n      Fq::from_str(\"{}\").unwrap(),\n      Fq::from_str(\"{}\").unwrap(),\n      false\n    ).into()",
        "7", "8"
    );
    assert_eq!(g1_to_rust(&p), expected);
}

#[test]
fn g1_infinity_text() {
    let p = vec!["9".to_string(), "9".to_string(), "0".to_string()];
    assert_eq!(g1_to_rust(&p), "G1Projective::zero()");
}

#[test]
fn g2_finite_point_text() {
    let p = vec![
        vec!["1".to_string(), "2".to_string()],
        vec!["3".to_string(), "4".to_string()],
        vec!["1".to_string(), "0".to_string()],
    ];
    let expected = format!(
        "G2Affine::new(\n      Fq2::new(\n        Fq::from_str(\"{}\").unwrap(),\n        Fq::from_str(\"{}\").unwrap()\n      ),\n      Fq2::new(\n        Fq::from_str(\"{}\").unwrap(),\n        Fq::from_str(\"{}\").unwrap()\n      ),\n      false\n    ).into()",
        "1", "2", "3", "4"
    );
    assert_eq!(g2_to_rust(&p), expected);
}

#[test]
fn g2_infinity_text() {
    let p = vec![
        vec!["1".to_string(), "2".to_string()],
        vec!["3".to_string(), "4".to_string()],
        vec!["0".to_string(), "0".to_string()],
    ];
    assert_eq!(g2_to_rust(&p), "G2Projective::zero()");
}

#[test]
fn g2_half_zero_sentinel_is_finite() {
    let p = vec![
        vec!["1".to_string(), "2".to_string()],
        vec!["3".to_string(), "4".to_string()],
        vec!["0".to_string(), "1".to_string()],
    ];
    assert!(g2_to_rust(&p).starts_with("G2Affine::new("));
}

#[test]
fn fr_text() {
    assert_eq!(fr_to_rust("33"), "Fr::from_str(\"33\").unwrap()");
}
