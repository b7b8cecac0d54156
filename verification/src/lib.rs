//! Groth16 proof verification over the BN254 pairing-friendly curve.
//!
//! The crate is organised around one data flow: imported key material is
//! turned into a [`groth16::Vk`], prepared once into a
//! [`groth16::PreparedVk`], and then used to check proofs against public
//! inputs.  The elliptic-curve arithmetic itself (group operations and the
//! bilinear pairing) is performed by the arkworks crates and is taken on
//! trust through the narrow interface in [`curve`].

pub mod artifact;
pub mod crypto;
pub mod curve;
pub mod groth16;
pub mod vk_proof;
