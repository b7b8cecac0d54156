//! Hashing utilities, cross-checked against the sha3 crate directly and
//! against published Keccak256 test vectors.

use groth16_core::crypto::{bytes_to_hex_string, eip712_hash, keccak256, Eip712Domain, MultisigTransaction};
use sha3::{Digest, Keccak256};

fn keccak_direct(data: &[u8]) -> [u8; 32] {
    let mut hasher = Keccak256::new();
    hasher.update(data);
    let mut out = [0u8; 32];
    out.copy_from_slice(&hasher.finalize());
    out
}

#[test]
fn hex_rendering() {
    let mut buffer = [0u8; 16];
    assert_eq!(bytes_to_hex_string(&[0xBE, 0xEF], &mut buffer), "BEEF");
    assert_eq!(bytes_to_hex_string(&[0x00, 0x0A, 0x7F], &mut buffer), "000A7F");
    assert_eq!(bytes_to_hex_string(&[], &mut buffer), "");
}

#[test]
fn hex_rendering_leaves_buffer_tail_untouched() {
    let mut buffer = [0xFFu8; 8];
    let s = bytes_to_hex_string(&[0x12], &mut buffer);
    assert_eq!(s, "12");
    assert_eq!(&buffer[2..], &[0xFF; 6]);
    assert_eq!(&buffer[..2], b"12");
}

#[test]
fn keccak_known_answers() {
    // The well-known Keccak256 digests of the empty string and of "abc".
    let mut buffer = [0u8; 64];
    let empty = keccak256(b"");
    assert_eq!(
        bytes_to_hex_string(&empty, &mut buffer),
        "C5D2460186F7233C927E7DB2DCC703C0E500B653CA82273B7BFAD8045D85A470"
    );
    let abc = keccak256(b"abc");
    assert_eq!(
        bytes_to_hex_string(&abc, &mut buffer),
        "4E03657AEA45A94FC7D47BA826C8D667C0D1E6E33A64A036EC44F58FA12D6C45"
    );
}

#[test]
fn domain_separator_matches_manual_encoding() {
    let contract = [0x11u8; 20];
    let domain = Eip712Domain::new("MultisigWallet", "1", 1, contract);
    let got = domain.hash_struct();

    let type_hash = keccak_direct(
        b"EIP712Domain(string name,string version,uint256 chainId,address verifyingContract)",
    );
    let name_hash = keccak_direct(b"MultisigWallet");
    let version_hash = keccak_direct(b"1");
    let mut encoded = [0u8; 160];
    encoded[0..32].copy_from_slice(&type_hash);
    encoded[32..64].copy_from_slice(&name_hash);
    encoded[64..96].copy_from_slice(&version_hash);
    encoded[120..128].copy_from_slice(&1u64.to_be_bytes());
    encoded[140..160].copy_from_slice(&contract);
    assert_eq!(got, keccak_direct(&encoded));
}

#[test]
fn multisig_struct_hash_matches_manual_encoding() {
    let to = [0x22u8; 20];
    let data: &'static [u8] = b"call-data";
    let tx = MultisigTransaction::new(to, 1000, data, 7);
    let got = tx.hash_struct();

    let type_hash =
        keccak_direct(b"MultisigTransaction(address to,uint256 value,bytes data,uint256 nonce)");
    let data_hash = keccak_direct(data);
    let mut encoded = [0u8; 160];
    encoded[0..32].copy_from_slice(&type_hash);
    encoded[44..64].copy_from_slice(&to);
    encoded[88..96].copy_from_slice(&1000u64.to_be_bytes());
    encoded[96..128].copy_from_slice(&data_hash);
    encoded[152..160].copy_from_slice(&7u64.to_be_bytes());
    assert_eq!(got, keccak_direct(&encoded));
}

#[test]
fn eip712_hash_matches_manual_composition() {
    let domain = Eip712Domain::new("MultisigWallet", "1", 1, [0x33u8; 20]);
    let tx = MultisigTransaction::new([0x44u8; 20], 5, b"", 0);
    let struct_hash = tx.hash_struct();
    let got = eip712_hash(&domain, &struct_hash);

    let mut message = [0u8; 66];
    message[0] = 0x19;
    message[1] = 0x01;
    message[2..34].copy_from_slice(&domain.hash_struct());
    message[34..66].copy_from_slice(&struct_hash);
    assert_eq!(got, keccak_direct(&message));
}
