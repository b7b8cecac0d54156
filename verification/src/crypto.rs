//! Ethereum-style hashing utilities: hex rendering, the Keccak256 digest
//! (behind a trusted wrapper) and EIP-712 typed-data hashing.

use sha3::{Digest, Keccak256};
use vstd::prelude::*;
use vstd::slice::slice_subrange;
use vstd::string::StringSliceAdditionalSpecFns;

verus! {

/// The Keccak256 digest (the Ethereum variant of SHA-3) of a byte
/// sequence: a function of the input bytes alone, 32 bytes long.
pub uninterp spec fn keccak_of(data: Seq<u8>) -> Seq<u8>;

/// Relies on sha3's `Keccak256`: the digest is a deterministic function
/// of the input bytes, and `finalize` yields exactly 32 bytes.
#[verifier::external_body]
pub fn keccak256(data: &[u8]) -> (r: [u8; 32])
    ensures
        r@ == keccak_of(data@),
{
    let mut hasher = Keccak256::new();
    hasher.update(data);
    let hash = hasher.finalize();
    let mut result = [0u8; 32];
    result.copy_from_slice(&hash);
    result
}

/// Relies on `core::str::from_utf8`: bytes below 128 are ASCII, hence
/// valid UTF-8, and decode to the characters with the same code points.
#[verifier::external_body]
fn ascii_str(v: &[u8]) -> (r: Option<&str>)
    ensures
        (forall|i: int| 0 <= i < v@.len() ==> v@[i] < 128) ==> r is Some && r->Some_0@
            == Seq::new(v@.len(), |i: int| v@[i] as char),
{
    core::str::from_utf8(v).ok()
}

/// The upper-case hex digit (as an ASCII byte) of a value below 16.
pub open spec fn hex_digit(n: u8) -> u8
    recommends
        n < 16,
{
    if n < 10 {
        (n + 48) as u8
    } else {
        (n + 55) as u8
    }
}

/// The ASCII byte of index `i` of the hex rendering of `data`: the high
/// nibble of each byte first.
pub open spec fn hex_byte_at(data: Seq<u8>, i: int) -> u8
    recommends
        0 <= i < 2 * data.len(),
{
    if i % 2 == 0 {
        hex_digit(data[i / 2] / 16)
    } else {
        hex_digit(data[i / 2] % 16)
    }
}

/// The upper-case hex rendering of a byte sequence, two characters per
/// byte.
pub open spec fn hex_str_of(data: Seq<u8>) -> Seq<char> {
    Seq::new(2 * data.len(), |i: int| hex_byte_at(data, i) as char)
}

fn hex_digit_exec(n: u8) -> (r: u8)
    requires
        n < 16,
    ensures
        r == hex_digit(n),
        r < 128,
{
    if n < 10 {
        n + 48
    } else {
        n + 55
    }
}

/// Render `bytes` as upper-case hex into the front of `buffer` and return
/// that prefix as a string slice; the rest of the buffer is untouched.
pub fn bytes_to_hex_string<'a>(bytes: &[u8], buffer: &'a mut [u8]) -> (r: &'a str)
    requires
        old(buffer)@.len() >= 2 * bytes@.len(),
    ensures
        r@ == hex_str_of(bytes@),
        final(buffer)@.len() == old(buffer)@.len(),
        forall|i: int| 0 <= i < 2 * bytes@.len() ==> final(buffer)@[i] == hex_byte_at(bytes@, i),
        forall|i: int|
            2 * bytes@.len() <= i < old(buffer)@.len() ==> final(buffer)@[i] == old(buffer)@[i],
{
    let n = bytes.len();
    let buf_len = buffer.len();
    let mut i: usize = 0;
    while i < n
        invariant
            i <= n,
            n == bytes@.len(),
            buf_len == buffer@.len(),
            buffer@.len() == old(buffer)@.len(),
            buffer@.len() >= 2 * n,
            forall|j: int| 0 <= j < 2 * i ==> buffer@[j] == hex_byte_at(bytes@, j),
            forall|j: int| 2 * i <= j < buffer@.len() ==> buffer@[j] == old(buffer)@[j],
        decreases n - i,
    {
        let byte = bytes[i];
        let hi = byte >> 4;
        let lo = byte & 0x0f;
        proof {
            assert(byte >> 4 == byte / 16 && (byte & 0x0f) == byte % 16 && byte / 16 < 16
                && byte % 16 < 16) by (bit_vector);
        }
        buffer[2 * i] = hex_digit_exec(hi);
        buffer[2 * i + 1] = hex_digit_exec(lo);
        i = i + 1;
    }
    let prefix = slice_subrange(buffer, 0, 2 * n);
    assert forall|j: int| 0 <= j < prefix@.len() implies prefix@[j] < 128 by {
        assert(prefix@[j] == buffer@[j]);
        assert(buffer@[j] == hex_byte_at(bytes@, j));
        assert(bytes@[j / 2] / 16 < 16 && bytes@[j / 2] % 16 < 16);
    }
    match ascii_str(prefix) {
        Some(s) => {
            assert forall|j: int| 0 <= j < s@.len() implies s@[j] == hex_str_of(bytes@)[j] by {
                assert(prefix@[j] == hex_byte_at(bytes@, j));
            }
            assert(s@ =~= hex_str_of(bytes@));
            s
        },
        None => vstd::pervasive::unreached(),
    }
}

/// The sequence of `n` zero bytes.
pub open spec fn zero_bytes(n: int) -> Seq<u8> {
    Seq::new(n as nat, |i: int| 0u8)
}

/// The big-endian bytes of a 64-bit value.
pub open spec fn u64_be_bytes(v: u64) -> Seq<u8> {
    seq![
        ((v >> 56) & 0xff) as u8,
        ((v >> 48) & 0xff) as u8,
        ((v >> 40) & 0xff) as u8,
        ((v >> 32) & 0xff) as u8,
        ((v >> 24) & 0xff) as u8,
        ((v >> 16) & 0xff) as u8,
        ((v >> 8) & 0xff) as u8,
        (v & 0xff) as u8,
    ]
}

fn push_hash(out: &mut Vec<u8>, h: &[u8; 32])
    ensures
        final(out)@ == old(out)@ + h@,
{
    let mut k: usize = 0;
    while k < 32
        invariant
            k <= 32,
            out@ == old(out)@ + h@.take(k as int),
        decreases 32 - k,
    {
        out.push(h[k]);
        assert(old(out)@ + h@.take(k as int) + seq![h@[k as int]] =~= old(out)@ + h@.take(
            k as int + 1,
        ));
        k = k + 1;
    }
    assert(h@.take(32) =~= h@);
}

fn push_address(out: &mut Vec<u8>, a: &[u8; 20])
    ensures
        final(out)@ == old(out)@ + a@,
{
    let mut k: usize = 0;
    while k < 20
        invariant
            k <= 20,
            out@ == old(out)@ + a@.take(k as int),
        decreases 20 - k,
    {
        out.push(a[k]);
        assert(old(out)@ + a@.take(k as int) + seq![a@[k as int]] =~= old(out)@ + a@.take(
            k as int + 1,
        ));
        k = k + 1;
    }
    assert(a@.take(20) =~= a@);
}

fn push_zeros(out: &mut Vec<u8>, n: usize)
    ensures
        final(out)@ == old(out)@ + zero_bytes(n as int),
{
    let mut k: usize = 0;
    while k < n
        invariant
            k <= n,
            out@ == old(out)@ + zero_bytes(k as int),
        decreases n - k,
    {
        out.push(0u8);
        assert(old(out)@ + zero_bytes(k as int) + seq![0u8] =~= old(out)@ + zero_bytes(
            k as int + 1,
        ));
        k = k + 1;
    }
}

fn push_u64_be(out: &mut Vec<u8>, v: u64)
    ensures
        final(out)@ == old(out)@ + u64_be_bytes(v),
{
    out.push(((v >> 56) & 0xff) as u8);
    out.push(((v >> 48) & 0xff) as u8);
    out.push(((v >> 40) & 0xff) as u8);
    out.push(((v >> 32) & 0xff) as u8);
    out.push(((v >> 24) & 0xff) as u8);
    out.push(((v >> 16) & 0xff) as u8);
    out.push(((v >> 8) & 0xff) as u8);
    out.push((v & 0xff) as u8);
    assert(out@ =~= old(out)@ + u64_be_bytes(v));
}

/// An EIP-712 domain: the context a typed-data signature is bound to.
pub struct Eip712Domain {
    pub name: &'static str,
    pub version: &'static str,
    pub chain_id: u64,
    pub verifying_contract: [u8; 20],
}

/// The 160-byte encoding hashed into an EIP-712 domain separator: the
/// type hash, the hashes of name and version, then the chain id and the
/// verifying contract address, each left-padded to 32 bytes.
pub open spec fn domain_separator_encoding(d: Eip712Domain) -> Seq<u8> {
    keccak_of(
        "EIP712Domain(string name,string version,uint256 chainId,address verifyingContract)".spec_bytes(),
    ) + keccak_of(d.name.spec_bytes()) + keccak_of(d.version.spec_bytes()) + zero_bytes(24)
        + u64_be_bytes(d.chain_id) + zero_bytes(12) + d.verifying_contract@
}

impl Eip712Domain {
    /// Create a new EIP-712 domain.
    pub fn new(
        name: &'static str,
        version: &'static str,
        chain_id: u64,
        verifying_contract: [u8; 20],
    ) -> (r: Eip712Domain)
        ensures
            r.name@ == name@,
            r.version@ == version@,
            r.chain_id == chain_id,
            r.verifying_contract@ == verifying_contract@,
    {
        Eip712Domain { name, version, chain_id, verifying_contract }
    }

    /// The domain separator: the Keccak256 digest of the domain's
    /// EIP-712 struct encoding.
    pub fn hash_struct(&self) -> (r: [u8; 32])
        ensures
            r@ == keccak_of(domain_separator_encoding(*self)),
    {
        let type_hash = keccak256(
            "EIP712Domain(string name,string version,uint256 chainId,address verifyingContract)".as_bytes(),
        );
        let name_hash = keccak256(self.name.as_bytes());
        let version_hash = keccak256(self.version.as_bytes());

        let mut encoded: Vec<u8> = Vec::new();
        push_hash(&mut encoded, &type_hash);
        push_hash(&mut encoded, &name_hash);
        push_hash(&mut encoded, &version_hash);
        push_zeros(&mut encoded, 24);
        push_u64_be(&mut encoded, self.chain_id);
        push_zeros(&mut encoded, 12);
        push_address(&mut encoded, &self.verifying_contract);
        assert(encoded@ =~= domain_separator_encoding(*self));

        keccak256(encoded.as_slice())
    }
}

/// A multisig transaction, the sample EIP-712 struct of this library.
pub struct MultisigTransaction {
    pub to: [u8; 20],
    pub value: u64,
    pub data: &'static [u8],
    pub nonce: u64,
}

/// The 160-byte encoding hashed into a multisig transaction's struct
/// hash: the type hash, the destination address, the value, the hash of
/// the call data and the nonce, each left-padded to 32 bytes.
pub open spec fn multisig_encoding(t: MultisigTransaction) -> Seq<u8> {
    keccak_of(
        "MultisigTransaction(address to,uint256 value,bytes data,uint256 nonce)".spec_bytes(),
    ) + zero_bytes(12) + t.to@ + zero_bytes(24) + u64_be_bytes(t.value) + keccak_of(t.data@)
        + zero_bytes(24) + u64_be_bytes(t.nonce)
}

impl MultisigTransaction {
    /// Create a new multisig transaction.
    pub fn new(to: [u8; 20], value: u64, data: &'static [u8], nonce: u64) -> (r:
        MultisigTransaction)
        ensures
            r.to@ == to@,
            r.value == value,
            r.data@ == data@,
            r.nonce == nonce,
    {
        MultisigTransaction { to, value, data, nonce }
    }

    /// The struct hash of this transaction.
    pub fn hash_struct(&self) -> (r: [u8; 32])
        ensures
            r@ == keccak_of(multisig_encoding(*self)),
    {
        let type_hash = keccak256(
            "MultisigTransaction(address to,uint256 value,bytes data,uint256 nonce)".as_bytes(),
        );
        let data_hash = keccak256(self.data);

        let mut encoded: Vec<u8> = Vec::new();
        push_hash(&mut encoded, &type_hash);
        push_zeros(&mut encoded, 12);
        push_address(&mut encoded, &self.to);
        push_zeros(&mut encoded, 24);
        push_u64_be(&mut encoded, self.value);
        push_hash(&mut encoded, &data_hash);
        push_zeros(&mut encoded, 24);
        push_u64_be(&mut encoded, self.nonce);
        assert(encoded@ =~= multisig_encoding(*self));

        keccak256(encoded.as_slice())
    }
}

/// The 66-byte EIP-712 message: the two-byte prefix `0x19 0x01`, the
/// domain separator and the struct hash.
pub open spec fn eip712_message(d: Eip712Domain, struct_hash: Seq<u8>) -> Seq<u8> {
    seq![0x19u8, 0x01u8] + keccak_of(domain_separator_encoding(d)) + struct_hash
}

/// The EIP-712 typed-data hash: the Keccak256 digest of the prefixed
/// message combining the domain separator with the struct hash.
pub fn eip712_hash(domain: &Eip712Domain, struct_hash: &[u8; 32]) -> (r: [u8; 32])
    ensures
        r@ == keccak_of(eip712_message(*domain, struct_hash@)),
{
    let domain_separator = domain.hash_struct();

    let mut message: Vec<u8> = Vec::new();
    message.push(0x19u8);
    message.push(0x01u8);
    push_hash(&mut message, &domain_separator);
    push_hash(&mut message, struct_hash);
    assert(message@ =~= eip712_message(*domain, struct_hash@));

    keccak256(message.as_slice())
}

} // verus!
