//! Integrity digest of the raw source stream.
//!
//! The digest is computed incrementally over exactly the bytes read from the
//! source, in order, before any transform is applied. The hash itself comes
//! from the sha2 crate; its result is given a name (`sha256_of`) that the
//! rest of the library's contracts speak of.

use vstd::prelude::*;

verus! {

/// The SHA-256 digest (32 bytes) of a byte sequence, as the sha2 crate computes it.
pub uninterp spec fn sha256_of(data: Seq<u8>) -> Seq<u8>;

/// Incremental SHA-256 state; holds the hasher of the sha2 crate.
#[verifier::external_body]
pub struct Sha256State {
    inner: sha2::Sha256,
}

/// The bytes absorbed by the hasher so far, in order.
pub uninterp spec fn fed_bytes(h: Sha256State) -> Seq<u8>;

/// Relies on sha2::Sha256::new: a fresh hasher has absorbed nothing.
#[verifier::external_body]
pub fn sha256_new() -> (h: Sha256State)
    ensures
        fed_bytes(h) == Seq::<u8>::empty(),
{
    Sha256State { inner: <sha2::Sha256 as sha2::Digest>::new() }
}

/// Relies on sha2::Sha256::update: absorbs the chunk after everything fed before.
#[verifier::external_body]
pub fn sha256_update(h: &mut Sha256State, chunk: &[u8])
    ensures
        fed_bytes(*final(h)) == fed_bytes(*old(h)) + chunk@,
{
    sha2::Digest::update(&mut h.inner, chunk);
}

/// Relies on sha2::Sha256::finalize: 32 bytes, determined by the absorbed input alone.
#[verifier::external_body]
pub fn sha256_finalize(h: Sha256State) -> (r: Vec<u8>)
    ensures
        r@ == sha256_of(fed_bytes(h)),
        r@.len() == 32,
{
    sha2::Digest::finalize(h.inner).to_vec()
}

/// Lowercase hexadecimal digit for a value below 16.
pub open spec fn hex_digit(v: int) -> char {
    if v == 0 {
        '0'
    } else if v == 1 {
        '1'
    } else if v == 2 {
        '2'
    } else if v == 3 {
        '3'
    } else if v == 4 {
        '4'
    } else if v == 5 {
        '5'
    } else if v == 6 {
        '6'
    } else if v == 7 {
        '7'
    } else if v == 8 {
        '8'
    } else if v == 9 {
        '9'
    } else if v == 10 {
        'a'
    } else if v == 11 {
        'b'
    } else if v == 12 {
        'c'
    } else if v == 13 {
        'd'
    } else if v == 14 {
        'e'
    } else {
        'f'
    }
}

/// Hex encoding of a byte sequence: two lowercase digits per byte, high nibble first.
pub open spec fn hex_of(data: Seq<u8>) -> Seq<char>
    decreases data.len(),
{
    if data.len() == 0 {
        Seq::<char>::empty()
    } else {
        seq![hex_digit(data[0] as int / 16), hex_digit(data[0] as int % 16)] + hex_of(
            data.skip(1),
        )
    }
}

/// A hex encoding is exactly two digits per byte.
pub proof fn lemma_hex_of_len(data: Seq<u8>)
    ensures
        hex_of(data).len() == 2 * data.len(),
    decreases data.len(),
{
    if data.len() == 0 {
    } else {
        lemma_hex_of_len(data.skip(1));
    }
}

/// Relies on hex::encode: two lowercase digits per byte, high nibble first.
#[verifier::external_body]
pub fn hex_encode(data: &[u8]) -> (r: String)
    ensures
        r@ == hex_of(data@),
{
    hex::encode(data)
}

/// One-pass digest of a byte slice, rendered as lowercase hex: always 64
/// characters, two per digest byte.
pub fn sha256_hex(data: &[u8]) -> (r: String)
    ensures
        r@ == hex_of(sha256_of(data@)),
        r@.len() == 64,
{
    let mut h = sha256_new();
    sha256_update(&mut h, data);
    let raw = sha256_finalize(h);
    proof {
        assert(Seq::<u8>::empty() + data@ =~= data@);
        lemma_hex_of_len(raw@);
    }
    hex_encode(raw.as_slice())
}

} // verus!
