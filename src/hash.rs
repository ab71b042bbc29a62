//! The CKB default hash: 32-byte BLAKE2b personalized with `ckb-default-hash`.
use vstd::prelude::*;
use blake2b_ref::Blake2bBuilder;

verus! {

/// Length in bytes of a CKB hash.
pub const HASH_LEN: usize = 32;

/// The bytes of the personalization string `ckb-default-hash`.
pub open spec fn ckb_personalization() -> Seq<u8> {
    seq![99u8, 107, 98, 45, 100, 101, 102, 97, 117, 108, 116, 45, 104, 97, 115, 104]
}

/// What BLAKE2b with the given output length and personalization yields on `data`.
pub uninterp spec fn blake2b_of(out_len: nat, personal: Seq<u8>, data: Seq<u8>) -> Seq<u8>;

/// The CKB default hash of `data`.
pub open spec fn ckb_hash_of(data: Seq<u8>) -> Seq<u8> {
    blake2b_of(HASH_LEN as nat, ckb_personalization(), data)
}

/// Relies on blake2b_ref's `Blake2bBuilder` / `Blake2b`: a hasher built with output
/// length `out_len` and personalization `personal`, fed `data` once and finalized
/// into a buffer of `out_len` bytes. The digest depends on the three inputs alone.
/// `Blake2bBuilder::new` asserts `1 <= out_len <= 64`, `personal` asserts a length
/// of at most 16.
#[verifier::external_body]
fn blake2b(out_len: usize, personal: &[u8], data: &[u8]) -> (r: Vec<u8>)
    requires
        1 <= out_len <= 64,
        personal@.len() <= 16,
    ensures
        r@ == blake2b_of(out_len as nat, personal@, data@),
        r@.len() == out_len,
{
    let mut hasher = Blake2bBuilder::new(out_len).personal(personal).build();
    hasher.update(data);
    let mut out = std::vec![0u8; out_len];
    hasher.finalize(&mut out);
    out
}

/// The personalization string `ckb-default-hash` as bytes.
pub fn ckb_personalization_bytes() -> (r: Vec<u8>)
    ensures
        r@ == ckb_personalization(),
{
    let r: Vec<u8> = vec![99u8, 107, 98, 45, 100, 101, 102, 97, 117, 108, 116, 45, 104, 97, 115, 104];
    assert(r@ =~= ckb_personalization());
    r
}

/// Hashes `data` with the CKB default hash.
pub fn ckb_hash(data: &[u8]) -> (r: Vec<u8>)
    ensures
        r@ == ckb_hash_of(data@),
        r@.len() == HASH_LEN,
{
    let personal = ckb_personalization_bytes();
    blake2b(HASH_LEN, personal.as_slice(), data)
}

} // verus!
