//! The sighash message: the 32-byte digest that a recoverable signature covers.
//!
//! The hash is fed the transaction hash; then the first witness of the input group,
//! with its `lock` contents zeroed, encoded and prefixed by its length as a
//! little-endian `u64`; then each further witness of the group, raw, prefixed in
//! the same way.
use vstd::prelude::*;
use crate::hash::{ckb_hash, ckb_hash_of, HASH_LEN};
use crate::witness::{
    encodable, encoded_len, field_bytes, le_bytes, lemma_le_bytes_len, masked, push_bytes, push_le,
    witness_bytes, WitnessArgs, WitnessArgsModel,
};

verus! {

/// A witness prefixed by its length as a little-endian `u64`.
pub open spec fn length_prefixed(b: Seq<u8>) -> Seq<u8> {
    le_bytes(b.len(), 8) + b
}

/// The length-prefixed witnesses of `rest`, in order.
pub open spec fn rest_bytes(rest: Seq<Seq<u8>>) -> Seq<u8>
    decreases rest.len(),
{
    if rest.len() == 0 {
        Seq::empty()
    } else {
        rest_bytes(rest.drop_last()) + length_prefixed(rest.last())
    }
}

/// Everything the sighash message is the hash of.
pub open spec fn sighash_preimage(
    tx_hash: Seq<u8>,
    first: WitnessArgsModel,
    rest: Seq<Seq<u8>>,
) -> Seq<u8> {
    tx_hash + length_prefixed(witness_bytes(masked(first))) + rest_bytes(rest)
}

/// The sighash message.
pub open spec fn sighash_message(
    tx_hash: Seq<u8>,
    first: WitnessArgsModel,
    rest: Seq<Seq<u8>>,
) -> Seq<u8> {
    ckb_hash_of(sighash_preimage(tx_hash, first, rest))
}

/// The byte sequences held by a list of witnesses.
pub open spec fn witnesses_view(rest: Seq<Vec<u8>>) -> Seq<Seq<u8>> {
    rest.map_values(|w: Vec<u8>| w@)
}

/// Masking leaves the encoded length unchanged.
pub proof fn lemma_masked_len(w: WitnessArgsModel)
    ensures
        encoded_len(masked(w)) == encoded_len(w),
{
}

/// The message is a function of its inputs: equal transaction hashes and
/// witnesses give equal messages.
pub proof fn lemma_message_deterministic(
    tx1: Seq<u8>,
    first1: WitnessArgsModel,
    rest1: Seq<Seq<u8>>,
    tx2: Seq<u8>,
    first2: WitnessArgsModel,
    rest2: Seq<Seq<u8>>,
)
    requires
        tx1 == tx2,
        first1 == first2,
        rest1 == rest2,
    ensures
        sighash_message(tx1, first1, rest1) == sighash_message(tx2, first2, rest2),
{
}

/// The contents of the first witness's `lock` are not covered: witnesses that
/// differ only there, with `lock` of the same length, give the same message.
pub proof fn lemma_message_ignores_lock_contents(
    tx: Seq<u8>,
    first1: WitnessArgsModel,
    first2: WitnessArgsModel,
    rest: Seq<Seq<u8>>,
)
    requires
        first1.lock is Some,
        first2.lock is Some,
        first1.lock->0.len() == first2.lock->0.len(),
        first1.input_type == first2.input_type,
        first1.output_type == first2.output_type,
    ensures
        sighash_message(tx, first1, rest) == sighash_message(tx, first2, rest),
{
    assert(masked(first1) =~= masked(first2));
}

/// Two lists of witnesses of the same number and lengths.
pub open spec fn same_shape(r1: Seq<Seq<u8>>, r2: Seq<Seq<u8>>) -> bool {
    r1.len() == r2.len() && forall|i: int| 0 <= i < r1.len() ==> #[trigger] r1[i].len() == r2[i].len()
}

proof fn lemma_prefix_distinct(a1: Seq<u8>, b1: Seq<u8>, a2: Seq<u8>, b2: Seq<u8>)
    requires
        a1.len() == a2.len(),
        a1 != a2 || b1 != b2,
    ensures
        a1 + b1 != a2 + b2,
{
    if a1 + b1 == a2 + b2 {
        assert(a1 =~= (a1 + b1).subrange(0, a1.len() as int));
        assert(a2 =~= (a2 + b2).subrange(0, a2.len() as int));
        assert(b1 =~= (a1 + b1).subrange(a1.len() as int, (a1 + b1).len() as int));
        assert(b2 =~= (a2 + b2).subrange(a2.len() as int, (a2 + b2).len() as int));
    }
}

proof fn lemma_rest_bytes_distinct(r1: Seq<Seq<u8>>, r2: Seq<Seq<u8>>)
    requires
        same_shape(r1, r2),
    ensures
        rest_bytes(r1).len() == rest_bytes(r2).len(),
        r1 != r2 ==> rest_bytes(r1) != rest_bytes(r2),
    decreases r1.len(),
{
    if r1.len() > 0 {
        let d1 = r1.drop_last();
        let d2 = r2.drop_last();
        assert(same_shape(d1, d2)) by {
            assert forall|i: int| 0 <= i < d1.len() implies #[trigger] d1[i].len() == d2[i].len() by {
                assert(r1[i].len() == r2[i].len());
            }
        }
        lemma_rest_bytes_distinct(d1, d2);
        assert(r1.last().len() == r2.last().len()) by {
            assert(r1[r1.len() - 1].len() == r2[r1.len() - 1].len());
        }
        lemma_le_bytes_len(r1.last().len(), 8);
        lemma_le_bytes_len(r2.last().len(), 8);
        if r1 != r2 {
            if d1 == d2 && r1.last() == r2.last() {
                assert(r1 =~= r2) by {
                    assert forall|i: int| 0 <= i < r1.len() implies r1[i] == r2[i] by {
                        if i < r1.len() - 1 {
                            assert(r1[i] == d1[i]);
                            assert(r2[i] == d2[i]);
                        }
                    }
                }
            }
            if d1 == d2 {
                lemma_prefix_distinct(
                    le_bytes(r1.last().len(), 8),
                    r1.last(),
                    le_bytes(r2.last().len(), 8),
                    r2.last(),
                );
            }
            lemma_prefix_distinct(
                rest_bytes(d1),
                length_prefixed(r1.last()),
                rest_bytes(d2),
                length_prefixed(r2.last()),
            );
        }
    } else {
        assert(r1 =~= r2);
    }
}

/// Changing the bytes of any further witness of the group, keeping the number
/// of witnesses and their lengths, changes what the message is the hash of.
pub proof fn lemma_preimage_covers_further_witnesses(
    tx: Seq<u8>,
    first: WitnessArgsModel,
    rest1: Seq<Seq<u8>>,
    rest2: Seq<Seq<u8>>,
)
    requires
        same_shape(rest1, rest2),
        rest1 != rest2,
    ensures
        sighash_preimage(tx, first, rest1) != sighash_preimage(tx, first, rest2),
{
    lemma_rest_bytes_distinct(rest1, rest2);
    let head = tx + length_prefixed(witness_bytes(masked(first)));
    lemma_prefix_distinct(head, rest_bytes(rest1), head, rest_bytes(rest2));
}

/// Two optional byte strings, both absent or both present with equal lengths.
pub open spec fn same_field_shape(f1: Option<Seq<u8>>, f2: Option<Seq<u8>>) -> bool {
    match (f1, f2) {
        (None, None) => true,
        (Some(a), Some(b)) => a.len() == b.len(),
        _ => false,
    }
}

proof fn lemma_field_bytes_distinct(f1: Option<Seq<u8>>, f2: Option<Seq<u8>>)
    requires
        same_field_shape(f1, f2),
    ensures
        field_bytes(f1).len() == field_bytes(f2).len(),
        f1 != f2 ==> field_bytes(f1) != field_bytes(f2),
{
    if let (Some(a), Some(b)) = (f1, f2) {
        lemma_le_bytes_len(a.len(), 4);
        lemma_le_bytes_len(b.len(), 4);
        if a != b {
            lemma_prefix_distinct(le_bytes(a.len(), 4), a, le_bytes(b.len(), 4), b);
        }
    }
}

/// Changing the bytes of the first witness's `input_type` or `output_type`,
/// keeping which fields are present and their lengths, changes what the message
/// is the hash of.
pub proof fn lemma_preimage_covers_first_witness(
    tx: Seq<u8>,
    first1: WitnessArgsModel,
    first2: WitnessArgsModel,
    rest: Seq<Seq<u8>>,
)
    requires
        same_field_shape(first1.lock, first2.lock),
        same_field_shape(first1.input_type, first2.input_type),
        same_field_shape(first1.output_type, first2.output_type),
        first1.input_type != first2.input_type || first1.output_type != first2.output_type,
    ensures
        sighash_preimage(tx, first1, rest) != sighash_preimage(tx, first2, rest),
{
    let m1 = masked(first1);
    let m2 = masked(first2);
    assert(m1.lock == m2.lock);
    lemma_field_bytes_distinct(m1.lock, m2.lock);
    lemma_field_bytes_distinct(m1.input_type, m2.input_type);
    lemma_field_bytes_distinct(m1.output_type, m2.output_type);
    let f0 = field_bytes(m1.lock);
    let h1 = le_bytes(encoded_len(m1), 4) + le_bytes(16, 4) + le_bytes(16 + f0.len(), 4) + le_bytes(
        16 + f0.len() + field_bytes(m1.input_type).len(),
        4,
    ) + f0;
    let h2 = le_bytes(encoded_len(m2), 4) + le_bytes(16, 4) + le_bytes(16 + f0.len(), 4) + le_bytes(
        16 + f0.len() + field_bytes(m2.input_type).len(),
        4,
    ) + f0;
    assert(h1 == h2);
    let g1 = field_bytes(m1.input_type);
    let g2 = field_bytes(m2.input_type);
    let k1 = field_bytes(m1.output_type);
    let k2 = field_bytes(m2.output_type);
    lemma_prefix_distinct(g1, k1, g2, k2);
    lemma_prefix_distinct(h1, g1 + k1, h2, g2 + k2);
    assert(witness_bytes(m1) =~= h1 + (g1 + k1));
    assert(witness_bytes(m2) =~= h2 + (g2 + k2));
    let w1 = witness_bytes(m1);
    let w2 = witness_bytes(m2);
    lemma_prefix_distinct(le_bytes(w1.len(), 8), w1, le_bytes(w2.len(), 8), w2);
    lemma_prefix_distinct(tx, length_prefixed(w1), tx, length_prefixed(w2));
    assert(sighash_preimage(tx, first1, rest) =~= (tx + length_prefixed(w1)) + rest_bytes(rest));
    assert(sighash_preimage(tx, first2, rest) =~= (tx + length_prefixed(w2)) + rest_bytes(rest));
    lemma_le_bytes_len(w1.len(), 8);
    lemma_le_bytes_len(w2.len(), 8);
    lemma_prefix_distinct(tx + length_prefixed(w1), rest_bytes(rest), tx + length_prefixed(w2), rest_bytes(rest));
}

/// Builds the bytes that the sighash message is the hash of.
pub fn build_sighash_preimage(tx_hash: &[u8], first: &WitnessArgs, rest: &Vec<Vec<u8>>) -> (r: Vec<u8>)
    requires
        encodable(first@),
    ensures
        r@ == sighash_preimage(tx_hash@, first@, witnesses_view(rest@)),
{
    let m = first.masked();
    proof {
        lemma_masked_len(first@);
    }
    let encoded = m.to_bytes();
    let mut out: Vec<u8> = Vec::new();
    push_bytes(&mut out, tx_hash);
    push_le(&mut out, encoded.len() as u64, 8);
    push_bytes(&mut out, encoded.as_slice());
    let ghost head = out@;
    assert(head =~= tx_hash@ + length_prefixed(witness_bytes(masked(first@))));
    let mut i: usize = 0;
    while i < rest.len()
        invariant
            i <= rest@.len(),
            out@ == head + rest_bytes(witnesses_view(rest@).subrange(0, i as int)),
        decreases rest@.len() - i,
    {
        let w = &rest[i];
        push_le(&mut out, w.len() as u64, 8);
        push_bytes(&mut out, w.as_slice());
        proof {
            let s = witnesses_view(rest@).subrange(0, i + 1);
            assert(s.drop_last() =~= witnesses_view(rest@).subrange(0, i as int));
            assert(s.last() == w@);
        }
        i = i + 1;
        assert(out@ =~= head + rest_bytes(witnesses_view(rest@).subrange(0, i as int)));
    }
    assert(witnesses_view(rest@).subrange(0, i as int) =~= witnesses_view(rest@));
    out
}

/// Computes the sighash message of an input group: `tx_hash` is the transaction
/// hash, `first` the group's first witness and `rest` its further witnesses.
pub fn build_sighash_message(tx_hash: &[u8], first: &WitnessArgs, rest: &Vec<Vec<u8>>) -> (r: Vec<u8>)
    requires
        encodable(first@),
    ensures
        r@ == sighash_message(tx_hash@, first@, witnesses_view(rest@)),
        r@.len() == HASH_LEN,
{
    let preimage = build_sighash_preimage(tx_hash, first, rest);
    ckb_hash(preimage.as_slice())
}

} // verus!
