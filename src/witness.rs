//! The `WitnessArgs` record and its molecule encoding.
//!
//! A `WitnessArgs` is a molecule table of three `BytesOpt` fields. Its encoding is
//! a header of four little-endian `u32` words (total size, then the offset of each
//! field), followed by the three fields. An absent field encodes as nothing; a
//! present one as its length (little-endian `u32`) followed by its bytes.
use vstd::prelude::*;

verus! {

/// Size in bytes of the table header: the total size and three offsets.
pub const HEADER_LEN: usize = 16;

/// The witness record carried by each input group.
pub struct WitnessArgs {
    pub lock: Option<Vec<u8>>,
    pub input_type: Option<Vec<u8>>,
    pub output_type: Option<Vec<u8>>,
}

/// The bytes of an optional field, as a mathematical value.
pub open spec fn opt_bytes(o: Option<Vec<u8>>) -> Option<Seq<u8>> {
    match o {
        Some(v) => Some(v@),
        None => None,
    }
}

/// The three fields of a witness as byte sequences.
pub struct WitnessArgsModel {
    pub lock: Option<Seq<u8>>,
    pub input_type: Option<Seq<u8>>,
    pub output_type: Option<Seq<u8>>,
}

impl View for WitnessArgs {
    type V = WitnessArgsModel;

    open spec fn view(&self) -> WitnessArgsModel {
        WitnessArgsModel {
            lock: opt_bytes(self.lock),
            input_type: opt_bytes(self.input_type),
            output_type: opt_bytes(self.output_type),
        }
    }
}

/// The `k` low-order bytes of `n`, least significant first.
pub open spec fn le_bytes(n: nat, k: nat) -> Seq<u8>
    decreases k,
{
    if k == 0 {
        Seq::empty()
    } else {
        seq![(n % 256) as u8] + le_bytes(n / 256, (k - 1) as nat)
    }
}

/// The encoding of one `BytesOpt` field.
pub open spec fn field_bytes(f: Option<Seq<u8>>) -> Seq<u8> {
    match f {
        Some(b) => le_bytes(b.len(), 4) + b,
        None => Seq::empty(),
    }
}

/// Length of the encoding of a witness.
pub open spec fn encoded_len(w: WitnessArgsModel) -> nat {
    HEADER_LEN as nat + field_bytes(w.lock).len() + field_bytes(w.input_type).len()
        + field_bytes(w.output_type).len()
}

/// Whether the encoding of `w` can be described by `u32` sizes and offsets.
pub open spec fn encodable(w: WitnessArgsModel) -> bool {
    encoded_len(w) <= u32::MAX
}

/// The molecule encoding of a witness.
pub open spec fn witness_bytes(w: WitnessArgsModel) -> Seq<u8> {
    let f0 = field_bytes(w.lock);
    let f1 = field_bytes(w.input_type);
    let f2 = field_bytes(w.output_type);
    le_bytes(encoded_len(w), 4) + le_bytes(HEADER_LEN as nat, 4) + le_bytes(
        HEADER_LEN as nat + f0.len(),
        4,
    ) + le_bytes(HEADER_LEN as nat + f0.len() + f1.len(), 4) + f0 + f1 + f2
}

/// The witness with the contents of `lock`, if present, replaced by as many zeros.
pub open spec fn masked(w: WitnessArgsModel) -> WitnessArgsModel {
    WitnessArgsModel {
        lock: match w.lock {
            Some(b) => Some(Seq::new(b.len(), |i: int| 0u8)),
            None => None,
        },
        input_type: w.input_type,
        output_type: w.output_type,
    }
}

/// `le_bytes(n, k)` has `k` bytes.
pub proof fn lemma_le_bytes_len(n: nat, k: nat)
    ensures
        le_bytes(n, k).len() == k,
    decreases k,
{
    if k > 0 {
        lemma_le_bytes_len(n / 256, (k - 1) as nat);
    }
}

/// Appends the `k` low-order bytes of `n` to `out`, least significant first.
pub fn push_le(out: &mut Vec<u8>, n: u64, k: usize)
    ensures
        final(out)@ == old(out)@ + le_bytes(n as nat, k as nat),
    decreases k,
{
    if k > 0 {
        let ghost before = out@;
        out.push((n % 256) as u8);
        push_le(out, n / 256, k - 1);
        assert(final(out)@ =~= before + le_bytes(n as nat, k as nat));
    } else {
        assert(out@ =~= old(out)@ + le_bytes(n as nat, k as nat));
    }
}

/// Appends the bytes of `b` to `out`.
pub fn push_bytes(out: &mut Vec<u8>, b: &[u8])
    ensures
        final(out)@ == old(out)@ + b@,
{
    let ghost start = out@;
    let mut i: usize = 0;
    while i < b.len()
        invariant
            i <= b@.len(),
            out@ == start + b@.subrange(0, i as int),
        decreases b@.len() - i,
    {
        out.push(b[i]);
        i = i + 1;
        assert(out@ =~= start + b@.subrange(0, i as int));
    }
    assert(b@.subrange(0, i as int) =~= b@);
}

/// Appends the encoding of one `BytesOpt` field to `out`.
fn push_field(out: &mut Vec<u8>, f: &Option<Vec<u8>>)
    requires
        match f {
            Some(b) => b@.len() <= u32::MAX,
            None => true,
        },
    ensures
        final(out)@ == old(out)@ + field_bytes(opt_bytes(*f)),
{
    match f {
        Some(b) => {
            push_le(out, b.len() as u64, 4);
            push_bytes(out, b.as_slice());
            assert(final(out)@ =~= old(out)@ + field_bytes(opt_bytes(*f)));
        },
        None => {
            assert(out@ =~= old(out)@ + field_bytes(opt_bytes(*f)));
        },
    }
}

/// Length of the encoding of one field, or `None` when it exceeds `u32::MAX`.
fn field_len(f: &Option<Vec<u8>>) -> (r: Option<u64>)
    ensures
        match r {
            Some(n) => n == field_bytes(opt_bytes(*f)).len() && n <= u32::MAX,
            None => field_bytes(opt_bytes(*f)).len() > u32::MAX,
        },
{
    match f {
        Some(b) => {
            proof {
                lemma_le_bytes_len(b@.len(), 4);
            }
            if b.len() as u64 <= u32::MAX as u64 - 4 {
                Some(b.len() as u64 + 4)
            } else {
                None
            }
        },
        None => Some(0),
    }
}

impl WitnessArgs {
    /// Length of the encoding, or `None` when it does not fit the `u32` header.
    pub fn encoded_len(&self) -> (r: Option<u64>)
        ensures
            match r {
                Some(n) => encodable(self@) && n == encoded_len(self@),
                None => !encodable(self@),
            },
    {
        match (field_len(&self.lock), field_len(&self.input_type), field_len(&self.output_type)) {
            (Some(a), Some(b), Some(c)) => {
                let total = HEADER_LEN as u64 + a + b + c;
                if total <= u32::MAX as u64 {
                    Some(total)
                } else {
                    None
                }
            },
            _ => None,
        }
    }

    /// The molecule encoding of this witness.
    pub fn to_bytes(&self) -> (r: Vec<u8>)
        requires
            encodable(self@),
        ensures
            r@ == witness_bytes(self@),
            r@.len() == encoded_len(self@),
    {
        let a = field_len(&self.lock).unwrap();
        let b = field_len(&self.input_type).unwrap();
        let c = field_len(&self.output_type).unwrap();
        let header = HEADER_LEN as u64;
        let mut out: Vec<u8> = Vec::new();
        push_le(&mut out, header + a + b + c, 4);
        push_le(&mut out, header, 4);
        push_le(&mut out, header + a, 4);
        push_le(&mut out, header + a + b, 4);
        push_field(&mut out, &self.lock);
        push_field(&mut out, &self.input_type);
        push_field(&mut out, &self.output_type);
        proof {
            lemma_le_bytes_len(encoded_len(self@), 4);
            lemma_le_bytes_len(HEADER_LEN as nat, 4);
            lemma_le_bytes_len(header as nat + a as nat, 4);
            lemma_le_bytes_len(header as nat + a as nat + b as nat, 4);
        }
        assert(out@ =~= witness_bytes(self@));
        out
    }

    /// This witness with the contents of `lock`, if present, replaced by as many zeros.
    pub fn masked(&self) -> (r: WitnessArgs)
        ensures
            r@ == masked(self@),
    {
        let lock = match &self.lock {
            Some(b) => {
                let mut z: Vec<u8> = Vec::new();
                let mut i: usize = 0;
                while i < b.len()
                    invariant
                        i <= b@.len(),
                        z@ == Seq::new(i as nat, |j: int| 0u8),
                    decreases b@.len() - i,
                {
                    z.push(0u8);
                    i = i + 1;
                    assert(z@ =~= Seq::new(i as nat, |j: int| 0u8));
                }
                Some(z)
            },
            None => None,
        };
        let r = WitnessArgs {
            lock,
            input_type: self.input_type.clone(),
            output_type: self.output_type.clone(),
        };
        assert(r@ =~= masked(self@));
        r
    }
}

} // verus!
