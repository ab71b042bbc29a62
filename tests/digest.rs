use blake2b_ref::Blake2bBuilder;
use ckb_dynamic_loading_secp256k1::digest::{build_sighash_message, build_sighash_preimage};
use ckb_dynamic_loading_secp256k1::hash::{ckb_hash, ckb_personalization_bytes};
use ckb_dynamic_loading_secp256k1::witness::{push_le, WitnessArgs};

fn ckb_blake2b(data: &[u8]) -> Vec<u8> {
    let mut hasher = Blake2bBuilder::new(32).personal(b"ckb-default-hash").build();
    hasher.update(data);
    let mut out = vec![0u8; 32];
    hasher.finalize(&mut out);
    out
}

fn hex(b: &[u8]) -> String {
    b.iter().map(|x| format!("{:02x}", x)).collect()
}

#[test]
fn empty_hash_is_the_ckb_blank_hash() {
    assert_eq!(
        hex(&ckb_hash(&[])),
        "44f4c69744d5f8c55d642062949dcae49bc4e7ef43d388c5a12f42b5633d163e"
    );
}

#[test]
fn hash_matches_personalized_blake2b() {
    let data = b"some transaction bytes".to_vec();
    let h = ckb_hash(&data);
    assert_eq!(h.len(), 32);
    assert_eq!(h, ckb_blake2b(&data));
    assert_ne!(h[..data.len().min(32)].to_vec(), data[..data.len().min(32)].to_vec());
    assert_eq!(ckb_personalization_bytes(), b"ckb-default-hash".to_vec());
}

#[test]
fn little_endian_bytes() {
    let mut out = vec![9u8];
    push_le(&mut out, 0x0102_0304, 4);
    assert_eq!(out, vec![9, 4, 3, 2, 1]);
    let mut out = Vec::new();
    push_le(&mut out, 300, 8);
    assert_eq!(out, vec![44, 1, 0, 0, 0, 0, 0, 0]);
}

#[test]
fn empty_witness_encoding() {
    let w = WitnessArgs { lock: None, input_type: None, output_type: None };
    assert_eq!(w.encoded_len(), Some(16));
    assert_eq!(w.to_bytes(), vec![16, 0, 0, 0, 16, 0, 0, 0, 16, 0, 0, 0, 16, 0, 0, 0]);
}

#[test]
fn witness_encoding_with_fields() {
    let w = WitnessArgs { lock: Some(vec![1, 2]), input_type: None, output_type: Some(vec![]) };
    assert_eq!(w.encoded_len(), Some(26));
    assert_eq!(
        w.to_bytes(),
        vec![26, 0, 0, 0, 16, 0, 0, 0, 22, 0, 0, 0, 22, 0, 0, 0, 2, 0, 0, 0, 1, 2, 0, 0, 0, 0]
    );
}

#[test]
fn signature_placeholder_witness_encoding() {
    let w = WitnessArgs { lock: Some(vec![0u8; 65]), input_type: None, output_type: None };
    let mut expected = vec![0x55, 0, 0, 0, 0x10, 0, 0, 0, 0x55, 0, 0, 0, 0x55, 0, 0, 0, 0x41, 0, 0, 0];
    expected.extend(vec![0u8; 65]);
    assert_eq!(w.to_bytes(), expected);
}

#[test]
fn masking_zeroes_the_lock_only() {
    let w = WitnessArgs { lock: Some(vec![5u8; 3]), input_type: Some(vec![6u8]), output_type: None };
    let m = w.masked();
    assert_eq!(m.lock, Some(vec![0u8; 3]));
    assert_eq!(m.input_type, Some(vec![6u8]));
    assert_eq!(m.output_type, None);
}

fn expected_preimage(tx_hash: &[u8], first_masked: &WitnessArgs, rest: &[Vec<u8>]) -> Vec<u8> {
    let mut out = tx_hash.to_vec();
    let enc = first_masked.to_bytes();
    out.extend((enc.len() as u64).to_le_bytes());
    out.extend(enc);
    for w in rest {
        out.extend((w.len() as u64).to_le_bytes());
        out.extend(w.clone());
    }
    out
}

#[test]
fn preimage_layout() {
    let tx_hash = vec![7u8; 32];
    let first = WitnessArgs { lock: Some(vec![9u8; 65]), input_type: None, output_type: None };
    let rest = vec![vec![1u8, 2, 3], vec![]];
    let p = build_sighash_preimage(&tx_hash, &first, &rest);
    let masked = WitnessArgs { lock: Some(vec![0u8; 65]), input_type: None, output_type: None };
    assert_eq!(p, expected_preimage(&tx_hash, &masked, &rest));
    assert_eq!(p.len(), 32 + 8 + 85 + 8 + 3 + 8);
    assert_eq!(p[32..40].to_vec(), vec![85, 0, 0, 0, 0, 0, 0, 0]);
}

#[test]
fn message_is_hash_of_preimage() {
    let tx_hash = vec![1u8; 32];
    let first = WitnessArgs { lock: Some(vec![4u8; 65]), input_type: Some(vec![8u8; 4]), output_type: None };
    let rest = vec![vec![5u8; 10]];
    let m = build_sighash_message(&tx_hash, &first, &rest);
    assert_eq!(m, ckb_blake2b(&build_sighash_preimage(&tx_hash, &first, &rest)));
    assert_eq!(m, build_sighash_message(&tx_hash, &first, &rest));
}

#[test]
fn message_ignores_lock_contents() {
    let tx_hash = vec![1u8; 32];
    let a = WitnessArgs { lock: Some(vec![4u8; 65]), input_type: None, output_type: None };
    let b = WitnessArgs { lock: Some(vec![200u8; 65]), input_type: None, output_type: None };
    assert_eq!(
        build_sighash_message(&tx_hash, &a, &vec![]),
        build_sighash_message(&tx_hash, &b, &vec![])
    );
}

#[test]
fn message_covers_every_other_byte() {
    let tx_hash = vec![1u8; 32];
    let first = WitnessArgs { lock: Some(vec![0u8; 65]), input_type: Some(vec![3u8; 5]), output_type: None };
    let rest = vec![vec![5u8; 10], vec![6u8; 2]];
    let base = build_sighash_message(&tx_hash, &first, &rest);
    let mut rest2 = rest.clone();
    rest2[1][0] = 7;
    assert_ne!(base, build_sighash_message(&tx_hash, &first, &rest2));
    let first2 = WitnessArgs { lock: Some(vec![0u8; 65]), input_type: Some(vec![3u8, 3, 3, 3, 4]), output_type: None };
    assert_ne!(base, build_sighash_message(&tx_hash, &first2, &rest));
    let mut tx2 = tx_hash.clone();
    tx2[31] = 0;
    assert_ne!(base, build_sighash_message(&tx2, &first, &rest));
}
