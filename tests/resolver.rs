use blake2b_ref::Blake2bBuilder;
use ckb_dynamic_loading_secp256k1::error::{exit_code, status_to_result, Error, Fault, HostError};
use ckb_dynamic_loading_secp256k1::resolver::{
    pubkey_digest_matches, select_mode, Action, Event, Mode, Resolver, Stage,
};
use ckb_dynamic_loading_secp256k1::witness::WitnessArgs;

fn ckb_blake2b(data: &[u8]) -> Vec<u8> {
    let mut hasher = Blake2bBuilder::new(32).personal(b"ckb-default-hash").build();
    hasher.update(data);
    let mut out = vec![0u8; 32];
    hasher.finalize(&mut out);
    out
}

fn witness(lock: Option<Vec<u8>>, input_type: Option<Vec<u8>>) -> WitnessArgs {
    WitnessArgs { lock, input_type, output_type: None }
}

fn finish(action: Action) -> i8 {
    match action {
        Action::Finish(v) => exit_code(&v),
        _ => panic!("the resolver did not finish"),
    }
}

/// Runs hash mode with the given status from the library.
fn run_hash_mode(args: Vec<u8>, status: i32) -> i8 {
    let mut r = Resolver::new();
    assert!(matches!(r.step(Event::ScriptArgs(Ok(args.clone()))), Action::LoadWitness));
    match r.step(Event::Witness(Ok(witness(Some(vec![0u8; 65]), None)))) {
        Action::ValidateByHash(h) => assert_eq!(h, args),
        _ => panic!("hash mode expected"),
    }
    let code = finish(r.step(Event::HashStatus(status)));
    assert!(r.is_done());
    code
}

/// Runs recovery mode, the library recovering `pubkey`.
fn run_recovery_mode(args: Vec<u8>, payload: Vec<u8>, pubkey: Vec<u8>) -> i8 {
    let mut r = Resolver::new();
    assert!(matches!(r.step(Event::ScriptArgs(Ok(args))), Action::LoadWitness));
    assert!(matches!(
        r.step(Event::Witness(Ok(witness(None, Some(payload.clone()))))),
        Action::LoadPrefilledData
    ));
    match r.step(Event::PrefilledData(Ok(()))) {
        Action::RecoverPubkey { signature, message } => {
            assert_eq!(message, payload[..32].to_vec());
            assert_eq!(signature, payload[32..].to_vec());
        }
        _ => panic!("recovery expected"),
    }
    finish(r.step(Event::RecoveredPubkey(Ok(pubkey))))
}

fn payload() -> Vec<u8> {
    let mut p: Vec<u8> = (0u8..32).collect();
    p.extend((100u8..165).collect::<Vec<u8>>());
    p
}

#[test]
fn test_basic() {
    assert_eq!(run_hash_mode(vec![7u8; 20], 0), 0);
}

#[test]
fn test_sign_with_wrong_key() {
    assert_eq!(run_hash_mode(vec![7u8; 20], -31), Error::CryptoFailure.code());
    assert_eq!(run_hash_mode(vec![7u8; 20], 1), 5);
}

#[test]
fn test_recover_pubkey() {
    let pubkey: Vec<u8> = (1u8..=33).collect();
    let args = ckb_blake2b(&pubkey)[..20].to_vec();
    assert_eq!(run_recovery_mode(args, payload(), pubkey), 0);
}

#[test]
fn test_recover_pubkey_with_wrong_signature() {
    let pubkey: Vec<u8> = (1u8..=33).collect();
    let other: Vec<u8> = (2u8..=34).collect();
    let args = ckb_blake2b(&pubkey)[..20].to_vec();
    assert_eq!(run_recovery_mode(args, payload(), other), Error::WrongPubkey.code());
}

#[test]
fn recovery_compares_hash_not_key() {
    let pubkey: Vec<u8> = (1u8..=33).collect();
    let args = pubkey[..20].to_vec();
    assert_eq!(run_recovery_mode(args, payload(), pubkey), 6);
}

#[test]
fn args_of_wrong_length_are_an_encoding_error() {
    for len in [0usize, 19, 21, 32] {
        let mut r = Resolver::new();
        assert_eq!(finish(r.step(Event::ScriptArgs(Ok(vec![1u8; len])))), 4);
        assert!(r.is_done());
    }
}

#[test]
fn host_errors_become_rejections() {
    let cases = [
        (HostError::IndexOutOfBound, 1),
        (HostError::ItemMissing, 2),
        (HostError::LengthNotEnough(300), 3),
        (HostError::Encoding, 4),
    ];
    for (e, code) in cases {
        let mut r = Resolver::new();
        assert_eq!(finish(r.step(Event::ScriptArgs(Err(e)))), code);
        let mut r = Resolver::new();
        r.step(Event::ScriptArgs(Ok(vec![0u8; 20])));
        assert_eq!(finish(r.step(Event::Witness(Err(e)))), code);
    }
}

#[test]
fn unexpected_host_errors_abort() {
    for e in [HostError::Unknown(42), HostError::WaitFailure, HostError::MaxFdsCreated] {
        let mut r = Resolver::new();
        assert!(matches!(
            r.step(Event::ScriptArgs(Err(e))),
            Action::Abort(Fault::UnexpectedHostError)
        ));
    }
}

#[test]
fn malformed_payload_aborts_before_recovery() {
    for len in [0usize, 32, 65, 96, 98] {
        let mut r = Resolver::new();
        r.step(Event::ScriptArgs(Ok(vec![0u8; 20])));
        let a = r.step(Event::Witness(Ok(witness(None, Some(vec![3u8; len])))));
        assert!(matches!(a, Action::Abort(Fault::MalformedRecoveryPayload)));
        assert!(r.is_done());
        assert!(!r.accepts(&Event::PrefilledData(Ok(()))));
        assert!(!r.accepts(&Event::RecoveredPubkey(Ok(vec![1u8; 33]))));
    }
}

#[test]
fn prefilled_data_failure() {
    let mut r = Resolver::new();
    r.step(Event::ScriptArgs(Ok(vec![0u8; 20])));
    r.step(Event::Witness(Ok(witness(None, Some(payload())))));
    assert_eq!(finish(r.step(Event::PrefilledData(Err(-1)))), Error::LoadPrefilledDataFailure.code());
}

#[test]
fn recover_pubkey_failure() {
    let mut r = Resolver::new();
    r.step(Event::ScriptArgs(Ok(vec![0u8; 20])));
    r.step(Event::Witness(Ok(witness(None, Some(payload())))));
    r.step(Event::PrefilledData(Ok(())));
    assert_eq!(finish(r.step(Event::RecoveredPubkey(Err(2)))), 8);
}

#[test]
fn mode_selection() {
    assert!(matches!(select_mode(&witness(Some(vec![1u8; 65]), None)), Ok(Mode::Hash)));
    match select_mode(&witness(None, Some(payload()))) {
        Ok(Mode::Recover { message, signature }) => {
            assert_eq!(message, (0u8..32).collect::<Vec<u8>>());
            assert_eq!(signature, (100u8..165).collect::<Vec<u8>>());
        }
        _ => panic!("recovery expected"),
    }
    assert!(matches!(
        select_mode(&witness(None, Some(vec![0u8; 96]))),
        Err(Fault::MalformedRecoveryPayload)
    ));
}

#[test]
fn accepts_follows_stage() {
    let mut r = Resolver::new();
    assert_eq!(r.stage, Stage::Start);
    assert!(r.accepts(&Event::ScriptArgs(Ok(vec![]))));
    assert!(!r.accepts(&Event::HashStatus(0)));
    r.step(Event::ScriptArgs(Ok(vec![0u8; 20])));
    assert_eq!(r.stage, Stage::ArgsValidated);
    assert!(r.accepts(&Event::Witness(Err(HostError::ItemMissing))));
}

#[test]
fn digest_prefix_comparison() {
    let digest: Vec<u8> = (0u8..32).collect();
    assert!(pubkey_digest_matches(&digest[..20], &digest));
    let mut other = digest[..20].to_vec();
    other[19] = 0;
    assert!(!pubkey_digest_matches(&other, &digest));
    assert!(!pubkey_digest_matches(&digest, &digest[..20]));
}

#[test]
fn exit_codes() {
    assert_eq!(exit_code(&Ok(())), 0);
    let all = [
        Error::IndexOutOfBound,
        Error::ItemMissing,
        Error::LengthNotEnough,
        Error::Encoding,
        Error::CryptoFailure,
        Error::WrongPubkey,
        Error::LoadPrefilledDataFailure,
        Error::RecoverPubkeyFailure,
    ];
    for (i, e) in all.iter().enumerate() {
        assert_eq!(exit_code(&Err(*e)), i as i8 + 1);
    }
    assert_eq!(status_to_result(0), Ok(()));
    assert_eq!(status_to_result(-7), Err(-7));
}
