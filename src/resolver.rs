//! The authorization resolver: a state machine that decides a spend.
//!
//! The resolver performs no host read and no call into the loaded library itself.
//! Each step takes the result of the previous request as an event and answers with
//! the next request, or with the outcome. The caller performs each request and
//! feeds its result back, until the resolver finishes or aborts.
use vstd::prelude::*;
use crate::error::{classify_host_error, host_outcome, Error, Fault, HostError};
use crate::hash::{ckb_hash, ckb_hash_of};
use crate::witness::{opt_bytes, WitnessArgs, WitnessArgsModel};

verus! {

/// Length of the committed public-key hash carried in the script arguments.
pub const PUBKEY_HASH_LEN: usize = 20;

/// Length of the signed message at the start of the recovery payload.
pub const MESSAGE_LEN: usize = 32;

/// Length of a recoverable signature: 64 bytes of (r, s) and a recovery id.
pub const SIGNATURE_LEN: usize = 65;

/// Length of the recovery payload: the message followed by the signature.
pub const PAYLOAD_LEN: usize = 97;

/// Where the resolver stands.
#[derive(Clone, Copy, Debug, PartialEq, Eq, Structural)]
pub enum Stage {
    /// Waiting for the script arguments.
    Start,
    /// The committed hash is known; waiting for the group's first witness.
    ArgsValidated,
    /// Waiting for the status of the library's sighash check.
    HashMode,
    /// Waiting for the library's prefilled data.
    LoadingPrefilled,
    /// Waiting for the public key recovered from the signature.
    Recovering,
    /// A outcome was given or the run aborted; nothing more is accepted.
    Done,
}

/// How a witness asks to be authorized.
pub enum Mode {
    /// No `input_type`: the library checks the committed hash itself.
    Hash,
    /// An `input_type` holding a message and a signature of it.
    Recover { message: Vec<u8>, signature: Vec<u8> },
}

/// The result of a request, handed back to the resolver.
pub enum Event {
    /// The script arguments, or the error reading them.
    ScriptArgs(Result<Vec<u8>, HostError>),
    /// The group's first witness, or the error reading it.
    Witness(Result<WitnessArgs, HostError>),
    /// The status returned by the library's sighash check.
    HashStatus(i32),
    /// Whether the library produced its prefilled data, or its error code.
    PrefilledData(Result<(), i32>),
    /// The public key recovered by the library, or its error code.
    RecoveredPubkey(Result<Vec<u8>, i32>),
}

/// What the resolver asks for next, or its outcome.
pub enum Action {
    /// Read the first witness of the input group.
    LoadWitness,
    /// Run the library's sighash check against this 20-byte hash.
    ValidateByHash(Vec<u8>),
    /// Have the library produce its prefilled data.
    LoadPrefilledData,
    /// Have the library recover the public key that signed `message`.
    RecoverPubkey { signature: Vec<u8>, message: Vec<u8> },
    /// The outcome.
    Finish(Result<(), Error>),
    /// No outcome can be given.
    Abort(Fault),
}

/// An event as mathematical values.
pub enum EventModel {
    ScriptArgs(Result<Seq<u8>, HostError>),
    Witness(Result<WitnessArgsModel, HostError>),
    HashStatus(i32),
    PrefilledData(Result<(), i32>),
    RecoveredPubkey(Result<Seq<u8>, i32>),
}

/// An action as mathematical values.
pub enum ActionModel {
    LoadWitness,
    ValidateByHash(Seq<u8>),
    LoadPrefilledData,
    RecoverPubkey { signature: Seq<u8>, message: Seq<u8> },
    Finish(Result<(), Error>),
    Abort(Fault),
}

/// A resolver as mathematical values.
pub struct ResolverModel {
    pub stage: Stage,
    pub pubkey_hash: Seq<u8>,
    pub message: Seq<u8>,
    pub signature: Seq<u8>,
}

impl View for Event {
    type V = EventModel;

    open spec fn view(&self) -> EventModel {
        match self {
            Event::ScriptArgs(Ok(a)) => EventModel::ScriptArgs(Ok(a@)),
            Event::ScriptArgs(Err(e)) => EventModel::ScriptArgs(Err(*e)),
            Event::Witness(Ok(w)) => EventModel::Witness(Ok(w@)),
            Event::Witness(Err(e)) => EventModel::Witness(Err(*e)),
            Event::HashStatus(s) => EventModel::HashStatus(*s),
            Event::PrefilledData(r) => EventModel::PrefilledData(*r),
            Event::RecoveredPubkey(Ok(k)) => EventModel::RecoveredPubkey(Ok(k@)),
            Event::RecoveredPubkey(Err(c)) => EventModel::RecoveredPubkey(Err(*c)),
        }
    }
}

impl View for Action {
    type V = ActionModel;

    open spec fn view(&self) -> ActionModel {
        match self {
            Action::LoadWitness => ActionModel::LoadWitness,
            Action::ValidateByHash(h) => ActionModel::ValidateByHash(h@),
            Action::LoadPrefilledData => ActionModel::LoadPrefilledData,
            Action::RecoverPubkey { signature, message } => ActionModel::RecoverPubkey {
                signature: signature@,
                message: message@,
            },
            Action::Finish(v) => ActionModel::Finish(*v),
            Action::Abort(f) => ActionModel::Abort(*f),
        }
    }
}

/// Whether `pubkey_digest`, the CKB hash of a public key, starts with the
/// committed hash `expected`.
pub open spec fn pubkey_hash_matches(expected: Seq<u8>, pubkey_digest: Seq<u8>) -> bool {
    expected.len() <= pubkey_digest.len() && pubkey_digest.subrange(0, expected.len() as int)
        == expected
}

/// The action that reports a host error.
pub open spec fn host_error_action(e: HostError) -> ActionModel {
    match host_outcome(e) {
        Ok(err) => ActionModel::Finish(Err(err)),
        Err(f) => ActionModel::Abort(f),
    }
}

/// The resolver after it gave its outcome, keeping what it had learned.
pub open spec fn finished(s: ResolverModel) -> ResolverModel {
    ResolverModel { stage: Stage::Done, ..s }
}

/// Whether a resolver at `stage` accepts the event `e`.
pub open spec fn awaits(stage: Stage, e: EventModel) -> bool {
    match e {
        EventModel::ScriptArgs(_) => stage == Stage::Start,
        EventModel::Witness(_) => stage == Stage::ArgsValidated,
        EventModel::HashStatus(_) => stage == Stage::HashMode,
        EventModel::PrefilledData(_) => stage == Stage::LoadingPrefilled,
        EventModel::RecoveredPubkey(_) => stage == Stage::Recovering,
    }
}

/// The next resolver and action when `s` receives the event `e` that it awaits.
pub open spec fn step_spec(s: ResolverModel, e: EventModel) -> (ResolverModel, ActionModel) {
    match e {
        EventModel::ScriptArgs(Err(h)) => (finished(s), host_error_action(h)),
        EventModel::ScriptArgs(Ok(args)) => if args.len() == PUBKEY_HASH_LEN {
            (ResolverModel { stage: Stage::ArgsValidated, pubkey_hash: args, ..s }, ActionModel::LoadWitness)
        } else {
            (finished(s), ActionModel::Finish(Err(Error::Encoding)))
        },
        EventModel::Witness(Err(h)) => (finished(s), host_error_action(h)),
        EventModel::Witness(Ok(w)) => match w.input_type {
            None => (
                ResolverModel { stage: Stage::HashMode, ..s },
                ActionModel::ValidateByHash(s.pubkey_hash),
            ),
            Some(p) => if p.len() == PAYLOAD_LEN {
                (
                    ResolverModel {
                        stage: Stage::LoadingPrefilled,
                        message: p.subrange(0, MESSAGE_LEN as int),
                        signature: p.subrange(MESSAGE_LEN as int, PAYLOAD_LEN as int),
                        ..s
                    },
                    ActionModel::LoadPrefilledData,
                )
            } else {
                (finished(s), ActionModel::Abort(Fault::MalformedRecoveryPayload))
            },
        },
        EventModel::HashStatus(status) => (
            finished(s),
            ActionModel::Finish(
                if status == 0 {
                    Ok(())
                } else {
                    Err(Error::CryptoFailure)
                },
            ),
        ),
        EventModel::PrefilledData(Ok(())) => (
            ResolverModel { stage: Stage::Recovering, ..s },
            ActionModel::RecoverPubkey { signature: s.signature, message: s.message },
        ),
        EventModel::PrefilledData(Err(_)) => (
            finished(s),
            ActionModel::Finish(Err(Error::LoadPrefilledDataFailure)),
        ),
        EventModel::RecoveredPubkey(Ok(pk)) => (
            finished(s),
            ActionModel::Finish(
                if pubkey_hash_matches(s.pubkey_hash, ckb_hash_of(pk)) {
                    Ok(())
                } else {
                    Err(Error::WrongPubkey)
                },
            ),
        ),
        EventModel::RecoveredPubkey(Err(_)) => (
            finished(s),
            ActionModel::Finish(Err(Error::RecoverPubkeyFailure)),
        ),
    }
}

/// Hash mode runs to its outcome: with 20-byte script arguments and a witness
/// without `input_type`, the resolver asks the library to check exactly those
/// arguments, and authorizes the spend if and only if the returned status is 0;
/// any other status rejects it as a crypto failure.
pub proof fn lemma_hash_mode_run(s0: ResolverModel, args: Seq<u8>, w: WitnessArgsModel, status: i32)
    requires
        s0.stage == Stage::Start,
        args.len() == PUBKEY_HASH_LEN,
        w.input_type is None,
    ensures
        ({
            let (s1, a1) = step_spec(s0, EventModel::ScriptArgs(Ok(args)));
            let (s2, a2) = step_spec(s1, EventModel::Witness(Ok(w)));
            let (s3, a3) = step_spec(s2, EventModel::HashStatus(status));
            &&& a1 == ActionModel::LoadWitness
            &&& awaits(s1.stage, EventModel::Witness(Ok(w)))
            &&& a2 == ActionModel::ValidateByHash(args)
            &&& awaits(s2.stage, EventModel::HashStatus(status))
            &&& a3 == ActionModel::Finish(
                if status == 0 {
                    Ok(())
                } else {
                    Err(Error::CryptoFailure)
                },
            )
            &&& s3.stage == Stage::Done
        }),
{
}

/// Recovery mode runs to its outcome: with 20-byte script arguments and an
/// `input_type` of a 32-byte message and a 65-byte signature, the resolver asks
/// the library to recover the key that signed that message with that signature,
/// and authorizes the spend if and only if the recovered key's CKB hash starts
/// with the arguments; otherwise it rejects it as a wrong public key.
pub proof fn lemma_recovery_mode_run(
    s0: ResolverModel,
    args: Seq<u8>,
    w: WitnessArgsModel,
    pubkey: Seq<u8>,
)
    requires
        s0.stage == Stage::Start,
        args.len() == PUBKEY_HASH_LEN,
        w.input_type is Some,
        w.input_type->0.len() == PAYLOAD_LEN,
    ensures
        ({
            let p = w.input_type->0;
            let (s1, a1) = step_spec(s0, EventModel::ScriptArgs(Ok(args)));
            let (s2, a2) = step_spec(s1, EventModel::Witness(Ok(w)));
            let (s3, a3) = step_spec(s2, EventModel::PrefilledData(Ok(())));
            let (s4, a4) = step_spec(s3, EventModel::RecoveredPubkey(Ok(pubkey)));
            &&& a1 == ActionModel::LoadWitness
            &&& awaits(s1.stage, EventModel::Witness(Ok(w)))
            &&& a2 == ActionModel::LoadPrefilledData
            &&& awaits(s2.stage, EventModel::PrefilledData(Ok(())))
            &&& a3 == ActionModel::RecoverPubkey {
                signature: p.subrange(MESSAGE_LEN as int, PAYLOAD_LEN as int),
                message: p.subrange(0, MESSAGE_LEN as int),
            }
            &&& awaits(s3.stage, EventModel::RecoveredPubkey(Ok(pubkey)))
            &&& a4 == ActionModel::Finish(
                if pubkey_hash_matches(args, ckb_hash_of(pubkey)) {
                    Ok(())
                } else {
                    Err(Error::WrongPubkey)
                },
            )
            &&& s4.stage == Stage::Done
        }),
{
}

/// The mode is chosen by the witness alone, and every witness takes exactly one
/// path: no `input_type` leads to the library's sighash check, a 97-byte one to
/// public-key recovery, and any other one to an abort.
pub proof fn lemma_mode_exclusive_and_total(s: ResolverModel, w: WitnessArgsModel)
    requires
        s.stage == Stage::ArgsValidated,
    ensures
        ({
            let a = step_spec(s, EventModel::Witness(Ok(w))).1;
            let hash = w.input_type is None && a == ActionModel::ValidateByHash(s.pubkey_hash);
            let recover = w.input_type is Some && w.input_type->0.len() == PAYLOAD_LEN && a
                == ActionModel::LoadPrefilledData;
            let malformed = w.input_type is Some && w.input_type->0.len() != PAYLOAD_LEN && a
                == ActionModel::Abort(Fault::MalformedRecoveryPayload);
            &&& hash || recover || malformed
            &&& !(hash && recover) && !(hash && malformed) && !(recover && malformed)
        }),
{
}

/// An `input_type` whose length is not 97 ends the run with an abort, and the
/// finished resolver accepts no further event: the recovery is never requested.
pub proof fn lemma_malformed_payload_never_recovers(s: ResolverModel, w: WitnessArgsModel)
    requires
        s.stage == Stage::ArgsValidated,
        w.input_type is Some,
        w.input_type->0.len() != PAYLOAD_LEN,
    ensures
        ({
            let (s2, a) = step_spec(s, EventModel::Witness(Ok(w)));
            &&& a == ActionModel::Abort(Fault::MalformedRecoveryPayload)
            &&& s2.stage == Stage::Done
            &&& forall|e: EventModel| !awaits(s2.stage, e)
        }),
{
}

/// The resolver's state.
pub struct Resolver {
    pub stage: Stage,
    pub pubkey_hash: Vec<u8>,
    pub message: Vec<u8>,
    pub signature: Vec<u8>,
}

impl View for Resolver {
    type V = ResolverModel;

    open spec fn view(&self) -> ResolverModel {
        ResolverModel {
            stage: self.stage,
            pubkey_hash: self.pubkey_hash@,
            message: self.message@,
            signature: self.signature@,
        }
    }
}

/// Copies `b[start..end]`.
fn copy_range(b: &[u8], start: usize, end: usize) -> (r: Vec<u8>)
    requires
        start <= end <= b@.len(),
    ensures
        r@ == b@.subrange(start as int, end as int),
{
    let mut r: Vec<u8> = Vec::new();
    let mut i: usize = start;
    while i < end
        invariant
            start <= i <= end,
            end <= b@.len(),
            r@ == b@.subrange(start as int, i as int),
        decreases end - i,
    {
        r.push(b[i]);
        i = i + 1;
        assert(r@ =~= b@.subrange(start as int, i as int));
    }
    r
}

/// Whether the CKB hash of a public key, `pubkey_digest`, starts with the
/// committed hash `expected`.
pub fn pubkey_digest_matches(expected: &[u8], pubkey_digest: &[u8]) -> (r: bool)
    ensures
        r == pubkey_hash_matches(expected@, pubkey_digest@),
{
    if expected.len() > pubkey_digest.len() {
        return false;
    }
    let mut i: usize = 0;
    while i < expected.len()
        invariant
            expected@.len() <= pubkey_digest@.len(),
            i <= expected@.len(),
            forall|j: int| 0 <= j < i ==> expected@[j] == pubkey_digest@[j],
        decreases expected@.len() - i,
    {
        if expected[i] != pubkey_digest[i] {
            assert(pubkey_digest@.subrange(0, expected@.len() as int)[i as int] != expected@[i as int]);
            return false;
        }
        i = i + 1;
    }
    assert(pubkey_digest@.subrange(0, expected@.len() as int) =~= expected@);
    true
}

/// Chooses how a witness is authorized: by the library's sighash check when it
/// has no `input_type`, by public-key recovery when its `input_type` holds a
/// 32-byte message and a 65-byte signature. Any other `input_type` is malformed.
pub fn select_mode(w: &WitnessArgs) -> (r: Result<Mode, Fault>)
    ensures
        w@.input_type is None <==> r matches Ok(Mode::Hash),
        w@.input_type is Some && w@.input_type->0.len() == PAYLOAD_LEN <==> r matches Ok(
            Mode::Recover { .. },
        ),
        w@.input_type is Some && w@.input_type->0.len() != PAYLOAD_LEN <==> r == Err::<
            Mode,
            Fault,
        >(Fault::MalformedRecoveryPayload),
        r matches Ok(Mode::Recover { message, signature }) ==> message@ == w@.input_type->0.subrange(
            0,
            MESSAGE_LEN as int,
        ) && signature@ == w@.input_type->0.subrange(MESSAGE_LEN as int, PAYLOAD_LEN as int),
{
    match &w.input_type {
        None => Ok(Mode::Hash),
        Some(p) => {
            if p.len() == PAYLOAD_LEN {
                let message = copy_range(p.as_slice(), 0, MESSAGE_LEN);
                let signature = copy_range(p.as_slice(), MESSAGE_LEN, PAYLOAD_LEN);
                Ok(Mode::Recover { message, signature })
            } else {
                Err(Fault::MalformedRecoveryPayload)
            }
        },
    }
}

/// The action that reports a host error.
fn host_error_action_exec(e: HostError) -> (r: Action)
    ensures
        r@ == host_error_action(e),
{
    match classify_host_error(e) {
        Ok(err) => Action::Finish(Err(err)),
        Err(f) => Action::Abort(f),
    }
}

impl Resolver {
    /// A resolver waiting for the script arguments.
    pub fn new() -> (r: Resolver)
        ensures
            r@.stage == Stage::Start,
    {
        Resolver { stage: Stage::Start, pubkey_hash: Vec::new(), message: Vec::new(), signature: Vec::new() }
    }

    /// Whether the resolver accepts `e` now.
    pub fn accepts(&self, e: &Event) -> (r: bool)
        ensures
            r == awaits(self@.stage, e@),
    {
        match e {
            Event::ScriptArgs(_) => self.stage == Stage::Start,
            Event::Witness(_) => self.stage == Stage::ArgsValidated,
            Event::HashStatus(_) => self.stage == Stage::HashMode,
            Event::PrefilledData(_) => self.stage == Stage::LoadingPrefilled,
            Event::RecoveredPubkey(_) => self.stage == Stage::Recovering,
        }
    }

    /// Whether the resolver has given its outcome or aborted.
    pub fn is_done(&self) -> (r: bool)
        ensures
            r == (self@.stage == Stage::Done),
    {
        self.stage == Stage::Done
    }

    /// Takes the result of the last request and answers with the next request or
    /// the outcome.
    pub fn step(&mut self, e: Event) -> (r: Action)
        requires
            awaits(old(self)@.stage, e@),
        ensures
            (final(self)@, r@) == step_spec(old(self)@, e@),
    {
        match e {
            Event::ScriptArgs(Err(h)) => {
                self.stage = Stage::Done;
                host_error_action_exec(h)
            },
            Event::ScriptArgs(Ok(args)) => {
                if args.len() == PUBKEY_HASH_LEN {
                    self.stage = Stage::ArgsValidated;
                    self.pubkey_hash = args;
                    Action::LoadWitness
                } else {
                    self.stage = Stage::Done;
                    Action::Finish(Err(Error::Encoding))
                }
            },
            Event::Witness(Err(h)) => {
                self.stage = Stage::Done;
                host_error_action_exec(h)
            },
            Event::Witness(Ok(w)) => {
                match select_mode(&w) {
                    Ok(Mode::Hash) => {
                        self.stage = Stage::HashMode;
                        Action::ValidateByHash(self.pubkey_hash.clone())
                    },
                    Ok(Mode::Recover { message, signature }) => {
                        self.stage = Stage::LoadingPrefilled;
                        self.message = message;
                        self.signature = signature;
                        Action::LoadPrefilledData
                    },
                    Err(f) => {
                        self.stage = Stage::Done;
                        Action::Abort(f)
                    },
                }
            },
            Event::HashStatus(status) => {
                self.stage = Stage::Done;
                if status == 0 {
                    Action::Finish(Ok(()))
                } else {
                    Action::Finish(Err(Error::CryptoFailure))
                }
            },
            Event::PrefilledData(Ok(())) => {
                self.stage = Stage::Recovering;
                Action::RecoverPubkey { signature: self.signature.clone(), message: self.message.clone() }
            },
            Event::PrefilledData(Err(_)) => {
                self.stage = Stage::Done;
                Action::Finish(Err(Error::LoadPrefilledDataFailure))
            },
            Event::RecoveredPubkey(Ok(pk)) => {
                self.stage = Stage::Done;
                let digest = ckb_hash(pk.as_slice());
                if pubkey_digest_matches(self.pubkey_hash.as_slice(), digest.as_slice()) {
                    Action::Finish(Ok(()))
                } else {
                    Action::Finish(Err(Error::WrongPubkey))
                }
            },
            Event::RecoveredPubkey(Err(_)) => {
                self.stage = Stage::Done;
                Action::Finish(Err(Error::RecoverPubkeyFailure))
            },
        }
    }
}

} // verus!
