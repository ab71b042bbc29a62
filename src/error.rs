//! Rejection kinds, host-reported errors, faults and the exit status.
use vstd::prelude::*;

verus! {

/// Why a spend is rejected. Each kind has its own exit status.
#[derive(Clone, Copy, Debug, PartialEq, Eq, Structural)]
pub enum Error {
    IndexOutOfBound,
    ItemMissing,
    LengthNotEnough,
    Encoding,
    /// The loaded library's sighash check reported a non-zero status.
    CryptoFailure,
    /// The recovered public key does not hash to the committed hash.
    WrongPubkey,
    /// The loaded library could not produce its prefilled data.
    LoadPrefilledDataFailure,
    /// The loaded library could not recover a public key from the signature.
    RecoverPubkeyFailure,
}

/// An error reported by the host while reading transaction data.
#[derive(Clone, Copy, Debug, PartialEq, Eq, Structural)]
pub enum HostError {
    IndexOutOfBound,
    ItemMissing,
    LengthNotEnough(usize),
    Encoding,
    WaitFailure,
    InvalidFd,
    OtherEndClosed,
    MaxVmsSpawned,
    MaxFdsCreated,
    Unknown(u64),
}

/// A violation of the environment's contract: no outcome can be given, and the
/// script aborts instead of returning a status.
#[derive(Clone, Copy, Debug, PartialEq, Eq, Structural)]
pub enum Fault {
    /// The host reported an error that a lock script has no rejection kind for.
    UnexpectedHostError,
    /// The `input_type` payload is not a 32-byte message and a 65-byte signature.
    MalformedRecoveryPayload,
}

impl Error {
    /// The exit status of a rejection of this kind.
    pub open spec fn spec_code(self) -> i8 {
        match self {
            Error::IndexOutOfBound => 1,
            Error::ItemMissing => 2,
            Error::LengthNotEnough => 3,
            Error::Encoding => 4,
            Error::CryptoFailure => 5,
            Error::WrongPubkey => 6,
            Error::LoadPrefilledDataFailure => 7,
            Error::RecoverPubkeyFailure => 8,
        }
    }

    /// The exit status of a rejection of this kind.
    pub fn code(&self) -> (r: i8)
        ensures
            r == self.spec_code(),
            r > 0,
    {
        match self {
            Error::IndexOutOfBound => 1,
            Error::ItemMissing => 2,
            Error::LengthNotEnough => 3,
            Error::Encoding => 4,
            Error::CryptoFailure => 5,
            Error::WrongPubkey => 6,
            Error::LoadPrefilledDataFailure => 7,
            Error::RecoverPubkeyFailure => 8,
        }
    }
}

/// The rejection that a host error stands for, or the fault it signals.
pub open spec fn host_outcome(e: HostError) -> Result<Error, Fault> {
    match e {
        HostError::IndexOutOfBound => Ok(Error::IndexOutOfBound),
        HostError::ItemMissing => Ok(Error::ItemMissing),
        HostError::LengthNotEnough(_) => Ok(Error::LengthNotEnough),
        HostError::Encoding => Ok(Error::Encoding),
        _ => Err(Fault::UnexpectedHostError),
    }
}

/// Classifies a host error: the four structural errors become rejections of the
/// same name, every other one is a fault.
pub fn classify_host_error(e: HostError) -> (r: Result<Error, Fault>)
    ensures
        r == host_outcome(e),
{
    match e {
        HostError::IndexOutOfBound => Ok(Error::IndexOutOfBound),
        HostError::ItemMissing => Ok(Error::ItemMissing),
        HostError::LengthNotEnough(_) => Ok(Error::LengthNotEnough),
        HostError::Encoding => Ok(Error::Encoding),
        _ => Err(Fault::UnexpectedHostError),
    }
}

/// The exit status of a outcome: 0 when authorized, the rejection's code otherwise.
pub open spec fn spec_exit_code(v: Result<(), Error>) -> i8 {
    match v {
        Ok(()) => 0,
        Err(e) => e.spec_code(),
    }
}

/// The exit status of a outcome: 0 when authorized, the rejection's code otherwise.
pub fn exit_code(v: &Result<(), Error>) -> (r: i8)
    ensures
        r == spec_exit_code(*v),
        (r == 0) == (*v is Ok),
{
    match v {
        Ok(()) => 0,
        Err(e) => e.code(),
    }
}

/// Reads a status code returned by the loaded library: 0 is success, any other
/// value a failure that carries the code.
pub fn status_to_result(code: i32) -> (r: Result<(), i32>)
    ensures
        code == 0 ==> r == Ok::<(), i32>(()),
        code != 0 ==> r == Err::<(), i32>(code),
{
    if code == 0 {
        Ok(())
    } else {
        Err(code)
    }
}

} // verus!
