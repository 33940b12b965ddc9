use vstd::prelude::*;

verus! {

/// Error codes of the FF-A protocol, with `Success` for the zero code and `UnknownError` for any integer
/// outside the specified range.
#[derive(Clone, Copy, Debug, PartialEq, Eq, Structural, PartialOrd, Ord)]
pub enum FfaError {
    Success,
    NotSupported,
    InvalidParameters,
    NoMemory,
    Busy,
    Interrupted,
    Denied,
    Retry,
    Aborted,
    UnknownError,
}

pub type Result<T> = core::result::Result<T, FfaError>;

/// Failure of a call made with the opcode idiom.
#[derive(Clone, Copy, Debug, PartialEq, Eq, Structural)]
pub enum CallError {
    /// The receiving world answered with the Error opcode and this code.
    Ffa(FfaError),
    /// The receiving world answered with an opcode that the request does not
    /// allow: the two sides disagree about the protocol state. Fatal.
    Unexpected(u64),
}

pub type CallResult<T> = core::result::Result<T, CallError>;

/// A 64-bit register read as a two's complement signed value.
pub open spec fn signed64(v: u64) -> int {
    if v < 0x8000_0000_0000_0000 {
        v as int
    } else {
        v - 0x1_0000_0000_0000_0000
    }
}

/// The error code held by a register, read as a signed 64-bit value.
pub fn reg_error(v: u64) -> (e: FfaError)
    ensures
        e == error_of(signed64(v)),
{
    let s: i64 = if v < 0x8000_0000_0000_0000 {
        v as i64
    } else {
        -((0xffff_ffff_ffff_ffffu64 - v) as i64) - 1
    };
    FfaError::from_i64(s)
}

/// Wire value of an error code.
pub open spec fn error_code(e: FfaError) -> int {
    match e {
        FfaError::Success => 0,
        FfaError::NotSupported => -1,
        FfaError::InvalidParameters => -2,
        FfaError::NoMemory => -3,
        FfaError::Busy => -4,
        FfaError::Interrupted => -5,
        FfaError::Denied => -6,
        FfaError::Retry => -7,
        FfaError::Aborted => -8,
        FfaError::UnknownError => i64::MIN as int,
    }
}

/// Error code carried by a wire value: anything outside `-8..=0` is unknown.
pub open spec fn error_of(v: int) -> FfaError {
    if v == 0 {
        FfaError::Success
    } else if v == -1 {
        FfaError::NotSupported
    } else if v == -2 {
        FfaError::InvalidParameters
    } else if v == -3 {
        FfaError::NoMemory
    } else if v == -4 {
        FfaError::Busy
    } else if v == -5 {
        FfaError::Interrupted
    } else if v == -6 {
        FfaError::Denied
    } else if v == -7 {
        FfaError::Retry
    } else if v == -8 {
        FfaError::Aborted
    } else {
        FfaError::UnknownError
    }
}

impl FfaError {
    pub fn into_i64(self) -> (r: i64)
        ensures
            r == error_code(self),
    {
        match self {
            FfaError::Success => 0,
            FfaError::NotSupported => -1,
            FfaError::InvalidParameters => -2,
            FfaError::NoMemory => -3,
            FfaError::Busy => -4,
            FfaError::Interrupted => -5,
            FfaError::Denied => -6,
            FfaError::Retry => -7,
            FfaError::Aborted => -8,
            FfaError::UnknownError => i64::MIN,
        }
    }

    pub fn from_i64(value: i64) -> (r: FfaError)
        ensures
            r == error_of(value as int),
    {
        match value {
            0 => FfaError::Success,
            -1 => FfaError::NotSupported,
            -2 => FfaError::InvalidParameters,
            -3 => FfaError::NoMemory,
            -4 => FfaError::Busy,
            -5 => FfaError::Interrupted,
            -6 => FfaError::Denied,
            -7 => FfaError::Retry,
            -8 => FfaError::Aborted,
            _ => FfaError::UnknownError,
        }
    }

    /// `Success` becomes `Ok(())`; every other code is returned as the error.
    pub fn into_result(self) -> (r: Result<()>)
        ensures
            self == FfaError::Success ==> r == Ok::<(), FfaError>(()),
            self != FfaError::Success ==> r == Err::<(), FfaError>(self),
    {
        match self {
            FfaError::Success => Ok(()),
            err => Err(err),
        }
    }
}

impl From<FfaError> for i64 {
    fn from(value: FfaError) -> i64 {
        value.into_i64()
    }
}

impl vstd::std_specs::convert::FromSpecImpl<FfaError> for i64 {
    open spec fn obeys_from_spec() -> bool {
        true
    }

    open spec fn from_spec(v: FfaError) -> i64 {
        error_code(v) as i64
    }
}

impl From<i64> for FfaError {
    fn from(value: i64) -> FfaError {
        FfaError::from_i64(value)
    }
}

impl vstd::std_specs::convert::FromSpecImpl<i64> for FfaError {
    open spec fn obeys_from_spec() -> bool {
        true
    }

    open spec fn from_spec(v: i64) -> FfaError {
        error_of(v as int)
    }
}

/// Decoding the wire value of a defined error code gives that code back.
pub proof fn lemma_error_round_trip(e: FfaError)
    requires
        e != FfaError::UnknownError,
    ensures
        error_of(error_code(e)) == e,
{
}

/// The wire value of a decoded error code is the value itself when it lies in
/// `-8..=0`.
pub proof fn lemma_error_decode_encode(v: int)
    requires
        -8 <= v <= 0,
    ensures
        error_code(error_of(v)) == v,
{
}

} // verus!
