use vstd::prelude::*;

verus! {

/// The escrow's own failures, each with a stable numeric code.
#[derive(Clone, Copy, Debug, PartialEq, Eq, Structural)]
pub enum EscrowError {
    InvalidInstruction,
    InvalidEscrowAddress,
    InvalidVaultAccount,
    InvalidTokenAccount,
    InvalidSigner,
    InvalidPreimage,
    NotActive,
    TooEarly,
}

/// Everything an invocation can fail with: an escrow error, or a structural
/// fault of what the host handed in.
#[derive(Clone, Copy, Debug, PartialEq, Eq, Structural)]
pub enum Failure {
    /// One of the escrow's typed errors.
    Escrow(EscrowError),
    /// An account that must be writable is not, or the record bytes are corrupt.
    InvalidAccountData,
    /// Fewer accounts than the instruction needs.
    NotEnoughAccountKeys,
    /// The time oracle could not be read.
    ClockUnavailable,
    /// The escrow account for this commitment exists already.
    AccountAlreadyInitialized,
}

/// The numeric code of each escrow error.
pub open spec fn error_code(e: EscrowError) -> u32 {
    match e {
        EscrowError::InvalidInstruction => 1,
        EscrowError::InvalidEscrowAddress => 2,
        EscrowError::InvalidVaultAccount => 3,
        EscrowError::InvalidTokenAccount => 4,
        EscrowError::InvalidSigner => 5,
        EscrowError::InvalidPreimage => 6,
        EscrowError::NotActive => 7,
        EscrowError::TooEarly => 8,
    }
}

impl EscrowError {
    /// The code under which the host reports this error.
    pub fn code(&self) -> (c: u32)
        ensures
            c == error_code(*self),
            1 <= c <= 8,
    {
        match self {
            EscrowError::InvalidInstruction => 1,
            EscrowError::InvalidEscrowAddress => 2,
            EscrowError::InvalidVaultAccount => 3,
            EscrowError::InvalidTokenAccount => 4,
            EscrowError::InvalidSigner => 5,
            EscrowError::InvalidPreimage => 6,
            EscrowError::NotActive => 7,
            EscrowError::TooEarly => 8,
        }
    }

    /// The error that a code stands for, if any.
    pub fn from_code(c: u32) -> (r: Option<EscrowError>)
        ensures
            r is Some <==> 1 <= c <= 8,
            r matches Some(e) ==> error_code(e) == c,
    {
        match c {
            1 => Some(EscrowError::InvalidInstruction),
            2 => Some(EscrowError::InvalidEscrowAddress),
            3 => Some(EscrowError::InvalidVaultAccount),
            4 => Some(EscrowError::InvalidTokenAccount),
            5 => Some(EscrowError::InvalidSigner),
            6 => Some(EscrowError::InvalidPreimage),
            7 => Some(EscrowError::NotActive),
            8 => Some(EscrowError::TooEarly),
            _ => None,
        }
    }
}

/// Distinct errors have distinct codes, so a client can map a code back to
/// its reason.
pub proof fn error_codes_distinct(a: EscrowError, b: EscrowError)
    requires
        error_code(a) == error_code(b),
    ensures
        a == b,
{
}

} // verus!
