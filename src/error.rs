use vstd::prelude::*;

use light_poseidon::PoseidonError;

verus! {

/// What can go wrong while hashing; each kind travels across the host
/// boundary as a small integer code.
#[derive(Debug, Clone, Copy, PartialEq, Eq, Structural)]
pub enum PoseidonSyscallError {
    InvalidNumberOfInputs,
    VecToArray,
    U64Tou8,
    InvalidWidthCircom,
    Unexpected,
}

/// The error that a status code stands for; unknown codes are `Unexpected`.
pub open spec fn error_of_code(code: u64) -> PoseidonSyscallError {
    if code == 1 {
        PoseidonSyscallError::InvalidNumberOfInputs
    } else if code == 2 {
        PoseidonSyscallError::VecToArray
    } else if code == 3 {
        PoseidonSyscallError::U64Tou8
    } else if code == 4 {
        PoseidonSyscallError::InvalidWidthCircom
    } else {
        PoseidonSyscallError::Unexpected
    }
}

/// The status code that carries an error.
pub open spec fn code_of_error(e: PoseidonSyscallError) -> u64 {
    match e {
        PoseidonSyscallError::InvalidNumberOfInputs => 1,
        PoseidonSyscallError::VecToArray => 2,
        PoseidonSyscallError::U64Tou8 => 3,
        PoseidonSyscallError::InvalidWidthCircom => 4,
        PoseidonSyscallError::Unexpected => 5,
    }
}

impl From<u64> for PoseidonSyscallError {
    fn from(error: u64) -> (r: Self)
        ensures
            r == error_of_code(error),
    {
        match error {
            1 => PoseidonSyscallError::InvalidNumberOfInputs,
            2 => PoseidonSyscallError::VecToArray,
            3 => PoseidonSyscallError::U64Tou8,
            4 => PoseidonSyscallError::InvalidWidthCircom,
            _ => PoseidonSyscallError::Unexpected,
        }
    }
}

impl vstd::std_specs::convert::FromSpecImpl<u64> for PoseidonSyscallError {
    open spec fn obeys_from_spec() -> bool {
        true
    }

    open spec fn from_spec(v: u64) -> PoseidonSyscallError {
        error_of_code(v)
    }
}

impl From<PoseidonSyscallError> for u64 {
    fn from(error: PoseidonSyscallError) -> (r: Self)
        ensures
            r == code_of_error(error),
    {
        match error {
            PoseidonSyscallError::InvalidNumberOfInputs => 1,
            PoseidonSyscallError::VecToArray => 2,
            PoseidonSyscallError::U64Tou8 => 3,
            PoseidonSyscallError::InvalidWidthCircom => 4,
            PoseidonSyscallError::Unexpected => 5,
        }
    }
}

impl vstd::std_specs::convert::FromSpecImpl<PoseidonSyscallError> for u64 {
    open spec fn obeys_from_spec() -> bool {
        true
    }

    open spec fn from_spec(v: PoseidonSyscallError) -> u64 {
        code_of_error(v)
    }
}

/// The error kind that a failure of the hashing library is reported as.
pub open spec fn error_of_library(e: PoseidonError) -> PoseidonSyscallError {
    match e {
        PoseidonError::InvalidNumberOfInputs { .. } => PoseidonSyscallError::InvalidNumberOfInputs,
        PoseidonError::VecToArray => PoseidonSyscallError::VecToArray,
        PoseidonError::U64Tou8 => PoseidonSyscallError::U64Tou8,
        PoseidonError::InvalidWidthCircom { .. } => PoseidonSyscallError::InvalidWidthCircom,
    }
}

impl From<PoseidonError> for PoseidonSyscallError {
    fn from(error: PoseidonError) -> (r: Self)
        ensures
            r == error_of_library(error),
    {
        match error {
            PoseidonError::InvalidNumberOfInputs { .. } => {
                PoseidonSyscallError::InvalidNumberOfInputs
            },
            PoseidonError::VecToArray => PoseidonSyscallError::VecToArray,
            PoseidonError::U64Tou8 => PoseidonSyscallError::U64Tou8,
            PoseidonError::InvalidWidthCircom { .. } => {
                PoseidonSyscallError::InvalidWidthCircom
            },
        }
    }
}

impl vstd::std_specs::convert::FromSpecImpl<PoseidonError> for PoseidonSyscallError {
    open spec fn obeys_from_spec() -> bool {
        true
    }

    open spec fn from_spec(v: PoseidonError) -> PoseidonSyscallError {
        error_of_library(v)
    }
}

/// Decoding a status code and encoding the error again gives the code back for
/// every defined code 1 to 4; any other code decodes to `Unexpected`, whose
/// code is 5.
pub proof fn lemma_code_round_trip(code: u64)
    ensures
        1 <= code <= 4 ==> code_of_error(error_of_code(code)) == code,
        !(1 <= code <= 4) ==> error_of_code(code) == PoseidonSyscallError::Unexpected
            && code_of_error(error_of_code(code)) == 5,
{
}

/// Encoding an error and decoding its code gives the same error back.
pub proof fn lemma_error_round_trip(e: PoseidonSyscallError)
    ensures
        error_of_code(code_of_error(e)) == e,
        1 <= code_of_error(e) <= 5,
{
}

} // verus!
