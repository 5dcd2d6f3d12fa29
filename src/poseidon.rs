//! The hash entry point and the two ways its result is obtained: computed by
//! the hashing library, or reported by a host call as a status code and an
//! output buffer.

use vstd::prelude::*;

use light_poseidon::PoseidonError;

use crate::circom::{circom_digest, circom_hash_bytes, inputs_of, MAX_INPUTS};
use crate::error::{code_of_error, error_of_code, error_of_library, PoseidonSyscallError};
use crate::hash::HASH_BYTES;

verus! {

/// The result of the local path, given what the hashing library returned.
pub open spec fn local_result(res: Result<[u8; HASH_BYTES], PoseidonError>) -> Result<
    crate::hash::Hash,
    PoseidonSyscallError,
> {
    match res {
        Ok(d) => Ok(crate::hash::Hash(d)),
        Err(e) => Err(error_of_library(e)),
    }
}

/// The result of the delegated path, given the host call's status code and
/// the output buffer it filled: status 0 is success.
pub open spec fn delegated_result(status: u64, output: [u8; HASH_BYTES]) -> Result<
    crate::hash::Hash,
    PoseidonSyscallError,
> {
    if status == 0 {
        Ok(crate::hash::Hash(output))
    } else {
        Err(error_of_code(status))
    }
}

/// The status code that reports a result across the host boundary.
pub open spec fn status_of(r: Result<crate::hash::Hash, PoseidonSyscallError>) -> u64 {
    match r {
        Ok(_) => 0,
        Err(e) => code_of_error(e),
    }
}

/// The output buffer that reports a result across the host boundary: the
/// digest, or zeros on failure.
pub open spec fn output_of(r: Result<crate::hash::Hash, PoseidonSyscallError>) -> [u8; HASH_BYTES] {
    match r {
        Ok(h) => h.0,
        Err(_) => [0u8; HASH_BYTES],
    }
}

/// Turns the hashing library's outcome into a digest or an error kind.
pub fn hash_from_library_result(res: Result<[u8; HASH_BYTES], PoseidonError>) -> (r: Result<
    crate::hash::Hash,
    PoseidonSyscallError,
>)
    ensures
        r == local_result(res),
{
    match res {
        Ok(d) => Ok(crate::hash::Hash::new_from_array(d)),
        Err(e) => Err(PoseidonSyscallError::from(e)),
    }
}

/// Turns a host call's status code and output buffer into a digest or an
/// error kind.
pub fn hash_from_syscall_result(status: u64, output: [u8; HASH_BYTES]) -> (r: Result<
    crate::hash::Hash,
    PoseidonSyscallError,
>)
    ensures
        r == delegated_result(status, output),
{
    if status == 0 {
        Ok(crate::hash::Hash::new_from_array(output))
    } else {
        Err(PoseidonSyscallError::from(status))
    }
}

/// Hashes the inputs, in order, with the circom Poseidon parameters whose
/// width is one more than the number of inputs. Between 1 and 15 inputs are
/// supported; any other count is an invalid width.
pub fn hashv(vals: &[&[u8]]) -> (r: Result<crate::hash::Hash, PoseidonSyscallError>)
    ensures
        1 <= vals@.len() <= MAX_INPUTS ==> (r matches Ok(h) && h@ == circom_digest(
            inputs_of(vals),
        )),
        (vals@.len() == 0 || vals@.len() > MAX_INPUTS) ==> r == Err::<
            crate::hash::Hash,
            PoseidonSyscallError,
        >(PoseidonSyscallError::InvalidWidthCircom),
{
    if vals.len() == 0 || vals.len() == usize::MAX {
        // Widths 1 and beyond 16 have no parameters; the hashing library
        // would panic on them rather than report an error.
        return Err(PoseidonSyscallError::InvalidWidthCircom);
    }
    let res = circom_hash_bytes(vals);
    hash_from_library_result(res)
}

/// Both paths agree: when the host computes what the library computes and
/// reports it through a status code and an output buffer, the delegated path
/// returns exactly what the local path returns.
pub proof fn lemma_paths_agree(res: Result<[u8; HASH_BYTES], PoseidonError>)
    ensures
        delegated_result(status_of(local_result(res)), output_of(local_result(res)))
            == local_result(res),
{
    match res {
        Ok(_) => {},
        Err(e) => {
            crate::error::lemma_error_round_trip(error_of_library(e));
        },
    }
}

} // verus!
