//! Poseidon hashing over BN254 with circom parameters, computed locally or
//! decoded from a host call, and the error codes that cross that host boundary.

pub mod circom;
pub mod error;
pub mod hash;
pub mod poseidon;

pub use error::PoseidonSyscallError;
pub use hash::HASH_BYTES;
pub use poseidon::{hash_from_library_result, hash_from_syscall_result, hashv};
