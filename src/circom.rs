//! The boundary to `light_poseidon`, which computes Poseidon over BN254 with
//! the circom parameters.

use vstd::prelude::*;

use light_poseidon::{Poseidon, PoseidonBytesHasher, PoseidonError};

verus! {

/// Most inputs for which the circom parameters define a permutation: widths
/// run from 2 to 16, one more than the number of inputs.
pub const MAX_INPUTS: usize = 15;

#[verifier::external_type_specification]
pub struct ExPoseidonError(PoseidonError);

/// The byte slices that a hash call is handed, as sequences of bytes.
pub open spec fn inputs_of(vals: &[&[u8]]) -> Seq<Seq<u8>> {
    vals@.map_values(|s: &[u8]| s@)
}

/// The big-endian digest of the Poseidon permutation with circom parameters,
/// of width one more than the number of inputs, over the inputs read as
/// big-endian integers reduced modulo the BN254 scalar field.
pub uninterp spec fn circom_digest(inputs: Seq<Seq<u8>>) -> Seq<u8>;

/// Relies on light_poseidon's `Poseidon::<Fr>::new_circom` and
/// `PoseidonBytesHasher::hash_bytes`. `new_circom(n)` computes the width
/// `n + 1` and fails with `InvalidWidthCircom` when it exceeds 16; it panics for
/// `n == 0` (no parameters for width 1) and on overflow of `n + 1`.
/// `hash_bytes` reads each input as a big-endian integer modulo the field
/// order, so it accepts inputs of any length, and with as many inputs as the
/// hasher was made for it returns the 32 big-endian bytes of the digest.
#[verifier::external_body]
pub(crate) fn circom_hash_bytes(vals: &[&[u8]]) -> (r: Result<[u8; 32], PoseidonError>)
    requires
        1 <= vals@.len() < usize::MAX,
    ensures
        vals@.len() <= MAX_INPUTS ==> r is Ok,
        r is Ok ==> r->Ok_0@ == circom_digest(inputs_of(vals)),
        vals@.len() > MAX_INPUTS ==> r is Err && r->Err_0 is InvalidWidthCircom,
{
    let mut poseidon = Poseidon::<ark_bn254::Fr>::new_circom(vals.len())?;
    poseidon.hash_bytes(vals)
}

} // verus!
