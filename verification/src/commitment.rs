//! Hash commitments `C = H(m ‖ r)` with a 256-bit blinding factor `r`.
//! Binding comes from collision resistance of the personalized Blake2b and
//! hiding from the uniform blinding; the verifier recomputes the digest
//! from a revealed opening and compares bytewise.

use vstd::prelude::*;

use crate::curve::random_bytes;
use crate::encoding::push_all;
use crate::hashing::blake2b_rjj;

verus! {

/// The number of blinding bits of a hash commitment.
pub const SECURITY_BITS: usize = 256;

/// The commitment digest for committed bytes `m` and blinding bytes `r`.
pub open spec fn commitment_spec(m: Seq<u8>, r: Seq<u8>) -> Seq<u8> {
    blake2b_rjj(m + r)
}

/// Hash-based commitment scheme: `C = H(m ‖ r)`.
pub struct HashCommitment;

impl HashCommitment {
    /// The commitment to `message` under the caller's `blinding_factor`.
    pub fn create_commitment_with_user_defined_randomness(
        message: &Vec<u8>,
        blinding_factor: &Vec<u8>,
    ) -> (r: Vec<u8>)
        ensures
            r@ == commitment_spec(message@, blinding_factor@),
            r@.len() == 64,
    {
        let mut data = crate::encoding::clone_bytes(message);
        push_all(&mut data, blinding_factor);
        crate::hashing::blake2b_bytes(&data)
    }

    /// Commits to `message` under a fresh uniform 256-bit blinding factor,
    /// returning the commitment and the blinding factor.
    pub fn create_commitment(message: &Vec<u8>) -> (r: (Vec<u8>, Vec<u8>))
        ensures
            r.0@ == commitment_spec(message@, r.1@),
            r.1@.len() == 32,
    {
        let blinding_factor = random_bytes(SECURITY_BITS / 8);
        let com = HashCommitment::create_commitment_with_user_defined_randomness(
            message,
            &blinding_factor,
        );
        (com, blinding_factor)
    }
}

} // verus!
