//! The system's single hash-to-scalar primitive: Blake2b-512 personalized
//! with the 16 bytes `Zcash_RedJubjubH`, reduced into the scalar field.
//! Every challenge and every derivation in the protocol goes through this
//! module; no other hash is used, which is what keeps the domains of the
//! different challenges separated by their transcript shapes alone.

use vstd::prelude::*;

use crate::curve::{group_order, Scalar};
use crate::encoding::{nat_of_le, push_all, reverse_bytes};

verus! {

/// The Blake2b-512 digest, personalized with `Zcash_RedJubjubH`, of a byte
/// string; a fixed function of the input bytes alone.
pub uninterp spec fn blake2b_rjj(data: Seq<u8>) -> Seq<u8>;

/// Relies on `blake2_rfc::blake2b::Blake2b`: hashes the input with a
/// 64-byte output and the personalization `Zcash_RedJubjubH` placed in
/// words 6 and 7 of the parameter block, as RFC 7693 lays it out.
#[verifier::external_body]
fn blake2b_raw(data: &Vec<u8>) -> (r: Vec<u8>)
    ensures
        r@ == blake2b_rjj(data@),
        r@.len() == 64,
{
    let mut p = [0u64; 8];
    // digest length 64, fanout 1, depth 1
    p[0] = 0x0101_0040;
    // "Zcash_Re" and "dJubjubH", little-endian
    p[6] = 0x65525f687361635a;
    p[7] = 0x4862756a62754a64;
    let mut st = blake2_rfc::blake2b::Blake2b::with_parameter_block(&p);
    st.update(data.as_slice());
    st.finalize().as_bytes().to_vec()
}

/// The personalized Blake2b-512 digest of a byte string.
pub fn blake2b_bytes(data: &Vec<u8>) -> (r: Vec<u8>)
    ensures
        r@ == blake2b_rjj(data@),
        r@.len() == 64,
{
    blake2b_raw(data)
}

/// The scalar a transcript hashes to: its digest read as a little-endian
/// integer, reduced mod the group order.
pub open spec fn hash_to_scalar_spec(data: Seq<u8>) -> nat {
    nat_of_le(blake2b_rjj(data)) % group_order()
}

/// Hashes a transcript into a field scalar.
pub fn hash_to_scalar(data: &Vec<u8>) -> (r: Scalar)
    ensures
        r.val() == hash_to_scalar_spec(data@),
{
    let digest = blake2b_raw(data);
    Scalar::from_wide(&digest)
}

/// The signing challenge for nonce encoding `r_enc` and message `msg`,
/// following the RedJubjub little-endian convention: the nonce encoding is
/// reversed before hashing, and the 512-bit digest is reversed before being
/// reduced to a scalar.
pub open spec fn reversed_challenge_spec(r_enc: Seq<u8>, msg: Seq<u8>) -> nat {
    nat_of_le(blake2b_rjj(r_enc.reverse() + msg).reverse()) % group_order()
}

/// Computes the signing challenge on the reversed-encoding path.
pub fn reversed_challenge(r_enc: &Vec<u8>, msg: &Vec<u8>) -> (r: Scalar)
    ensures
        r.val() == reversed_challenge_spec(r_enc@, msg@),
{
    let mut data = reverse_bytes(r_enc);
    push_all(&mut data, msg);
    let digest = blake2b_raw(&data);
    let reversed = reverse_bytes(&digest);
    proof {
        assert(reversed@.len() == 64);
    }
    Scalar::from_wide(&reversed)
}

} // verus!
