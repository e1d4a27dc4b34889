//! The shared objects of the two-party protocol: long-term and ephemeral
//! key pairs, the signature, the key-aggregation helpers, and the aggregate
//! verifier. The signing challenge follows the RedJubjub little-endian
//! convention: the nonce encoding is reversed before hashing and the digest
//! is reversed before reduction, on both parties' signing paths and in the
//! verifier.

use vstd::prelude::*;

use crate::curve::{group_order, Point, Scalar};
use crate::hashing::{reversed_challenge, reversed_challenge_spec};
use crate::Error;

verus! {

use vstd::arithmetic::div_mod::{lemma_add_mod_noop_right, lemma_small_mod};

/// A party's long-term key share: `ak = ask·G`. The secret `ask` should be
/// wiped with `zeroize_secret` when the key share is retired.
#[derive(Debug)]
pub struct EcKeyPair {
    pub ak: Point,
    pub ask: Scalar,
}

/// The public context of one signing session.
#[derive(Debug)]
pub struct EphemeralKey {
    pub message: Vec<u8>,
    pub vk: Point,
    pub R: Point,
}

/// A secret scalar in a container of its own: distinct from public
/// scalars, so that a secret cannot be read, cloned or serialized by
/// accident. Contracts speak of it only through `val`; the bytes never
/// leave the crate.
#[derive(Debug)]
pub struct SecretScalar {
    inner: Scalar,
}

impl SecretScalar {
    /// The secret's value, for contracts only.
    pub closed spec fn val(self) -> nat {
        self.inner.val()
    }
}

/// A party's per-signature nonce share: `R_i = r_i·G`. The secret `r_i`
/// never leaves the crate and should be wiped when the session ends.
#[derive(Debug)]
pub struct EphEcKeyPair {
    pub R_i: Point,
    pub r_i: SecretScalar,
}

/// A completed signature.
#[derive(Debug, PartialEq)]
pub struct Signature {
    pub s: Scalar,
    pub R: Point,
}

impl EcKeyPair {
    /// Whether the share is internally consistent: `ak = ask·G`.
    pub open spec fn consistent(self) -> bool {
        self.ak.val() == self.ask.val() % group_order()
    }

    /// Wipes the secret share.
    pub fn zeroize_secret(&mut self)
        ensures
            final(self).ask.val() == 0,
            final(self).ak.bytes() == old(self).ak.bytes(),
    {
        self.ask.zeroize();
    }
}

impl EphEcKeyPair {
    /// The value of the secret nonce, for contracts only.
    pub open spec fn secret_val(self) -> nat {
        self.r_i.val()
    }

    /// Whether the nonce share is internally consistent: `R_i = r_i·G`.
    pub open spec fn consistent(self) -> bool {
        self.R_i.val() == self.secret_val() % group_order()
    }

    /// Packs a nonce share; crate-internal, used by the two parties' key
    /// generation.
    pub(crate) fn assemble(R_i: Point, r_i: Scalar) -> (r: Self)
        ensures
            r.R_i == R_i,
            r.secret_val() == r_i.val(),
    {
        EphEcKeyPair { R_i, r_i: SecretScalar { inner: r_i } }
    }

    /// The secret nonce; crate-internal, used by the partial-signature
    /// computations.
    pub(crate) fn secret(&self) -> (r: &Scalar)
        ensures
            r.val() == self.secret_val(),
    {
        &self.r_i.inner
    }

    /// Wipes the secret nonce.
    pub fn zeroize_secret(&mut self)
        ensures
            final(self).secret_val() == 0,
            final(self).R_i.bytes() == old(self).R_i.bytes(),
    {
        self.r_i.inner.zeroize();
    }
}

impl Signature {
    /// Decodes a signature from its two 32-byte encodings; anything that is
    /// not a canonical scalar and a canonical subgroup point is rejected as
    /// `BadEncoding`.
    pub fn from_bytes(s: &Vec<u8>, R: &Vec<u8>) -> (r: Result<Signature, crate::ProofError>)
        ensures
            r is Ok <==> (s@.len() == 32 && crate::encoding::nat_of_le(s@) < group_order()
                && R@.len() == 32 && crate::curve::is_point_encoding(R@)),
            r is Ok ==> r->Ok_0.s.bytes() == s@ && r->Ok_0.R.bytes() == R@,
            r is Err ==> r->Err_0 == crate::ProofError::BadEncoding,
    {
        let sig_s = match Scalar::from_le_bytes(s) {
            Some(v) => v,
            None => {
                return Err(crate::ProofError::BadEncoding);
            },
        };
        let sig_R = match Point::from_bytes(R) {
            Ok(v) => v,
            Err(_) => {
                return Err(crate::ProofError::BadEncoding);
            },
        };
        Ok(Signature { s: sig_s, R: sig_R })
    }
}

/// The joint public key `ak = ak_1 + ak_2`, computed from one party's share
/// and the other party's public share.
pub fn compute_ak(local_share: &EcKeyPair, ak_counter_party: &Point) -> (r: Point)
    ensures
        r.val() == (ak_counter_party.val() + local_share.ak.val()) % group_order(),
{
    ak_counter_party.add_point(&local_share.ak)
}

/// The session verification key `vk = ak + α·G` for the flipped coin `α`.
pub fn compute_vk(ak: &Point, alpha: &Scalar) -> (r: Point)
    ensures
        r.val() == (ak.val() + alpha.val()) % group_order(),
{
    let g = Point::generator();
    let ag = g.scalar_mul(alpha);
    let r = ak.add_point(&ag);
    proof {
        use_type_invariant(alpha);
        lemma_small_mod(alpha.val(), group_order());
        lemma_add_mod_noop_right(ak.val() as int, alpha.val() as int, group_order() as int);
    }
    r
}

/// The joint nonce `R = R_1 + R_2`, computed from one party's nonce share
/// and the other party's public nonce.
pub fn compute_R(local_share: &EphEcKeyPair, R_counter_party: &Point) -> (r: Point)
    ensures
        r.val() == (R_counter_party.val() + local_share.R_i.val()) % group_order(),
{
    R_counter_party.add_point(&local_share.R_i)
}

/// Whether `sig` is a valid signature on `message` under `vk`:
/// `s·G = R + c·vk` for the reversed-encoding challenge `c`.
pub open spec fn signature_valid(vk: Point, message: Seq<u8>, sig: Signature) -> bool {
    sig.s.val() == (sig.R.val() + reversed_challenge_spec(sig.R.bytes(), message) * vk.val())
        % group_order()
}

/// Verifies an aggregate signature against the session key `vk`; accepts
/// exactly the valid ones and rejects the rest as `InvalidSig`.
pub fn verify(vk: Point, message: &Vec<u8>, sig: &Signature) -> (r: Result<(), Error>)
    ensures
        r is Ok <==> signature_valid(vk, message@, *sig),
        r is Err ==> r->Err_0 == Error::InvalidSig,
{
    let c = reversed_challenge(&sig.R.to_bytes(), message);
    let cvk = vk.scalar_mul(&c);
    let R_plus_cvk = sig.R.add_point(&cvk);
    let g = Point::generator();
    let sG = g.scalar_mul(&sig.s);
    proof {
        use_type_invariant(&sG);
        use_type_invariant(&R_plus_cvk);
        use_type_invariant(&sig.s);
        lemma_small_mod(sig.s.val(), group_order());
        lemma_add_mod_noop_right(
            sig.R.val() as int,
            (c.val() * vk.val()) as int,
            group_order() as int,
        );
    }
    if sG == R_plus_cvk {
        Ok(())
    } else {
        Err(Error::InvalidSig)
    }
}

} // verus!
