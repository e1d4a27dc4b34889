//! Non-interactive Schnorr proof of knowledge of a discrete log, made
//! non-interactive by the Fiat-Shamir transform: to prove knowledge of `x`
//! with `P = x·G`, the prover samples `t`, commits `T = t·G`, derives the
//! challenge `e` from the transcript `G ‖ P ‖ T`, and answers
//! `z = t + e·x`. The verifier accepts exactly when `z·G = T + e·P`.

use vstd::prelude::*;

use crate::curve::{group_order, pt_enc, Point, Scalar};
use crate::encoding::push_all;
use crate::hashing::{hash_to_scalar, hash_to_scalar_spec};
use crate::ProofError;

verus! {

use vstd::arithmetic::div_mod::{
    lemma_add_mod_noop_right,
    lemma_small_mod,
};

/// The challenge transcript `G ‖ P ‖ T` of a proof for public key encoding
/// `pk` and commitment encoding `t`.
pub open spec fn dlog_transcript(pk: Seq<u8>, t: Seq<u8>) -> Seq<u8> {
    pt_enc(1) + pk + t
}

/// The Fiat-Shamir challenge of a proof for `pk` and `t`.
pub open spec fn dlog_challenge(pk: Seq<u8>, t: Seq<u8>) -> nat {
    hash_to_scalar_spec(dlog_transcript(pk, t))
}

/// A Schnorr proof of knowledge of the discrete log of `pk`.
#[derive(Debug)]
pub struct DLogProof {
    /// The statement: the point whose discrete log is known.
    pub pk: Point,
    /// The prover's commitment `T = t·G`.
    pub pk_t_rand_commitment: Point,
    /// The response `z = t + e·x`.
    pub challenge_response: Scalar,
}

/// The verification equation `z·G = T + e·P`, read at the discrete-log
/// level: the response is the commitment's value plus challenge times the
/// public key's value, mod the group order.
pub open spec fn dlog_proof_ok(pf: DLogProof) -> bool {
    pf.challenge_response.val() % group_order() == (pf.pk_t_rand_commitment.val()
        + dlog_challenge(pf.pk.bytes(), pf.pk_t_rand_commitment.bytes()) * pf.pk.val())
        % group_order()
}

impl DLogProof {
    /// Proves knowledge of `x`; the proof names `x·G` as its statement and
    /// satisfies the verification equation.
    pub fn prove(x: &Scalar) -> (r: DLogProof)
        ensures
            r.pk.val() == x.val(),
            dlog_proof_ok(r),
    {
        let base = Point::generator();
        let pk = base.scalar_mul(x);
        let t = Scalar::new_random();
        let pk_t_rand_commitment = base.scalar_mul(&t);
        let e = hash_to_scalar(&Self::transcript(&pk, &pk_t_rand_commitment));
        let ex = e.mul(x);
        let z = t.add(&ex);
        proof {
            use_type_invariant(x);
            use_type_invariant(&t);
            use_type_invariant(&z);
            let q = group_order() as int;
            lemma_small_mod(x.val(), group_order());
            lemma_small_mod(t.val(), group_order());
            lemma_small_mod(z.val(), group_order());
            lemma_add_mod_noop_right(t.val() as int, (e.val() * x.val()) as int, q);
        }
        DLogProof { pk, pk_t_rand_commitment, challenge_response: z }
    }

    /// Accepts exactly the proofs whose verification equation holds; any
    /// other proof is rejected as `ProofInvalid`.
    pub fn verify(proof: &DLogProof) -> (r: Result<(), ProofError>)
        ensures
            r is Ok <==> dlog_proof_ok(*proof),
            r is Err ==> r->Err_0 == ProofError::ProofInvalid,
    {
        let base = Point::generator();
        let e = hash_to_scalar(&Self::transcript(&proof.pk, &proof.pk_t_rand_commitment));
        let lhs = base.scalar_mul(&proof.challenge_response);
        let epk = proof.pk.scalar_mul(&e);
        let rhs = proof.pk_t_rand_commitment.add_point(&epk);
        proof {
            use_type_invariant(&lhs);
            use_type_invariant(&rhs);
            use_type_invariant(&proof.challenge_response);
            let q = group_order() as int;
            lemma_add_mod_noop_right(
                proof.pk_t_rand_commitment.val() as int,
                (e.val() * proof.pk.val()) as int,
                q,
            );
        }
        if lhs == rhs {
            Ok(())
        } else {
            Err(ProofError::ProofInvalid)
        }
    }

    /// The transcript `G ‖ P ‖ T` as bytes.
    fn transcript(pk: &Point, t: &Point) -> (r: Vec<u8>)
        ensures
            r@ == dlog_transcript(pk.bytes(), t.bytes()),
    {
        proof {
            use_type_invariant(pk);
        }
        let base = Point::generator();
        proof {
            use_type_invariant(&base);
        }
        let mut data = base.to_bytes();
        push_all(&mut data, &pk.to_bytes());
        push_all(&mut data, &t.to_bytes());
        data
    }
}

} // verus!
