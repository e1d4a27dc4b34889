//! Non-interactive proof that `(g1, h1, g2, h2)` is a DDH tuple: the prover
//! knows one `x` with `h1 = x·g1` and `h2 = x·g2`. The prover samples `t`
//! and commits `A1 = t·g1, A2 = t·g2`; the challenge comes from the
//! transcript `g1 ‖ g2 ‖ h1 ‖ h2 ‖ A1 ‖ A2`; the response is `z = t + e·x`.
//! The verifier accepts exactly when `z·g1 = A1 + e·h1` and
//! `z·g2 = A2 + e·h2`.

use vstd::prelude::*;

use crate::curve::{group_order, pt_val, Point, Scalar};
use crate::encoding::push_all;
use crate::hashing::{hash_to_scalar, hash_to_scalar_spec};
use crate::ProofError;

verus! {

use vstd::arithmetic::div_mod::{
    lemma_add_mod_noop_right,
    lemma_mul_mod_noop_left,
    lemma_small_mod,
};
use vstd::arithmetic::mul::lemma_mul_is_distributive_add_other_way;

/// The statement: `(g1, h1)` and `(g2, h2)` share one discrete log.
#[derive(Debug)]
pub struct ECDDHStatement {
    pub g1: Point,
    pub h1: Point,
    pub g2: Point,
    pub h2: Point,
}

/// The witness: the shared discrete log.
pub struct ECDDHWitness {
    pub x: Scalar,
}

/// The proof: the two commitments and the response.
#[derive(Debug)]
pub struct ECDDHProof {
    pub a1: Point,
    pub a2: Point,
    pub z: Scalar,
}

/// The challenge transcript `g1 ‖ g2 ‖ h1 ‖ h2 ‖ A1 ‖ A2` of a proof, over
/// the statement's four encodings.
pub open spec fn ecddh_transcript_enc(
    g1: Seq<u8>,
    g2: Seq<u8>,
    h1: Seq<u8>,
    h2: Seq<u8>,
    a1: Seq<u8>,
    a2: Seq<u8>,
) -> Seq<u8> {
    g1 + g2 + h1 + h2 + a1 + a2
}

/// Both verification equations for a statement given by its four point
/// encodings, read at the discrete-log level with the recomputed challenge.
pub open spec fn ecddh_ok_enc(
    g1: Seq<u8>,
    g2: Seq<u8>,
    h1: Seq<u8>,
    h2: Seq<u8>,
    pf: ECDDHProof,
) -> bool {
    let e = hash_to_scalar_spec(ecddh_transcript_enc(g1, g2, h1, h2, pf.a1.bytes(), pf.a2.bytes()));
    &&& (pf.z.val() * pt_val(g1)) % group_order() == (pf.a1.val() + e * pt_val(h1))
        % group_order()
    &&& (pf.z.val() * pt_val(g2)) % group_order() == (pf.a2.val() + e * pt_val(h2))
        % group_order()
}

/// The challenge transcript of a proof for a statement.
pub open spec fn ecddh_transcript(st: ECDDHStatement, a1: Seq<u8>, a2: Seq<u8>) -> Seq<u8> {
    ecddh_transcript_enc(st.g1.bytes(), st.g2.bytes(), st.h1.bytes(), st.h2.bytes(), a1, a2)
}

/// The Fiat-Shamir challenge of a proof.
pub open spec fn ecddh_challenge(st: ECDDHStatement, pf: ECDDHProof) -> nat {
    hash_to_scalar_spec(ecddh_transcript(st, pf.a1.bytes(), pf.a2.bytes()))
}

/// Both verification equations, read at the discrete-log level.
pub open spec fn ecddh_proof_ok(st: ECDDHStatement, pf: ECDDHProof) -> bool {
    ecddh_ok_enc(st.g1.bytes(), st.g2.bytes(), st.h1.bytes(), st.h2.bytes(), pf)
}

impl ECDDHProof {
    /// Proves that `(g1, h1, g2, h2)` is a DDH tuple for a witness `x` that
    /// actually relates the statement's four points.
    pub fn prove(w: &ECDDHWitness, delta: &ECDDHStatement) -> (r: ECDDHProof)
        requires
            delta.h1.val() == (w.x.val() * delta.g1.val()) % group_order(),
            delta.h2.val() == (w.x.val() * delta.g2.val()) % group_order(),
        ensures
            ecddh_proof_ok(*delta, r),
    {
        let t = Scalar::new_random();
        let a1 = delta.g1.scalar_mul(&t);
        let a2 = delta.g2.scalar_mul(&t);
        let e = hash_to_scalar(&Self::transcript(delta, &a1, &a2));
        let ex = e.mul(&w.x);
        let z = t.add(&ex);
        proof {
            lemma_ecddh_complete(
                t.val(),
                e.val(),
                w.x.val(),
                z.val(),
                delta.g1.val(),
                delta.h1.val(),
                a1.val(),
            );
            lemma_ecddh_complete(
                t.val(),
                e.val(),
                w.x.val(),
                z.val(),
                delta.g2.val(),
                delta.h2.val(),
                a2.val(),
            );
        }
        ECDDHProof { a1, a2, z }
    }

    /// Accepts exactly the proofs whose two verification equations hold;
    /// any other proof is rejected as `ProofInvalid`.
    pub fn verify(&self, delta: &ECDDHStatement) -> (r: Result<(), ProofError>)
        ensures
            r is Ok <==> ecddh_proof_ok(*delta, *self),
            r is Err ==> r->Err_0 == ProofError::ProofInvalid,
    {
        let e = hash_to_scalar(&Self::transcript(delta, &self.a1, &self.a2));
        let lhs1 = delta.g1.scalar_mul(&self.z);
        let rhs1 = self.a1.add_point(&delta.h1.scalar_mul(&e));
        let lhs2 = delta.g2.scalar_mul(&self.z);
        let rhs2 = self.a2.add_point(&delta.h2.scalar_mul(&e));
        proof {
            use_type_invariant(&lhs1);
            use_type_invariant(&rhs1);
            use_type_invariant(&lhs2);
            use_type_invariant(&rhs2);
            let q = group_order() as int;
            lemma_add_mod_noop_right(self.a1.val() as int, (e.val() * delta.h1.val()) as int, q);
            lemma_add_mod_noop_right(self.a2.val() as int, (e.val() * delta.h2.val()) as int, q);
        }
        if lhs1 == rhs1 && lhs2 == rhs2 {
            Ok(())
        } else {
            Err(ProofError::ProofInvalid)
        }
    }

    /// The transcript `g1 ‖ g2 ‖ h1 ‖ h2 ‖ A1 ‖ A2` as bytes.
    fn transcript(st: &ECDDHStatement, a1: &Point, a2: &Point) -> (r: Vec<u8>)
        ensures
            r@ == ecddh_transcript(*st, a1.bytes(), a2.bytes()),
    {
        let mut data = st.g1.to_bytes();
        push_all(&mut data, &st.g2.to_bytes());
        push_all(&mut data, &st.h1.to_bytes());
        push_all(&mut data, &st.h2.to_bytes());
        push_all(&mut data, &a1.to_bytes());
        push_all(&mut data, &a2.to_bytes());
        data
    }
}

/// One honest-prover equation: if `h = x·g`, `a = t·g` and
/// `z = t + e·x mod q`, then `z·g = a + e·h mod q`.
proof fn lemma_ecddh_complete(t: nat, e: nat, x: nat, z: nat, g: nat, h: nat, a: nat)
    requires
        h == (x * g) % group_order(),
        a == (t * g) % group_order(),
        z == (t + (e * x) % group_order()) % group_order(),
    ensures
        (z * g) % group_order() == (a + e * h) % group_order(),
{
    let q = group_order() as int;
    let ti = t as int;
    let ei = e as int;
    let xi = x as int;
    let gi = g as int;
    // z*g mod q == (t + e*x)*g mod q
    lemma_add_mod_noop_right(ti, ei * xi, q);
    lemma_mul_mod_noop_left((ti + ei * xi) % q, gi, q);
    lemma_mul_mod_noop_left(ti + ei * xi, gi, q);
    assert((z * g) % group_order() == ((ti + ei * xi) * gi) % q);
    // (t + e*x)*g == t*g + e*(x*g)
    lemma_mul_is_distributive_add_other_way(gi, ti, ei * xi);
    assert(ei * xi * gi == ei * (xi * gi)) by (nonlinear_arith);
    // a + e*h mod q == t*g + e*(x*g) mod q
    lemma_add_mod_noop_right(ei * (xi * gi), ti * gi, q);
    assert((ti * gi % q + ei * (xi * gi)) % q == (ti * gi + ei * (xi * gi)) % q) by {
        lemma_add_mod_noop_right(ei * (xi * gi), ti * gi % q, q);
        vstd::arithmetic::div_mod::lemma_mod_twice(ti * gi, q);
    }
    assert((ei * ((xi * gi) % q)) % q == (ei * (xi * gi)) % q) by {
        vstd::arithmetic::div_mod::lemma_mul_mod_noop_right(ei, xi * gi, q);
    }
    lemma_add_mod_noop_right(ti * gi % q, ei * ((xi * gi) % q), q);
    lemma_add_mod_noop_right(ti * gi % q, ei * (xi * gi), q);
}

} // verus!
