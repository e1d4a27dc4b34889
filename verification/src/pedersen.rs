//! Proof that a Pedersen commitment `c = m·G + r·H` was built correctly:
//! with both `m` and `c` public, the prover shows knowledge of the blinding
//! `r`. The prover samples `s`, commits `A = s·H`, derives the challenge
//! `e` from the transcript `G ‖ H ‖ c ‖ A ‖ m`, and answers `z = s + e·r`;
//! `s` is wiped as soon as the proof is assembled. The verifier accepts
//! exactly when `e·m·G + z·H = A + e·c`.

use vstd::prelude::*;

use crate::curve::{base2, base2_enc, group_order, pt_enc, Point, Scalar};
use crate::encoding::push_all;
use crate::hashing::{hash_to_scalar, hash_to_scalar_spec};
use crate::ProofError;

verus! {

use vstd::arithmetic::div_mod::{
    lemma_add_mod_noop,
    lemma_add_mod_noop_right,
    lemma_mod_twice,
    lemma_mul_mod_noop_left,
    lemma_mul_mod_noop_right,
    lemma_small_mod,
};
use vstd::arithmetic::mul::{
    lemma_mul_is_distributive_add,
    lemma_mul_is_distributive_add_other_way,
};

/// The challenge transcript `G ‖ H ‖ c ‖ A ‖ m` of a Pedersen blinding
/// proof; `m` enters as its 32-byte scalar encoding.
pub open spec fn pedersen_transcript(com: Seq<u8>, a: Seq<u8>, m: Seq<u8>) -> Seq<u8> {
    pt_enc(1) + base2_enc() + com + a + m
}

/// The Fiat-Shamir challenge of a Pedersen blinding proof.
pub open spec fn pedersen_challenge(com: Seq<u8>, a: Seq<u8>, m: Seq<u8>) -> nat {
    hash_to_scalar_spec(pedersen_transcript(com, a, m))
}

/// A proof of knowledge of the blinding `r` in `com = m·G + r·H`; `m` and
/// `com` are the public statement.
#[derive(Debug)]
pub struct PedersenBlindingProof {
    /// The challenge, recorded for the wire; verification recomputes it.
    pub e: Scalar,
    /// The committed value, public in this protocol.
    pub m: Scalar,
    /// The prover's commitment `A = s·H`.
    pub a: Point,
    /// The Pedersen commitment `m·G + r·H`.
    pub com: Point,
    /// The response `z = s + e·r`.
    pub z: Scalar,
}

/// The verification equation `e·m·G + z·H = A + e·c`, read at the
/// discrete-log level with the recomputed challenge.
pub open spec fn pedersen_proof_ok(pf: PedersenBlindingProof) -> bool {
    let e = pedersen_challenge(pf.com.bytes(), pf.a.bytes(), pf.m.bytes());
    (e * pf.m.val() + pf.z.val() * base2()) % group_order() == (pf.a.val() + e * pf.com.val())
        % group_order()
}

/// The Pedersen commitment `m·G + r·H`.
pub fn pedersen_commit(m: &Scalar, r: &Scalar) -> (c: Point)
    ensures
        c.val() == (m.val() + r.val() * base2()) % group_order(),
{
    let g = Point::generator();
    let h = Point::base_point2();
    let mg = g.scalar_mul(m);
    let rh = h.scalar_mul(r);
    let c = mg.add_point(&rh);
    proof {
        use_type_invariant(m);
        let q = group_order() as int;
        lemma_small_mod(m.val(), group_order());
        lemma_add_mod_noop(m.val() as int, (r.val() * base2()) as int, q);
        lemma_mod_twice(m.val() as int, q);
        lemma_add_mod_noop_right(m.val() as int, (r.val() * base2()) as int, q);
    }
    c
}

/// Proving and verifying well-formedness of a Pedersen commitment.
pub trait ProvePederesenBlind {
    /// Proves knowledge of the blinding `r` of `com = m·G + r·H`. The
    /// returned proof carries `m` and the commitment it speaks about, and
    /// it satisfies the verification equation.
    fn prove(m: &Scalar, r: &Scalar) -> (pf: PedersenBlindingProof)
        ensures
            pf.m.val() == m.val(),
            pf.m.bytes() == m.bytes(),
            pf.com.val() == (m.val() + r.val() * base2()) % group_order(),
            pf.e.val() == pedersen_challenge(pf.com.bytes(), pf.a.bytes(), pf.m.bytes()),
            pedersen_proof_ok(pf),
    ;

    /// Accepts exactly the proofs whose verification equation holds under
    /// the recomputed challenge; rejects anything else as `ProofInvalid`.
    fn verify(pf: &PedersenBlindingProof) -> (res: Result<(), ProofError>)
        ensures
            res is Ok <==> pedersen_proof_ok(*pf),
            res is Err ==> res->Err_0 == ProofError::ProofInvalid,
    ;
}

impl ProvePederesenBlind for PedersenBlindingProof {
    fn prove(m: &Scalar, r: &Scalar) -> (pf: PedersenBlindingProof) {
        let h = Point::base_point2();
        let mut s = Scalar::new_random();
        let a = h.scalar_mul(&s);
        let com = pedersen_commit(m, r);
        let e = transcript_challenge(&com, &a, m);
        let er = e.mul(r);
        let z = s.add(&er);
        proof {
            lemma_pedersen_complete(
                s.val(),
                e.val(),
                m.val(),
                r.val(),
                com.val(),
                a.val(),
                z.val(),
            );
        }
        s.zeroize();
        PedersenBlindingProof { e, m: m.clone(), a, com, z }
    }

    fn verify(pf: &PedersenBlindingProof) -> (res: Result<(), ProofError>) {
        let g = Point::generator();
        let h = Point::base_point2();
        let e = transcript_challenge(&pf.com, &pf.a, &pf.m);
        let mg = g.scalar_mul(&pf.m);
        let emg = mg.scalar_mul(&e);
        let zh = h.scalar_mul(&pf.z);
        let lhs = zh.add_point(&emg);
        let ecom = pf.com.scalar_mul(&e);
        let rhs = ecom.add_point(&pf.a);
        proof {
            use_type_invariant(&lhs);
            use_type_invariant(&rhs);
            use_type_invariant(&pf.m);
            let q = group_order() as int;
            let ev = e.val() as int;
            let mv = pf.m.val() as int;
            let zv = pf.z.val() as int;
            lemma_small_mod(pf.m.val(), group_order());
            // e·(m·G) has value (e·m) mod q
            lemma_mul_mod_noop_right(ev, mv, q);
            // the two sides of the comparison, folded to single mods
            lemma_add_mod_noop((zv * base2()) as int, ev * mv, q);
            lemma_mod_twice(ev * mv, q);
            lemma_add_mod_noop_right(ev * mv, (zv * base2()) as int, q);
            lemma_add_mod_noop_right(pf.a.val() as int, ev * pf.com.val(), q);
        }
        if lhs == rhs {
            Ok(())
        } else {
            Err(ProofError::ProofInvalid)
        }
    }
}

/// Computes the Fiat-Shamir challenge over `G ‖ H ‖ c ‖ A ‖ m`.
fn transcript_challenge(com: &Point, a: &Point, m: &Scalar) -> (r: Scalar)
    ensures
        r.val() == pedersen_challenge(com.bytes(), a.bytes(), m.bytes()),
{
    let g = Point::generator();
    let h = Point::base_point2();
    proof {
        use_type_invariant(&g);
        use_type_invariant(&h);
    }
    let mut data = g.to_bytes();
    push_all(&mut data, &h.to_bytes());
    push_all(&mut data, &com.to_bytes());
    push_all(&mut data, &a.to_bytes());
    push_all(&mut data, &m.to_le_bytes());
    hash_to_scalar(&data)
}

/// Honest-prover completeness: if `com = m + r·h2`, `a = s·h2` and
/// `z = s + e·r`, all mod `q`, then `e·m + z·h2 = a + e·com` mod `q`.
proof fn lemma_pedersen_complete(s: nat, e: nat, m: nat, r: nat, com: nat, a: nat, z: nat)
    requires
        com == (m + (r * base2()) % group_order()) % group_order(),
        a == (s * base2()) % group_order(),
        z == (s + (e * r) % group_order()) % group_order(),
    ensures
        (e * m + z * base2()) % group_order() == (a + e * com) % group_order(),
{
    let q = group_order() as int;
    let h2 = base2() as int;
    let si = s as int;
    let ei = e as int;
    let mi = m as int;
    let ri = r as int;
    // com == (m + r*h2) mod q and z == (s + e*r) mod q
    lemma_add_mod_noop_right(mi, ri * h2, q);
    lemma_add_mod_noop_right(si, ei * ri, q);
    // left side: (e*m + z*h2) mod q == (e*m + (s + e*r)*h2) mod q
    lemma_mul_mod_noop_left(si + ei * ri, h2, q);
    lemma_add_mod_noop_right(ei * mi, ((si + ei * ri) % q) * h2, q);
    lemma_add_mod_noop_right(ei * mi, (si + ei * ri) * h2, q);
    assert((e * m + z * base2()) % group_order() == (ei * mi + (si + ei * ri) * h2) % q);
    // (s + e*r)*h2 == s*h2 + e*(r*h2)
    lemma_mul_is_distributive_add_other_way(h2, si, ei * ri);
    assert(ei * ri * h2 == ei * (ri * h2)) by (nonlinear_arith);
    // right side: (a + e*com) mod q == (s*h2 + e*(m + r*h2)) mod q
    lemma_mul_mod_noop_right(ei, mi + ri * h2, q);
    lemma_add_mod_noop_right(si * h2, ei * ((mi + ri * h2) % q), q);
    assert((si * h2 % q + ei * ((mi + ri * h2) % q)) % q == (si * h2 + ei * ((mi + ri * h2) % q))
        % q) by {
        lemma_add_mod_noop(si * h2, ei * ((mi + ri * h2) % q), q);
        lemma_mod_twice(ei * ((mi + ri * h2) % q), q);
        lemma_add_mod_noop_right(si * h2, ei * ((mi + ri * h2) % q), q);
        lemma_add_mod_noop((si * h2) % q, ei * ((mi + ri * h2) % q), q);
        lemma_mod_twice(si * h2, q);
    }
    lemma_add_mod_noop_right(si * h2, ei * (mi + ri * h2), q);
    // e*(m + r*h2) == e*m + e*(r*h2)
    lemma_mul_is_distributive_add(ei, mi, ri * h2);
    assert((a + e * com) % group_order() == (si * h2 + ei * mi + ei * (ri * h2)) % q);
}

} // verus!
