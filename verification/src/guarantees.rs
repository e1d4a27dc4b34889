//! The protocol-wide guarantees, proved once and for all from the round
//! contracts: honest runs complete with both parties agreeing on every
//! derived value and on the final signature; the first party's range bound
//! is enforced at generation; and the three challenge hashes live in
//! disjoint transcript domains.

use vstd::prelude::*;

use crate::curve::{group_order, lemma_point_eq, lemma_scalar_eq, Point, Scalar};
use crate::dlog::dlog_transcript;
use crate::ecddh::ecddh_transcript_enc;
use crate::pedersen::pedersen_transcript;

verus! {

use vstd::arithmetic::div_mod::{
    lemma_add_mod_noop,
    lemma_add_mod_noop_right,
    lemma_mod_twice,
    lemma_mul_mod_noop_left,
    lemma_mul_mod_noop_right,
    lemma_small_mod,
};
use vstd::arithmetic::mul::lemma_mul_is_distributive_add;

/// Key-generation agreement: the two parties aggregate the same two public
/// shares in opposite orders and still obtain the same joint key `ak`,
/// bytewise.
pub proof fn lemma_ak_agreement(ak_one: Point, ak_two: Point, first: Point, second: Point)
    requires
        first.wf(),
        second.wf(),
        first.val() == (ak_two.val() + ak_one.val()) % group_order(),
        second.val() == (ak_one.val() + ak_two.val()) % group_order(),
    ensures
        first.bytes() == second.bytes(),
{
    lemma_point_eq(first, second);
}

/// Coin-flip agreement: when the revealed seed is the committed one, the
/// revealing party's coin and the finalizing party's coin are the same
/// scalar, bytewise.
pub proof fn lemma_coin_agreement(
    seed: Scalar,
    seed2: Scalar,
    revealed: Scalar,
    alpha_one: Scalar,
    alpha_two: Scalar,
)
    requires
        alpha_one.wf(),
        alpha_two.wf(),
        revealed.val() == seed.val(),
        alpha_one.val() == (seed.val() + seed2.val()) % group_order(),
        alpha_two.val() == (revealed.val() + seed2.val()) % group_order(),
    ensures
        alpha_one.bytes() == alpha_two.bytes(),
{
    lemma_scalar_eq(alpha_one, alpha_two);
}

/// Completeness of an honest coin flip: when the reveal opens the same
/// commitment that was sent in the first round — same seed, same blinding —
/// the finalizing party's two gates both pass, and the two parties' coins
/// are the same scalar, bytewise.
pub proof fn lemma_coinflip_complete(
    commit_pf: crate::pedersen::PedersenBlindingProof,
    reveal_pf: crate::pedersen::PedersenBlindingProof,
    seed: Scalar,
    blinding: Scalar,
    seed2: Scalar,
    alpha_one: Scalar,
    alpha_two: Scalar,
)
    requires
        crate::pedersen::pedersen_proof_ok(commit_pf),
        crate::pedersen::pedersen_proof_ok(reveal_pf),
        commit_pf.com.wf(),
        reveal_pf.com.wf(),
        alpha_one.wf(),
        alpha_two.wf(),
        commit_pf.com.val() == (seed.val() + blinding.val() * crate::curve::base2())
            % group_order(),
        reveal_pf.com.val() == (seed.val() + blinding.val() * crate::curve::base2())
            % group_order(),
        reveal_pf.m.val() == seed.val(),
        alpha_one.val() == (seed.val() + seed2.val()) % group_order(),
        alpha_two.val() == (reveal_pf.m.val() + seed2.val()) % group_order(),
    ensures
        reveal_pf.com.bytes() == commit_pf.com.bytes(),
        alpha_one.bytes() == alpha_two.bytes(),
{
    lemma_point_eq(reveal_pf.com, commit_pf.com);
    lemma_scalar_eq(alpha_one, alpha_two);
}

/// Session-key agreement: equal joint keys and equal coins give equal
/// verification keys `vk = ak + α·G`, bytewise.
pub proof fn lemma_vk_agreement(
    ak_one: Point,
    ak_two: Point,
    alpha_one: Scalar,
    alpha_two: Scalar,
    vk_one: Point,
    vk_two: Point,
)
    requires
        vk_one.wf(),
        vk_two.wf(),
        ak_one.bytes() == ak_two.bytes(),
        alpha_one.val() == alpha_two.val(),
        vk_one.val() == (ak_one.val() + alpha_one.val()) % group_order(),
        vk_two.val() == (ak_two.val() + alpha_two.val()) % group_order(),
    ensures
        vk_one.bytes() == vk_two.bytes(),
{
    lemma_point_eq(vk_one, vk_two);
}

/// Peeling a reduction off the left addend of a modular sum.
proof fn lemma_mod_peel_left(a: int, z: int, q: int)
    requires
        0 < q,
    ensures
        (a % q + z) % q == (a + z) % q,
{
    lemma_add_mod_noop(a, z, q);
    lemma_add_mod_noop_right(a % q, z, q);
}

/// Completeness of the signing round: for honest shares — both key pairs
/// and both nonce pairs consistent, the joint values aggregated as the
/// protocol prescribes — the sum of the two partial signatures satisfies
/// the aggregate verification equation `s = R + c·vk` at the discrete-log
/// level, for any challenge value `c`.
pub proof fn lemma_signing_complete(
    n1: int,
    n2: int,
    a1: int,
    a2: int,
    al: int,
    c: int,
    ak_v: int,
    vk_v: int,
    R_v: int,
    s1: int,
    s2: int,
)
    requires
        ak_v == (a2 + a1) % (group_order() as int),
        vk_v == (ak_v + al) % (group_order() as int),
        R_v == (n2 + n1) % (group_order() as int),
        s1 == (n1 + c * (a1 + al)) % (group_order() as int),
        s2 == (n2 + c * a2) % (group_order() as int),
    ensures
        (s1 + s2) % (group_order() as int) == (R_v + c * vk_v) % (group_order() as int),
{
    let q = group_order() as int;
    let x1 = n1 + c * (a1 + al);
    let x2 = n2 + c * a2;
    // left side: (s1 + s2) mod q == (x1 + x2) mod q
    lemma_mod_peel_left(x1, s2, q);
    lemma_add_mod_noop_right(x1, x2, q);
    assert((s1 + s2) % q == (x1 + x2) % q);
    // right side, step by step down to an unreduced sum
    let t = ak_v + al;
    lemma_mul_mod_noop_right(c, t, q);
    assert((c * (t % q)) % q == (c * t) % q);
    assert((R_v + c * vk_v) % q == (R_v + (c * t) % q) % q) by {
        lemma_add_mod_noop_right(R_v, c * vk_v, q);
        lemma_mod_twice(c * vk_v, q);
    }
    lemma_add_mod_noop_right(R_v, c * t, q);
    assert((R_v + c * vk_v) % q == (R_v + c * t) % q);
    // c*t == c*ak_v + c*al, and ak_v's inner mod peels off too
    lemma_mul_is_distributive_add(c, ak_v, al);
    let w = c * ((a2 + a1) % q);
    lemma_mul_mod_noop_right(c, a2 + a1, q);
    assert((R_v + c * al + w) % q == (R_v + c * al + c * (a2 + a1)) % q) by {
        lemma_add_mod_noop_right(R_v + c * al, w, q);
        lemma_mod_twice(w, q);
        lemma_add_mod_noop_right(R_v + c * al, c * (a2 + a1), q);
    }
    assert((R_v + c * t) % q == (R_v + c * al + c * (a2 + a1)) % q);
    // finally peel R_v and compare the two integer sums
    lemma_mod_peel_left(n2 + n1, c * al + c * (a2 + a1), q);
    assert((R_v + c * al + c * (a2 + a1)) % q == (n2 + n1 + c * al + c * (a2 + a1)) % q);
    assert(x1 + x2 == n2 + n1 + c * al + c * (a2 + a1)) by {
        lemma_mul_is_distributive_add(c, a1, al);
        lemma_mul_is_distributive_add(c, a2, a1);
    }
}

/// The two parties' aggregate signatures are one signature: equal nonce
/// points and the two partials summed in either order give bytewise equal
/// scalars.
pub proof fn lemma_signature_agreement(s_one: Scalar, s_two: Scalar, p1: Scalar, p2: Scalar)
    requires
        s_one.wf(),
        s_two.wf(),
        s_one.val() == (p1.val() + p2.val()) % group_order(),
        s_two.val() == (p2.val() + p1.val()) % group_order(),
    ensures
        s_one.bytes() == s_two.bytes(),
{
    lemma_scalar_eq(s_one, s_two);
}

/// Completeness of an honest key generation: when the first party's
/// commitment round and the second party's open round are both honest,
/// every gate of the second round passes — the first party accepts the
/// second party's Schnorr proof, the second party reproduces both hash
/// commitments and accepts the revealed proof — and the two sides derive
/// the same joint key `ak`, bytewise.
pub proof fn lemma_keygen_complete(
    msg1: crate::party_one::KeyGenFirstMsg,
    wit1: crate::party_one::CommWitness,
    keys1: crate::two_party::EcKeyPair,
    msg2: crate::party_two::KeyGenFirstMsg,
    keys2: crate::two_party::EcKeyPair,
    ak_first: Point,
    ak_second: Point,
)
    requires
        crate::party_one::keygen_first_consistent(msg1, wit1, keys1),
        crate::party_two::keygen_second_consistent(msg2, keys2),
        ak_first.wf(),
        ak_second.wf(),
        ak_first.val() == (msg2.public_share.val() + keys1.ak.val()) % group_order(),
        ak_second.val() == (wit1.public_share.val() + keys2.ak.val()) % group_order(),
    ensures
        crate::dlog::dlog_proof_ok(msg2.d_log_proof),
        crate::dlog::dlog_proof_ok(wit1.d_log_proof),
        msg1.pk_commitment@ == crate::commitment::commitment_spec(
            wit1.public_share.bytes(),
            wit1.pk_commitment_blind_factor@,
        ),
        msg1.zk_pok_commitment@ == crate::commitment::commitment_spec(
            wit1.d_log_proof.pk_t_rand_commitment.bytes(),
            wit1.zk_pok_blind_factor@,
        ),
        ak_first.bytes() == ak_second.bytes(),
{
    lemma_point_eq(ak_first, ak_second);
}

/// Completeness of a whole honest signing session, at the level of the
/// exchanged values: when both parties' key and nonce shares are
/// consistent, the joint nonce, joint key and session key are aggregated
/// as the protocol prescribes, and the two partial signatures follow their
/// defining equations, then the two parties hold the same joint nonce
/// bytewise and the summed signature satisfies the aggregate verification
/// equation — the final self-check accepts.
pub proof fn lemma_session_complete(
    pair1: crate::two_party::EphEcKeyPair,
    pair2: crate::two_party::EphEcKeyPair,
    R_one: Point,
    R_two: Point,
    keys1: crate::two_party::EcKeyPair,
    keys2: crate::two_party::EcKeyPair,
    ak: Point,
    alpha: Scalar,
    vk: Point,
    s1: Scalar,
    s2: Scalar,
    s: Scalar,
    message: Seq<u8>,
)
    requires
        keys1.consistent(),
        keys2.consistent(),
        pair1.consistent(),
        pair2.consistent(),
        keys1.ask.wf(),
        keys2.ask.wf(),
        alpha.wf(),
        R_one.wf(),
        R_two.wf(),
        pair1.secret_val() < group_order(),
        pair2.secret_val() < group_order(),
        R_one.val() == (pair2.R_i.val() + pair1.R_i.val()) % group_order(),
        R_two.val() == (pair1.R_i.val() + pair2.R_i.val()) % group_order(),
        ak.val() == (keys2.ak.val() + keys1.ak.val()) % group_order(),
        vk.val() == (ak.val() + alpha.val()) % group_order(),
        s1.val() == (pair1.secret_val() + crate::hashing::reversed_challenge_spec(
            R_one.bytes(),
            message,
        ) * (keys1.ask.val() + alpha.val())) % group_order(),
        s2.val() == (pair2.secret_val() + crate::hashing::reversed_challenge_spec(
            R_two.bytes(),
            message,
        ) * keys2.ask.val()) % group_order(),
        s.val() == (s1.val() + s2.val()) % group_order(),
    ensures
        R_one.bytes() == R_two.bytes(),
        s.val() == (R_one.val() + crate::hashing::reversed_challenge_spec(R_one.bytes(), message)
            * vk.val()) % group_order(),
{
    let q = group_order();
    lemma_point_eq(R_one, R_two);
    // a well-formed secret is already reduced, so each public value is the
    // secret itself, and each public key share is the secret share
    lemma_small_mod(pair1.secret_val(), q);
    lemma_small_mod(pair2.secret_val(), q);
    lemma_small_mod(keys1.ask.val(), q);
    lemma_small_mod(keys2.ask.val(), q);
    let c = crate::hashing::reversed_challenge_spec(R_one.bytes(), message);
    lemma_signing_complete(
        pair1.secret_val() as int,
        pair2.secret_val() as int,
        keys1.ask.val() as int,
        keys2.ask.val() as int,
        alpha.val() as int,
        c as int,
        ak.val() as int,
        vk.val() as int,
        R_one.val() as int,
        s1.val() as int,
        s2.val() as int,
    );
}

/// Response binding of the Schnorr proof: for one statement and one
/// prover commitment — one challenge transcript — at most one response
/// satisfies the verification equation, so any tampering of the response
/// is rejected by `DLogProof::verify`'s exact contract as `ProofInvalid`.
pub proof fn lemma_dlog_response_binding(
    pf1: crate::dlog::DLogProof,
    pf2: crate::dlog::DLogProof,
)
    requires
        pf1.challenge_response.wf(),
        pf2.challenge_response.wf(),
        pf1.pk.bytes() == pf2.pk.bytes(),
        pf1.pk_t_rand_commitment.bytes() == pf2.pk_t_rand_commitment.bytes(),
        crate::dlog::dlog_proof_ok(pf1),
        crate::dlog::dlog_proof_ok(pf2),
    ensures
        pf1.challenge_response.bytes() == pf2.challenge_response.bytes(),
{
    let q = group_order();
    lemma_small_mod(pf1.challenge_response.val(), q);
    lemma_small_mod(pf2.challenge_response.val(), q);
    lemma_scalar_eq(pf1.challenge_response, pf2.challenge_response);
}

/// Response binding of the EC-DDH proof over the generator `G`: for one
/// statement and one pair of prover commitments, at most one response
/// satisfies the first verification equation, so any tampering of the
/// response is rejected by `ECDDHProof::verify`'s exact contract as
/// `ProofInvalid`. The `pt_val(pt_enc(1)) == 1` hypothesis is established
/// by every `Point::generator()` call.
pub proof fn lemma_ecddh_response_binding(
    pf1: crate::ecddh::ECDDHProof,
    pf2: crate::ecddh::ECDDHProof,
    h1: Seq<u8>,
    h2: Seq<u8>,
)
    requires
        pf1.z.wf(),
        pf2.z.wf(),
        pf1.a1.bytes() == pf2.a1.bytes(),
        pf1.a2.bytes() == pf2.a2.bytes(),
        crate::curve::pt_val(crate::curve::pt_enc(1)) == 1,
        crate::ecddh::ecddh_ok_enc(
            crate::curve::pt_enc(1),
            crate::curve::base2_enc(),
            h1,
            h2,
            pf1,
        ),
        crate::ecddh::ecddh_ok_enc(
            crate::curve::pt_enc(1),
            crate::curve::base2_enc(),
            h1,
            h2,
            pf2,
        ),
    ensures
        pf1.z.bytes() == pf2.z.bytes(),
{
    let q = group_order();
    lemma_small_mod(pf1.z.val(), q);
    lemma_small_mod(pf2.z.val(), q);
    lemma_scalar_eq(pf1.z, pf2.z);
}

/// Multiplication by the second generator's discrete log cancels on
/// reduced scalars, given its inverse mod the group order; the inverse
/// hypothesis is exactly what every `Point::base_point2()` call
/// establishes.
pub proof fn lemma_base2_cancel(z1: nat, z2: nat)
    requires
        z1 < group_order(),
        z2 < group_order(),
        (crate::curve::base2() * crate::curve::base2_inv(crate::curve::pt_enc(1)))
            % group_order() == 1,
        (z1 * crate::curve::base2()) % group_order() == (z2 * crate::curve::base2())
            % group_order(),
    ensures
        z1 == z2,
{
    let q = group_order() as int;
    let h = crate::curve::base2() as int;
    let v = crate::curve::base2_inv(crate::curve::pt_enc(1)) as int;
    let x1 = z1 as int;
    let x2 = z2 as int;
    // multiply the shared residue by the inverse
    lemma_mul_mod_noop_left(x1 * h, v, q);
    lemma_mul_mod_noop_left(x2 * h, v, q);
    assert((x1 * h * v) % q == (x2 * h * v) % q);
    // regroup and reduce h·v to 1
    assert(x1 * h * v == x1 * (h * v)) by (nonlinear_arith);
    assert(x2 * h * v == x2 * (h * v)) by (nonlinear_arith);
    lemma_mul_mod_noop_right(x1, h * v, q);
    lemma_mul_mod_noop_right(x2, h * v, q);
    assert((x1 * ((h * v) % q)) % q == x1 % q);
    assert((x2 * ((h * v) % q)) % q == x2 % q);
    lemma_small_mod(z1, group_order());
    lemma_small_mod(z2, group_order());
}

/// Response binding of the Pedersen blinding proof: for one statement and
/// one prover commitment — one challenge transcript — at most one response
/// satisfies the verification equation, so any tampering of `z` is
/// rejected by `verify`'s exact contract as `ProofInvalid`. The inverse
/// hypothesis is what every `Point::base_point2()` call establishes; it
/// holds because the subgroup's order is prime and `H` is not the
/// identity.
pub proof fn lemma_pedersen_response_binding(
    pf1: crate::pedersen::PedersenBlindingProof,
    pf2: crate::pedersen::PedersenBlindingProof,
)
    requires
        pf1.z.wf(),
        pf2.z.wf(),
        pf1.com.bytes() == pf2.com.bytes(),
        pf1.a.bytes() == pf2.a.bytes(),
        pf1.m.bytes() == pf2.m.bytes(),
        (crate::curve::base2() * crate::curve::base2_inv(crate::curve::pt_enc(1)))
            % group_order() == 1,
        crate::pedersen::pedersen_proof_ok(pf1),
        crate::pedersen::pedersen_proof_ok(pf2),
    ensures
        pf1.z.bytes() == pf2.z.bytes(),
{
    let q = group_order() as int;
    let h = crate::curve::base2() as int;
    let e = crate::pedersen::pedersen_challenge(
        pf1.com.bytes(),
        pf1.a.bytes(),
        pf1.m.bytes(),
    ) as int;
    let em = e * (pf1.m.val() as int);
    let z1h = (pf1.z.val() as int) * h;
    let z2h = (pf2.z.val() as int) * h;
    // both verification equations share their challenge and their right
    // side, so the two left sides agree mod q
    assert((em + z1h) % q == (em + z2h) % q);
    vstd::arithmetic::div_mod::lemma_mod_equivalence(em + z1h, em + z2h, q);
    vstd::arithmetic::div_mod::lemma_mod_equivalence(z1h, z2h, q);
    lemma_base2_cancel(pf1.z.val(), pf2.z.val());
    lemma_scalar_eq(pf1.z, pf2.z);
}

/// Domain separation of the three challenge hashes, as the protocol
/// instantiates them — the Schnorr and EC-DDH statements over the
/// generator `G`, the EC-DDH and Pedersen ones also over `H`, and every
/// other component a 32-byte encoding: a Schnorr transcript, a Pedersen
/// transcript and an EC-DDH transcript can never coincide, whatever their
/// contents, because their lengths already differ.
pub proof fn lemma_challenge_domains_disjoint(
    pk: Seq<u8>,
    t: Seq<u8>,
    com: Seq<u8>,
    a: Seq<u8>,
    m: Seq<u8>,
    h1: Seq<u8>,
    h2: Seq<u8>,
    a1: Seq<u8>,
    a2: Seq<u8>,
)
    requires
        pk.len() == 32 && t.len() == 32,
        com.len() == 32 && a.len() == 32 && m.len() == 32,
        h1.len() == 32 && h2.len() == 32 && a1.len() == 32 && a2.len() == 32,
    ensures
        dlog_transcript(pk, t) != pedersen_transcript(com, a, m),
        dlog_transcript(pk, t) != ecddh_transcript_enc(
            crate::curve::pt_enc(1),
            crate::curve::base2_enc(),
            h1,
            h2,
            a1,
            a2,
        ),
        pedersen_transcript(com, a, m) != ecddh_transcript_enc(
            crate::curve::pt_enc(1),
            crate::curve::base2_enc(),
            h1,
            h2,
            a1,
            a2,
        ),
{
    let e1 = crate::curve::pt_enc(1).len() as int;
    let e2 = crate::curve::base2_enc().len() as int;
    assert(dlog_transcript(pk, t).len() == e1 + 64);
    assert(pedersen_transcript(com, a, m).len() == e1 + e2 + 96);
    assert(ecddh_transcript_enc(
        crate::curve::pt_enc(1),
        crate::curve::base2_enc(),
        h1,
        h2,
        a1,
        a2,
    ).len() == e1 + e2 + 128);
}

} // verus!
