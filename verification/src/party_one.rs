//! The first party of the protocol: the side that commits before it
//! reveals. Its long-term key generation hides the public share and the
//! Schnorr commitment behind hash commitments until the second party's
//! share has been seen; its secret share is range-reduced below a third of
//! the group order, as the Lindell-style simulation argument requires; its
//! ephemeral round commits in the same way to a nonce share that carries an
//! EC-DDH proof.

use vstd::prelude::*;

use crate::coin_flip;
use crate::commitment::{commitment_spec, HashCommitment, SECURITY_BITS};
use crate::curve::{base2, base2_enc, group_order, group_order_le_bytes, pt_enc, random_bytes};
use crate::curve::{Point, Scalar};
use crate::dlog::{dlog_proof_ok, DLogProof};
use crate::ecddh::{ecddh_ok_enc, ECDDHProof, ECDDHStatement, ECDDHWitness};
use crate::encoding::push_all;
use crate::hashing::{blake2b_bytes, blake2b_rjj, hash_to_scalar, hash_to_scalar_spec};
use crate::hashing::{reversed_challenge, reversed_challenge_spec};
use crate::party_two;
use crate::two_party::{EcKeyPair, EphEcKeyPair, Signature};
use crate::ProofError;

verus! {

use vstd::arithmetic::div_mod::{
    lemma_add_mod_noop_right,
    lemma_mul_mod_noop_right,
    lemma_small_mod,
};
use crate::encoding::{div3_le, le_bytes_leq};
use vstd::arithmetic::div_mod::{lemma_fundamental_div_mod, lemma_fundamental_div_mod_converse};

/// The first party's key-generation commitment round.
#[derive(Debug)]
pub struct KeyGenFirstMsg {
    pub pk_commitment: Vec<u8>,
    pub zk_pok_commitment: Vec<u8>,
}

/// The first party's key-generation decommitment round.
#[derive(Debug)]
pub struct KeyGenSecondMsg {
    pub comm_witness: CommWitness,
}

/// The opening of the two key-generation commitments.
#[derive(Debug)]
pub struct CommWitness {
    pub pk_commitment_blind_factor: Vec<u8>,
    pub zk_pok_blind_factor: Vec<u8>,
    pub public_share: Point,
    pub d_log_proof: DLogProof,
}

/// The first party's coin-flip commitment round.
#[derive(Debug)]
pub struct CoinFlipFirstMsg {
    pub cf_msg1: coin_flip::Party1FirstMessage,
}

/// The first party's coin-flip reveal round.
#[derive(Debug)]
pub struct CoinFlipSecondMsg {
    pub cf_msg2: coin_flip::Party1SecondMessage,
}

/// The first party's ephemeral commitment round.
#[derive(Debug)]
pub struct EphKeyGenFirstMsg {
    pub pk_commitment: Vec<u8>,
    pub zk_pok_commitment: Vec<u8>,
}

/// The first party's ephemeral decommitment round.
#[derive(Debug)]
pub struct EphKeyGenSecondMsg {
    pub comm_witness: EphCommWitness,
}

/// The opening of the two ephemeral commitments: the nonce share, its
/// EC-DDH proof, and `c = r_i·H`.
#[derive(Debug)]
pub struct EphCommWitness {
    pub pk_commitment_blind_factor: Vec<u8>,
    pub zk_pok_blind_factor: Vec<u8>,
    pub public_share: Point,
    pub d_log_proof: ECDDHProof,
    pub c: Point,
}

/// The first party's partial signature.
#[derive(Debug)]
pub struct LocalSignatureMsg {
    pub s1: Scalar,
}

/// What an honest first-party key generation guarantees: the key pair is
/// consistent and range-bounded, the proof speaks about the public share
/// and verifies, and both commitments open to the witness's contents.
pub open spec fn keygen_first_consistent(
    msg: KeyGenFirstMsg,
    wit: CommWitness,
    keys: EcKeyPair,
) -> bool {
    &&& keys.consistent()
    &&& 3 * keys.ask.val() < group_order()
    &&& wit.pk_commitment_blind_factor@.len() == 32
    &&& wit.zk_pok_blind_factor@.len() == 32
    &&& wit.public_share.bytes() == keys.ak.bytes()
    &&& wit.d_log_proof.pk.val() == keys.ak.val()
    &&& dlog_proof_ok(wit.d_log_proof)
    &&& msg.pk_commitment@ == commitment_spec(
        wit.public_share.bytes(),
        wit.pk_commitment_blind_factor@,
    )
    &&& msg.zk_pok_commitment@ == commitment_spec(
        wit.d_log_proof.pk_t_rand_commitment.bytes(),
        wit.zk_pok_blind_factor@,
    )
}

/// What an honest first-party ephemeral generation guarantees: the nonce
/// share is consistent, `c = r_i·H`, the EC-DDH proof for
/// `(G, R_i, H, c)` verifies, and both commitments open to the witness.
pub open spec fn eph_first_consistent(
    msg: EphKeyGenFirstMsg,
    wit: EphCommWitness,
    pair: EphEcKeyPair,
) -> bool {
    &&& pair.consistent()
    &&& wit.pk_commitment_blind_factor@.len() == 32
    &&& wit.zk_pok_blind_factor@.len() == 32
    &&& wit.public_share.bytes() == pair.R_i.bytes()
    &&& wit.c.val() == (pair.secret_val() * base2()) % group_order()
    &&& ecddh_ok_enc(pt_enc(1), base2_enc(), wit.public_share.bytes(), wit.c.bytes(), wit.d_log_proof)
    &&& msg.pk_commitment@ == commitment_spec(
        wit.public_share.bytes(),
        wit.pk_commitment_blind_factor@,
    )
    &&& msg.zk_pok_commitment@ == commitment_spec(
        blake2b_rjj(wit.d_log_proof.a1.bytes() + wit.d_log_proof.a2.bytes()),
        wit.zk_pok_blind_factor@,
    )
}

/// A fresh secret share below a third of the group order: a uniform
/// scalar, divided by three digit for digit, so that `3·ask < q` holds
/// outright.
fn sample_below_third() -> (r: Scalar)
    ensures
        3 * r.val() < group_order(),
{
    let sampled = Scalar::new_random();
    proof {
        use_type_invariant(&sampled);
    }
    let le = div3_le(&sampled.to_le_bytes());
    proof {
        lemma_fundamental_div_mod(sampled.val() as int, 3);
    }
    match Scalar::from_le_bytes(&le) {
        Some(s) => s,
        None => {
            proof {
                assert(false);
            }
            Scalar::zero()
        },
    }
}

impl KeyGenFirstMsg {
    /// Samples a range-reduced secret share, commits to the public share
    /// and to the Schnorr commitment, and keeps the opening for the second
    /// round.
    pub fn create_commitments() -> (r: (KeyGenFirstMsg, CommWitness, EcKeyPair))
        ensures
            keygen_first_consistent(r.0, r.1, r.2),
    {
        let secret_share = sample_below_third();
        Self::commit_to_share(secret_share)
    }

    /// Commits as `create_commitments` does, for a caller-chosen secret
    /// share that already satisfies the `< q/3` range bound.
    pub fn create_commitments_with_fixed_secret_share(secret_share: Scalar) -> (r: (
        KeyGenFirstMsg,
        CommWitness,
        EcKeyPair,
    ))
        requires
            3 * secret_share.val() < group_order(),
        ensures
            keygen_first_consistent(r.0, r.1, r.2),
            r.2.ask.val() == secret_share.val(),
    {
        Self::commit_to_share(secret_share)
    }

    /// Commits as `create_commitments` does for a caller-chosen secret
    /// share, but checks the range bound instead of assuming it: a share
    /// at or above a third of the group order is rejected as
    /// `RangeViolation` and no commitment is produced.
    pub fn create_commitments_with_checked_secret_share(secret_share: Scalar) -> (r: Result<
        (KeyGenFirstMsg, CommWitness, EcKeyPair),
        ProofError,
    >)
        ensures
            r is Ok <==> 3 * secret_share.val() < group_order(),
            r is Ok ==> keygen_first_consistent(r->Ok_0.0, r->Ok_0.1, r->Ok_0.2)
                && r->Ok_0.2.ask.val() == secret_share.val(),
            r is Err ==> r->Err_0 == ProofError::RangeViolation,
    {
        let q_bytes = group_order_le_bytes();
        let third = div3_le(&q_bytes);
        let mine = secret_share.to_le_bytes();
        proof {
            use_type_invariant(&secret_share);
            // q = 3·k + 1, so `val <= q/3` and `3·val < q` coincide
            let k = 0x4d491a377113a8daccd13ab0066be558ccd60314442b02b9add04ca47a7b992int;
            assert(3 * k + 1 == group_order());
            lemma_fundamental_div_mod_converse(group_order() as int, 3, k, 1);
        }
        if le_bytes_leq(&mine, &third) {
            Ok(Self::commit_to_share(secret_share))
        } else {
            Err(ProofError::RangeViolation)
        }
    }

    /// The shared body of the two commitment constructors.
    fn commit_to_share(secret_share: Scalar) -> (r: (KeyGenFirstMsg, CommWitness, EcKeyPair))
        requires
            3 * secret_share.val() < group_order(),
        ensures
            keygen_first_consistent(r.0, r.1, r.2),
            r.2.ask.val() == secret_share.val(),
    {
        let base = Point::generator();
        let public_share = base.scalar_mul(&secret_share);
        let d_log_proof = DLogProof::prove(&secret_share);
        proof {
            use_type_invariant(&secret_share);
            use_type_invariant(&public_share);
            use_type_invariant(&d_log_proof.pk);
            lemma_small_mod(secret_share.val(), group_order());
        }
        let pk_commitment_blind_factor = random_bytes(SECURITY_BITS / 8);
        let pk_commitment = HashCommitment::create_commitment_with_user_defined_randomness(
            &public_share.to_bytes(),
            &pk_commitment_blind_factor,
        );
        let zk_pok_blind_factor = random_bytes(SECURITY_BITS / 8);
        let zk_pok_commitment = HashCommitment::create_commitment_with_user_defined_randomness(
            &d_log_proof.pk_t_rand_commitment.to_bytes(),
            &zk_pok_blind_factor,
        );
        let ec_key_pair = EcKeyPair { ak: public_share.clone(), ask: secret_share };
        (
            KeyGenFirstMsg { pk_commitment, zk_pok_commitment },
            CommWitness {
                pk_commitment_blind_factor,
                zk_pok_blind_factor,
                public_share,
                d_log_proof,
            },
            ec_key_pair,
        )
    }
}

impl KeyGenSecondMsg {
    /// Verifies the second party's Schnorr proof and, only then, releases
    /// the opening of the first round's commitments.
    pub fn verify_and_decommit(comm_witness: CommWitness, proof: &DLogProof) -> (r: Result<
        KeyGenSecondMsg,
        ProofError,
    >)
        ensures
            r is Ok <==> dlog_proof_ok(*proof),
            r is Ok ==> r->Ok_0.comm_witness == comm_witness,
            r is Err ==> r->Err_0 == ProofError::ProofInvalid,
    {
        match DLogProof::verify(proof) {
            Ok(()) => Ok(KeyGenSecondMsg { comm_witness }),
            Err(e) => Err(e),
        }
    }
}

impl CoinFlipFirstMsg {
    /// Opens the coin flip: commits to a fresh seed.
    pub fn commit() -> (r: (CoinFlipFirstMsg, Scalar, Scalar))
        ensures
            crate::pedersen::pedersen_proof_ok(r.0.cf_msg1.pedersen_proof),
            r.0.cf_msg1.pedersen_proof.m.val() == r.1.val(),
            r.0.cf_msg1.pedersen_proof.com.val() == (r.1.val() + r.2.val() * base2())
                % group_order(),
    {
        let (cf_msg1, seed, blinding) = coin_flip::Party1FirstMessage::commit();
        (CoinFlipFirstMsg { cf_msg1 }, seed, blinding)
    }
}

impl CoinFlipSecondMsg {
    /// Reveals the committed seed and derives the coin `seed + seed2`.
    pub fn reveal_seed(
        party2_first_message: &party_two::CoinFlipFirstMsg,
        seed: Scalar,
        blinding: Scalar,
    ) -> (r: (CoinFlipSecondMsg, Scalar))
        ensures
            crate::pedersen::pedersen_proof_ok(r.0.cf_msg2.pedersen_proof),
            r.0.cf_msg2.pedersen_proof.m.val() == seed.val(),
            r.0.cf_msg2.pedersen_proof.com.val() == (seed.val() + blinding.val() * base2())
                % group_order(),
            r.1.val() == (seed.val() + party2_first_message.cf_msg1.seed.val()) % group_order(),
    {
        let (cf_msg2, coin_flip) = coin_flip::Party1SecondMessage::reveal_seed(
            &party2_first_message.cf_msg1.seed,
            &seed,
            &blinding,
        );
        (CoinFlipSecondMsg { cf_msg2 }, coin_flip)
    }
}

impl EphKeyGenFirstMsg {
    /// Derives the nonce share `r_i` by hashing the session key, the
    /// message and fresh entropy; commits to `R_i = r_i·G` and to the
    /// EC-DDH proof for `(G, R_i, H, c)` with `c = r_i·H`.
    pub fn create_commitments(vk: &Point, message: &Vec<u8>) -> (r: (
        EphKeyGenFirstMsg,
        EphCommWitness,
        EphEcKeyPair,
    ))
        ensures
            eph_first_consistent(r.0, r.1, r.2),
            exists|fresh: Seq<u8>|
                fresh.len() == 32 && r.2.secret_val() == hash_to_scalar_spec(
                    vk.bytes() + message@ + fresh,
                ),
    {
        let base = Point::generator();
        let h = Point::base_point2();
        proof {
            use_type_invariant(&base);
            use_type_invariant(&h);
        }
        let randomness = random_bytes(32);
        let mut transcript = vk.to_bytes();
        push_all(&mut transcript, message);
        push_all(&mut transcript, &randomness);
        let r_i = hash_to_scalar(&transcript);
        let R_i = base.scalar_mul(&r_i);
        let c = h.scalar_mul(&r_i);
        let w = ECDDHWitness { x: r_i.clone() };
        let delta = ECDDHStatement {
            g1: base,
            h1: R_i.clone(),
            g2: h,
            h2: c.clone(),
        };
        let d_log_proof = ECDDHProof::prove(&w, &delta);
        let pk_commitment_blind_factor = random_bytes(SECURITY_BITS / 8);
        let pk_commitment = HashCommitment::create_commitment_with_user_defined_randomness(
            &R_i.to_bytes(),
            &pk_commitment_blind_factor,
        );
        let zk_pok_blind_factor = random_bytes(SECURITY_BITS / 8);
        let mut proof_points = d_log_proof.a1.to_bytes();
        push_all(&mut proof_points, &d_log_proof.a2.to_bytes());
        let zk_digest = blake2b_bytes(&proof_points);
        let zk_pok_commitment = HashCommitment::create_commitment_with_user_defined_randomness(
            &zk_digest,
            &zk_pok_blind_factor,
        );
        let ec_key_pair = EphEcKeyPair::assemble(R_i.clone(), r_i);
        proof {
            assert(randomness@.len() == 32 && ec_key_pair.secret_val() == hash_to_scalar_spec(
                vk.bytes() + message@ + randomness@,
            ));
        }
        (
            EphKeyGenFirstMsg { pk_commitment, zk_pok_commitment },
            EphCommWitness {
                pk_commitment_blind_factor,
                zk_pok_blind_factor,
                public_share: R_i,
                d_log_proof,
                c,
            },
            ec_key_pair,
        )
    }
}

impl EphKeyGenSecondMsg {
    /// Verifies the second party's EC-DDH proof for its nonce share and,
    /// only then, releases the opening of the ephemeral commitments.
    pub fn verify_and_decommit(
        comm_witness: EphCommWitness,
        party_one_first_message: &party_two::EphKeyGenFirstMsg,
    ) -> (r: Result<EphKeyGenSecondMsg, ProofError>)
        ensures
            r is Ok <==> ecddh_ok_enc(
                pt_enc(1),
                base2_enc(),
                party_one_first_message.public_share.bytes(),
                party_one_first_message.c.bytes(),
                party_one_first_message.d_log_proof,
            ),
            r is Ok ==> r->Ok_0.comm_witness == comm_witness,
            r is Err ==> r->Err_0 == ProofError::ProofInvalid,
    {
        let g = Point::generator();
        let h = Point::base_point2();
        proof {
            use_type_invariant(&g);
            use_type_invariant(&h);
        }
        let delta = ECDDHStatement {
            g1: g,
            h1: party_one_first_message.public_share.clone(),
            g2: h,
            h2: party_one_first_message.c.clone(),
        };
        match party_one_first_message.d_log_proof.verify(&delta) {
            Ok(()) => Ok(EphKeyGenSecondMsg { comm_witness }),
            Err(e) => Err(e),
        }
    }
}

impl LocalSignatureMsg {
    /// The first party's partial signature `s_1 = r_1 + c·(ask_1 + α)`,
    /// with the challenge `c` computed on the reversed-encoding path. The
    /// consumed secrets are wiped before the partial is released.
    pub fn compute_s1(
        R: &Point,
        vk: &Point,
        key: EcKeyPair,
        eph_key: EphEcKeyPair,
        message: &Vec<u8>,
        alpha: &Scalar,
    ) -> (r: LocalSignatureMsg)
        ensures
            r.s1.val() == (eph_key.secret_val() + reversed_challenge_spec(R.bytes(), message@) * (
            key.ask.val() + alpha.val())) % group_order(),
    {
        let mut key = key;
        let mut eph_key = eph_key;
        let hash_fe = reversed_challenge(&R.to_bytes(), message);
        let ask_plus_alpha = key.ask.add(alpha);
        let t = hash_fe.mul(&ask_plus_alpha);
        let s1 = eph_key.secret().add(&t);
        proof {
            let q = group_order() as int;
            let c = hash_fe.val() as int;
            let sum = (key.ask.val() + alpha.val()) as int;
            lemma_mul_mod_noop_right(c, sum, q);
            lemma_add_mod_noop_right(eph_key.secret_val() as int, c * sum, q);
        }
        // the session is over for these secrets: wipe them before dropping
        key.zeroize_secret();
        eph_key.zeroize_secret();
        LocalSignatureMsg { s1 }
    }

    /// Combines the two partials into the aggregate signature and verifies
    /// it against the session key before releasing it; an invalid
    /// aggregate aborts with `InvalidSig` and no signature is emitted.
    pub fn compute(
        R: Point,
        vk: Point,
        local_sig: &LocalSignatureMsg,
        counter_sig: &party_two::LocalSignatureMsg,
        message: &Vec<u8>,
    ) -> (r: Result<Signature, ProofError>)
        ensures
            r is Ok <==> (local_sig.s1.val() + counter_sig.s2.val()) % group_order() == (R.val()
                + reversed_challenge_spec(R.bytes(), message@) * vk.val()) % group_order(),
            r is Ok ==> r->Ok_0.s.val() == (local_sig.s1.val() + counter_sig.s2.val())
                % group_order() && r->Ok_0.R.bytes() == R.bytes(),
            r is Err ==> r->Err_0 == ProofError::AggregateSignatureInvalid,
    {
        let s = local_sig.s1.add(&counter_sig.s2);
        let sig = Signature { s, R };
        match crate::two_party::verify(vk, message, &sig) {
            Ok(()) => Ok(sig),
            Err(_) => Err(ProofError::AggregateSignatureInvalid),
        }
    }
}

} // verus!
