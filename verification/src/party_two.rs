//! The second party of the protocol: the side that answers in the clear.
//! Its key and nonce shares are sent openly with their proofs; its round-two
//! duties are the checks that gate the first party's decommitments: both
//! hash commitments must reproduce bytewise, and every proof must verify,
//! before the session advances.

use vstd::prelude::*;

use crate::coin_flip;
use crate::commitment::{commitment_spec, HashCommitment};
use crate::curve::{base2, base2_enc, group_order, pt_enc, random_bytes, Point, Scalar};
use crate::dlog::{dlog_proof_ok, DLogProof};
use crate::ecddh::{ecddh_ok_enc, ECDDHProof, ECDDHStatement, ECDDHWitness};
use crate::encoding::{eq_bytes, push_all};
use crate::hashing::{blake2b_bytes, blake2b_rjj, hash_to_scalar, hash_to_scalar_spec};
use crate::hashing::{reversed_challenge, reversed_challenge_spec};
use crate::party_one;
use crate::two_party::{EcKeyPair, EphEcKeyPair, Signature};
use crate::ProofError;

verus! {

use vstd::arithmetic::div_mod::{lemma_add_mod_noop_right, lemma_small_mod};

/// The second party's key share, sent in the clear with its proof.
#[derive(Debug)]
pub struct KeyGenFirstMsg {
    pub d_log_proof: DLogProof,
    pub public_share: Point,
}

/// The second party's acknowledgement of a valid decommitment.
#[derive(Debug)]
pub struct KeyGenSecondMsg {}

/// The second party's coin-flip answer: its seed in the clear.
#[derive(Debug)]
pub struct CoinFlipFirstMsg {
    pub cf_msg1: coin_flip::Party2FirstMessage,
}

/// The second party's coin, derived when the flip finalizes.
#[derive(Debug)]
pub struct CoinFlipResult {
    pub party2_alpha: Scalar,
}

/// The second party's nonce share, sent in the clear: `R_2`, `c = r_2·H`,
/// and the EC-DDH proof tying them together.
#[derive(Debug)]
pub struct EphKeyGenFirstMsg {
    pub d_log_proof: ECDDHProof,
    pub public_share: Point,
    pub c: Point,
}

/// The second party's acknowledgement of a valid ephemeral decommitment.
#[derive(Debug)]
pub struct EphKeyGenSecondMsg {}

/// The second party's partial signature.
#[derive(Debug)]
pub struct LocalSignatureMsg {
    pub s2: Scalar,
}

/// What an honest second-party key generation guarantees: a consistent key
/// pair whose proof speaks about the emitted public share and verifies.
pub open spec fn keygen_second_consistent(msg: KeyGenFirstMsg, keys: EcKeyPair) -> bool {
    &&& keys.consistent()
    &&& msg.public_share.bytes() == keys.ak.bytes()
    &&& msg.d_log_proof.pk.val() == keys.ak.val()
    &&& dlog_proof_ok(msg.d_log_proof)
}

/// What an honest second-party ephemeral generation guarantees: a
/// consistent nonce share, `c = r_2·H`, and a verifying EC-DDH proof for
/// `(G, R_2, H, c)`.
pub open spec fn eph_second_consistent(msg: EphKeyGenFirstMsg, pair: EphEcKeyPair) -> bool {
    &&& pair.consistent()
    &&& msg.public_share.bytes() == pair.R_i.bytes()
    &&& msg.c.val() == (pair.secret_val() * base2()) % group_order()
    &&& ecddh_ok_enc(pt_enc(1), base2_enc(), msg.public_share.bytes(), msg.c.bytes(), msg.d_log_proof)
}

impl KeyGenFirstMsg {
    /// Samples a secret share and emits the public share with its proof.
    pub fn create() -> (r: (KeyGenFirstMsg, EcKeyPair))
        ensures
            keygen_second_consistent(r.0, r.1),
    {
        let secret_share = Scalar::new_random();
        Self::from_share(secret_share)
    }

    /// Emits the share for a caller-chosen secret.
    pub fn create_with_fixed_secret_share(secret_share: Scalar) -> (r: (KeyGenFirstMsg, EcKeyPair))
        ensures
            keygen_second_consistent(r.0, r.1),
            r.1.ask.val() == secret_share.val(),
    {
        Self::from_share(secret_share)
    }

    /// The shared body of the two constructors.
    fn from_share(secret_share: Scalar) -> (r: (KeyGenFirstMsg, EcKeyPair))
        ensures
            keygen_second_consistent(r.0, r.1),
            r.1.ask.val() == secret_share.val(),
    {
        let base = Point::generator();
        let public_share = base.scalar_mul(&secret_share);
        let d_log_proof = DLogProof::prove(&secret_share);
        proof {
            use_type_invariant(&secret_share);
            use_type_invariant(&public_share);
            use_type_invariant(&d_log_proof.pk);
            lemma_small_mod(secret_share.val(), group_order());
        }
        let ec_key_pair = EcKeyPair { ak: public_share.clone(), ask: secret_share };
        (KeyGenFirstMsg { d_log_proof, public_share }, ec_key_pair)
    }
}

impl KeyGenSecondMsg {
    /// Checks the first party's decommitment: both hash commitments must
    /// reproduce from the revealed opening, and the revealed Schnorr proof
    /// must verify. A commitment that does not reproduce aborts with
    /// `CommitmentMismatch`; a failing proof aborts with `ProofInvalid`.
    pub fn verify_commitments_and_dlog_proof(
        party_one_first_message: &party_one::KeyGenFirstMsg,
        party_one_second_message: &party_one::KeyGenSecondMsg,
    ) -> (r: Result<KeyGenSecondMsg, ProofError>)
        ensures
            r is Ok <==> ({
                let wit = party_one_second_message.comm_witness;
                &&& party_one_first_message.pk_commitment@ == commitment_spec(
                    wit.public_share.bytes(),
                    wit.pk_commitment_blind_factor@,
                )
                &&& party_one_first_message.zk_pok_commitment@ == commitment_spec(
                    wit.d_log_proof.pk_t_rand_commitment.bytes(),
                    wit.zk_pok_blind_factor@,
                )
                &&& dlog_proof_ok(wit.d_log_proof)
            }),
            r is Err ==> r->Err_0 == ({
                let wit = party_one_second_message.comm_witness;
                if party_one_first_message.pk_commitment@ == commitment_spec(
                    wit.public_share.bytes(),
                    wit.pk_commitment_blind_factor@,
                ) && party_one_first_message.zk_pok_commitment@ == commitment_spec(
                    wit.d_log_proof.pk_t_rand_commitment.bytes(),
                    wit.zk_pok_blind_factor@,
                ) {
                    ProofError::ProofInvalid
                } else {
                    ProofError::CommitmentMismatch
                }
            }),
    {
        let wit = &party_one_second_message.comm_witness;
        let pk_recomputed = HashCommitment::create_commitment_with_user_defined_randomness(
            &wit.public_share.to_bytes(),
            &wit.pk_commitment_blind_factor,
        );
        if !eq_bytes(&party_one_first_message.pk_commitment, &pk_recomputed) {
            return Err(ProofError::CommitmentMismatch);
        }
        let zk_recomputed = HashCommitment::create_commitment_with_user_defined_randomness(
            &wit.d_log_proof.pk_t_rand_commitment.to_bytes(),
            &wit.zk_pok_blind_factor,
        );
        if !eq_bytes(&party_one_first_message.zk_pok_commitment, &zk_recomputed) {
            return Err(ProofError::CommitmentMismatch);
        }
        match DLogProof::verify(&wit.d_log_proof) {
            Ok(()) => Ok(KeyGenSecondMsg {}),
            Err(e) => Err(e),
        }
    }
}

impl CoinFlipFirstMsg {
    /// Verifies the first party's coin-flip commitment proof and answers
    /// with a fresh seed; a failing proof aborts with `ProofInvalid`.
    pub fn share(party1_first_message: &party_one::CoinFlipFirstMsg) -> (r: Result<
        CoinFlipFirstMsg,
        ProofError,
    >)
        ensures
            r is Ok <==> crate::pedersen::pedersen_proof_ok(
                party1_first_message.cf_msg1.pedersen_proof,
            ),
            r is Err ==> r->Err_0 == ProofError::ProofInvalid,
    {
        match coin_flip::Party2FirstMessage::share(&party1_first_message.cf_msg1.pedersen_proof) {
            Ok(cf_msg1) => Ok(CoinFlipFirstMsg { cf_msg1 }),
            Err(e) => Err(e),
        }
    }
}

impl CoinFlipResult {
    /// Finalizes the flip: the revealed commitment must equal the committed
    /// one and its proof must verify; the coin is then the revealed seed
    /// plus this party's own seed.
    pub fn finalize(
        party1_second_message: &party_one::CoinFlipSecondMsg,
        party2_first_message: &CoinFlipFirstMsg,
        party1_first_message: &party_one::CoinFlipFirstMsg,
    ) -> (r: Result<CoinFlipResult, ProofError>)
        ensures
            r is Ok <==> (party1_second_message.cf_msg2.pedersen_proof.com.bytes()
                == party1_first_message.cf_msg1.pedersen_proof.com.bytes()
                && crate::pedersen::pedersen_proof_ok(
                party1_second_message.cf_msg2.pedersen_proof,
            )),
            r is Ok ==> r->Ok_0.party2_alpha.val() == (
            party1_second_message.cf_msg2.pedersen_proof.m.val()
                + party2_first_message.cf_msg1.seed.val()) % group_order(),
            r is Err ==> r->Err_0 == (
            if party1_second_message.cf_msg2.pedersen_proof.com.bytes()
                != party1_first_message.cf_msg1.pedersen_proof.com.bytes() {
                ProofError::CommitmentMismatch
            } else {
                ProofError::ProofInvalid
            }),
    {
        match coin_flip::finalize(
            &party1_second_message.cf_msg2.pedersen_proof,
            &party2_first_message.cf_msg1.seed,
            &party1_first_message.cf_msg1.pedersen_proof.com,
        ) {
            Ok(coin) => Ok(CoinFlipResult { party2_alpha: coin }),
            Err(e) => Err(e),
        }
    }
}

impl EphKeyGenFirstMsg {
    /// Derives the nonce share `r_2` by hashing the session key, the
    /// message and fresh entropy, and emits `R_2 = r_2·G` and `c = r_2·H`
    /// openly with their EC-DDH proof.
    pub fn create(vk: &Point, message: &Vec<u8>) -> (r: (EphKeyGenFirstMsg, EphEcKeyPair))
        ensures
            eph_second_consistent(r.0, r.1),
            exists|fresh: Seq<u8>|
                fresh.len() == 32 && r.1.secret_val() == hash_to_scalar_spec(
                    vk.bytes() + message@ + fresh,
                ),
    {
        let base = Point::generator();
        let h = Point::base_point2();
        proof {
            use_type_invariant(&base);
            use_type_invariant(&h);
        }
        let randomness = random_bytes(32);
        let mut transcript = vk.to_bytes();
        push_all(&mut transcript, message);
        push_all(&mut transcript, &randomness);
        let r_i = hash_to_scalar(&transcript);
        let R_i = base.scalar_mul(&r_i);
        let c = h.scalar_mul(&r_i);
        let w = ECDDHWitness { x: r_i.clone() };
        let delta = ECDDHStatement {
            g1: base,
            h1: R_i.clone(),
            g2: h,
            h2: c.clone(),
        };
        let d_log_proof = ECDDHProof::prove(&w, &delta);
        let ec_key_pair = EphEcKeyPair::assemble(R_i.clone(), r_i);
        proof {
            assert(randomness@.len() == 32 && ec_key_pair.secret_val() == hash_to_scalar_spec(
                vk.bytes() + message@ + randomness@,
            ));
        }
        (EphKeyGenFirstMsg { d_log_proof, public_share: R_i, c }, ec_key_pair)
    }
}

impl EphKeyGenSecondMsg {
    /// Checks the first party's ephemeral decommitment: both hash
    /// commitments must reproduce — the proof commitment via the digest of
    /// `A1 ‖ A2` — and the revealed EC-DDH proof must verify against
    /// `(G, R_1, H, c)`.
    pub fn verify_commitments_and_dlog_proof(
        party_one_first_message: &party_one::EphKeyGenFirstMsg,
        party_one_second_message: &party_one::EphKeyGenSecondMsg,
    ) -> (r: Result<EphKeyGenSecondMsg, ProofError>)
        ensures
            r is Ok <==> ({
                let wit = party_one_second_message.comm_witness;
                &&& party_one_first_message.pk_commitment@ == commitment_spec(
                    wit.public_share.bytes(),
                    wit.pk_commitment_blind_factor@,
                )
                &&& party_one_first_message.zk_pok_commitment@ == commitment_spec(
                    blake2b_rjj(wit.d_log_proof.a1.bytes() + wit.d_log_proof.a2.bytes()),
                    wit.zk_pok_blind_factor@,
                )
                &&& ecddh_ok_enc(
                    pt_enc(1),
                    base2_enc(),
                    wit.public_share.bytes(),
                    wit.c.bytes(),
                    wit.d_log_proof,
                )
            }),
            r is Err ==> r->Err_0 == ({
                let wit = party_one_second_message.comm_witness;
                if party_one_first_message.pk_commitment@ == commitment_spec(
                    wit.public_share.bytes(),
                    wit.pk_commitment_blind_factor@,
                ) && party_one_first_message.zk_pok_commitment@ == commitment_spec(
                    blake2b_rjj(wit.d_log_proof.a1.bytes() + wit.d_log_proof.a2.bytes()),
                    wit.zk_pok_blind_factor@,
                ) {
                    ProofError::ProofInvalid
                } else {
                    ProofError::CommitmentMismatch
                }
            }),
    {
        let wit = &party_one_second_message.comm_witness;
        let pk_recomputed = HashCommitment::create_commitment_with_user_defined_randomness(
            &wit.public_share.to_bytes(),
            &wit.pk_commitment_blind_factor,
        );
        if !eq_bytes(&party_one_first_message.pk_commitment, &pk_recomputed) {
            return Err(ProofError::CommitmentMismatch);
        }
        let mut proof_points = wit.d_log_proof.a1.to_bytes();
        push_all(&mut proof_points, &wit.d_log_proof.a2.to_bytes());
        let zk_digest = blake2b_bytes(&proof_points);
        let zk_recomputed = HashCommitment::create_commitment_with_user_defined_randomness(
            &zk_digest,
            &wit.zk_pok_blind_factor,
        );
        if !eq_bytes(&party_one_first_message.zk_pok_commitment, &zk_recomputed) {
            return Err(ProofError::CommitmentMismatch);
        }
        let g = Point::generator();
        let h = Point::base_point2();
        proof {
            use_type_invariant(&g);
            use_type_invariant(&h);
        }
        let delta = ECDDHStatement {
            g1: g,
            h1: wit.public_share.clone(),
            g2: h,
            h2: wit.c.clone(),
        };
        match wit.d_log_proof.verify(&delta) {
            Ok(()) => Ok(EphKeyGenSecondMsg {}),
            Err(e) => Err(e),
        }
    }
}

impl LocalSignatureMsg {
    /// The second party's partial signature `s_2 = r_2 + c·ask_2`, with the
    /// challenge `c` computed on the reversed-encoding path. The consumed
    /// secrets are wiped before the partial is released.
    pub fn compute_s2(
        R: &Point,
        vk: &Point,
        key: EcKeyPair,
        eph_key: EphEcKeyPair,
        message: &Vec<u8>,
    ) -> (r: LocalSignatureMsg)
        ensures
            r.s2.val() == (eph_key.secret_val() + reversed_challenge_spec(R.bytes(), message@)
                * key.ask.val()) % group_order(),
    {
        let mut key = key;
        let mut eph_key = eph_key;
        let hash_fe = reversed_challenge(&R.to_bytes(), message);
        let t = hash_fe.mul(&key.ask);
        let s2 = eph_key.secret().add(&t);
        proof {
            let q = group_order() as int;
            lemma_add_mod_noop_right(
                eph_key.secret_val() as int,
                (hash_fe.val() * key.ask.val()) as int,
                q,
            );
        }
        // the session is over for these secrets: wipe them before dropping
        key.zeroize_secret();
        eph_key.zeroize_secret();
        LocalSignatureMsg { s2 }
    }

    /// Combines the two partials into the aggregate signature and verifies
    /// it against the session key before releasing it; an invalid
    /// aggregate aborts with `InvalidSig` and no signature is emitted.
    pub fn compute(
        R: Point,
        vk: Point,
        local_sig: &LocalSignatureMsg,
        counter_sig: &party_one::LocalSignatureMsg,
        message: &Vec<u8>,
    ) -> (r: Result<Signature, ProofError>)
        ensures
            r is Ok <==> (local_sig.s2.val() + counter_sig.s1.val()) % group_order() == (R.val()
                + reversed_challenge_spec(R.bytes(), message@) * vk.val()) % group_order(),
            r is Ok ==> r->Ok_0.s.val() == (local_sig.s2.val() + counter_sig.s1.val())
                % group_order() && r->Ok_0.R.bytes() == R.bytes(),
            r is Err ==> r->Err_0 == ProofError::AggregateSignatureInvalid,
    {
        let s = local_sig.s2.add(&counter_sig.s1);
        let sig = Signature { s, R };
        match crate::two_party::verify(vk, message, &sig) {
            Ok(()) => Ok(sig),
            Err(_) => Err(ProofError::AggregateSignatureInvalid),
        }
    }
}

} // verus!
