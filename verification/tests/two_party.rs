use paradise_city::curve::{Point, Scalar};
use paradise_city::dlog::DLogProof;
use paradise_city::party_one::CoinFlipFirstMsg as Party1CFFirstMsg;
use paradise_city::party_one::CoinFlipSecondMsg as Party1CFSecondMsg;
use paradise_city::party_one::EphKeyGenFirstMsg as Party1EphKeyGenFirstMsg;
use paradise_city::party_one::EphKeyGenSecondMsg as Party1EphKeyGenSecondMsg;
use paradise_city::party_one::KeyGenFirstMsg as Party1KeyGenFirstMsg;
use paradise_city::party_one::KeyGenSecondMsg as Party1KeyGenSecondMsg;
use paradise_city::party_one::LocalSignatureMsg as Party1LocalSignatureMsg;
use paradise_city::party_two::CoinFlipFirstMsg as Party2CFFirstMsg;
use paradise_city::party_two::CoinFlipResult;
use paradise_city::party_two::EphKeyGenFirstMsg as Party2EphKeyGenFirstMsg;
use paradise_city::party_two::EphKeyGenSecondMsg as Party2EphKeyGenSecondMsg;
use paradise_city::party_two::KeyGenFirstMsg as Party2KeyGenFirstMsg;
use paradise_city::party_two::KeyGenSecondMsg as Party2KeyGenSecondMsg;
use paradise_city::party_two::LocalSignatureMsg as Party2LocalSignatureMsg;
use paradise_city::two_party::compute_R;
use paradise_city::two_party::compute_ak;
use paradise_city::two_party::compute_vk;
use paradise_city::two_party::EcKeyPair;
use paradise_city::commitment::HashCommitment;
use paradise_city::two_party::Signature;
use paradise_city::pedersen::{PedersenBlindingProof, ProvePederesenBlind};
use paradise_city::ProofError;

#[test]
fn test_2p_keygen() {
    // round 1
    // party1:
    let (party1_first_message, comm_witness, party1_keys) =
        Party1KeyGenFirstMsg::create_commitments();
    // party2:
    let (party2_first_message, party2_keys) = Party2KeyGenFirstMsg::create();
    // round 2
    // party1
    let party1_second_message = Party1KeyGenSecondMsg::verify_and_decommit(
        comm_witness,
        &party2_first_message.d_log_proof,
    )
    .expect("failed to verify and decommit");
    // compute ak:
    let party1_ak = compute_ak(&party1_keys, &party2_first_message.public_share);
    // party2
    let _party_two_second_message = Party2KeyGenSecondMsg::verify_commitments_and_dlog_proof(
        &party1_first_message,
        &party1_second_message,
    )
    .expect("failed to verify commitments and DLog proof");
    let party2_ak = compute_ak(
        &party2_keys,
        &party1_second_message.comm_witness.public_share,
    );

    assert_eq!(party1_ak, party2_ak);
}

#[test]
fn test_2p_sign() {
    let (party1_keys, party2_keys, public_key) = two_party_keygen();
    let message = vec![10u8];
    // round 1
    // party1
    let (party1_cf_first_message, party1_cf_seed, party1_cf_blinding) = Party1CFFirstMsg::commit();
    // party2
    let party2_cf_first_message =
        Party2CFFirstMsg::share(&party1_cf_first_message).expect("coin flip proof rejected");
    // round 2
    // party1
    let (party1_cf_second_message, party1_alpha) = Party1CFSecondMsg::reveal_seed(
        &party2_cf_first_message,
        party1_cf_seed,
        party1_cf_blinding,
    );
    let party1_vk = compute_vk(&public_key, &party1_alpha);
    // party2
    let coin_flip_res = CoinFlipResult::finalize(
        &party1_cf_second_message,
        &party2_cf_first_message,
        &party1_cf_first_message,
    )
    .expect("coin flip finalization rejected");

    let party2_vk = compute_vk(&public_key, &coin_flip_res.party2_alpha);

    assert_eq!(party1_vk, party2_vk);

    // round 3
    // party1:
    let (party1_eph_first_message, party1_comm_witness, party1_eph_keys) =
        Party1EphKeyGenFirstMsg::create_commitments(&party1_vk, &message);
    // party2:
    let (party2_eph_first_message, party2_eph_keys) =
        Party2EphKeyGenFirstMsg::create(&party2_vk, &message);
    // round 4
    // party1
    let party1_eph_second_message = Party1EphKeyGenSecondMsg::verify_and_decommit(
        party1_comm_witness,
        &party2_eph_first_message,
    )
    .expect("failed to verify and decommit");
    // compute R:
    let party1_R = compute_R(&party1_eph_keys, &party2_eph_first_message.public_share);
    // party2
    let _party_two_second_message = Party2EphKeyGenSecondMsg::verify_commitments_and_dlog_proof(
        &party1_eph_first_message,
        &party1_eph_second_message,
    )
    .expect("failed to verify commitments and DLog proof");
    let party2_R = compute_R(
        &party2_eph_keys,
        &party1_eph_second_message.comm_witness.public_share,
    );

    assert_eq!(party1_R, party2_R);

    // round 5
    // party1
    let party1_local_sig = Party1LocalSignatureMsg::compute_s1(
        &party1_R,
        &party1_vk,
        party1_keys,
        party1_eph_keys,
        &message,
        &party1_alpha,
    );
    // party2
    let party2_local_sig = Party2LocalSignatureMsg::compute_s2(
        &party2_R,
        &party2_vk,
        party2_keys,
        party2_eph_keys,
        &message,
    );

    // party1
    let party1_sig = Party1LocalSignatureMsg::compute(
        party1_R,
        party1_vk,
        &party1_local_sig,
        &party2_local_sig,
        &message,
    )
    .expect("bad signature");
    // party2
    let party2_sig = Party2LocalSignatureMsg::compute(
        party2_R,
        party2_vk,
        &party2_local_sig,
        &party1_local_sig,
        &message,
    )
    .expect("bad signature");

    assert_eq!(party1_sig, party2_sig);
}

pub fn two_party_keygen() -> (EcKeyPair, EcKeyPair, Point) {
    // round 1
    // party1:
    let (party1_first_message, comm_witness, party1_keys) =
        Party1KeyGenFirstMsg::create_commitments();
    // party2:
    let (party2_first_message, party2_keys) = Party2KeyGenFirstMsg::create();
    // round 2
    // party1
    let party1_second_message = Party1KeyGenSecondMsg::verify_and_decommit(
        comm_witness,
        &party2_first_message.d_log_proof,
    )
    .expect("failed to verify and decommit");
    // compute ak:
    let party1_ak = compute_ak(&party1_keys, &party2_first_message.public_share);
    // party2
    let _party_two_second_message = Party2KeyGenSecondMsg::verify_commitments_and_dlog_proof(
        &party1_first_message,
        &party1_second_message,
    )
    .expect("failed to verify commitments and DLog proof");
    let _party2_ak = compute_ak(
        &party2_keys,
        &party1_second_message.comm_witness.public_share,
    );

    (party1_keys, party2_keys, party1_ak)
}

#[test]
fn test_keygen_altered_public_share_rejected() {
    let (party1_first_message, comm_witness, _party1_keys) =
        Party1KeyGenFirstMsg::create_commitments();
    let (party2_first_message, _party2_keys) = Party2KeyGenFirstMsg::create();
    let mut party1_second_message = Party1KeyGenSecondMsg::verify_and_decommit(
        comm_witness,
        &party2_first_message.d_log_proof,
    )
    .expect("failed to verify and decommit");
    // the decommitted public share is not the committed one
    let tampered = party1_second_message
        .comm_witness
        .public_share
        .add_point(&Point::generator());
    party1_second_message.comm_witness.public_share = tampered;
    let res = Party2KeyGenSecondMsg::verify_commitments_and_dlog_proof(
        &party1_first_message,
        &party1_second_message,
    );
    assert!(matches!(res, Err(ProofError::CommitmentMismatch)));
}

#[test]
fn test_keygen_altered_blinding_rejected() {
    let (party1_first_message, comm_witness, _party1_keys) =
        Party1KeyGenFirstMsg::create_commitments();
    let (party2_first_message, _party2_keys) = Party2KeyGenFirstMsg::create();
    let mut party1_second_message = Party1KeyGenSecondMsg::verify_and_decommit(
        comm_witness,
        &party2_first_message.d_log_proof,
    )
    .expect("failed to verify and decommit");
    // the revealed blinding factor is not the committed one
    party1_second_message.comm_witness.pk_commitment_blind_factor[0] ^= 0x01;
    let res = Party2KeyGenSecondMsg::verify_commitments_and_dlog_proof(
        &party1_first_message,
        &party1_second_message,
    );
    assert!(matches!(res, Err(ProofError::CommitmentMismatch)));
}

#[test]
fn test_dlog_proof_tamper_rejected() {
    let (party2_first_message, _party2_keys) = Party2KeyGenFirstMsg::create();
    let honest = &party2_first_message.d_log_proof;
    let one = Scalar::from_u64(1);
    let tampered = DLogProof {
        pk: honest.pk.clone(),
        pk_t_rand_commitment: honest.pk_t_rand_commitment.clone(),
        challenge_response: honest.challenge_response.add(&one),
    };
    assert!(matches!(
        DLogProof::verify(&tampered),
        Err(ProofError::ProofInvalid)
    ));
    // the untouched proof still verifies
    assert!(DLogProof::verify(honest).is_ok());
}

#[test]
fn test_dlog_proof_permuted_transcript_rejected() {
    // swapping the statement and the commitment permutes the challenge
    // transcript; the proof must not carry over to the permuted reading
    let (party2_first_message, _party2_keys) = Party2KeyGenFirstMsg::create();
    let honest = &party2_first_message.d_log_proof;
    let permuted = DLogProof {
        pk: honest.pk_t_rand_commitment.clone(),
        pk_t_rand_commitment: honest.pk.clone(),
        challenge_response: honest.challenge_response.clone(),
    };
    assert!(matches!(
        DLogProof::verify(&permuted),
        Err(ProofError::ProofInvalid)
    ));
}

#[test]
fn test_coinflip_proof_tamper_rejected() {
    let (party1_cf_first_message, _seed, _blinding) = Party1CFFirstMsg::commit();
    let mut proof = party1_cf_first_message.cf_msg1.pedersen_proof;
    proof.z = proof.z.add(&Scalar::from_u64(1));
    assert!(matches!(
        Party2CFFirstMsg::share(&paradise_city::party_one::CoinFlipFirstMsg {
            cf_msg1: paradise_city::coin_flip::Party1FirstMessage {
                pedersen_proof: proof
            }
        }),
        Err(ProofError::ProofInvalid)
    ));
}

#[test]
fn test_coinflip_agreement() {
    let (party1_keys, _party2_keys, public_key) = two_party_keygen();
    let _ = party1_keys;
    let (party1_cf_first_message, party1_cf_seed, party1_cf_blinding) = Party1CFFirstMsg::commit();
    let party2_cf_first_message =
        Party2CFFirstMsg::share(&party1_cf_first_message).expect("coin flip proof rejected");
    let (party1_cf_second_message, party1_alpha) = Party1CFSecondMsg::reveal_seed(
        &party2_cf_first_message,
        party1_cf_seed,
        party1_cf_blinding,
    );
    let coin_flip_res = CoinFlipResult::finalize(
        &party1_cf_second_message,
        &party2_cf_first_message,
        &party1_cf_first_message,
    )
    .expect("coin flip finalization rejected");
    // both parties hold the same coin and derive the same session key
    assert_eq!(party1_alpha, coin_flip_res.party2_alpha);
    let party1_vk = compute_vk(&public_key, &party1_alpha);
    let party2_vk = compute_vk(&public_key, &coin_flip_res.party2_alpha);
    assert_eq!(party1_vk, party2_vk);
}

#[test]
fn test_eph_ddh_tamper_rejected() {
    let (party1_keys, party2_keys, public_key) = two_party_keygen();
    let _ = (party1_keys, party2_keys);
    let alpha = Scalar::from_u64(3);
    let vk = compute_vk(&public_key, &alpha);
    let message = vec![42u8];
    let (mut party2_eph_first_message, _party2_eph_keys) =
        Party2EphKeyGenFirstMsg::create(&vk, &message);
    // flip the `c = r·H` component: both DDH equations can no longer hold
    let tampered_c = party2_eph_first_message.c.add_point(&Point::generator());
    party2_eph_first_message.c = tampered_c;
    let (_msg, comm_witness, _keys) = Party1EphKeyGenFirstMsg::create_commitments(&vk, &message);
    let res = Party1EphKeyGenSecondMsg::verify_and_decommit(comm_witness, &party2_eph_first_message);
    assert!(matches!(res, Err(ProofError::ProofInvalid)));
}

#[test]
fn test_range_enforcement() {
    // the generated first-party secret satisfies 3·ask < q: its most
    // significant byte stays below a third of the group order's
    for _ in 0..8 {
        let (_msg, _wit, keys) = Party1KeyGenFirstMsg::create_commitments();
        let bytes = keys.ask.to_le_bytes();
        assert_eq!(bytes.len(), 32);
        assert!(bytes[31] <= 0x04);
    }
    // a caller-chosen share inside the range is used as given
    let fixed = Scalar::from_u64(123456789);
    let (_msg, _wit, keys) = Party1KeyGenFirstMsg::create_commitments_with_fixed_secret_share(
        fixed.clone(),
    );
    assert_eq!(keys.ask, fixed);
}

#[test]
fn test_nonce_is_fresh_per_signing() {
    let (_k1, _k2, public_key) = two_party_keygen();
    let alpha = Scalar::from_u64(7);
    let vk = compute_vk(&public_key, &alpha);
    let message = vec![10u8];
    // signing the same message twice mixes fresh entropy into the nonce
    let (_m1, _w1, eph_a) = Party1EphKeyGenFirstMsg::create_commitments(&vk, &message);
    let (_m2, _w2, eph_b) = Party1EphKeyGenFirstMsg::create_commitments(&vk, &message);
    assert_ne!(eph_a.R_i, eph_b.R_i);
    let (msg_a, _e_a) = Party2EphKeyGenFirstMsg::create(&vk, &message);
    let (msg_b, _e_b) = Party2EphKeyGenFirstMsg::create(&vk, &message);
    assert_ne!(msg_a.public_share, msg_b.public_share);
}

#[test]
fn test_zeroization() {
    let mut scalar = Scalar::from_u64(123456789);
    scalar.zeroize();
    assert!(scalar.to_le_bytes().iter().all(|b| *b == 0));

    let (_msg, _wit, mut keys) = Party1KeyGenFirstMsg::create_commitments();
    keys.zeroize_secret();
    assert!(keys.ask.to_le_bytes().iter().all(|b| *b == 0));

    let (_k1, _k2, public_key) = two_party_keygen();
    let alpha = Scalar::from_u64(5);
    let vk = compute_vk(&public_key, &alpha);
    let (_m, _w, mut eph) = Party1EphKeyGenFirstMsg::create_commitments(&vk, &vec![1u8]);
    let public_before = eph.R_i.to_bytes();
    eph.zeroize_secret();
    assert_eq!(eph.R_i.to_bytes(), public_before);
}

#[test]
fn test_verify_rejects_tampered_signature() {
    let (party1_keys, party2_keys, public_key) = two_party_keygen();
    let message = vec![10u8];
    let (cf1, seed, blind) = Party1CFFirstMsg::commit();
    let cf2 = Party2CFFirstMsg::share(&cf1).expect("coin flip proof rejected");
    let (_cf_second, alpha) = Party1CFSecondMsg::reveal_seed(&cf2, seed, blind);
    let vk = compute_vk(&public_key, &alpha);
    let (_e1, w1, eph1) = Party1EphKeyGenFirstMsg::create_commitments(&vk, &message);
    let (e2, eph2) = Party2EphKeyGenFirstMsg::create(&vk, &message);
    let _ = Party1EphKeyGenSecondMsg::verify_and_decommit(w1, &e2).expect("ddh proof rejected");
    let joint_r = compute_R(&eph1, &e2.public_share);
    let s1 = Party1LocalSignatureMsg::compute_s1(
        &joint_r, &vk, party1_keys, eph1, &message, &alpha,
    );
    let s2 = Party2LocalSignatureMsg::compute_s2(&joint_r, &vk, party2_keys, eph2, &message);
    let sig = Party1LocalSignatureMsg::compute(
        joint_r.clone(),
        vk.clone(),
        &s1,
        &s2,
        &message,
    )
    .expect("bad signature");
    // the honest signature verifies; a tampered one is rejected
    assert!(paradise_city::two_party::verify(vk.clone(), &message, &sig).is_ok());
    let tampered = paradise_city::two_party::Signature {
        s: sig.s.add(&Scalar::from_u64(1)),
        R: sig.R.clone(),
    };
    assert!(matches!(
        paradise_city::two_party::verify(vk, &message, &tampered),
        Err(paradise_city::Error::InvalidSig)
    ));
}


#[test]
fn test_aggregate_mismatch_rejected() {
    let (party1_keys, party2_keys, public_key) = two_party_keygen();
    let message = vec![10u8];
    let alpha = Scalar::from_u64(11);
    let vk = compute_vk(&public_key, &alpha);
    let (_e1, _w1, eph1) = Party1EphKeyGenFirstMsg::create_commitments(&vk, &message);
    let (e2, eph2) = Party2EphKeyGenFirstMsg::create(&vk, &message);
    let joint_r = compute_R(&eph1, &e2.public_share);
    let s1 = Party1LocalSignatureMsg::compute_s1(
        &joint_r, &vk, party1_keys, eph1, &message, &alpha,
    );
    let mut s2 = Party2LocalSignatureMsg::compute_s2(&joint_r, &vk, party2_keys, eph2, &message);
    // a corrupted partial cannot pass the aggregate self-check
    s2.s2 = s2.s2.add(&Scalar::from_u64(1));
    let res = Party1LocalSignatureMsg::compute(joint_r, vk, &s1, &s2, &message);
    assert!(matches!(res, Err(ProofError::AggregateSignatureInvalid)));
}

#[test]
fn test_commitment_recomputation() {
    let message = vec![1u8, 2, 3, 4];
    let (com, blind) = HashCommitment::create_commitment(&message);
    assert_eq!(blind.len(), 32);
    assert_eq!(com.len(), 64);
    let recomputed =
        HashCommitment::create_commitment_with_user_defined_randomness(&message, &blind);
    assert_eq!(com, recomputed);
    let mut other_blind = blind.clone();
    other_blind[0] ^= 0xff;
    let different =
        HashCommitment::create_commitment_with_user_defined_randomness(&message, &other_blind);
    assert_ne!(com, different);
}

#[test]
fn test_signature_decoding() {
    let s_bytes = Scalar::from_u64(99).to_le_bytes();
    let r_bytes = Point::generator().to_bytes();
    let decoded = Signature::from_bytes(&s_bytes, &r_bytes).expect("canonical encodings rejected");
    assert_eq!(decoded.s.to_le_bytes(), s_bytes);
    assert_eq!(decoded.R.to_bytes(), r_bytes);
    // a non-canonical scalar is rejected
    let res = Signature::from_bytes(&vec![0xffu8; 32], &r_bytes);
    assert!(matches!(res, Err(ProofError::BadEncoding)));
    // a wrong-length nonce encoding is rejected
    let res = Signature::from_bytes(&s_bytes, &vec![1u8; 5]);
    assert!(matches!(res, Err(ProofError::BadEncoding)));
}

#[test]
fn test_point_and_scalar_codecs() {
    let p = Point::generator();
    let round = Point::from_bytes(&p.to_bytes()).expect("canonical point rejected");
    assert_eq!(round, p);
    assert!(matches!(
        Point::from_bytes(&vec![0xffu8; 32]),
        Err(paradise_city::ErrorKey::InvalidPublicKey)
    ));
    let s = Scalar::from_u64(77);
    let back = Scalar::from_le_bytes(&s.to_le_bytes()).expect("canonical scalar rejected");
    assert_eq!(back, s);
    assert!(Scalar::from_le_bytes(&vec![0xffu8; 32]).is_none());
    assert!(Scalar::from_le_bytes(&vec![0u8; 31]).is_none());
}

#[test]
fn test_keygen_with_fixed_shares() {
    let s1 = Scalar::from_u64(100);
    let s2 = Scalar::from_u64(200);
    let (party1_first_message, comm_witness, party1_keys) =
        Party1KeyGenFirstMsg::create_commitments_with_fixed_secret_share(s1.clone());
    let (party2_first_message, party2_keys) =
        Party2KeyGenFirstMsg::create_with_fixed_secret_share(s2.clone());
    let party1_second_message = Party1KeyGenSecondMsg::verify_and_decommit(
        comm_witness,
        &party2_first_message.d_log_proof,
    )
    .expect("failed to verify and decommit");
    let _ = Party2KeyGenSecondMsg::verify_commitments_and_dlog_proof(
        &party1_first_message,
        &party1_second_message,
    )
    .expect("failed to verify commitments and DLog proof");
    let party1_ak = compute_ak(&party1_keys, &party2_first_message.public_share);
    let party2_ak = compute_ak(
        &party2_keys,
        &party1_second_message.comm_witness.public_share,
    );
    assert_eq!(party1_ak, party2_ak);
    // the joint key is the generator times the summed shares
    let expected = Point::generator().scalar_mul(&s1.add(&s2));
    assert_eq!(party1_ak, expected);
}

#[test]
fn test_checked_secret_share_range() {
    // a share inside the range yields the same commitments as the fixed path
    let ok = Party1KeyGenFirstMsg::create_commitments_with_checked_secret_share(
        Scalar::from_u64(42),
    );
    assert!(ok.is_ok());
    // a share above a third of the group order is rejected
    let mut big = vec![0u8; 32];
    big[31] = 0x08;
    let big_scalar = Scalar::from_le_bytes(&big).expect("canonical scalar rejected");
    let res = Party1KeyGenFirstMsg::create_commitments_with_checked_secret_share(big_scalar);
    assert!(matches!(res, Err(ProofError::RangeViolation)));
}

#[test]
fn test_manual_schnorr_signature_verifies() {
    // a signature assembled from known scalars satisfies s·G = R + c·vk
    // through the real curve arithmetic
    let x = Scalar::from_u64(7);
    let r = Scalar::from_u64(5);
    let g = Point::generator();
    let vk = g.scalar_mul(&x);
    let big_r = g.scalar_mul(&r);
    let message = vec![10u8];
    let c = paradise_city::hashing::reversed_challenge(&big_r.to_bytes(), &message);
    let s = r.add(&c.mul(&x));
    let sig = Signature { s, R: big_r };
    assert!(paradise_city::two_party::verify(vk, &message, &sig).is_ok());
}

#[test]
fn test_pedersen_blind_proof_cycle() {
        let m = Scalar::from_u64(3);
    let r = Scalar::from_u64(9);
    let mut proof = PedersenBlindingProof::prove(&m, &r);
    assert!(PedersenBlindingProof::verify(&proof).is_ok());
    // the commitment is m·G + r·H
    let g = Point::generator();
    let h = Point::base_point2();
    let expected = g.scalar_mul(&m).add_point(&h.scalar_mul(&r));
    assert_eq!(proof.com, expected);
    // a different committed value no longer matches the transcript
    proof.m = Scalar::from_u64(4);
    assert!(matches!(
        PedersenBlindingProof::verify(&proof),
        Err(ProofError::ProofInvalid)
    ));
}
