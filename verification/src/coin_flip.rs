//! Two-round string coin flip producing a jointly random scalar, after the
//! simulation-secure protocol of Lindell's tutorial on the simulation
//! technique. The first party commits to its seed with a Pedersen
//! commitment and proves the commitment well formed; the second party
//! answers with its own seed in the clear; the first party then opens the
//! commitment, and both sides derive the coin as the sum of the two seeds.

use vstd::prelude::*;

use crate::curve::{base2, group_order, Scalar};
use crate::encoding::eq_bytes;
use crate::pedersen::{pedersen_proof_ok, PedersenBlindingProof, ProvePederesenBlind};
use crate::ProofError;

verus! {

/// The first party's commitment round: a Pedersen commitment to its seed,
/// with the proof that the commitment is well formed. The proof carries
/// the committed seed in the clear as its `m` field; it does double duty
/// as the later opening, so the seed is no secret once this message is
/// followed by the reveal.
#[derive(Debug)]
pub struct Party1FirstMessage {
    pub pedersen_proof: PedersenBlindingProof,
}

/// The first party's reveal round: the opening of the commitment, as a
/// fresh Pedersen blinding proof over the same commitment.
#[derive(Debug)]
pub struct Party1SecondMessage {
    pub pedersen_proof: PedersenBlindingProof,
}

/// The second party's seed, sent in the clear.
#[derive(Debug)]
pub struct Party2FirstMessage {
    pub seed: Scalar,
}

impl Party1FirstMessage {
    /// Samples a seed and a blinding factor, and commits: the emitted proof
    /// speaks about `com = seed·G + blinding·H` and verifies.
    pub fn commit() -> (r: (Party1FirstMessage, Scalar, Scalar))
        ensures
            pedersen_proof_ok(r.0.pedersen_proof),
            r.0.pedersen_proof.m.val() == r.1.val(),
            r.0.pedersen_proof.com.val() == (r.1.val() + r.2.val() * base2()) % group_order(),
    {
        let seed = Scalar::new_random();
        let blinding = Scalar::new_random();
        let pf = PedersenBlindingProof::prove(&seed, &blinding);
        (Party1FirstMessage { pedersen_proof: pf }, seed, blinding)
    }
}

impl Party2FirstMessage {
    /// Verifies the first party's commitment proof; on success answers with
    /// a fresh uniform seed, otherwise aborts with `ProofInvalid`.
    pub fn share(pf: &PedersenBlindingProof) -> (r: Result<Party2FirstMessage, ProofError>)
        ensures
            r is Ok <==> pedersen_proof_ok(*pf),
            r is Err ==> r->Err_0 == ProofError::ProofInvalid,
    {
        match PedersenBlindingProof::verify(pf) {
            Ok(()) => Ok(Party2FirstMessage { seed: Scalar::new_random() }),
            Err(e) => Err(e),
        }
    }
}

impl Party1SecondMessage {
    /// Opens the commitment by re-proving it over the same seed and
    /// blinding, and derives the coin `seed + seed2`.
    pub fn reveal_seed(party2_seed: &Scalar, seed: &Scalar, blinding: &Scalar) -> (r: (
        Party1SecondMessage,
        Scalar,
    ))
        ensures
            pedersen_proof_ok(r.0.pedersen_proof),
            r.0.pedersen_proof.m.val() == seed.val(),
            r.0.pedersen_proof.com.val() == (seed.val() + blinding.val() * base2())
                % group_order(),
            r.1.val() == (seed.val() + party2_seed.val()) % group_order(),
    {
        let pf = PedersenBlindingProof::prove(seed, blinding);
        let coin = seed.add(party2_seed);
        (Party1SecondMessage { pedersen_proof: pf }, coin)
    }
}

/// The second party's finalization: the revealed commitment must be the
/// committed one, bytewise, and its proof must verify; the coin is then
/// the revealed seed plus the second party's own seed. A changed
/// commitment aborts with `CommitmentMismatch`, a failing proof with
/// `ProofInvalid`.
pub fn finalize(
    pf: &PedersenBlindingProof,
    party2_seed: &Scalar,
    com_first_round: &crate::curve::Point,
) -> (r: Result<Scalar, ProofError>)
    ensures
        r is Ok <==> (pf.com.bytes() == com_first_round.bytes() && pedersen_proof_ok(*pf)),
        r is Ok ==> r->Ok_0.val() == (pf.m.val() + party2_seed.val()) % group_order(),
        r is Err ==> r->Err_0 == (if pf.com.bytes() != com_first_round.bytes() {
            ProofError::CommitmentMismatch
        } else {
            ProofError::ProofInvalid
        }),
{
    let com_revealed = pf.com.to_bytes();
    let com_committed = com_first_round.to_bytes();
    if !eq_bytes(&com_revealed, &com_committed) {
        return Err(ProofError::CommitmentMismatch);
    }
    match PedersenBlindingProof::verify(pf) {
        Ok(()) => Ok(pf.m.add(party2_seed)),
        Err(_) => Err(ProofError::ProofInvalid),
    }
}

} // verus!
