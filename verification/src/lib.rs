#![allow(non_snake_case)]
//! Two-party threshold signing for a Schnorr-style signature over the Jubjub
//! curve (the RedJubjub family). Two mutually distrusting parties jointly
//! produce signatures under an aggregated public key; neither learns the
//! other's secret share. The crate covers distributed key generation with a
//! commit/decommit round, a two-round coin flip that re-randomizes the
//! signing key, and the five-round signing protocol itself.
//!
//! Scalars and points carry their canonical byte encodings; the underlying
//! field and curve arithmetic is delegated to the `jubjub` crate through a
//! small set of trusted wrappers in `curve`, and every challenge hash is a
//! personalized Blake2b-512 reached through `hashing`.

use vstd::prelude::*;

pub mod coin_flip;
pub mod commitment;
pub mod dlog;
pub mod ecddh;
pub mod guarantees;
pub mod party_one;
pub mod party_two;
pub mod pedersen;
pub mod two_party;
pub mod curve;
pub mod encoding;
pub mod hashing;

verus! {

/// Protocol-level failures; each aborts the current session.
#[derive(Clone, Copy, Debug, PartialEq, Eq, Structural)]
pub enum Error {
    InvalidKey,
    InvalidSS,
    InvalidCom,
    InvalidSig,
}

/// Why a proof or a protocol message was rejected; every variant is fatal
/// to the session that saw it.
#[derive(Clone, Copy, Debug, PartialEq, Eq, Structural)]
pub enum ProofError {
    /// A Schnorr, EC-DDH or Pedersen proof failed its verification equation.
    ProofInvalid,
    /// A revealed opening does not reproduce the earlier hash commitment.
    CommitmentMismatch,
    /// A first-party secret share does not satisfy the `< q/3` range bound.
    RangeViolation,
    /// The combined signature failed the self-check against the session key.
    AggregateSignatureInvalid,
    /// A received scalar or point fails canonical decoding.
    BadEncoding,
}

/// Failures of secret-share handling.
#[derive(Clone, Copy, Debug, PartialEq, Eq, Structural)]
pub enum ErrorSS {
    VerifyShareError,
}

/// Failures of public-key decoding.
#[derive(Clone, Copy, Debug, PartialEq, Eq, Structural)]
pub enum ErrorKey {
    InvalidPublicKey,
}

} // verus!
