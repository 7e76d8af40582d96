//! Data model: unspent outputs, the private witness, the proof artifact,
//! and the error kinds of each pipeline stage.

use vstd::prelude::*;

verus! {

/// One unspent transaction output: a spendable amount tied to the output
/// `vout` of the transaction `txid` (a 32-byte hash written as 64 hex
/// characters), denominated in satoshis, locked by the script
/// `script_pubkey`.  The ledger gateway supplies the locking script with
/// each output; the statement matches it against the script derived from
/// the witness's address, so an output locked to someone else's script
/// can never count toward the total.
#[derive(Clone, Debug)]
pub struct UTXO {
    pub txid: String,
    pub vout: u32,
    pub amount: u64,
    pub script_pubkey: Vec<u8>,
}

/// The private witness of one proof request: the address, the disclosed
/// threshold in satoshis, and the unspent outputs claimed for the address.
/// Only `threshold_amount` ever becomes public.
#[derive(Clone, Debug)]
pub struct BalanceInput {
    pub address: String,
    pub threshold_amount: u64,
    pub utxo_set: Vec<UTXO>,
}

/// The output of a successful proving run: opaque proof bytes binding the
/// program identity to the public output, and the public output itself
/// (the encoded threshold, nothing more).
#[derive(Clone, Debug)]
pub struct ProofArtifact {
    pub proof_bytes: Vec<u8>,
    pub public_output_bytes: Vec<u8>,
}

/// Failure of the ownership check that runs before any proving work.
#[derive(Clone, Copy, Debug, PartialEq, Eq, Structural)]
pub enum OwnershipError {
    /// The address string does not parse as a mainnet Bitcoin address.
    MalformedAddress,
    /// The address parses, but signature verification for its type is not
    /// implemented.
    UnsupportedAddressType,
    /// The signature does not prove control of the address's key.
    InvalidSignature,
}

/// Failure reported by the external ledger gateway that supplies the
/// unspent-output set; the caller must keep these distinct from proof
/// failures.
#[derive(Clone, Copy, Debug, PartialEq, Eq, Structural)]
pub enum LedgerError {
    /// The backend could not be reached; retryable.
    Unavailable,
    /// The backend knows no outputs for the address; terminal.
    NotFound,
}

/// Failure of a proving run.
#[derive(Clone, Copy, Debug, PartialEq, Eq, Structural)]
pub enum ProveError {
    /// The balance statement does not hold of the witness; no artifact
    /// exists for it, by construction.
    StatementFailed,
    /// An internal engine fault unrelated to the witness; retryable.
    EngineFault,
}

/// Failure of a verification run.
#[derive(Clone, Copy, Debug, PartialEq, Eq, Structural)]
pub enum VerifyError {
    /// The proof bytes do not bind the public output; cryptographic
    /// rejection.
    InvalidProof,
    /// The proof bytes bind the output, but under a program identity other
    /// than the pinned one.
    WrongStatement,
    /// The public output is not a well-formed encoded threshold.
    MalformedOutput,
}

/// Failure of the whole generate-proof operation, as the service boundary
/// reports it.  Ownership errors are surfaced verbatim; every
/// statement-level failure is collapsed into [`ServiceError::Denied`] so
/// that the error cannot be used as an oracle on the private balance.
#[derive(Clone, Copy, Debug, PartialEq, Eq, Structural)]
pub enum ServiceError {
    /// The ownership check failed; client fault, surfaced verbatim.
    Ownership(OwnershipError),
    /// The proof could not be generated; deliberately unspecific.
    Denied,
    /// An internal engine fault; server fault, retryable.
    Engine,
}

} // verus!
