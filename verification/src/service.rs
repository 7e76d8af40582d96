//! The generate-proof operation as the service boundary runs it: the
//! ownership check fails fast before any proving work, the witness is
//! assembled, the prover engine runs, and every statement-level failure
//! collapses into one undifferentiated denial so that the error can never
//! serve as an oracle on the private balance.

use vstd::prelude::*;

use crate::codec::enc_u64;
use crate::engine::{proof_bytes_model, prove};
use crate::ownership::{ownership_holds, spec_verify_ownership, verify_bitcoin_signature};
use crate::statement::statement_holds;
use crate::types::{BalanceInput, ProofArtifact, ProveError, ServiceError, UTXO};

verus! {

/// The witness a request's parts assemble into.
pub open spec fn spec_witness(address: String, threshold_amount: u64, utxo_set: Vec<UTXO>) -> BalanceInput {
    BalanceInput { address, threshold_amount, utxo_set }
}

/// Assemble the private witness for one proof request.  Pure structural
/// assembly: all semantic validation belongs to the statement, where it
/// is bound to the proof.
pub fn build_witness(address: String, threshold_amount: u64, utxo_set: Vec<UTXO>) -> (w:
    BalanceInput)
    ensures
        w == spec_witness(address, threshold_amount, utxo_set),
{
    BalanceInput { address, threshold_amount, utxo_set }
}

/// Run the whole generate-proof operation on an already-fetched output
/// set.
///
/// Order matters and is part of the contract: a failing ownership check
/// is reported verbatim, whatever the outputs would have proved, and only
/// a request that passes it reaches the engine.  A witness the statement
/// rejects is answered with the deliberately unspecific
/// [`ServiceError::Denied`].
pub fn generate_proof(
    address: String,
    signature: String,
    threshold_amount: u64,
    utxo_set: Vec<UTXO>,
) -> (r: Result<ProofArtifact, ServiceError>)
    ensures
        (spec_verify_ownership(address@, signature@) matches Err(e) ==> r == Err::<
            ProofArtifact,
            ServiceError,
        >(ServiceError::Ownership(e))),
        r is Ok <==> ownership_holds(address@, signature@) && statement_holds(
            spec_witness(address, threshold_amount, utxo_set),
        ),
        r is Ok ==> r->Ok_0.proof_bytes@ == proof_bytes_model(threshold_amount),
        r is Ok ==> r->Ok_0.public_output_bytes@ == enc_u64(threshold_amount),
        ownership_holds(address@, signature@) && !statement_holds(
            spec_witness(address, threshold_amount, utxo_set),
        ) ==> r == Err::<ProofArtifact, ServiceError>(ServiceError::Denied),
{
    match verify_bitcoin_signature(address.as_str(), signature.as_str()) {
        Err(e) => Err(ServiceError::Ownership(e)),
        Ok(()) => {
            let w = build_witness(address, threshold_amount, utxo_set);
            match prove(&w) {
                Ok(artifact) => Ok(artifact),
                Err(ProveError::StatementFailed) => Err(ServiceError::Denied),
                Err(ProveError::EngineFault) => Err(ServiceError::Engine),
            }
        },
    }
}

} // verus!
