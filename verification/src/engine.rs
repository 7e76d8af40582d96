//! The prover and verifier engines.  Proving evaluates the balance
//! statement as a pure function of the witness — no clock, randomness or
//! I/O can reach it — and, exactly when the statement holds, emits an
//! artifact whose proof bytes bind the pinned program identity to the
//! public output through a SHA-256 digest.  Verification recomputes that
//! binding, pins the program identity, and recovers the threshold.
//!
//! The artifact is a binding tag, not an unforgeable proof: it is a
//! function of the threshold alone, so anyone can compute an accepted
//! artifact for any threshold without a witness.  What the contracts
//! promise — and all they promise — is that this library's `prove` emits
//! an artifact exactly when the statement holds of its witness, and that
//! `verify` accepts exactly the artifacts consistent with the pinned
//! identity.  Acceptance becomes evidence of balance only once a real
//! proving backend produces the artifact behind the trusted boundary.

use vstd::prelude::*;

use crate::codec::{dec_u64, decode_u64, enc_u64, encode_u64, lemma_enc_dec_round_trip};
use crate::hashing::{sha256_bytes, sha256_of};
use crate::statement::{eval_statement, statement_holds, sum_amounts};
use crate::types::{BalanceInput, ProofArtifact, ProveError, VerifyError};

verus! {

/// The pinned identity of the balance statement.  Prover and verifier
/// must agree on it; changing the statement's logic means changing this
/// value, which invalidates the comparability of old proofs.
pub const PROGRAM_ID: [u8; 32] = [
    0x62, 0x74, 0x63, 0x2d, 0x62, 0x61, 0x6c, 0x61, 0x6e, 0x63, 0x65, 0x2d, 0x74, 0x68, 0x72,
    0x65, 0x73, 0x68, 0x6f, 0x6c, 0x64, 0x2d, 0x73, 0x74, 0x6d, 0x74, 0x2d, 0x76, 0x31, 0x00,
    0x00, 0x00,
];

/// The program identity as a byte sequence.
pub open spec fn program_id_seq() -> Seq<u8> {
    PROGRAM_ID@
}

/// The proof bytes every successful proving run emits for threshold `t`:
/// the program identity followed by the digest binding it to the encoded
/// threshold.  A function of the threshold alone — the witness's address
/// and outputs leave no trace in it.
pub open spec fn proof_bytes_model(t: u64) -> Seq<u8> {
    program_id_seq() + sha256_of(program_id_seq() + enc_u64(t))
}

/// The verdict verification owes for an artifact `(pb, ob)` against the
/// pinned identity `pid`: cryptographic rejection unless the proof bytes
/// bind `ob` through the digest, then a pinning check on the identity,
/// then structural well-formedness of the output.
pub open spec fn spec_verify(pb: Seq<u8>, ob: Seq<u8>, pid: Seq<u8>) -> Result<u64, VerifyError> {
    if !(pb.len() >= 32 && pb == pb.take(32) + sha256_of(pb.take(32) + ob)) {
        Err(VerifyError::InvalidProof)
    } else if pb.take(32) != pid {
        Err(VerifyError::WrongStatement)
    } else if ob.len() != 8 {
        Err(VerifyError::MalformedOutput)
    } else {
        Ok(dec_u64(ob))
    }
}

/// The concatenation of two byte vectors.
fn concat_bytes(a: &Vec<u8>, b: &Vec<u8>) -> (r: Vec<u8>)
    ensures
        r@ == a@ + b@,
{
    let mut r: Vec<u8> = Vec::new();
    let mut i: usize = 0;
    while i < a.len()
        invariant
            0 <= i <= a@.len(),
            r@ == a@.take(i as int),
        decreases a@.len() - i,
    {
        r.push(a[i]);
        i = i + 1;
    }
    proof {
        assert(a@.take(a@.len() as int) =~= a@);
    }
    let mut j: usize = 0;
    while j < b.len()
        invariant
            0 <= j <= b@.len(),
            r@ == a@ + b@.take(j as int),
        decreases b@.len() - j,
    {
        proof {
            assert(a@ + b@.take(j + 1) =~= (a@ + b@.take(j as int)).push(b@[j as int]));
        }
        r.push(b[j]);
        j = j + 1;
    }
    proof {
        assert(b@.take(b@.len() as int) =~= b@);
    }
    r
}

/// The pinned program identity as a byte vector.
pub fn program_id() -> (r: Vec<u8>)
    ensures
        r@ == program_id_seq(),
{
    let mut r: Vec<u8> = Vec::new();
    let mut i: usize = 0;
    while i < 32
        invariant
            0 <= i <= 32,
            r@ == program_id_seq().take(i as int),
        decreases 32 - i,
    {
        r.push(PROGRAM_ID[i]);
        i = i + 1;
    }
    proof {
        assert(program_id_seq().take(32) =~= program_id_seq());
    }
    r
}

/// Run the prover engine on a witness.
///
/// The statement is evaluated in the open, as a deterministic pure
/// function; an artifact exists exactly when it holds, and the artifact
/// is a function of the threshold alone.  A witness the statement
/// rejects — too small a total, a duplicated or malformed output, a
/// malformed address, an overflowing sum — yields `StatementFailed` and
/// no artifact, by construction.
pub fn prove(w: &BalanceInput) -> (r: Result<ProofArtifact, ProveError>)
    ensures
        r is Ok <==> statement_holds(*w),
        r is Ok ==> r->Ok_0.proof_bytes@ == proof_bytes_model(w.threshold_amount),
        r is Ok ==> r->Ok_0.public_output_bytes@ == enc_u64(w.threshold_amount),
        !statement_holds(*w) ==> r == Err::<ProofArtifact, ProveError>(ProveError::StatementFailed),
        sum_amounts(w.utxo_set@) < w.threshold_amount ==> r == Err::<ProofArtifact, ProveError>(
            ProveError::StatementFailed,
        ),
{
    match eval_statement(w) {
        None => Err(ProveError::StatementFailed),
        Some(t) => {
            let out = encode_u64(t);
            let pid = program_id();
            let bound = concat_bytes(&pid, &out);
            let tag = sha256_bytes(bound.as_slice());
            let pb = concat_bytes(&pid, &tag);
            Ok(ProofArtifact { proof_bytes: pb, public_output_bytes: out })
        },
    }
}

/// Run the verifier engine on an artifact against an expected program
/// identity.  Deterministic, stateless and side-effect free; on success
/// the decoded threshold is all the verifier learns.
#[verifier::loop_isolation(false)]
pub fn verify(artifact: &ProofArtifact, expected_program_id: &[u8; 32]) -> (r: Result<
    u64,
    VerifyError,
>)
    ensures
        r == spec_verify(
            artifact.proof_bytes@,
            artifact.public_output_bytes@,
            expected_program_id@,
        ),
{
    let pb = &artifact.proof_bytes;
    let ob = &artifact.public_output_bytes;
    if pb.len() < 32 {
        return Err(VerifyError::InvalidProof);
    }
    let mut bound: Vec<u8> = Vec::new();
    let mut i: usize = 0;
    while i < 32
        invariant
            pb@.len() >= 32,
            0 <= i <= 32,
            bound@ == pb@.take(i as int),
        decreases 32 - i,
    {
        bound.push(pb[i]);
        i = i + 1;
    }
    let mut j: usize = 0;
    while j < ob.len()
        invariant
            pb@.len() >= 32,
            0 <= j <= ob@.len(),
            bound@ == pb@.take(32) + ob@.take(j as int),
        decreases ob@.len() - j,
    {
        proof {
            assert(pb@.take(32) + ob@.take(j + 1) =~= (pb@.take(32) + ob@.take(j as int)).push(
                ob@[j as int],
            ));
        }
        bound.push(ob[j]);
        j = j + 1;
    }
    proof {
        assert(ob@.take(ob@.len() as int) =~= ob@);
    }
    let digest = sha256_bytes(bound.as_slice());
    if pb.len() - 32 != digest.len() {
        proof {
            assert(pb@ != pb@.take(32) + sha256_of(pb@.take(32) + ob@));
        }
        return Err(VerifyError::InvalidProof);
    }
    let pbn = pb.len();
    let mut k: usize = 0;
    while k < digest.len()
        invariant
            pbn == pb@.len(),
            pb@.len() == 32 + digest@.len(),
            digest@ == sha256_of(pb@.take(32) + ob@),
            0 <= k <= digest@.len(),
            forall|m: int| 0 <= m < k ==> pb@[32 + m] == digest@[m],
        decreases digest@.len() - k,
    {
        if pb[32 + k] != digest[k] {
            proof {
                assert(pb@[32 + k] != digest@[k as int]);
                if pb@ == pb@.take(32) + sha256_of(pb@.take(32) + ob@) {
                    assert(pb@ == pb@.take(32) + digest@);
                    assert(pb@.take(32).len() == 32);
                    assert((pb@.take(32) + digest@)[32 + k] == digest@[k as int]);
                    assert(pb@[32 + k] == digest@[k as int]);
                }
            }
            return Err(VerifyError::InvalidProof);
        }
        k = k + 1;
    }
    proof {
        assert(pb@ =~= pb@.take(32) + sha256_of(pb@.take(32) + ob@));
    }
    let mut p: usize = 0;
    while p < 32
        invariant
            pb@.len() >= 32,
            0 <= p <= 32,
            forall|m: int| 0 <= m < p ==> pb@[m] == expected_program_id@[m],
        decreases 32 - p,
    {
        if pb[p] != expected_program_id[p] {
            proof {
                if pb@.take(32) == expected_program_id@ {
                    assert(pb@.take(32)[p as int] == expected_program_id@[p as int]);
                    assert(pb@.take(32)[p as int] == pb@[p as int]);
                }
            }
            return Err(VerifyError::WrongStatement);
        }
        p = p + 1;
    }
    proof {
        assert(pb@.take(32) =~= expected_program_id@);
    }
    if ob.len() != 8 {
        return Err(VerifyError::MalformedOutput);
    }
    Ok(decode_u64(ob.as_slice()))
}

/// The single byte string an artifact travels as: the proof bytes with
/// the public output appended.  The output occupies the last eight bytes,
/// so the split is unambiguous for every artifact the prover emits.
pub open spec fn spec_wire(pb: Seq<u8>, ob: Seq<u8>) -> Seq<u8> {
    pb + ob
}

/// Serialize an artifact for transport.
pub fn encode_artifact(artifact: &ProofArtifact) -> (r: Vec<u8>)
    ensures
        r@ == spec_wire(artifact.proof_bytes@, artifact.public_output_bytes@),
{
    concat_bytes(&artifact.proof_bytes, &artifact.public_output_bytes)
}

/// The verdict owed for a transported proof: too short to carry a public
/// output is structurally malformed; otherwise the last eight bytes are
/// the public output and the rest the proof bytes, checked against the
/// pinned program identity.
pub open spec fn spec_wire_verify(s: Seq<u8>) -> Result<u64, VerifyError> {
    if s.len() < 8 {
        Err(VerifyError::MalformedOutput)
    } else {
        spec_verify(s.take(s.len() - 8), s.skip(s.len() - 8), program_id_seq())
    }
}

/// Check a transported proof against the pinned program identity and
/// recover the threshold it commits to.
#[verifier::loop_isolation(false)]
pub fn verify_risc0_proof(bytes: &[u8]) -> (r: Result<u64, VerifyError>)
    ensures
        r == spec_wire_verify(bytes@),
{
    let n = bytes.len();
    if n < 8 {
        return Err(VerifyError::MalformedOutput);
    }
    let mut pb: Vec<u8> = Vec::new();
    let mut i: usize = 0;
    while i < n - 8
        invariant
            0 <= i <= n - 8,
            pb@ == bytes@.take(i as int),
        decreases n - 8 - i,
    {
        pb.push(bytes[i]);
        i = i + 1;
    }
    let mut ob: Vec<u8> = Vec::new();
    let mut j: usize = 0;
    while j < 8
        invariant
            0 <= j <= 8,
            ob@ == bytes@.subrange(n - 8, n - 8 + j),
        decreases 8 - j,
    {
        proof {
            assert(bytes@.subrange(n - 8, n - 8 + j + 1) =~= bytes@.subrange(
                n - 8,
                n - 8 + j,
            ).push(bytes@[n - 8 + j]));
        }
        ob.push(bytes[n - 8 + j]);
        j = j + 1;
    }
    proof {
        assert(pb@ =~= bytes@.take(n - 8));
        assert(ob@ =~= bytes@.skip(n - 8));
    }
    let artifact = ProofArtifact { proof_bytes: pb, public_output_bytes: ob };
    verify(&artifact, &PROGRAM_ID)
}

/// A genuine artifact survives the wire: serializing what `prove` emits
/// for threshold `t` and verifying the transported bytes recovers `t`.
pub proof fn lemma_wire_round_trip(t: u64)
    ensures
        spec_wire_verify(spec_wire(proof_bytes_model(t), enc_u64(t))) == Ok::<u64, VerifyError>(t),
{
    lemma_enc_dec_round_trip(t);
    let s = spec_wire(proof_bytes_model(t), enc_u64(t));
    assert(s.len() >= 8);
    assert(s.take(s.len() - 8) =~= proof_bytes_model(t));
    assert(s.skip(s.len() - 8) =~= enc_u64(t));
    lemma_verify_accepts_model(t);
}

/// Soundness at the statement level: no witness whose total lies below its
/// threshold satisfies the statement, so `prove`'s contract forces
/// `StatementFailed` on every such witness and no artifact escapes.
pub proof fn lemma_soundness(w: BalanceInput)
    requires
        sum_amounts(w.utxo_set@) < w.threshold_amount,
    ensures
        !statement_holds(w),
{
}

/// Completeness: the artifact `prove` emits for a satisfied witness is
/// accepted by verification under the pinned identity, and the recovered
/// public output is exactly the witness's threshold.
pub proof fn lemma_verify_accepts_model(t: u64)
    ensures
        spec_verify(proof_bytes_model(t), enc_u64(t), program_id_seq()) == Ok::<u64, VerifyError>(
            t,
        ),
{
    lemma_enc_dec_round_trip(t);
    let pb = proof_bytes_model(t);
    let ob = enc_u64(t);
    assert(pb.take(32) =~= program_id_seq());
    assert(pb.take(32) + ob == program_id_seq() + ob);
    assert(pb == pb.take(32) + sha256_of(pb.take(32) + ob));
}

/// Determinism: two proving runs on the same witness emit artifacts with
/// identical views, so both verify to the same verdict and the same
/// public output.
pub proof fn lemma_prove_deterministic(
    pb1: Seq<u8>,
    ob1: Seq<u8>,
    pb2: Seq<u8>,
    ob2: Seq<u8>,
    t: u64,
)
    requires
        pb1 == proof_bytes_model(t),
        ob1 == enc_u64(t),
        pb2 == proof_bytes_model(t),
        ob2 == enc_u64(t),
    ensures
        pb1 == pb2,
        ob1 == ob2,
        spec_verify(pb1, ob1, program_id_seq()) == spec_verify(pb2, ob2, program_id_seq()),
        spec_verify(pb1, ob1, program_id_seq()) == Ok::<u64, VerifyError>(t),
{
    lemma_verify_accepts_model(t);
}

/// Zero knowledge, structurally: the whole artifact is a function of the
/// threshold alone, so two witnesses sharing a threshold — whatever their
/// addresses, outputs and totals — emit identical artifacts, and the
/// public output decodes to exactly the threshold.
pub proof fn lemma_output_reveals_threshold_only(w1: BalanceInput, w2: BalanceInput)
    requires
        w1.threshold_amount == w2.threshold_amount,
    ensures
        proof_bytes_model(w1.threshold_amount) == proof_bytes_model(w2.threshold_amount),
        enc_u64(w1.threshold_amount) == enc_u64(w2.threshold_amount),
        dec_u64(enc_u64(w1.threshold_amount)) == w1.threshold_amount,
{
    lemma_enc_dec_round_trip(w1.threshold_amount);
}

/// Tamper rejection for the binding tag: any change confined to the tag
/// region of genuine proof bytes is rejected as `InvalidProof` outright.
/// A change to the identity region is likewise rejected unless the digest
/// of the altered identity collides with the stored tag, which the digest
/// makes overwhelmingly improbable — that residue is checked by test, as
/// no proof can rule a collision out.
pub proof fn lemma_tamper_rejected(pb: Seq<u8>, tampered: Seq<u8>, ob: Seq<u8>, t: u64)
    requires
        pb == proof_bytes_model(t),
        ob == enc_u64(t),
        tampered.len() == pb.len(),
        tampered.take(32) == pb.take(32),
        tampered != pb,
    ensures
        spec_verify(tampered, ob, program_id_seq()) == Err::<u64, VerifyError>(
            VerifyError::InvalidProof,
        ),
{
    assert(pb.take(32) =~= program_id_seq());
    assert(pb == pb.take(32) + sha256_of(pb.take(32) + ob));
    if tampered.len() >= 32 && tampered == tampered.take(32) + sha256_of(tampered.take(32) + ob) {
        assert(tampered.take(32) + ob == pb.take(32) + ob);
        assert(tampered == pb);
    }
}

} // verus!
