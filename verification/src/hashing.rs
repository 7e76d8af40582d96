//! The binding primitive of the proof artifact: a SHA-256 digest computed
//! by the bitcoin crate, named but otherwise uninterpreted here.

use vstd::prelude::*;

verus! {

/// The SHA-256 digest of `data`.  Uninterpreted: the engine's contracts
/// only ever compare digests of equal inputs, never state digest values.
pub uninterp spec fn sha256_of(data: Seq<u8>) -> Seq<u8>;

/// Relies on bitcoin::hashes::sha256::Hash::hash: the SHA-256 digest of
/// `data`, a function of the bytes alone, 32 bytes long.
#[verifier::external_body]
pub(crate) fn sha256_bytes(data: &[u8]) -> (r: Vec<u8>)
    ensures
        r@ == sha256_of(data@),
        r@.len() == 32,
{
    let h: bitcoin::hashes::sha256::Hash = bitcoin::hashes::Hash::hash(data);
    bitcoin::hashes::Hash::to_byte_array(h).to_vec()
}

} // verus!
