//! Encoding of the public output: a threshold is committed as exactly
//! eight little-endian bytes, and decoding is its proved inverse.

use vstd::prelude::*;

verus! {

/// The eight little-endian bytes of `v`: byte `i` holds bits `8*i..8*i+8`.
pub open spec fn enc_u64(v: u64) -> Seq<u8> {
    seq![
        (v & 0xff) as u8,
        ((v >> 8) & 0xff) as u8,
        ((v >> 16) & 0xff) as u8,
        ((v >> 24) & 0xff) as u8,
        ((v >> 32) & 0xff) as u8,
        ((v >> 40) & 0xff) as u8,
        ((v >> 48) & 0xff) as u8,
        ((v >> 56) & 0xff) as u8,
    ]
}

/// The value read back from eight little-endian bytes.
pub open spec fn dec_u64(s: Seq<u8>) -> u64
    recommends
        s.len() == 8,
{
    (s[0] as u64) | ((s[1] as u64) << 8) | ((s[2] as u64) << 16) | ((s[3] as u64) << 24)
        | ((s[4] as u64) << 32) | ((s[5] as u64) << 40) | ((s[6] as u64) << 48)
        | ((s[7] as u64) << 56)
}

/// Decoding inverts encoding: the eight bytes of `v` read back as `v`.
/// Together with `enc_u64`'s fixed length this pins the public output to
/// the threshold alone.
pub proof fn lemma_enc_dec_round_trip(v: u64)
    ensures
        enc_u64(v).len() == 8,
        dec_u64(enc_u64(v)) == v,
{
    assert(((v & 0xff) as u8 as u64) | (((v >> 8) & 0xff) as u8 as u64) << 8
        | (((v >> 16) & 0xff) as u8 as u64) << 16 | (((v >> 24) & 0xff) as u8 as u64) << 24
        | (((v >> 32) & 0xff) as u8 as u64) << 32 | (((v >> 40) & 0xff) as u8 as u64) << 40
        | (((v >> 48) & 0xff) as u8 as u64) << 48 | (((v >> 56) & 0xff) as u8 as u64) << 56
        == v) by (bit_vector);
}

/// Two values with the same encoding are the same value: the encoding is
/// injective, so an artifact's public output determines one threshold.
pub proof fn lemma_enc_injective(a: u64, b: u64)
    requires
        enc_u64(a) == enc_u64(b),
    ensures
        a == b,
{
    lemma_enc_dec_round_trip(a);
    lemma_enc_dec_round_trip(b);
}

/// Encode a threshold as its eight little-endian bytes.
pub fn encode_u64(v: u64) -> (r: Vec<u8>)
    ensures
        r@ == enc_u64(v),
{
    let mut r: Vec<u8> = Vec::new();
    r.push((v & 0xff) as u8);
    r.push(((v >> 8) & 0xff) as u8);
    r.push(((v >> 16) & 0xff) as u8);
    r.push(((v >> 24) & 0xff) as u8);
    r.push(((v >> 32) & 0xff) as u8);
    r.push(((v >> 40) & 0xff) as u8);
    r.push(((v >> 48) & 0xff) as u8);
    r.push(((v >> 56) & 0xff) as u8);
    assert(r@ =~= enc_u64(v));
    r
}

/// Decode eight little-endian bytes back into a threshold.
pub fn decode_u64(b: &[u8]) -> (r: u64)
    requires
        b@.len() == 8,
    ensures
        r == dec_u64(b@),
{
    (b[0] as u64) | ((b[1] as u64) << 8) | ((b[2] as u64) << 16) | ((b[3] as u64) << 24)
        | ((b[4] as u64) << 32) | ((b[5] as u64) << 40) | ((b[6] as u64) << 48)
        | ((b[7] as u64) << 56)
}

} // verus!
