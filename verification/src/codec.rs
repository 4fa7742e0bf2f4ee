//! Payload codecs: the 8-byte big-endian signed integer schema and the
//! base64 wrapper used by the bytes schema.

use vstd::prelude::*;

verus! {

/// The signed 64-bit integer read from 8 bytes, most significant first.
pub open spec fn spec_i64_from_be(b: Seq<u8>) -> i64
    recommends
        b.len() == 8,
{
    (((b[0] as u64) << 56) | ((b[1] as u64) << 48) | ((b[2] as u64) << 40) | ((b[3] as u64) << 32)
        | ((b[4] as u64) << 24) | ((b[5] as u64) << 16) | ((b[6] as u64) << 8) | (b[7] as u64)) as i64
}

/// The 8 bytes of a signed 64-bit integer, most significant first.
pub open spec fn spec_i64_to_be(x: i64) -> Seq<u8> {
    seq![
        ((x as u64) >> 56) as u8,
        ((x as u64) >> 48) as u8,
        ((x as u64) >> 40) as u8,
        ((x as u64) >> 32) as u8,
        ((x as u64) >> 24) as u8,
        ((x as u64) >> 16) as u8,
        ((x as u64) >> 8) as u8,
        (x as u64) as u8,
    ]
}

/// Reading back the 8 bytes of any signed 64-bit integer yields the
/// integer again.
pub proof fn lemma_i64_be_round_trip(x: i64)
    ensures
        spec_i64_from_be(spec_i64_to_be(x)) == x,
{
    let b0 = ((x as u64) >> 56) as u8;
    let b1 = ((x as u64) >> 48) as u8;
    let b2 = ((x as u64) >> 40) as u8;
    let b3 = ((x as u64) >> 32) as u8;
    let b4 = ((x as u64) >> 24) as u8;
    let b5 = ((x as u64) >> 16) as u8;
    let b6 = ((x as u64) >> 8) as u8;
    let b7 = (x as u64) as u8;
    assert((((b0 as u64) << 56) | ((b1 as u64) << 48) | ((b2 as u64) << 40) | ((b3 as u64) << 32)
        | ((b4 as u64) << 24) | ((b5 as u64) << 16) | ((b6 as u64) << 8) | (b7 as u64)) as i64
        == x) by (bit_vector)
        requires
            b0 == ((x as u64) >> 56) as u8,
            b1 == ((x as u64) >> 48) as u8,
            b2 == ((x as u64) >> 40) as u8,
            b3 == ((x as u64) >> 32) as u8,
            b4 == ((x as u64) >> 24) as u8,
            b5 == ((x as u64) >> 16) as u8,
            b6 == ((x as u64) >> 8) as u8,
            b7 == (x as u64) as u8,
    ;
}

/// Read a signed 64-bit integer from exactly 8 big-endian bytes.
pub fn i64_from_be_bytes(b: &[u8]) -> (r: i64)
    requires
        b@.len() == 8,
    ensures
        r == spec_i64_from_be(b@),
{
    let v: u64 = ((b[0] as u64) << 56) | ((b[1] as u64) << 48) | ((b[2] as u64) << 40)
        | ((b[3] as u64) << 32) | ((b[4] as u64) << 24) | ((b[5] as u64) << 16)
        | ((b[6] as u64) << 8) | (b[7] as u64);
    v as i64
}

/// Write a signed 64-bit integer as 8 big-endian bytes.
pub fn i64_to_be_bytes(x: i64) -> (r: Vec<u8>)
    ensures
        r@ == spec_i64_to_be(x),
{
    let v: u64 = x as u64;
    let mut r: Vec<u8> = Vec::new();
    r.push((v >> 56) as u8);
    r.push((v >> 48) as u8);
    r.push((v >> 40) as u8);
    r.push((v >> 32) as u8);
    r.push((v >> 24) as u8);
    r.push((v >> 16) as u8);
    r.push((v >> 8) as u8);
    r.push(v as u8);
    proof {
        assert(r@ =~= spec_i64_to_be(x));
    }
    r
}

/// The base64 text (standard alphabet, padded) of a byte sequence; the
/// result depends on the bytes alone.
pub uninterp spec fn base64_of(b: Seq<u8>) -> Seq<char>;

/// Relies on `base64::engine::general_purpose::STANDARD`'s `encode`: the
/// standard-alphabet, padded base64 text of the input bytes, and an empty
/// input encodes to an empty string.
#[verifier::external_body]
pub(crate) fn base64_encode(b: &[u8]) -> (r: String)
    ensures
        r@ == base64_of(b@),
        b@.len() == 0 ==> r@.len() == 0,
{
    base64::Engine::encode(&base64::engine::general_purpose::STANDARD, b)
}

/// Relies on `base64::engine::general_purpose::STANDARD`'s `decode`: with
/// canonical padding required and trailing bits refused, it succeeds
/// exactly on the canonical encodings, and base64 encoding is injective,
/// so the decoded bytes are the unique preimage of the input text.
#[verifier::external_body]
pub(crate) fn base64_decode(s: &str) -> (r: Option<Vec<u8>>)
    ensures
        (r matches Some(v) ==> base64_of(v@) == s@ && (forall|b2: Seq<u8>|
            base64_of(b2) == s@ ==> b2 == v@)),
        r is None ==> (forall|b: Seq<u8>| base64_of(b) != s@),
{
    base64::Engine::decode(&base64::engine::general_purpose::STANDARD, s).ok()
}

/// Decoding the base64 text of any byte sequence yields the bytes again.
pub fn base64_round_trip(b: &[u8]) -> (r: Vec<u8>)
    ensures
        r@ == b@,
{
    let encoded = base64_encode(b);
    let decoded = base64_decode(encoded.as_str());
    match decoded {
        Some(v) => v,
        None => {
            proof {
                assert(base64_of(b@) == encoded@);
                assert(false);
            }
            Vec::new()
        },
    }
}

} // verus!
