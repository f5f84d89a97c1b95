//! Little-endian 16-bit framing, the private convention that the passthrough
//! module shares with its producers.
use vstd::prelude::*;

verus! {

/// The value of two bytes read least significant first.
pub open spec fn le_value(lo: u8, hi: u8) -> int {
    lo as int + 256 * hi as int
}

/// The two-byte little-endian encoding of `v`.
pub open spec fn spec_encode_u16(v: u16) -> Seq<u8> {
    seq![(v as int % 256) as u8, (v as int / 256) as u8]
}

/// The value framed by the first two bytes of `s`, if there are two.
pub open spec fn spec_decode_u16(s: Seq<u8>) -> Option<u16> {
    if s.len() < 2 {
        None
    } else {
        Some(le_value(s[0], s[1]) as u16)
    }
}

/// Reads a little-endian `u16` from the first two bytes of `data`; bytes after
/// the second are ignored. Returns `None` when fewer than two bytes are given.
pub fn decode_u16_le(data: &[u8]) -> (r: Option<u16>)
    ensures
        r == spec_decode_u16(data@),
        r is None <==> data@.len() < 2,
        r matches Some(v) ==> v as int == le_value(data@[0], data@[1]),
{
    if data.len() < 2 {
        None
    } else {
        let lo: u16 = data[0] as u16;
        let hi: u16 = data[1] as u16;
        Some(lo + 256 * hi)
    }
}

/// Writes `v` as two bytes, least significant first.
pub fn encode_u16_le(v: u16) -> (r: Vec<u8>)
    ensures
        r@ == spec_encode_u16(v),
        r@.len() == 2,
        le_value(r@[0], r@[1]) == v as int,
{
    let lo: u8 = (v % 256) as u8;
    let hi: u8 = (v / 256) as u8;
    let mut r: Vec<u8> = Vec::new();
    r.push(lo);
    r.push(hi);
    assert(r@ =~= spec_encode_u16(v));
    r
}

/// Decoding the encoding of any 16-bit value gives that value back.
pub proof fn lemma_decode_encode(v: u16)
    ensures
        spec_decode_u16(spec_encode_u16(v)) == Some(v),
{
}

/// Re-encoding the value decoded from a well-formed message gives back the
/// message's first two bytes.
pub proof fn lemma_encode_decode(s: Seq<u8>)
    requires
        s.len() >= 2,
    ensures
        spec_decode_u16(s) matches Some(v) && spec_encode_u16(v) == s.subrange(0, 2),
{
    let v = le_value(s[0], s[1]) as u16;
    assert(spec_encode_u16(v) =~= s.subrange(0, 2));
}

} // verus!
