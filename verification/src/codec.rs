//! The boundary to the SCALE codec: deterministic binary encoding of the
//! values the message framing concatenates.

use vstd::prelude::*;

verus! {

/// The SCALE encoding of a string slice: the bytes that
/// `parity_scale_codec::Encode::encode` returns for it. The encoding is a
/// deterministic function of the characters alone.
pub uninterp spec fn scale_str(s: Seq<char>) -> Seq<u8>;

/// The SCALE encoding of the unit value, which is the empty byte string.
pub open spec fn scale_unit() -> Seq<u8> {
    Seq::empty()
}

/// A machine limit of the SCALE encoder: it refuses a byte length that does
/// not fit in 32 bits, and a character takes at most four bytes in UTF-8, so
/// a string of fewer characters than this always stays within that limit.
pub open spec fn str_encodable(s: Seq<char>) -> bool {
    s.len() < 0x4000_0000
}

/// Relies on parity_scale_codec::Encode::encode for str: a compact length
/// prefix followed by the UTF-8 bytes, a deterministic function of the
/// characters alone, named `scale_str` here. The encoder panics on a byte
/// length beyond `u32::MAX`, so oversized strings are excluded.
#[verifier::external_body]
pub(crate) fn encode_str(s: &str) -> (r: Vec<u8>)
    requires
        str_encodable(s@),
    ensures
        r@ == scale_str(s@),
{
    parity_scale_codec::Encode::encode(s)
}

/// Relies on parity_scale_codec::Encode::encode for the unit value, whose
/// encoding is the empty byte string.
#[verifier::external_body]
pub(crate) fn encode_unit() -> (r: Vec<u8>)
    ensures
        r@ == scale_unit(),
{
    parity_scale_codec::Encode::encode(&())
}

} // verus!
