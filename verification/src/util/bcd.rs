//! Packed binary-coded decimal: two decimal digits in one byte, the tens in
//! the high nibble and the units in the low nibble.

use vstd::prelude::*;

verus! {

/// The number that the two nibbles of `v` stand for: ten times the high
/// nibble plus the low nibble. Nibbles above nine are taken as they are.
pub open spec fn decoded(v: u8) -> u8 {
    ((v / 16) * 10 + v % 16) as u8
}

/// The byte whose high nibble holds the tens of `v` (modulo sixteen) and
/// whose low nibble holds the units of `v`.
pub open spec fn encoded(v: u8) -> u8 {
    (((v / 10) % 16) * 16 + v % 10) as u8
}

/// Whether both nibbles of `v` are decimal digits.
pub open spec fn is_bcd(v: u8) -> bool {
    v / 16 <= 9 && v % 16 <= 9
}

proof fn lemma_nibbles(v: u8)
    by (bit_vector)
    ensures
        v >> 4 == v / 16,
        v & 0x0f == v % 16,
        v >> 4 <= 15,
        v & 0x0f <= 15,
{
}

proof fn lemma_pack(tens: u8, units: u8)
    by (bit_vector)
    requires
        units < 16,
    ensures
        (tens << 4) | units == (tens % 16) * 16 + units,
{
}

/// Decodes a packed BCD byte.
pub fn from_bcd(v: u8) -> (r: u8)
    ensures
        r == decoded(v),
{
    proof {
        lemma_nibbles(v);
    }
    (v >> 4) * 10 + (v & 0x0f)
}

/// Encodes a number as a packed BCD byte.
pub fn to_bcd(v: u8) -> (r: u8)
    ensures
        r == encoded(v),
{
    proof {
        lemma_pack(v / 10, v % 10);
    }
    ((v / 10) << 4) | (v % 10)
}

/// Every number below one hundred survives encoding and decoding.
pub proof fn lemma_decode_encode(v: u8)
    requires
        v < 100,
    ensures
        is_bcd(encoded(v)),
        decoded(encoded(v)) == v,
{
}

/// Every byte made of two decimal digits survives decoding and encoding.
pub proof fn lemma_encode_decode(v: u8)
    requires
        is_bcd(v),
    ensures
        decoded(v) < 100,
        encoded(decoded(v)) == v,
{
}

} // verus!
