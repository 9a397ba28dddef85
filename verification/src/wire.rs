//! The wire form of a 32-bit code: four bytes, least significant first.

use vstd::prelude::*;

verus! {

/// The four bytes of `value`, least significant first.
pub open spec fn le_bytes(value: u32) -> Seq<u8> {
    seq![
        (value % 256) as u8,
        ((value / 256) % 256) as u8,
        ((value / 65536) % 256) as u8,
        ((value / 16777216) % 256) as u8,
    ]
}

/// The number that four bytes spell, least significant first.
pub open spec fn le_word(bytes: Seq<u8>) -> int
    recommends
        bytes.len() == 4,
{
    bytes[0] + 256 * bytes[1] + 65536 * bytes[2] + 16777216 * bytes[3]
}

/// Spelling a value out and reading it back gives the value again.
pub proof fn lemma_le_word_of_le_bytes(value: u32)
    ensures
        le_bytes(value).len() == 4,
        le_word(le_bytes(value)) == value,
{
    let b0: u32 = value % 256;
    let b1: u32 = (value / 256) % 256;
    let b2: u32 = (value / 65536) % 256;
    let b3: u32 = (value / 16777216) % 256;
    assert(b0 < 256 && b1 < 256 && b2 < 256 && b3 < 256 && value == b0 + 256 * b1 + 65536 * b2
        + 16777216 * b3) by (bit_vector)
        requires
            b0 == value % 256,
            b1 == (value / 256) % 256,
            b2 == (value / 65536) % 256,
            b3 == (value / 16777216) % 256,
    ;
    assert(le_bytes(value)[0] == b0);
    assert(le_bytes(value)[1] == b1);
    assert(le_bytes(value)[2] == b2);
    assert(le_bytes(value)[3] == b3);
}

/// Writes `value` out as its four little-endian bytes.
pub fn to_le_bytes(value: u32) -> (bytes: Vec<u8>)
    ensures
        bytes@ == le_bytes(value),
{
    let b0: u8 = (value & 0xff) as u8;
    let b1: u8 = ((value >> 8) & 0xff) as u8;
    let b2: u8 = ((value >> 16) & 0xff) as u8;
    let b3: u8 = ((value >> 24) & 0xff) as u8;
    assert(b0 == (value % 256) as u8 && b1 == ((value / 256) % 256) as u8 && b2 == ((value
        / 65536) % 256) as u8 && b3 == ((value / 16777216) % 256) as u8) by (bit_vector)
        requires
            b0 == (value & 0xff) as u8,
            b1 == ((value >> 8) & 0xff) as u8,
            b2 == ((value >> 16) & 0xff) as u8,
            b3 == ((value >> 24) & 0xff) as u8,
    ;
    let bytes = vec![b0, b1, b2, b3];
    assert(bytes@ =~= le_bytes(value));
    bytes
}

} // verus!
