//! Little-endian byte layouts of the integer fields that a PCM stream and its header carry.

use vstd::prelude::*;

verus! {

/// The two bytes of `value`, least significant first.
pub open spec fn u16_le(value: u16) -> Seq<u8> {
    seq![(value % 256) as u8, (value / 256) as u8]
}

/// The four bytes of `value`, least significant first.
pub open spec fn u32_le(value: u32) -> Seq<u8> {
    seq![
        (value % 256) as u8,
        (value / 256 % 256) as u8,
        (value / 65536 % 256) as u8,
        (value / 16777216) as u8,
    ]
}

/// The unsigned number that two bytes spell, least significant first.
pub open spec fn u16_from_le(bytes: Seq<u8>) -> int {
    bytes[0] + 256 * bytes[1]
}

/// The unsigned number that four bytes spell, least significant first.
pub open spec fn u32_from_le(bytes: Seq<u8>) -> int {
    bytes[0] + 256 * bytes[1] + 65536 * bytes[2] + 16777216 * bytes[3]
}

/// The unsigned 16-bit number with the bit pattern of `value` in two's complement.
pub open spec fn twos_complement(value: i16) -> u16 {
    if value < 0 {
        (value + 65536) as u16
    } else {
        value as u16
    }
}

/// The two bytes of `value` in two's complement, least significant first.
pub open spec fn i16_le(value: i16) -> Seq<u8> {
    u16_le(twos_complement(value))
}

/// The signed number that two bytes spell in two's complement, least significant first.
pub open spec fn i16_from_le(bytes: Seq<u8>) -> int {
    if u16_from_le(bytes) >= 32768 {
        u16_from_le(bytes) - 65536
    } else {
        u16_from_le(bytes)
    }
}

/// Appends the two little-endian bytes of `value` to `buffer`.
pub fn push_u16_le(buffer: &mut Vec<u8>, value: u16)
    ensures
        final(buffer)@ == old(buffer)@ + u16_le(value),
{
    buffer.push((value % 256) as u8);
    buffer.push((value / 256) as u8);
}

/// Appends the four little-endian bytes of `value` to `buffer`.
pub fn push_u32_le(buffer: &mut Vec<u8>, value: u32)
    ensures
        final(buffer)@ == old(buffer)@ + u32_le(value),
{
    buffer.push((value % 256) as u8);
    buffer.push((value / 256 % 256) as u8);
    buffer.push((value / 65536 % 256) as u8);
    buffer.push((value / 16777216) as u8);
}

/// Appends the two little-endian bytes of `value`, in two's complement, to `buffer`.
pub fn push_i16_le(buffer: &mut Vec<u8>, value: i16)
    ensures
        final(buffer)@ == old(buffer)@ + i16_le(value),
{
    let pattern: u16 = if value < 0 {
        (value as i32 + 65536) as u16
    } else {
        value as u16
    };
    push_u16_le(buffer, pattern);
}

/// Reading back what `u16_le` wrote gives the number that went in.
pub proof fn lemma_u16_le_round_trip(value: u16)
    ensures
        u16_le(value).len() == 2,
        u16_from_le(u16_le(value)) == value,
{
}

/// Reading back what `u32_le` wrote gives the number that went in.
pub proof fn lemma_u32_le_round_trip(value: u32)
    ensures
        u32_le(value).len() == 4,
        u32_from_le(u32_le(value)) == value,
{
}

/// Reading back what `i16_le` wrote gives the number that went in, sign included.
pub proof fn lemma_i16_le_round_trip(value: i16)
    ensures
        i16_le(value).len() == 2,
        i16_from_le(i16_le(value)) == value,
{
}

} // verus!
