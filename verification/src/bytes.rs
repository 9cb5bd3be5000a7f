//! Integers as bytes.

use vstd::prelude::*;

verus! {

/// The byte of `x` at `shift`.
pub open spec fn byte_at(x: u32, shift: u32) -> u8 {
    ((x >> shift) & 0xff) as u8
}

/// `x` as four bytes, the least significant first.
pub open spec fn le4(x: u32) -> Seq<u8> {
    seq![byte_at(x, 0), byte_at(x, 8), byte_at(x, 16), byte_at(x, 24)]
}

/// `x` as four bytes, the most significant first.
pub open spec fn be4(x: u32) -> Seq<u8> {
    seq![byte_at(x, 24), byte_at(x, 16), byte_at(x, 8), byte_at(x, 0)]
}

/// `x` as two bytes, the least significant first.
pub open spec fn le2(x: u16) -> Seq<u8> {
    seq![byte_at(x as u32, 0), byte_at(x as u32, 8)]
}

/// `n` zero bytes.
pub open spec fn zeros(n: nat) -> Seq<u8> {
    Seq::new(n, |i: int| 0u8)
}

/// The number whose four bytes, least significant first, these are.
pub open spec fn from_le4(s: Seq<u8>) -> u32 {
    (s[0] as u32) | ((s[1] as u32) << 8) | ((s[2] as u32) << 16) | ((s[3] as u32) << 24)
}

/// The number whose four bytes, most significant first, these are.
pub open spec fn from_be4(s: Seq<u8>) -> u32 {
    (s[3] as u32) | ((s[2] as u32) << 8) | ((s[1] as u32) << 16) | ((s[0] as u32) << 24)
}

/// Four bytes give back the number that was written in them.
pub proof fn le4_round_trip(x: u32)
    ensures
        from_le4(le4(x)) == x,
        from_be4(be4(x)) == x,
{
    assert((((x >> 0) & 0xff) as u8) as u32 | ((((x >> 8) & 0xff) as u8) as u32) << 8 | ((((x
        >> 16) & 0xff) as u8) as u32) << 16 | ((((x >> 24) & 0xff) as u8) as u32) << 24 == x)
        by (bit_vector);
}

pub fn byte(x: u32, shift: u32) -> (r: u8)
    requires
        shift < 32,
    ensures
        r == byte_at(x, shift),
{
    ((x >> shift) & 0xff) as u8
}

/// Appends `x` as four bytes, the least significant first.
pub fn push_le4(out: &mut Vec<u8>, x: u32)
    ensures
        final(out)@ == old(out)@ + le4(x),
{
    out.push(byte(x, 0));
    out.push(byte(x, 8));
    out.push(byte(x, 16));
    out.push(byte(x, 24));
    assert(out@ =~= old(out)@ + le4(x));
}

/// Appends `x` as four bytes, the most significant first.
pub fn push_be4(out: &mut Vec<u8>, x: u32)
    ensures
        final(out)@ == old(out)@ + be4(x),
{
    out.push(byte(x, 24));
    out.push(byte(x, 16));
    out.push(byte(x, 8));
    out.push(byte(x, 0));
    assert(out@ =~= old(out)@ + be4(x));
}

/// Appends `x` as two bytes, the least significant first.
pub fn push_le2(out: &mut Vec<u8>, x: u16)
    ensures
        final(out)@ == old(out)@ + le2(x),
{
    out.push(byte(x as u32, 0));
    out.push(byte(x as u32, 8));
    assert(out@ =~= old(out)@ + le2(x));
}

/// The first of the four bytes counts ones, the next the 256s, and so on; or
/// the other way round.
pub proof fn bytes_make_the_number(x: u32)
    ensures
        x == le4(x)[0] + 256 * le4(x)[1] + 65536 * le4(x)[2] + 16777216 * le4(x)[3],
        x == be4(x)[3] + 256 * be4(x)[2] + 65536 * be4(x)[1] + 16777216 * be4(x)[0],
{
    assert(x == ((x >> 0u32) & 0xff) as u8 + 256 * (((x >> 8u32) & 0xff) as u8) + 65536 * (((x
        >> 16u32) & 0xff) as u8) + 16777216 * (((x >> 24u32) & 0xff) as u8)) by (bit_vector);
}

/// The same of two bytes.
pub proof fn two_bytes_make_the_number(x: u16)
    ensures
        x == le2(x)[0] + 256 * le2(x)[1],
{
    assert(x == (((x as u32) >> 0u32) & 0xff) as u8 + 256 * ((((x as u32) >> 8u32) & 0xff) as u8))
        by (bit_vector);
}

} // verus!
