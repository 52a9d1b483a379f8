//! Byte-order arithmetic for the fixed-width scalar fields of wire structures.
//!
//! Firmware wire formats pin down the byte order of every multi-byte field, so
//! this module defines, as spec functions, what the individual bytes of a
//! 16-bit and a 32-bit value are, what their little-endian and big-endian
//! serializations look like, and what swapping the bytes of a value means.
//! The executable byte-swap routines are proved against those definitions.

use vstd::prelude::*;

verus! {

/// The least significant byte of a 16-bit value.
pub open spec fn u16_lo(x: u16) -> u8 {
    (x & 0xff) as u8
}

/// The most significant byte of a 16-bit value.
pub open spec fn u16_hi(x: u16) -> u8 {
    ((x >> 8) & 0xff) as u8
}

/// The two bytes of a 16-bit value, least significant first.
pub open spec fn u16_le(x: u16) -> Seq<u8> {
    seq![u16_lo(x), u16_hi(x)]
}

/// The two bytes of a 16-bit value, most significant first.
pub open spec fn u16_be(x: u16) -> Seq<u8> {
    seq![u16_hi(x), u16_lo(x)]
}

/// The 16-bit value whose little-endian bytes are `lo`, `hi`.
pub open spec fn u16_of_bytes(lo: u8, hi: u8) -> u16 {
    (lo as u16) | ((hi as u16) << 8)
}

/// A 16-bit value with its two bytes exchanged.
pub open spec fn u16_swapped(x: u16) -> u16 {
    u16_of_bytes(u16_hi(x), u16_lo(x))
}

/// Composing a 16-bit value from its own bytes gives the value back.
pub proof fn lemma_u16_compose(x: u16)
    by (bit_vector)
    ensures
        u16_of_bytes(u16_lo(x), u16_hi(x)) == x,
{
}

/// The bytes of a composed 16-bit value are the bytes it was composed from.
pub proof fn lemma_u16_decompose(lo: u8, hi: u8)
    by (bit_vector)
    ensures
        u16_lo(u16_of_bytes(lo, hi)) == lo,
        u16_hi(u16_of_bytes(lo, hi)) == hi,
{
}

/// Swapping the bytes of a 16-bit value twice gives the value back.
pub proof fn lemma_u16_swap_involutive(x: u16)
    ensures
        u16_swapped(u16_swapped(x)) == x,
{
    lemma_u16_decompose(u16_hi(x), u16_lo(x));
    lemma_u16_compose(x);
}

/// The little-endian bytes of a byte-swapped 16-bit value are the big-endian
/// bytes of the original value.
pub proof fn lemma_u16_le_of_swapped(x: u16)
    ensures
        u16_le(u16_swapped(x)) == u16_be(x),
{
    lemma_u16_decompose(u16_hi(x), u16_lo(x));
    assert(u16_le(u16_swapped(x)) =~= u16_be(x));
}

/// Exchange the two bytes of a 16-bit value.
pub fn u16_swap(x: u16) -> (r: u16)
    ensures
        r == u16_swapped(x),
{
    let lo: u8 = (x & 0xff) as u8;
    let hi: u8 = ((x >> 8) & 0xff) as u8;
    (hi as u16) | ((lo as u16) << 8)
}

/// Compose a 16-bit value from its little-endian bytes.
pub fn u16_join(lo: u8, hi: u8) -> (r: u16)
    ensures
        r == u16_of_bytes(lo, hi),
{
    (lo as u16) | ((hi as u16) << 8)
}

/// The least significant byte of a 32-bit value.
pub open spec fn u32_b0(x: u32) -> u8 {
    (x & 0xff) as u8
}

/// The second least significant byte of a 32-bit value.
pub open spec fn u32_b1(x: u32) -> u8 {
    ((x >> 8) & 0xff) as u8
}

/// The second most significant byte of a 32-bit value.
pub open spec fn u32_b2(x: u32) -> u8 {
    ((x >> 16) & 0xff) as u8
}

/// The most significant byte of a 32-bit value.
pub open spec fn u32_b3(x: u32) -> u8 {
    ((x >> 24) & 0xff) as u8
}

/// The four bytes of a 32-bit value, least significant first.
pub open spec fn u32_le(x: u32) -> Seq<u8> {
    seq![u32_b0(x), u32_b1(x), u32_b2(x), u32_b3(x)]
}

/// The four bytes of a 32-bit value, most significant first.
pub open spec fn u32_be(x: u32) -> Seq<u8> {
    seq![u32_b3(x), u32_b2(x), u32_b1(x), u32_b0(x)]
}

/// The 32-bit value whose little-endian bytes are `b0`, `b1`, `b2`, `b3`.
pub open spec fn u32_of_bytes(b0: u8, b1: u8, b2: u8, b3: u8) -> u32 {
    (b0 as u32) | ((b1 as u32) << 8) | ((b2 as u32) << 16) | ((b3 as u32) << 24)
}

/// A 32-bit value with its byte order reversed.
pub open spec fn u32_swapped(x: u32) -> u32 {
    u32_of_bytes(u32_b3(x), u32_b2(x), u32_b1(x), u32_b0(x))
}

/// Composing a 32-bit value from its own bytes gives the value back.
pub proof fn lemma_u32_compose(x: u32)
    by (bit_vector)
    ensures
        u32_of_bytes(u32_b0(x), u32_b1(x), u32_b2(x), u32_b3(x)) == x,
{
}

/// The bytes of a composed 32-bit value are the bytes it was composed from.
pub proof fn lemma_u32_decompose(b0: u8, b1: u8, b2: u8, b3: u8)
    by (bit_vector)
    ensures
        u32_b0(u32_of_bytes(b0, b1, b2, b3)) == b0,
        u32_b1(u32_of_bytes(b0, b1, b2, b3)) == b1,
        u32_b2(u32_of_bytes(b0, b1, b2, b3)) == b2,
        u32_b3(u32_of_bytes(b0, b1, b2, b3)) == b3,
{
}

/// Reversing the byte order of a 32-bit value twice gives the value back.
pub proof fn lemma_u32_swap_involutive(x: u32)
    ensures
        u32_swapped(u32_swapped(x)) == x,
{
    lemma_u32_decompose(u32_b3(x), u32_b2(x), u32_b1(x), u32_b0(x));
    lemma_u32_compose(x);
}

/// The little-endian bytes of a byte-swapped 32-bit value are the big-endian
/// bytes of the original value.
pub proof fn lemma_u32_le_of_swapped(x: u32)
    ensures
        u32_le(u32_swapped(x)) == u32_be(x),
{
    lemma_u32_decompose(u32_b3(x), u32_b2(x), u32_b1(x), u32_b0(x));
    assert(u32_le(u32_swapped(x)) =~= u32_be(x));
}

/// Compose a 32-bit value from its little-endian bytes.
pub fn u32_join(b0: u8, b1: u8, b2: u8, b3: u8) -> (r: u32)
    ensures
        r == u32_of_bytes(b0, b1, b2, b3),
{
    (b0 as u32) | ((b1 as u32) << 8) | ((b2 as u32) << 16) | ((b3 as u32) << 24)
}

/// Reverse the byte order of a 32-bit value.
pub fn u32_swap(x: u32) -> (r: u32)
    ensures
        r == u32_swapped(x),
{
    let b0: u8 = (x & 0xff) as u8;
    let b1: u8 = ((x >> 8) & 0xff) as u8;
    let b2: u8 = ((x >> 16) & 0xff) as u8;
    let b3: u8 = ((x >> 24) & 0xff) as u8;
    (b3 as u32) | ((b2 as u32) << 8) | ((b1 as u32) << 16) | ((b0 as u32) << 24)
}

} // verus!
