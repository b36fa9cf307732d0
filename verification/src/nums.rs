//! Small 16-bit helpers shared by the two interpreters: wrap-around address
//! arithmetic and the little-endian split and join of a word into bytes.

use vstd::prelude::*;

verus! {

/// 16-bit addition that wraps around the top of the address space, the way
/// the address bus does.
pub open spec fn add16(a: u16, b: u16) -> u16 {
    if a + b <= 0xFFFF {
        (a + b) as u16
    } else {
        (a + b - 0x10000) as u16
    }
}

/// 16-bit subtraction that wraps below zero.
pub open spec fn sub16(a: u16, b: u16) -> u16 {
    if a >= b {
        (a - b) as u16
    } else {
        (a + 0x10000 - b) as u16
    }
}

/// A word assembled from its low and high bytes.
pub open spec fn word(lo: u8, hi: u8) -> u16 {
    (lo + hi * 0x100) as u16
}

pub open spec fn lo_byte(w: u16) -> u8 {
    (w % 0x100) as u8
}

pub open spec fn hi_byte(w: u16) -> u8 {
    (w / 0x100) as u8
}

pub fn wrapping_add16(a: u16, b: u16) -> (r: u16)
    ensures
        r == add16(a, b),
{
    let s = a as u32 + b as u32;
    if s <= 0xFFFF {
        a + b
    } else {
        (s - 0x10000) as u16
    }
}

pub fn wrapping_sub16(a: u16, b: u16) -> (r: u16)
    ensures
        r == sub16(a, b),
{
    if a >= b {
        a - b
    } else {
        (a as u32 + 0x10000 - b as u32) as u16
    }
}

pub fn join_word(lo: u8, hi: u8) -> (w: u16)
    ensures
        w == word(lo, hi),
{
    lo as u16 + hi as u16 * 0x100
}

pub fn split_lo(w: u16) -> (b: u8)
    ensures
        b == lo_byte(w),
{
    (w % 0x100) as u8
}

pub fn split_hi(w: u16) -> (b: u8)
    ensures
        b == hi_byte(w),
{
    (w / 0x100) as u8
}

/// Splitting a word and joining the pieces gives the word back.
pub proof fn lemma_word_roundtrip(w: u16)
    ensures
        word(lo_byte(w), hi_byte(w)) == w,
{
}

} // verus!
