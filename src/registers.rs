//! The register file, the status flags, and byte and word arithmetic with
//! wrap-around.
use vstd::prelude::*;

verus! {

/// Negative.
pub const FLAG_N: u8 = 0x80;
/// Overflow.
pub const FLAG_V: u8 = 0x40;
/// Extension bit: unused by the instructions, reported as set when pushed.
pub const FLAG_E: u8 = 0x20;
/// Break: only ever seen in a pushed copy of the status register.
pub const FLAG_B: u8 = 0x10;
/// Decimal mode.
pub const FLAG_D: u8 = 0x08;
/// Interrupt disable.
pub const FLAG_I: u8 = 0x04;
/// Zero.
pub const FLAG_Z: u8 = 0x02;
/// Carry.
pub const FLAG_C: u8 = 0x01;

/// The register file. `p` holds the status flags, bits `N V E B D I Z C`
/// from the most significant down.
#[derive(Clone, Copy, Debug, PartialEq, Eq, Structural)]
pub struct Registers {
    pub pc: u16,
    pub s: u8,
    pub a: u8,
    pub x: u8,
    pub y: u8,
    pub p: u8,
}

/// Whether the flag(s) of `mask` are set in `p`.
pub open spec fn flag(p: u8, mask: u8) -> bool {
    p & mask != 0
}

/// `p` with the flag(s) of `mask` set or cleared.
pub open spec fn with_flag(p: u8, mask: u8, on: bool) -> u8 {
    if on {
        p | mask
    } else {
        p & !mask
    }
}

/// `p` with Z and N describing `v`, the other flags kept.
pub open spec fn with_zn(p: u8, v: u8) -> u8 {
    with_flag(with_flag(p, FLAG_Z, v == 0), FLAG_N, v >= 0x80)
}

/// Low byte of a 16-bit value.
pub open spec fn low_byte(w: u16) -> u8 {
    (w % 256) as u8
}

/// High byte of a 16-bit value.
pub open spec fn high_byte(w: u16) -> u8 {
    (w / 256) as u8
}

/// The 16-bit value of two bytes, little-endian.
pub open spec fn word(lo: u8, hi: u8) -> u16 {
    (hi as int * 256 + lo as int) as u16
}

/// `x + d` with 16-bit wrap.
pub open spec fn add16(x: u16, d: int) -> u16 {
    ((x as int + d) % 0x10000) as u16
}

/// `x + d` with 8-bit wrap.
pub open spec fn add8(x: u8, d: int) -> u8 {
    ((x as int + d) % 0x100) as u8
}

pub fn test_flag(p: u8, mask: u8) -> (r: bool)
    ensures
        r == flag(p, mask),
{
    p & mask != 0
}

pub fn set_flag(p: u8, mask: u8, on: bool) -> (r: u8)
    ensures
        r == with_flag(p, mask, on),
{
    if on {
        p | mask
    } else {
        p & !mask
    }
}

pub fn set_zn(p: u8, v: u8) -> (r: u8)
    ensures
        r == with_zn(p, v),
{
    set_flag(set_flag(p, FLAG_Z, v == 0), FLAG_N, v >= 0x80)
}

pub fn make_word(lo: u8, hi: u8) -> (r: u16)
    ensures
        r == word(lo, hi),
{
    (hi as u16) * 256 + (lo as u16)
}

pub fn lo_byte(w: u16) -> (r: u8)
    ensures
        r == low_byte(w),
{
    (w % 256) as u8
}

pub fn hi_byte(w: u16) -> (r: u8)
    ensures
        r == high_byte(w),
{
    (w / 256) as u8
}

pub fn wrap_add16(x: u16, d: u16) -> (r: u16)
    ensures
        r == add16(x, d as int),
{
    x.wrapping_add(d)
}

pub fn wrap_sub16(x: u16, d: u16) -> (r: u16)
    ensures
        r == add16(x, -(d as int)),
{
    x.wrapping_sub(d)
}

pub fn wrap_add8(x: u8, d: u8) -> (r: u8)
    ensures
        r == add8(x, d as int),
{
    x.wrapping_add(d)
}

pub fn wrap_sub8(x: u8, d: u8) -> (r: u8)
    ensures
        r == add8(x, -(d as int)),
{
    x.wrapping_sub(d)
}

} // verus!
