//! The arithmetic and logic unit: ADC and SBC in binary and decimal mode,
//! compares, BIT, shifts and rotates, and the ARR quirk, each as a spec
//! function and an executable function proved equal to it.
use vstd::prelude::*;
use crate::registers::{
    FLAG_B, FLAG_C, FLAG_D, FLAG_E, FLAG_N, FLAG_V, FLAG_Z, flag, with_flag, with_zn, add8,
    add16, test_flag, set_flag, set_zn, wrap_add8, wrap_sub8, wrap_sub16,
};

verus! {

/// The four one-bit shifts and rotates.
#[derive(Clone, Copy, Debug, PartialEq, Eq, Structural)]
pub enum ShiftKind {
    Asl,
    Lsr,
    Rol,
    Ror,
}

/// `ADC`: the new accumulator and status. In decimal mode the low nibble is
/// corrected first, N and V come from the sum before the high-nibble
/// correction, and Z always comes from the binary sum.
pub open spec fn adc(a: u8, v: u8, p: u8) -> (u8, u8) {
    let carry: u16 = if flag(p, FLAG_C) { 1 } else { 0 };
    let op1 = a as u16;
    let op2 = v as u16;
    let bsum = (op1 + op2 + carry) as u16;
    let sum: u16 = if flag(p, FLAG_D) {
        let res0 = (carry + (a & 0x0F) + (v & 0x0F)) as u16;
        let res = if res0 > 0x09 { ((res0 + 0x06) as u16 & 0x0F) | 0x10 } else { res0 };
        ((a & 0xF0) as u16 + (v & 0xF0) as u16 + res) as u16
    } else {
        bsum
    };
    let p_n = with_flag(p, FLAG_N, sum & 0x80 != 0);
    let p_v = with_flag(p_n, FLAG_V, !(op1 ^ op2) & (op1 ^ sum) & 0x80 != 0);
    let fixed: u16 = if flag(p, FLAG_D) && sum > 0x9F { (sum + 0x60) as u16 } else { sum };
    let p_c = with_flag(p_v, FLAG_C, fixed > 0xFF);
    let p_z = with_flag(p_c, FLAG_Z, bsum as u8 == 0);
    (fixed as u8, p_z)
}

/// `SBC`: the new accumulator and status. The flags always come from the
/// binary difference; decimal mode only changes the accumulator.
pub open spec fn sbc(a: u8, v: u8, p: u8) -> (u8, u8) {
    let borrow: u8 = if flag(p, FLAG_C) { 0 } else { 1 };
    let bsum = add16(add16(a as u16, -(v as int)), -(borrow as int));
    let result: u8 = if flag(p, FLAG_D) {
        let low0 = add8(add8(a & 0x0F, -((v & 0x0F) as int)), -(borrow as int));
        let fix: u8 = if low0 & 0x10 != 0 { 1 } else { 0 };
        let low = if fix == 1 { add8(low0, -6) } else { low0 };
        let high0 = add8(add8(a >> 4u8, -((v >> 4u8) as int)), -(fix as int));
        let high = if high0 & 0x10 != 0 { add8(high0, -6) } else { high0 };
        (high << 4u8) | (low & 0x0F)
    } else {
        bsum as u8
    };
    let p_zn = with_zn(p, bsum as u8);
    let p_v = with_flag(p_zn, FLAG_V, !(a ^ !v) & (a ^ (bsum as u8)) & 0x80 != 0);
    let p_c = with_flag(p_v, FLAG_C, bsum <= 0xFF);
    (result, p_c)
}

/// `CMP`, `CPX`, `CPY`: the status after comparing `reg` with `v`.
pub open spec fn cmp(reg: u8, v: u8, p: u8) -> u8 {
    with_flag(with_zn(p, add8(reg, -(v as int))), FLAG_C, reg >= v)
}

/// `BIT`: Z from `a & v`, N and V copied from bits 7 and 6 of `v`.
pub open spec fn bit(a: u8, v: u8, p: u8) -> u8 {
    (with_zn(p, a & v) & !(FLAG_V | FLAG_N)) | (v & (FLAG_V | FLAG_N))
}

/// A one-bit shift or rotate of `v`: the new value and status.
pub open spec fn shift(kind: ShiftKind, v: u8, p: u8) -> (u8, u8) {
    let carry_in = flag(p, FLAG_C);
    let (r, c) = match kind {
        ShiftKind::Asl => (v << 1u8, v & 0x80 != 0),
        ShiftKind::Lsr => (v >> 1u8, v & 0x01 != 0),
        ShiftKind::Rol => ((v << 1u8) | (if carry_in { 0x01u8 } else { 0u8 }), v & 0x80 != 0),
        ShiftKind::Ror => ((v >> 1u8) | (if carry_in { 0x80u8 } else { 0u8 }), v & 0x01 != 0),
    };
    (r, with_zn(with_flag(p, FLAG_C, c), r))
}

/// `ARR` after its `AND`: rotate the accumulator right, then set C and V
/// from bits 6 and 5 of the rotated value, with the adder's corrections in
/// decimal mode.
pub open spec fn arr(a: u8, p: u8) -> (u8, u8) {
    let (rot, p_rot) = shift(ShiftKind::Ror, a, p);
    let (res, p_fix) = if flag(p, FLAG_D) {
        let low0 = rot & 0x0F;
        let low1 = if a & 0x0F > 4 { add8(low0, 6) } else { low0 };
        let merged = (low1 & 0x0F) | (rot & 0xF0);
        if a & 0xF0 > 0x40 {
            (add8(merged, 0x60), with_flag(p_rot, FLAG_C, true))
        } else {
            (merged, with_flag(p_rot, FLAG_C, false))
        }
    } else {
        (rot, with_flag(p_rot, FLAG_C, rot & 0x40 != 0))
    };
    (res, with_flag(p_fix, FLAG_V, ((rot >> 6u8) & 1) ^ ((rot >> 5u8) & 1) != 0))
}

/// The status after pulling `pulled` from the stack: B and E stay as they were.
pub open spec fn pulled_status(p: u8, pulled: u8) -> u8 {
    (p & (FLAG_B | FLAG_E)) | (pulled & !(FLAG_B | FLAG_E))
}

proof fn lemma_nibbles(x: u8)
    by (bit_vector)
    ensures
        x & 0x0F <= 0x0F,
        x & 0xF0 <= 0xF0,
        forall|r: u16| #![trigger (r & 0x0F) | 0x10] (r & 0x0F) | 0x10 <= 0x1F,
{
}

pub fn add_with_carry(a: u8, v: u8, p: u8) -> (r: (u8, u8))
    ensures
        r == adc(a, v, p),
{
    proof {
        lemma_nibbles(a);
        lemma_nibbles(v);
    }
    let carry: u16 = if test_flag(p, FLAG_C) { 1 } else { 0 };
    let op1 = a as u16;
    let op2 = v as u16;
    let bsum = op1 + op2 + carry;
    let decimal = test_flag(p, FLAG_D);
    let sum: u16 = if decimal {
        let res0 = carry + (a & 0x0F) as u16 + (v & 0x0F) as u16;
        let res = if res0 > 0x09 { ((res0 + 0x06) & 0x0F) | 0x10 } else { res0 };
        (a & 0xF0) as u16 + (v & 0xF0) as u16 + res
    } else {
        bsum
    };
    let p_n = set_flag(p, FLAG_N, sum & 0x80 != 0);
    let p_v = set_flag(p_n, FLAG_V, !(op1 ^ op2) & (op1 ^ sum) & 0x80 != 0);
    let fixed: u16 = if decimal && sum > 0x9F { sum + 0x60 } else { sum };
    let p_c = set_flag(p_v, FLAG_C, fixed > 0xFF);
    let p_z = set_flag(p_c, FLAG_Z, bsum as u8 == 0);
    (fixed as u8, p_z)
}

pub fn subtract_with_borrow(a: u8, v: u8, p: u8) -> (r: (u8, u8))
    ensures
        r == sbc(a, v, p),
{
    let borrow: u8 = if test_flag(p, FLAG_C) { 0 } else { 1 };
    let bsum = wrap_sub16(wrap_sub16(a as u16, v as u16), borrow as u16);
    let result: u8 = if test_flag(p, FLAG_D) {
        let low0 = wrap_sub8(wrap_sub8(a & 0x0F, v & 0x0F), borrow);
        let fix: u8 = if low0 & 0x10 != 0 { 1 } else { 0 };
        let low = if fix == 1 { wrap_sub8(low0, 6) } else { low0 };
        let high0 = wrap_sub8(wrap_sub8(a >> 4u8, v >> 4u8), fix);
        let high = if high0 & 0x10 != 0 { wrap_sub8(high0, 6) } else { high0 };
        (high << 4u8) | (low & 0x0F)
    } else {
        bsum as u8
    };
    let p_zn = set_zn(p, bsum as u8);
    let p_v = set_flag(p_zn, FLAG_V, !(a ^ !v) & (a ^ (bsum as u8)) & 0x80 != 0);
    let p_c = set_flag(p_v, FLAG_C, bsum <= 0xFF);
    (result, p_c)
}

pub fn compare_flags(reg: u8, v: u8, p: u8) -> (r: u8)
    ensures
        r == cmp(reg, v, p),
{
    set_flag(set_zn(p, wrap_sub8(reg, v)), FLAG_C, reg >= v)
}

pub fn test_bits(a: u8, v: u8, p: u8) -> (r: u8)
    ensures
        r == bit(a, v, p),
{
    (set_zn(p, a & v) & !(FLAG_V | FLAG_N)) | (v & (FLAG_V | FLAG_N))
}

pub fn shift_value(kind: ShiftKind, v: u8, p: u8) -> (r: (u8, u8))
    ensures
        r == shift(kind, v, p),
{
    let carry_in = test_flag(p, FLAG_C);
    let (r, c) = match kind {
        ShiftKind::Asl => (v << 1u8, v & 0x80 != 0),
        ShiftKind::Lsr => (v >> 1u8, v & 0x01 != 0),
        ShiftKind::Rol => ((v << 1u8) | (if carry_in { 0x01u8 } else { 0u8 }), v & 0x80 != 0),
        ShiftKind::Ror => ((v >> 1u8) | (if carry_in { 0x80u8 } else { 0u8 }), v & 0x01 != 0),
    };
    (r, set_zn(set_flag(p, FLAG_C, c), r))
}

pub fn arr_value(a: u8, p: u8) -> (r: (u8, u8))
    ensures
        r == arr(a, p),
{
    let (rot, p_rot) = shift_value(ShiftKind::Ror, a, p);
    let (res, p_fix) = if test_flag(p, FLAG_D) {
        let low0 = rot & 0x0F;
        let low1 = if a & 0x0F > 4 { wrap_add8(low0, 6) } else { low0 };
        let merged = (low1 & 0x0F) | (rot & 0xF0);
        if a & 0xF0 > 0x40 {
            (wrap_add8(merged, 0x60), set_flag(p_rot, FLAG_C, true))
        } else {
            (merged, set_flag(p_rot, FLAG_C, false))
        }
    } else {
        (rot, set_flag(p_rot, FLAG_C, rot & 0x40 != 0))
    };
    (res, set_flag(p_fix, FLAG_V, ((rot >> 6u8) & 1) ^ ((rot >> 5u8) & 1) != 0))
}

pub fn merge_pulled_status(p: u8, pulled: u8) -> (r: u8)
    ensures
        r == pulled_status(p, pulled),
{
    (p & (FLAG_B | FLAG_E)) | (pulled & !(FLAG_B | FLAG_E))
}

} // verus!
