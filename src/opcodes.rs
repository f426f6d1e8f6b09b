//! The 256-entry decoding table: instruction, addressing mode and length of
//! every opcode byte.
use vstd::prelude::*;

verus! {

/// The thirteen addressing modes.
#[derive(Clone, Copy, Debug, PartialEq, Eq, Structural)]
pub enum AddrMode {
    /// The accumulator.
    Acm,
    /// A 16-bit address.
    Abs,
    /// A 16-bit address plus X.
    AbsX,
    /// A 16-bit address plus Y.
    AbsY,
    /// The operand byte itself.
    Imm,
    /// No operand.
    Imp,
    /// A 16-bit pointer (jumps only).
    Ind,
    /// A zero-page pointer at operand plus X.
    IndX,
    /// A zero-page pointer, plus Y after dereferencing.
    IndY,
    /// A signed offset from the next instruction (branches only).
    Rel,
    /// A zero-page address.
    Zpg,
    /// A zero-page address plus X, wrapping in page zero.
    ZpgX,
    /// A zero-page address plus Y, wrapping in page zero.
    ZpgY,
}

/// The instructions, documented and undocumented.
#[derive(Clone, Copy, Debug, PartialEq, Eq, Structural)]
pub enum Instr {
    Adc,
    Alr,
    Anc,
    And,
    Ane,
    Arr,
    Asl,
    Bcc,
    Bcs,
    Beq,
    Bit,
    Bmi,
    Bne,
    Bpl,
    Brk,
    Bvc,
    Bvs,
    Clc,
    Cld,
    Cli,
    Clv,
    Cmp,
    Cpx,
    Cpy,
    Dcp,
    Dec,
    Dex,
    Dey,
    Eor,
    Inc,
    Inx,
    Iny,
    Isc,
    Jam,
    Jmp,
    Jsr,
    Las,
    Lax,
    Lda,
    Ldx,
    Ldy,
    Lsr,
    Lxa,
    Nop,
    Ora,
    Pha,
    Php,
    Pla,
    Plp,
    Rla,
    Rol,
    Ror,
    Rra,
    Rti,
    Rts,
    Sax,
    Sbc,
    Sbx,
    Sec,
    Sed,
    Sei,
    Sha,
    Shx,
    Shy,
    Slo,
    Sre,
    Sta,
    Stx,
    Sty,
    Tas,
    Tax,
    Tay,
    Tsx,
    Txa,
    Txs,
    Tya,
    Usb,
}

/// What an opcode byte stands for: the instruction, its addressing mode and
/// its length in bytes.
#[derive(Clone, Copy, Debug, PartialEq, Eq, Structural)]
pub struct Opcode {
    pub instr: Instr,
    pub mode: AddrMode,
    pub bytes: u8,
}

pub open spec fn entry_of(instr: Instr, mode: AddrMode, bytes: u8) -> Opcode {
    Opcode { instr, mode, bytes }
}

/// The decoding table: every byte value is an instruction. Row `r` holds
/// the opcodes `0xr0` to `0xrF`.
#[verifier::opaque]
pub open spec fn opcode_table(op: u8) -> Opcode {
    let col = op % 16;
    match op / 16 {
        0 => table_row_0(col),
        1 => table_row_1(col),
        2 => table_row_2(col),
        3 => table_row_3(col),
        4 => table_row_4(col),
        5 => table_row_5(col),
        6 => table_row_6(col),
        7 => table_row_7(col),
        8 => table_row_8(col),
        9 => table_row_9(col),
        10 => table_row_a(col),
        11 => table_row_b(col),
        12 => table_row_c(col),
        13 => table_row_d(col),
        14 => table_row_e(col),
        15 => table_row_f(col),
        _ => table_row_f(col),
    }
}

pub open spec fn table_row_0(col: u8) -> Opcode {
    match col {
        0 => entry_of(Instr::Brk, AddrMode::Imp, 2),
        1 => entry_of(Instr::Ora, AddrMode::IndX, 2),
        2 => entry_of(Instr::Jam, AddrMode::Imp, 1),
        3 => entry_of(Instr::Slo, AddrMode::IndX, 2),
        4 => entry_of(Instr::Nop, AddrMode::Zpg, 2),
        5 => entry_of(Instr::Ora, AddrMode::Zpg, 2),
        6 => entry_of(Instr::Asl, AddrMode::Zpg, 2),
        7 => entry_of(Instr::Slo, AddrMode::Zpg, 2),
        8 => entry_of(Instr::Php, AddrMode::Imp, 1),
        9 => entry_of(Instr::Ora, AddrMode::Imm, 2),
        10 => entry_of(Instr::Asl, AddrMode::Acm, 1),
        11 => entry_of(Instr::Anc, AddrMode::Imm, 2),
        12 => entry_of(Instr::Nop, AddrMode::Abs, 3),
        13 => entry_of(Instr::Ora, AddrMode::Abs, 3),
        14 => entry_of(Instr::Asl, AddrMode::Abs, 3),
        _ => entry_of(Instr::Slo, AddrMode::Abs, 3),
    }
}

pub open spec fn table_row_1(col: u8) -> Opcode {
    match col {
        0 => entry_of(Instr::Bpl, AddrMode::Rel, 2),
        1 => entry_of(Instr::Ora, AddrMode::IndY, 2),
        2 => entry_of(Instr::Jam, AddrMode::Imp, 1),
        3 => entry_of(Instr::Slo, AddrMode::IndY, 2),
        4 => entry_of(Instr::Nop, AddrMode::ZpgX, 2),
        5 => entry_of(Instr::Ora, AddrMode::ZpgX, 2),
        6 => entry_of(Instr::Asl, AddrMode::ZpgX, 2),
        7 => entry_of(Instr::Slo, AddrMode::ZpgX, 2),
        8 => entry_of(Instr::Clc, AddrMode::Imp, 1),
        9 => entry_of(Instr::Ora, AddrMode::AbsY, 3),
        10 => entry_of(Instr::Nop, AddrMode::Imp, 1),
        11 => entry_of(Instr::Slo, AddrMode::AbsY, 3),
        12 => entry_of(Instr::Nop, AddrMode::AbsX, 3),
        13 => entry_of(Instr::Ora, AddrMode::AbsX, 3),
        14 => entry_of(Instr::Asl, AddrMode::AbsX, 3),
        _ => entry_of(Instr::Slo, AddrMode::AbsX, 3),
    }
}

pub open spec fn table_row_2(col: u8) -> Opcode {
    match col {
        0 => entry_of(Instr::Jsr, AddrMode::Abs, 3),
        1 => entry_of(Instr::And, AddrMode::IndX, 2),
        2 => entry_of(Instr::Jam, AddrMode::Imp, 1),
        3 => entry_of(Instr::Rla, AddrMode::IndX, 2),
        4 => entry_of(Instr::Bit, AddrMode::Zpg, 2),
        5 => entry_of(Instr::And, AddrMode::Zpg, 2),
        6 => entry_of(Instr::Rol, AddrMode::Zpg, 2),
        7 => entry_of(Instr::Rla, AddrMode::Zpg, 2),
        8 => entry_of(Instr::Plp, AddrMode::Imp, 1),
        9 => entry_of(Instr::And, AddrMode::Imm, 2),
        10 => entry_of(Instr::Rol, AddrMode::Acm, 1),
        11 => entry_of(Instr::Anc, AddrMode::Imm, 2),
        12 => entry_of(Instr::Bit, AddrMode::Abs, 3),
        13 => entry_of(Instr::And, AddrMode::Abs, 3),
        14 => entry_of(Instr::Rol, AddrMode::Abs, 3),
        _ => entry_of(Instr::Rla, AddrMode::Abs, 3),
    }
}

pub open spec fn table_row_3(col: u8) -> Opcode {
    match col {
        0 => entry_of(Instr::Bmi, AddrMode::Rel, 2),
        1 => entry_of(Instr::And, AddrMode::IndY, 2),
        2 => entry_of(Instr::Jam, AddrMode::Imp, 1),
        3 => entry_of(Instr::Rla, AddrMode::IndY, 2),
        4 => entry_of(Instr::Nop, AddrMode::ZpgX, 2),
        5 => entry_of(Instr::And, AddrMode::ZpgX, 2),
        6 => entry_of(Instr::Rol, AddrMode::ZpgX, 2),
        7 => entry_of(Instr::Rla, AddrMode::ZpgX, 2),
        8 => entry_of(Instr::Sec, AddrMode::Imp, 1),
        9 => entry_of(Instr::And, AddrMode::AbsY, 3),
        10 => entry_of(Instr::Nop, AddrMode::Imp, 1),
        11 => entry_of(Instr::Rla, AddrMode::AbsY, 3),
        12 => entry_of(Instr::Nop, AddrMode::AbsX, 3),
        13 => entry_of(Instr::And, AddrMode::AbsX, 3),
        14 => entry_of(Instr::Rol, AddrMode::AbsX, 3),
        _ => entry_of(Instr::Rla, AddrMode::AbsX, 3),
    }
}

pub open spec fn table_row_4(col: u8) -> Opcode {
    match col {
        0 => entry_of(Instr::Rti, AddrMode::Imp, 1),
        1 => entry_of(Instr::Eor, AddrMode::IndX, 2),
        2 => entry_of(Instr::Jam, AddrMode::Imp, 1),
        3 => entry_of(Instr::Sre, AddrMode::IndX, 2),
        4 => entry_of(Instr::Nop, AddrMode::Zpg, 2),
        5 => entry_of(Instr::Eor, AddrMode::Zpg, 2),
        6 => entry_of(Instr::Lsr, AddrMode::Zpg, 2),
        7 => entry_of(Instr::Sre, AddrMode::Zpg, 2),
        8 => entry_of(Instr::Pha, AddrMode::Imp, 1),
        9 => entry_of(Instr::Eor, AddrMode::Imm, 2),
        10 => entry_of(Instr::Lsr, AddrMode::Acm, 1),
        11 => entry_of(Instr::Alr, AddrMode::Imm, 2),
        12 => entry_of(Instr::Jmp, AddrMode::Abs, 3),
        13 => entry_of(Instr::Eor, AddrMode::Abs, 3),
        14 => entry_of(Instr::Lsr, AddrMode::Abs, 3),
        _ => entry_of(Instr::Sre, AddrMode::Abs, 3),
    }
}

pub open spec fn table_row_5(col: u8) -> Opcode {
    match col {
        0 => entry_of(Instr::Bvc, AddrMode::Rel, 2),
        1 => entry_of(Instr::Eor, AddrMode::IndY, 2),
        2 => entry_of(Instr::Jam, AddrMode::Imp, 1),
        3 => entry_of(Instr::Sre, AddrMode::IndY, 2),
        4 => entry_of(Instr::Nop, AddrMode::ZpgX, 2),
        5 => entry_of(Instr::Eor, AddrMode::ZpgX, 2),
        6 => entry_of(Instr::Lsr, AddrMode::ZpgX, 2),
        7 => entry_of(Instr::Sre, AddrMode::ZpgX, 2),
        8 => entry_of(Instr::Cli, AddrMode::Imp, 1),
        9 => entry_of(Instr::Eor, AddrMode::AbsY, 3),
        10 => entry_of(Instr::Nop, AddrMode::Imp, 1),
        11 => entry_of(Instr::Sre, AddrMode::AbsY, 3),
        12 => entry_of(Instr::Nop, AddrMode::AbsX, 3),
        13 => entry_of(Instr::Eor, AddrMode::AbsX, 3),
        14 => entry_of(Instr::Lsr, AddrMode::AbsX, 3),
        _ => entry_of(Instr::Sre, AddrMode::AbsX, 3),
    }
}

pub open spec fn table_row_6(col: u8) -> Opcode {
    match col {
        0 => entry_of(Instr::Rts, AddrMode::Imp, 1),
        1 => entry_of(Instr::Adc, AddrMode::IndX, 2),
        2 => entry_of(Instr::Jam, AddrMode::Imp, 1),
        3 => entry_of(Instr::Rra, AddrMode::IndX, 2),
        4 => entry_of(Instr::Nop, AddrMode::Zpg, 2),
        5 => entry_of(Instr::Adc, AddrMode::Zpg, 2),
        6 => entry_of(Instr::Ror, AddrMode::Zpg, 2),
        7 => entry_of(Instr::Rra, AddrMode::Zpg, 2),
        8 => entry_of(Instr::Pla, AddrMode::Imp, 1),
        9 => entry_of(Instr::Adc, AddrMode::Imm, 2),
        10 => entry_of(Instr::Ror, AddrMode::Acm, 1),
        11 => entry_of(Instr::Arr, AddrMode::Imm, 2),
        12 => entry_of(Instr::Jmp, AddrMode::Ind, 3),
        13 => entry_of(Instr::Adc, AddrMode::Abs, 3),
        14 => entry_of(Instr::Ror, AddrMode::Abs, 3),
        _ => entry_of(Instr::Rra, AddrMode::Abs, 3),
    }
}

pub open spec fn table_row_7(col: u8) -> Opcode {
    match col {
        0 => entry_of(Instr::Bvs, AddrMode::Rel, 2),
        1 => entry_of(Instr::Adc, AddrMode::IndY, 2),
        2 => entry_of(Instr::Jam, AddrMode::Imp, 1),
        3 => entry_of(Instr::Rra, AddrMode::IndY, 2),
        4 => entry_of(Instr::Nop, AddrMode::ZpgX, 2),
        5 => entry_of(Instr::Adc, AddrMode::ZpgX, 2),
        6 => entry_of(Instr::Ror, AddrMode::ZpgX, 2),
        7 => entry_of(Instr::Rra, AddrMode::ZpgX, 2),
        8 => entry_of(Instr::Sei, AddrMode::Imp, 1),
        9 => entry_of(Instr::Adc, AddrMode::AbsY, 3),
        10 => entry_of(Instr::Nop, AddrMode::Imp, 1),
        11 => entry_of(Instr::Rra, AddrMode::AbsY, 3),
        12 => entry_of(Instr::Nop, AddrMode::AbsX, 3),
        13 => entry_of(Instr::Adc, AddrMode::AbsX, 3),
        14 => entry_of(Instr::Ror, AddrMode::AbsX, 3),
        _ => entry_of(Instr::Rra, AddrMode::AbsX, 3),
    }
}

pub open spec fn table_row_8(col: u8) -> Opcode {
    match col {
        0 => entry_of(Instr::Nop, AddrMode::Imm, 2),
        1 => entry_of(Instr::Sta, AddrMode::IndX, 2),
        2 => entry_of(Instr::Nop, AddrMode::Imm, 2),
        3 => entry_of(Instr::Sax, AddrMode::IndX, 2),
        4 => entry_of(Instr::Sty, AddrMode::Zpg, 2),
        5 => entry_of(Instr::Sta, AddrMode::Zpg, 2),
        6 => entry_of(Instr::Stx, AddrMode::Zpg, 2),
        7 => entry_of(Instr::Sax, AddrMode::Zpg, 2),
        8 => entry_of(Instr::Dey, AddrMode::Imp, 1),
        9 => entry_of(Instr::Nop, AddrMode::Imm, 2),
        10 => entry_of(Instr::Txa, AddrMode::Imp, 1),
        11 => entry_of(Instr::Ane, AddrMode::Imm, 2),
        12 => entry_of(Instr::Sty, AddrMode::Abs, 3),
        13 => entry_of(Instr::Sta, AddrMode::Abs, 3),
        14 => entry_of(Instr::Stx, AddrMode::Abs, 3),
        _ => entry_of(Instr::Sax, AddrMode::Abs, 3),
    }
}

pub open spec fn table_row_9(col: u8) -> Opcode {
    match col {
        0 => entry_of(Instr::Bcc, AddrMode::Rel, 2),
        1 => entry_of(Instr::Sta, AddrMode::IndY, 2),
        2 => entry_of(Instr::Jam, AddrMode::Imp, 1),
        3 => entry_of(Instr::Sha, AddrMode::IndY, 2),
        4 => entry_of(Instr::Sty, AddrMode::ZpgX, 2),
        5 => entry_of(Instr::Sta, AddrMode::ZpgX, 2),
        6 => entry_of(Instr::Stx, AddrMode::ZpgY, 2),
        7 => entry_of(Instr::Sax, AddrMode::ZpgY, 2),
        8 => entry_of(Instr::Tya, AddrMode::Imp, 1),
        9 => entry_of(Instr::Sta, AddrMode::AbsY, 3),
        10 => entry_of(Instr::Txs, AddrMode::Imp, 1),
        11 => entry_of(Instr::Tas, AddrMode::AbsY, 3),
        12 => entry_of(Instr::Shy, AddrMode::AbsX, 3),
        13 => entry_of(Instr::Sta, AddrMode::AbsX, 3),
        14 => entry_of(Instr::Shx, AddrMode::AbsY, 3),
        _ => entry_of(Instr::Sha, AddrMode::AbsY, 3),
    }
}

pub open spec fn table_row_a(col: u8) -> Opcode {
    match col {
        0 => entry_of(Instr::Ldy, AddrMode::Imm, 2),
        1 => entry_of(Instr::Lda, AddrMode::IndX, 2),
        2 => entry_of(Instr::Ldx, AddrMode::Imm, 2),
        3 => entry_of(Instr::Lax, AddrMode::IndX, 2),
        4 => entry_of(Instr::Ldy, AddrMode::Zpg, 2),
        5 => entry_of(Instr::Lda, AddrMode::Zpg, 2),
        6 => entry_of(Instr::Ldx, AddrMode::Zpg, 2),
        7 => entry_of(Instr::Lax, AddrMode::Zpg, 2),
        8 => entry_of(Instr::Tay, AddrMode::Imp, 1),
        9 => entry_of(Instr::Lda, AddrMode::Imm, 2),
        10 => entry_of(Instr::Tax, AddrMode::Imp, 1),
        11 => entry_of(Instr::Lxa, AddrMode::Imm, 2),
        12 => entry_of(Instr::Ldy, AddrMode::Abs, 3),
        13 => entry_of(Instr::Lda, AddrMode::Abs, 3),
        14 => entry_of(Instr::Ldx, AddrMode::Abs, 3),
        _ => entry_of(Instr::Lax, AddrMode::Abs, 3),
    }
}

pub open spec fn table_row_b(col: u8) -> Opcode {
    match col {
        0 => entry_of(Instr::Bcs, AddrMode::Rel, 2),
        1 => entry_of(Instr::Lda, AddrMode::IndY, 2),
        2 => entry_of(Instr::Jam, AddrMode::Imp, 1),
        3 => entry_of(Instr::Lax, AddrMode::IndY, 2),
        4 => entry_of(Instr::Ldy, AddrMode::ZpgX, 2),
        5 => entry_of(Instr::Lda, AddrMode::ZpgX, 2),
        6 => entry_of(Instr::Ldx, AddrMode::ZpgY, 2),
        7 => entry_of(Instr::Lax, AddrMode::ZpgY, 2),
        8 => entry_of(Instr::Clv, AddrMode::Imp, 1),
        9 => entry_of(Instr::Lda, AddrMode::AbsY, 3),
        10 => entry_of(Instr::Tsx, AddrMode::Imp, 1),
        11 => entry_of(Instr::Las, AddrMode::AbsY, 3),
        12 => entry_of(Instr::Ldy, AddrMode::AbsX, 3),
        13 => entry_of(Instr::Lda, AddrMode::AbsX, 3),
        14 => entry_of(Instr::Ldx, AddrMode::AbsY, 3),
        _ => entry_of(Instr::Lax, AddrMode::AbsY, 3),
    }
}

pub open spec fn table_row_c(col: u8) -> Opcode {
    match col {
        0 => entry_of(Instr::Cpy, AddrMode::Imm, 2),
        1 => entry_of(Instr::Cmp, AddrMode::IndX, 2),
        2 => entry_of(Instr::Nop, AddrMode::Imm, 2),
        3 => entry_of(Instr::Dcp, AddrMode::IndX, 2),
        4 => entry_of(Instr::Cpy, AddrMode::Zpg, 2),
        5 => entry_of(Instr::Cmp, AddrMode::Zpg, 2),
        6 => entry_of(Instr::Dec, AddrMode::Zpg, 2),
        7 => entry_of(Instr::Dcp, AddrMode::Zpg, 2),
        8 => entry_of(Instr::Iny, AddrMode::Imp, 1),
        9 => entry_of(Instr::Cmp, AddrMode::Imm, 2),
        10 => entry_of(Instr::Dex, AddrMode::Imp, 1),
        11 => entry_of(Instr::Sbx, AddrMode::Imm, 2),
        12 => entry_of(Instr::Cpy, AddrMode::Abs, 3),
        13 => entry_of(Instr::Cmp, AddrMode::Abs, 3),
        14 => entry_of(Instr::Dec, AddrMode::Abs, 3),
        _ => entry_of(Instr::Dcp, AddrMode::Abs, 3),
    }
}

pub open spec fn table_row_d(col: u8) -> Opcode {
    match col {
        0 => entry_of(Instr::Bne, AddrMode::Rel, 2),
        1 => entry_of(Instr::Cmp, AddrMode::IndY, 2),
        2 => entry_of(Instr::Jam, AddrMode::Imp, 1),
        3 => entry_of(Instr::Dcp, AddrMode::IndY, 2),
        4 => entry_of(Instr::Nop, AddrMode::ZpgX, 2),
        5 => entry_of(Instr::Cmp, AddrMode::ZpgX, 2),
        6 => entry_of(Instr::Dec, AddrMode::ZpgX, 2),
        7 => entry_of(Instr::Dcp, AddrMode::ZpgX, 2),
        8 => entry_of(Instr::Cld, AddrMode::Imp, 1),
        9 => entry_of(Instr::Cmp, AddrMode::AbsY, 3),
        10 => entry_of(Instr::Nop, AddrMode::Imp, 1),
        11 => entry_of(Instr::Dcp, AddrMode::AbsY, 3),
        12 => entry_of(Instr::Nop, AddrMode::AbsX, 3),
        13 => entry_of(Instr::Cmp, AddrMode::AbsX, 3),
        14 => entry_of(Instr::Dec, AddrMode::AbsX, 3),
        _ => entry_of(Instr::Dcp, AddrMode::AbsX, 3),
    }
}

pub open spec fn table_row_e(col: u8) -> Opcode {
    match col {
        0 => entry_of(Instr::Cpx, AddrMode::Imm, 2),
        1 => entry_of(Instr::Sbc, AddrMode::IndX, 2),
        2 => entry_of(Instr::Nop, AddrMode::Imm, 2),
        3 => entry_of(Instr::Isc, AddrMode::IndX, 2),
        4 => entry_of(Instr::Cpx, AddrMode::Zpg, 2),
        5 => entry_of(Instr::Sbc, AddrMode::Zpg, 2),
        6 => entry_of(Instr::Inc, AddrMode::Zpg, 2),
        7 => entry_of(Instr::Isc, AddrMode::Zpg, 2),
        8 => entry_of(Instr::Inx, AddrMode::Imp, 1),
        9 => entry_of(Instr::Sbc, AddrMode::Imm, 2),
        10 => entry_of(Instr::Nop, AddrMode::Imp, 1),
        11 => entry_of(Instr::Usb, AddrMode::Imm, 2),
        12 => entry_of(Instr::Cpx, AddrMode::Abs, 3),
        13 => entry_of(Instr::Sbc, AddrMode::Abs, 3),
        14 => entry_of(Instr::Inc, AddrMode::Abs, 3),
        _ => entry_of(Instr::Isc, AddrMode::Abs, 3),
    }
}

pub open spec fn table_row_f(col: u8) -> Opcode {
    match col {
        0 => entry_of(Instr::Beq, AddrMode::Rel, 2),
        1 => entry_of(Instr::Sbc, AddrMode::IndY, 2),
        2 => entry_of(Instr::Jam, AddrMode::Imp, 1),
        3 => entry_of(Instr::Isc, AddrMode::IndY, 2),
        4 => entry_of(Instr::Nop, AddrMode::ZpgX, 2),
        5 => entry_of(Instr::Sbc, AddrMode::ZpgX, 2),
        6 => entry_of(Instr::Inc, AddrMode::ZpgX, 2),
        7 => entry_of(Instr::Isc, AddrMode::ZpgX, 2),
        8 => entry_of(Instr::Sed, AddrMode::Imp, 1),
        9 => entry_of(Instr::Sbc, AddrMode::AbsY, 3),
        10 => entry_of(Instr::Nop, AddrMode::Imp, 1),
        11 => entry_of(Instr::Isc, AddrMode::AbsY, 3),
        12 => entry_of(Instr::Nop, AddrMode::AbsX, 3),
        13 => entry_of(Instr::Sbc, AddrMode::AbsX, 3),
        14 => entry_of(Instr::Inc, AddrMode::AbsX, 3),
        _ => entry_of(Instr::Isc, AddrMode::AbsX, 3),
    }
}

fn entry(instr: Instr, mode: AddrMode, bytes: u8) -> (r: Opcode)
    ensures
        r == entry_of(instr, mode, bytes),
{
    Opcode { instr, mode, bytes }
}

/// Looks up an opcode byte in the decoding table.
pub fn decode(op: u8) -> (r: Opcode)
    ensures
        r == opcode_table(op),
        1 <= r.bytes <= 3,
{
    proof {
        reveal(opcode_table);
    }
    let col = op % 16;
    match op / 16 {
        0 => decode_row_0(col),
        1 => decode_row_1(col),
        2 => decode_row_2(col),
        3 => decode_row_3(col),
        4 => decode_row_4(col),
        5 => decode_row_5(col),
        6 => decode_row_6(col),
        7 => decode_row_7(col),
        8 => decode_row_8(col),
        9 => decode_row_9(col),
        10 => decode_row_a(col),
        11 => decode_row_b(col),
        12 => decode_row_c(col),
        13 => decode_row_d(col),
        14 => decode_row_e(col),
        15 => decode_row_f(col),
        _ => decode_row_f(col),
    }
}

fn decode_row_0(col: u8) -> (r: Opcode)
    requires
        col < 16,
    ensures
        r == table_row_0(col),
        1 <= r.bytes <= 3,
{
    match col {
        0 => entry(Instr::Brk, AddrMode::Imp, 2),
        1 => entry(Instr::Ora, AddrMode::IndX, 2),
        2 => entry(Instr::Jam, AddrMode::Imp, 1),
        3 => entry(Instr::Slo, AddrMode::IndX, 2),
        4 => entry(Instr::Nop, AddrMode::Zpg, 2),
        5 => entry(Instr::Ora, AddrMode::Zpg, 2),
        6 => entry(Instr::Asl, AddrMode::Zpg, 2),
        7 => entry(Instr::Slo, AddrMode::Zpg, 2),
        8 => entry(Instr::Php, AddrMode::Imp, 1),
        9 => entry(Instr::Ora, AddrMode::Imm, 2),
        10 => entry(Instr::Asl, AddrMode::Acm, 1),
        11 => entry(Instr::Anc, AddrMode::Imm, 2),
        12 => entry(Instr::Nop, AddrMode::Abs, 3),
        13 => entry(Instr::Ora, AddrMode::Abs, 3),
        14 => entry(Instr::Asl, AddrMode::Abs, 3),
        _ => entry(Instr::Slo, AddrMode::Abs, 3),
    }
}

fn decode_row_1(col: u8) -> (r: Opcode)
    requires
        col < 16,
    ensures
        r == table_row_1(col),
        1 <= r.bytes <= 3,
{
    match col {
        0 => entry(Instr::Bpl, AddrMode::Rel, 2),
        1 => entry(Instr::Ora, AddrMode::IndY, 2),
        2 => entry(Instr::Jam, AddrMode::Imp, 1),
        3 => entry(Instr::Slo, AddrMode::IndY, 2),
        4 => entry(Instr::Nop, AddrMode::ZpgX, 2),
        5 => entry(Instr::Ora, AddrMode::ZpgX, 2),
        6 => entry(Instr::Asl, AddrMode::ZpgX, 2),
        7 => entry(Instr::Slo, AddrMode::ZpgX, 2),
        8 => entry(Instr::Clc, AddrMode::Imp, 1),
        9 => entry(Instr::Ora, AddrMode::AbsY, 3),
        10 => entry(Instr::Nop, AddrMode::Imp, 1),
        11 => entry(Instr::Slo, AddrMode::AbsY, 3),
        12 => entry(Instr::Nop, AddrMode::AbsX, 3),
        13 => entry(Instr::Ora, AddrMode::AbsX, 3),
        14 => entry(Instr::Asl, AddrMode::AbsX, 3),
        _ => entry(Instr::Slo, AddrMode::AbsX, 3),
    }
}

fn decode_row_2(col: u8) -> (r: Opcode)
    requires
        col < 16,
    ensures
        r == table_row_2(col),
        1 <= r.bytes <= 3,
{
    match col {
        0 => entry(Instr::Jsr, AddrMode::Abs, 3),
        1 => entry(Instr::And, AddrMode::IndX, 2),
        2 => entry(Instr::Jam, AddrMode::Imp, 1),
        3 => entry(Instr::Rla, AddrMode::IndX, 2),
        4 => entry(Instr::Bit, AddrMode::Zpg, 2),
        5 => entry(Instr::And, AddrMode::Zpg, 2),
        6 => entry(Instr::Rol, AddrMode::Zpg, 2),
        7 => entry(Instr::Rla, AddrMode::Zpg, 2),
        8 => entry(Instr::Plp, AddrMode::Imp, 1),
        9 => entry(Instr::And, AddrMode::Imm, 2),
        10 => entry(Instr::Rol, AddrMode::Acm, 1),
        11 => entry(Instr::Anc, AddrMode::Imm, 2),
        12 => entry(Instr::Bit, AddrMode::Abs, 3),
        13 => entry(Instr::And, AddrMode::Abs, 3),
        14 => entry(Instr::Rol, AddrMode::Abs, 3),
        _ => entry(Instr::Rla, AddrMode::Abs, 3),
    }
}

fn decode_row_3(col: u8) -> (r: Opcode)
    requires
        col < 16,
    ensures
        r == table_row_3(col),
        1 <= r.bytes <= 3,
{
    match col {
        0 => entry(Instr::Bmi, AddrMode::Rel, 2),
        1 => entry(Instr::And, AddrMode::IndY, 2),
        2 => entry(Instr::Jam, AddrMode::Imp, 1),
        3 => entry(Instr::Rla, AddrMode::IndY, 2),
        4 => entry(Instr::Nop, AddrMode::ZpgX, 2),
        5 => entry(Instr::And, AddrMode::ZpgX, 2),
        6 => entry(Instr::Rol, AddrMode::ZpgX, 2),
        7 => entry(Instr::Rla, AddrMode::ZpgX, 2),
        8 => entry(Instr::Sec, AddrMode::Imp, 1),
        9 => entry(Instr::And, AddrMode::AbsY, 3),
        10 => entry(Instr::Nop, AddrMode::Imp, 1),
        11 => entry(Instr::Rla, AddrMode::AbsY, 3),
        12 => entry(Instr::Nop, AddrMode::AbsX, 3),
        13 => entry(Instr::And, AddrMode::AbsX, 3),
        14 => entry(Instr::Rol, AddrMode::AbsX, 3),
        _ => entry(Instr::Rla, AddrMode::AbsX, 3),
    }
}

fn decode_row_4(col: u8) -> (r: Opcode)
    requires
        col < 16,
    ensures
        r == table_row_4(col),
        1 <= r.bytes <= 3,
{
    match col {
        0 => entry(Instr::Rti, AddrMode::Imp, 1),
        1 => entry(Instr::Eor, AddrMode::IndX, 2),
        2 => entry(Instr::Jam, AddrMode::Imp, 1),
        3 => entry(Instr::Sre, AddrMode::IndX, 2),
        4 => entry(Instr::Nop, AddrMode::Zpg, 2),
        5 => entry(Instr::Eor, AddrMode::Zpg, 2),
        6 => entry(Instr::Lsr, AddrMode::Zpg, 2),
        7 => entry(Instr::Sre, AddrMode::Zpg, 2),
        8 => entry(Instr::Pha, AddrMode::Imp, 1),
        9 => entry(Instr::Eor, AddrMode::Imm, 2),
        10 => entry(Instr::Lsr, AddrMode::Acm, 1),
        11 => entry(Instr::Alr, AddrMode::Imm, 2),
        12 => entry(Instr::Jmp, AddrMode::Abs, 3),
        13 => entry(Instr::Eor, AddrMode::Abs, 3),
        14 => entry(Instr::Lsr, AddrMode::Abs, 3),
        _ => entry(Instr::Sre, AddrMode::Abs, 3),
    }
}

fn decode_row_5(col: u8) -> (r: Opcode)
    requires
        col < 16,
    ensures
        r == table_row_5(col),
        1 <= r.bytes <= 3,
{
    match col {
        0 => entry(Instr::Bvc, AddrMode::Rel, 2),
        1 => entry(Instr::Eor, AddrMode::IndY, 2),
        2 => entry(Instr::Jam, AddrMode::Imp, 1),
        3 => entry(Instr::Sre, AddrMode::IndY, 2),
        4 => entry(Instr::Nop, AddrMode::ZpgX, 2),
        5 => entry(Instr::Eor, AddrMode::ZpgX, 2),
        6 => entry(Instr::Lsr, AddrMode::ZpgX, 2),
        7 => entry(Instr::Sre, AddrMode::ZpgX, 2),
        8 => entry(Instr::Cli, AddrMode::Imp, 1),
        9 => entry(Instr::Eor, AddrMode::AbsY, 3),
        10 => entry(Instr::Nop, AddrMode::Imp, 1),
        11 => entry(Instr::Sre, AddrMode::AbsY, 3),
        12 => entry(Instr::Nop, AddrMode::AbsX, 3),
        13 => entry(Instr::Eor, AddrMode::AbsX, 3),
        14 => entry(Instr::Lsr, AddrMode::AbsX, 3),
        _ => entry(Instr::Sre, AddrMode::AbsX, 3),
    }
}

fn decode_row_6(col: u8) -> (r: Opcode)
    requires
        col < 16,
    ensures
        r == table_row_6(col),
        1 <= r.bytes <= 3,
{
    match col {
        0 => entry(Instr::Rts, AddrMode::Imp, 1),
        1 => entry(Instr::Adc, AddrMode::IndX, 2),
        2 => entry(Instr::Jam, AddrMode::Imp, 1),
        3 => entry(Instr::Rra, AddrMode::IndX, 2),
        4 => entry(Instr::Nop, AddrMode::Zpg, 2),
        5 => entry(Instr::Adc, AddrMode::Zpg, 2),
        6 => entry(Instr::Ror, AddrMode::Zpg, 2),
        7 => entry(Instr::Rra, AddrMode::Zpg, 2),
        8 => entry(Instr::Pla, AddrMode::Imp, 1),
        9 => entry(Instr::Adc, AddrMode::Imm, 2),
        10 => entry(Instr::Ror, AddrMode::Acm, 1),
        11 => entry(Instr::Arr, AddrMode::Imm, 2),
        12 => entry(Instr::Jmp, AddrMode::Ind, 3),
        13 => entry(Instr::Adc, AddrMode::Abs, 3),
        14 => entry(Instr::Ror, AddrMode::Abs, 3),
        _ => entry(Instr::Rra, AddrMode::Abs, 3),
    }
}

fn decode_row_7(col: u8) -> (r: Opcode)
    requires
        col < 16,
    ensures
        r == table_row_7(col),
        1 <= r.bytes <= 3,
{
    match col {
        0 => entry(Instr::Bvs, AddrMode::Rel, 2),
        1 => entry(Instr::Adc, AddrMode::IndY, 2),
        2 => entry(Instr::Jam, AddrMode::Imp, 1),
        3 => entry(Instr::Rra, AddrMode::IndY, 2),
        4 => entry(Instr::Nop, AddrMode::ZpgX, 2),
        5 => entry(Instr::Adc, AddrMode::ZpgX, 2),
        6 => entry(Instr::Ror, AddrMode::ZpgX, 2),
        7 => entry(Instr::Rra, AddrMode::ZpgX, 2),
        8 => entry(Instr::Sei, AddrMode::Imp, 1),
        9 => entry(Instr::Adc, AddrMode::AbsY, 3),
        10 => entry(Instr::Nop, AddrMode::Imp, 1),
        11 => entry(Instr::Rra, AddrMode::AbsY, 3),
        12 => entry(Instr::Nop, AddrMode::AbsX, 3),
        13 => entry(Instr::Adc, AddrMode::AbsX, 3),
        14 => entry(Instr::Ror, AddrMode::AbsX, 3),
        _ => entry(Instr::Rra, AddrMode::AbsX, 3),
    }
}

fn decode_row_8(col: u8) -> (r: Opcode)
    requires
        col < 16,
    ensures
        r == table_row_8(col),
        1 <= r.bytes <= 3,
{
    match col {
        0 => entry(Instr::Nop, AddrMode::Imm, 2),
        1 => entry(Instr::Sta, AddrMode::IndX, 2),
        2 => entry(Instr::Nop, AddrMode::Imm, 2),
        3 => entry(Instr::Sax, AddrMode::IndX, 2),
        4 => entry(Instr::Sty, AddrMode::Zpg, 2),
        5 => entry(Instr::Sta, AddrMode::Zpg, 2),
        6 => entry(Instr::Stx, AddrMode::Zpg, 2),
        7 => entry(Instr::Sax, AddrMode::Zpg, 2),
        8 => entry(Instr::Dey, AddrMode::Imp, 1),
        9 => entry(Instr::Nop, AddrMode::Imm, 2),
        10 => entry(Instr::Txa, AddrMode::Imp, 1),
        11 => entry(Instr::Ane, AddrMode::Imm, 2),
        12 => entry(Instr::Sty, AddrMode::Abs, 3),
        13 => entry(Instr::Sta, AddrMode::Abs, 3),
        14 => entry(Instr::Stx, AddrMode::Abs, 3),
        _ => entry(Instr::Sax, AddrMode::Abs, 3),
    }
}

fn decode_row_9(col: u8) -> (r: Opcode)
    requires
        col < 16,
    ensures
        r == table_row_9(col),
        1 <= r.bytes <= 3,
{
    match col {
        0 => entry(Instr::Bcc, AddrMode::Rel, 2),
        1 => entry(Instr::Sta, AddrMode::IndY, 2),
        2 => entry(Instr::Jam, AddrMode::Imp, 1),
        3 => entry(Instr::Sha, AddrMode::IndY, 2),
        4 => entry(Instr::Sty, AddrMode::ZpgX, 2),
        5 => entry(Instr::Sta, AddrMode::ZpgX, 2),
        6 => entry(Instr::Stx, AddrMode::ZpgY, 2),
        7 => entry(Instr::Sax, AddrMode::ZpgY, 2),
        8 => entry(Instr::Tya, AddrMode::Imp, 1),
        9 => entry(Instr::Sta, AddrMode::AbsY, 3),
        10 => entry(Instr::Txs, AddrMode::Imp, 1),
        11 => entry(Instr::Tas, AddrMode::AbsY, 3),
        12 => entry(Instr::Shy, AddrMode::AbsX, 3),
        13 => entry(Instr::Sta, AddrMode::AbsX, 3),
        14 => entry(Instr::Shx, AddrMode::AbsY, 3),
        _ => entry(Instr::Sha, AddrMode::AbsY, 3),
    }
}

fn decode_row_a(col: u8) -> (r: Opcode)
    requires
        col < 16,
    ensures
        r == table_row_a(col),
        1 <= r.bytes <= 3,
{
    match col {
        0 => entry(Instr::Ldy, AddrMode::Imm, 2),
        1 => entry(Instr::Lda, AddrMode::IndX, 2),
        2 => entry(Instr::Ldx, AddrMode::Imm, 2),
        3 => entry(Instr::Lax, AddrMode::IndX, 2),
        4 => entry(Instr::Ldy, AddrMode::Zpg, 2),
        5 => entry(Instr::Lda, AddrMode::Zpg, 2),
        6 => entry(Instr::Ldx, AddrMode::Zpg, 2),
        7 => entry(Instr::Lax, AddrMode::Zpg, 2),
        8 => entry(Instr::Tay, AddrMode::Imp, 1),
        9 => entry(Instr::Lda, AddrMode::Imm, 2),
        10 => entry(Instr::Tax, AddrMode::Imp, 1),
        11 => entry(Instr::Lxa, AddrMode::Imm, 2),
        12 => entry(Instr::Ldy, AddrMode::Abs, 3),
        13 => entry(Instr::Lda, AddrMode::Abs, 3),
        14 => entry(Instr::Ldx, AddrMode::Abs, 3),
        _ => entry(Instr::Lax, AddrMode::Abs, 3),
    }
}

fn decode_row_b(col: u8) -> (r: Opcode)
    requires
        col < 16,
    ensures
        r == table_row_b(col),
        1 <= r.bytes <= 3,
{
    match col {
        0 => entry(Instr::Bcs, AddrMode::Rel, 2),
        1 => entry(Instr::Lda, AddrMode::IndY, 2),
        2 => entry(Instr::Jam, AddrMode::Imp, 1),
        3 => entry(Instr::Lax, AddrMode::IndY, 2),
        4 => entry(Instr::Ldy, AddrMode::ZpgX, 2),
        5 => entry(Instr::Lda, AddrMode::ZpgX, 2),
        6 => entry(Instr::Ldx, AddrMode::ZpgY, 2),
        7 => entry(Instr::Lax, AddrMode::ZpgY, 2),
        8 => entry(Instr::Clv, AddrMode::Imp, 1),
        9 => entry(Instr::Lda, AddrMode::AbsY, 3),
        10 => entry(Instr::Tsx, AddrMode::Imp, 1),
        11 => entry(Instr::Las, AddrMode::AbsY, 3),
        12 => entry(Instr::Ldy, AddrMode::AbsX, 3),
        13 => entry(Instr::Lda, AddrMode::AbsX, 3),
        14 => entry(Instr::Ldx, AddrMode::AbsY, 3),
        _ => entry(Instr::Lax, AddrMode::AbsY, 3),
    }
}

fn decode_row_c(col: u8) -> (r: Opcode)
    requires
        col < 16,
    ensures
        r == table_row_c(col),
        1 <= r.bytes <= 3,
{
    match col {
        0 => entry(Instr::Cpy, AddrMode::Imm, 2),
        1 => entry(Instr::Cmp, AddrMode::IndX, 2),
        2 => entry(Instr::Nop, AddrMode::Imm, 2),
        3 => entry(Instr::Dcp, AddrMode::IndX, 2),
        4 => entry(Instr::Cpy, AddrMode::Zpg, 2),
        5 => entry(Instr::Cmp, AddrMode::Zpg, 2),
        6 => entry(Instr::Dec, AddrMode::Zpg, 2),
        7 => entry(Instr::Dcp, AddrMode::Zpg, 2),
        8 => entry(Instr::Iny, AddrMode::Imp, 1),
        9 => entry(Instr::Cmp, AddrMode::Imm, 2),
        10 => entry(Instr::Dex, AddrMode::Imp, 1),
        11 => entry(Instr::Sbx, AddrMode::Imm, 2),
        12 => entry(Instr::Cpy, AddrMode::Abs, 3),
        13 => entry(Instr::Cmp, AddrMode::Abs, 3),
        14 => entry(Instr::Dec, AddrMode::Abs, 3),
        _ => entry(Instr::Dcp, AddrMode::Abs, 3),
    }
}

fn decode_row_d(col: u8) -> (r: Opcode)
    requires
        col < 16,
    ensures
        r == table_row_d(col),
        1 <= r.bytes <= 3,
{
    match col {
        0 => entry(Instr::Bne, AddrMode::Rel, 2),
        1 => entry(Instr::Cmp, AddrMode::IndY, 2),
        2 => entry(Instr::Jam, AddrMode::Imp, 1),
        3 => entry(Instr::Dcp, AddrMode::IndY, 2),
        4 => entry(Instr::Nop, AddrMode::ZpgX, 2),
        5 => entry(Instr::Cmp, AddrMode::ZpgX, 2),
        6 => entry(Instr::Dec, AddrMode::ZpgX, 2),
        7 => entry(Instr::Dcp, AddrMode::ZpgX, 2),
        8 => entry(Instr::Cld, AddrMode::Imp, 1),
        9 => entry(Instr::Cmp, AddrMode::AbsY, 3),
        10 => entry(Instr::Nop, AddrMode::Imp, 1),
        11 => entry(Instr::Dcp, AddrMode::AbsY, 3),
        12 => entry(Instr::Nop, AddrMode::AbsX, 3),
        13 => entry(Instr::Cmp, AddrMode::AbsX, 3),
        14 => entry(Instr::Dec, AddrMode::AbsX, 3),
        _ => entry(Instr::Dcp, AddrMode::AbsX, 3),
    }
}

fn decode_row_e(col: u8) -> (r: Opcode)
    requires
        col < 16,
    ensures
        r == table_row_e(col),
        1 <= r.bytes <= 3,
{
    match col {
        0 => entry(Instr::Cpx, AddrMode::Imm, 2),
        1 => entry(Instr::Sbc, AddrMode::IndX, 2),
        2 => entry(Instr::Nop, AddrMode::Imm, 2),
        3 => entry(Instr::Isc, AddrMode::IndX, 2),
        4 => entry(Instr::Cpx, AddrMode::Zpg, 2),
        5 => entry(Instr::Sbc, AddrMode::Zpg, 2),
        6 => entry(Instr::Inc, AddrMode::Zpg, 2),
        7 => entry(Instr::Isc, AddrMode::Zpg, 2),
        8 => entry(Instr::Inx, AddrMode::Imp, 1),
        9 => entry(Instr::Sbc, AddrMode::Imm, 2),
        10 => entry(Instr::Nop, AddrMode::Imp, 1),
        11 => entry(Instr::Usb, AddrMode::Imm, 2),
        12 => entry(Instr::Cpx, AddrMode::Abs, 3),
        13 => entry(Instr::Sbc, AddrMode::Abs, 3),
        14 => entry(Instr::Inc, AddrMode::Abs, 3),
        _ => entry(Instr::Isc, AddrMode::Abs, 3),
    }
}

fn decode_row_f(col: u8) -> (r: Opcode)
    requires
        col < 16,
    ensures
        r == table_row_f(col),
        1 <= r.bytes <= 3,
{
    match col {
        0 => entry(Instr::Beq, AddrMode::Rel, 2),
        1 => entry(Instr::Sbc, AddrMode::IndY, 2),
        2 => entry(Instr::Jam, AddrMode::Imp, 1),
        3 => entry(Instr::Isc, AddrMode::IndY, 2),
        4 => entry(Instr::Nop, AddrMode::ZpgX, 2),
        5 => entry(Instr::Sbc, AddrMode::ZpgX, 2),
        6 => entry(Instr::Inc, AddrMode::ZpgX, 2),
        7 => entry(Instr::Isc, AddrMode::ZpgX, 2),
        8 => entry(Instr::Sed, AddrMode::Imp, 1),
        9 => entry(Instr::Sbc, AddrMode::AbsY, 3),
        10 => entry(Instr::Nop, AddrMode::Imp, 1),
        11 => entry(Instr::Isc, AddrMode::AbsY, 3),
        12 => entry(Instr::Nop, AddrMode::AbsX, 3),
        13 => entry(Instr::Sbc, AddrMode::AbsX, 3),
        14 => entry(Instr::Inc, AddrMode::AbsX, 3),
        _ => entry(Instr::Isc, AddrMode::AbsX, 3),
    }
}

} // verus!
