//! The mathematical model of one step: registers, memory as a map, and the
//! ordered bus cycles that each addressing mode and instruction issue.
use vstd::prelude::*;
use crate::alu::{ShiftKind, adc, arr, bit, cmp, pulled_status, sbc, shift};
use crate::bus::{BusCycle, CycleKind};
use crate::opcodes::{AddrMode, Instr, Opcode, opcode_table};
use crate::registers::{
    FLAG_B, FLAG_C, FLAG_D, FLAG_E, FLAG_I, FLAG_N, FLAG_V, FLAG_Z, Registers, add16, add8, flag,
    high_byte, low_byte, with_flag, with_zn, word,
};

verus! {

/// Where the hardware stack's page starts.
pub const STACK_BASE: u16 = 0x0100;
/// Where the reset vector is read from.
pub const RESET_VECTOR: u16 = 0xFFFC;
/// Where the `BRK` vector is read from.
pub const IRQ_VECTOR: u16 = 0xFFFE;
/// The constant that `ANE` and `LXA` merge into the accumulator.
pub const UNSTABLE_MAGIC: u8 = 0xEE;

/// One of the three index or data registers.
#[derive(Clone, Copy, Debug, PartialEq, Eq, Structural)]
pub enum Reg {
    A,
    X,
    Y,
}

/// The read-modify-write operations.
#[derive(Clone, Copy, Debug, PartialEq, Eq, Structural)]
pub enum RmwKind {
    Shift(ShiftKind),
    Inc,
    Dec,
}

/// The accumulator's logic operations.
#[derive(Clone, Copy, Debug, PartialEq, Eq, Structural)]
pub enum LogicKind {
    And,
    Eor,
    Ora,
}

/// What an addressing mode yields: the effective address, the value fetched
/// (or the fallback when none was), and whether indexing crossed a page.
#[derive(Clone, Copy, Debug, PartialEq, Eq, Structural)]
pub struct Operand {
    pub addr: u16,
    pub value: u8,
    pub crossed: bool,
}

/// The processor and its memory as the contracts see them. `cycles` is the
/// bus activity of the current step, in order.
pub struct Machine {
    pub regs: Registers,
    pub mem: Map<u16, u8>,
    pub cycles: Seq<BusCycle>,
    pub halted: bool,
}

impl Machine {
    /// A read cycle: the byte at `a` is logged, nothing changes.
    pub open spec fn read(self, a: u16) -> Machine {
        Machine {
            cycles: self.cycles.push(BusCycle { address: a, value: self.mem[a], kind: CycleKind::Read }),
            ..self
        }
    }

    /// A write cycle: `v` is stored at `a` and logged.
    pub open spec fn write(self, a: u16, v: u8) -> Machine {
        Machine {
            mem: self.mem.insert(a, v),
            cycles: self.cycles.push(BusCycle { address: a, value: v, kind: CycleKind::Write }),
            ..self
        }
    }

    pub open spec fn with_regs(self, regs: Registers) -> Machine {
        Machine { regs, ..self }
    }

    pub open spec fn with_p(self, p: u8) -> Machine {
        Machine { regs: Registers { p, ..self.regs }, ..self }
    }

    pub open spec fn with_pc(self, pc: u16) -> Machine {
        Machine { regs: Registers { pc, ..self.regs }, ..self }
    }

    pub open spec fn with_s(self, s: u8) -> Machine {
        Machine { regs: Registers { s, ..self.regs }, ..self }
    }

    /// The accumulator set to `v`, with Z and N describing it.
    pub open spec fn with_a_zn(self, v: u8) -> Machine {
        Machine { regs: Registers { a: v, p: with_zn(self.regs.p, v), ..self.regs }, ..self }
    }
}

pub open spec fn reg_of(r: Registers, which: Reg) -> u8 {
    match which {
        Reg::A => r.a,
        Reg::X => r.x,
        Reg::Y => r.y,
    }
}

pub open spec fn with_reg(r: Registers, which: Reg, v: u8) -> Registers {
    match which {
        Reg::A => Registers { a: v, ..r },
        Reg::X => Registers { x: v, ..r },
        Reg::Y => Registers { y: v, ..r },
    }
}

/// The address of stack slot `s`.
pub open spec fn stack_addr(s: u8) -> u16 {
    (STACK_BASE + s) as u16
}

/// Where a branch at `pc` (already past its operand) with offset byte `off` goes.
pub open spec fn branch_target(pc: u16, off: u8) -> u16 {
    if off < 0x80 {
        add16(pc, off as int)
    } else {
        add16(pc, off as int - 0x100)
    }
}

/// Writes `v` at the stack slot, then moves the stack pointer down.
pub open spec fn push(m: Machine, v: u8) -> Machine {
    m.write(stack_addr(m.regs.s), v).with_s(add8(m.regs.s, -1))
}

/// Moves the stack pointer up, then reads the slot: the machine and the byte.
pub open spec fn pop(m: Machine) -> (Machine, u8) {
    let s = add8(m.regs.s, 1);
    let m1 = m.with_s(s);
    (m1.read(stack_addr(s)), m1.mem[stack_addr(s)])
}

/// Pushes the high byte, then the low byte.
pub open spec fn push16(m: Machine, w: u16) -> Machine {
    push(push(m, high_byte(w)), low_byte(w))
}

/// Pops the low byte, then the high byte.
pub open spec fn pop16(m: Machine) -> (Machine, u16) {
    let (m1, lo) = pop(m);
    let (m2, hi) = pop(m1);
    (m2, word(lo, hi))
}

/// The last read of an addressing mode: made when a value is wanted, and,
/// for a conditional read, only when indexing crossed a page. Otherwise the
/// fallback stands for the value.
pub open spec fn fetch_if(m: Machine, addr: u16, fallback: u8, crossed: bool, read: bool, cond: bool) -> (Machine, u8) {
    if read && (!cond || crossed) {
        (m.read(addr), m.mem[addr])
    } else {
        (m, fallback)
    }
}

/// Absolute indexed: a read at the address before the page fix, then the
/// optional read at the effective address.
pub open spec fn resolve_abs_indexed(m: Machine, lo: u8, hi: u8, index: u8, read: bool, cond: bool) -> (Machine, Operand) {
    let unfixed = word(add8(lo, index as int), hi);
    let m1 = m.read(unfixed);
    let base = word(lo, hi);
    let eff = add16(base, index as int);
    let crossed = high_byte(eff) != high_byte(base);
    let (m2, v) = fetch_if(m1, eff, m.mem[unfixed], crossed, read, cond);
    (m2, Operand { addr: eff, value: v, crossed })
}

/// Zero page indexed: a read of the operand's own slot, then the optional
/// read at the indexed slot, which wraps in page zero.
pub open spec fn resolve_zpg_indexed(m: Machine, lo: u8, index: u8, read: bool, cond: bool) -> (Machine, Operand) {
    let m1 = m.read(lo as u16);
    let eff = add8(lo, index as int) as u16;
    let (m2, v) = fetch_if(m1, eff, 0, true, read, cond);
    (m2, Operand { addr: eff, value: v, crossed: false })
}

/// The bus cycles of an addressing mode and what it yields. `read` asks
/// for the value at the effective address; `cond` makes that read depend on
/// a page cross where the mode has one.
pub open spec fn resolve(m: Machine, mode: AddrMode, lo: u8, hi: u8, read: bool, cond: bool) -> (Machine, Operand) {
    match mode {
        AddrMode::Abs => {
            let addr = word(lo, hi);
            let (m1, v) = fetch_if(m, addr, 0, true, read, cond);
            (m1, Operand { addr, value: v, crossed: false })
        },
        AddrMode::AbsX => resolve_abs_indexed(m, lo, hi, m.regs.x, read, cond),
        AddrMode::AbsY => resolve_abs_indexed(m, lo, hi, m.regs.y, read, cond),
        AddrMode::Ind => {
            let lsb_addr = word(lo, hi);
            let msb_addr = word(add8(lo, 1), hi);
            let m1 = m.read(lsb_addr).read(msb_addr);
            let eff = word(m.mem[lsb_addr], m.mem[msb_addr]);
            let (m2, v) = fetch_if(m1, eff, 0, true, read, cond);
            (m2, Operand { addr: eff, value: v, crossed: false })
        },
        AddrMode::IndX => {
            let zp = add8(lo, m.regs.x as int);
            let ptr_hi = add8(zp, 1);
            let m1 = m.read(lo as u16).read(zp as u16).read(ptr_hi as u16);
            let eff = word(m.mem[zp as u16], m.mem[ptr_hi as u16]);
            let (m2, v) = fetch_if(m1, eff, 0, true, read, cond);
            (m2, Operand { addr: eff, value: v, crossed: false })
        },
        AddrMode::IndY => {
            let ptr_hi = add8(lo, 1);
            let lsb = m.mem[lo as u16];
            let msb = m.mem[ptr_hi as u16];
            let base = word(lsb, msb);
            let unfixed = word(add8(lsb, m.regs.y as int), msb);
            let m1 = m.read(lo as u16).read(ptr_hi as u16).read(unfixed);
            let eff = add16(base, m.regs.y as int);
            let crossed = high_byte(eff) != high_byte(base);
            let (m2, v) = fetch_if(m1, eff, m.mem[unfixed], crossed, read, cond);
            (m2, Operand { addr: eff, value: v, crossed })
        },
        AddrMode::Rel => {
            let eff = branch_target(m.regs.pc, lo);
            let crossed = high_byte(eff) != high_byte(m.regs.pc);
            let (m1, v) = fetch_if(m, eff, 0, crossed, read, cond);
            (m1, Operand { addr: eff, value: v, crossed })
        },
        AddrMode::Zpg => {
            let (m1, v) = fetch_if(m, lo as u16, 0, true, read, cond);
            (m1, Operand { addr: lo as u16, value: v, crossed: false })
        },
        AddrMode::ZpgX => resolve_zpg_indexed(m, lo, m.regs.x, read, cond),
        AddrMode::ZpgY => resolve_zpg_indexed(m, lo, m.regs.y, read, cond),
        AddrMode::Acm => (m, Operand { addr: 0, value: m.regs.a, crossed: false }),
        AddrMode::Imm => (m, Operand { addr: 0, value: lo, crossed: false }),
        AddrMode::Imp => (m, Operand { addr: 0, value: 0, crossed: false }),
    }
}

/// The new value and status of a read-modify-write operation.
pub open spec fn modify(kind: RmwKind, v: u8, p: u8) -> (u8, u8) {
    match kind {
        RmwKind::Shift(k) => shift(k, v, p),
        RmwKind::Inc => (add8(v, 1), with_zn(p, add8(v, 1))),
        RmwKind::Dec => (add8(v, -1), with_zn(p, add8(v, -1))),
    }
}

/// Read-modify-write: the operand is read, written back unchanged, then
/// written modified. On the accumulator there are no bus cycles. Also gives
/// the new value.
pub open spec fn rmw(m: Machine, op: Opcode, lo: u8, hi: u8, kind: RmwKind) -> (Machine, u8) {
    let (m1, o) = resolve(m, op.mode, lo, hi, true, false);
    let (v, p) = modify(kind, o.value, m1.regs.p);
    if op.mode == AddrMode::Acm {
        (m1.with_regs(Registers { a: v, p, ..m1.regs }), v)
    } else {
        (m1.write(o.addr, o.value).with_p(p).write(o.addr, v), v)
    }
}

pub open spec fn logic_value(kind: LogicKind, a: u8, v: u8) -> u8 {
    match kind {
        LogicKind::And => a & v,
        LogicKind::Eor => a ^ v,
        LogicKind::Ora => a | v,
    }
}

/// `LDA`, `LDX`, `LDY`.
pub open spec fn load(m: Machine, op: Opcode, lo: u8, hi: u8, which: Reg) -> Machine {
    let (m1, o) = resolve(m, op.mode, lo, hi, true, true);
    m1.with_regs(with_reg(m1.regs, which, o.value)).with_p(with_zn(m1.regs.p, o.value))
}

/// `STA`, `STX`, `STY`.
pub open spec fn store(m: Machine, op: Opcode, lo: u8, hi: u8, which: Reg) -> Machine {
    let (m1, o) = resolve(m, op.mode, lo, hi, false, false);
    m1.write(o.addr, reg_of(m1.regs, which))
}

/// `AND`, `EOR`, `ORA`.
pub open spec fn logic(m: Machine, op: Opcode, lo: u8, hi: u8, kind: LogicKind) -> Machine {
    let (m1, o) = resolve(m, op.mode, lo, hi, true, true);
    m1.with_a_zn(logic_value(kind, m1.regs.a, o.value))
}

/// `CMP`, `CPX`, `CPY`.
pub open spec fn compare(m: Machine, op: Opcode, lo: u8, hi: u8, which: Reg) -> Machine {
    let (m1, o) = resolve(m, op.mode, lo, hi, true, true);
    m1.with_p(cmp(reg_of(m1.regs, which), o.value, m1.regs.p))
}

/// `ADC` (`add`) or `SBC`.
pub open spec fn arith(m: Machine, op: Opcode, lo: u8, hi: u8, add: bool) -> Machine {
    let (m1, o) = resolve(m, op.mode, lo, hi, true, true);
    let (a, p) = if add { adc(m1.regs.a, o.value, m1.regs.p) } else { sbc(m1.regs.a, o.value, m1.regs.p) };
    m1.with_regs(Registers { a, p, ..m1.regs })
}

/// Taken when the flag of `mask` equals `set`: a read at the next
/// instruction, one more at the unfixed target on a page cross, then the jump.
pub open spec fn branch(m: Machine, op: Opcode, lo: u8, hi: u8, mask: u8, set: bool) -> Machine {
    let (m1, o) = resolve(m, op.mode, lo, hi, false, false);
    if flag(m1.regs.p, mask) == set {
        let pc = m1.regs.pc;
        let m2 = m1.read(pc);
        let m3 = if o.crossed { m2.read(word(add8(low_byte(pc), lo as int), high_byte(pc))) } else { m2 };
        m3.with_pc(o.addr)
    } else {
        m1
    }
}

/// `PLP`, and the first half of `RTI`.
pub open spec fn pull_status(m: Machine) -> Machine {
    let m1 = m.read(stack_addr(m.regs.s));
    let (m2, v) = pop(m1);
    m2.with_p(pulled_status(m2.regs.p, v))
}

/// `PHP` and `BRK` push the status with B and the extension bit set.
pub open spec fn pushed_status(p: u8) -> u8 {
    p | FLAG_B | FLAG_E
}

/// `JSR`: the low operand byte, a read of the stack slot, the return
/// address pushed, then the high operand byte, read after the pushes.
pub open spec fn jsr(m: Machine, op: Opcode) -> Machine {
    let pc1 = add16(m.regs.pc, 1 - op.bytes as int);
    let m1 = m.read(pc1);
    let adl = m.mem[pc1];
    let pc2 = add16(pc1, 1);
    let m2 = push16(m1.read(stack_addr(m1.regs.s)), pc2);
    let adh = m2.mem[pc2];
    m2.read(pc2).with_pc(word(adl, adh))
}

/// `RTS`: a read of the stack slot, the return address popped, one more read.
pub open spec fn rts(m: Machine) -> Machine {
    let m1 = m.read(stack_addr(m.regs.s));
    let (m2, w) = pop16(m1);
    let pc = add16(w, 1);
    m2.with_pc(pc).read(add16(pc, -1))
}

/// `BRK`: pushes the return address and status, jumps through the vector,
/// sets I.
pub open spec fn brk(m: Machine) -> Machine {
    let m1 = push(push16(m, m.regs.pc), pushed_status(m.regs.p));
    let lsb = m1.mem[IRQ_VECTOR];
    let msb = m1.mem[add16(IRQ_VECTOR, 1)];
    let m2 = m1.read(IRQ_VECTOR).read(add16(IRQ_VECTOR, 1));
    m2.with_pc(word(lsb, msb)).with_p(with_flag(m2.regs.p, FLAG_I, true))
}

/// `SHA`, `SHX`, `SHY`, `TAS`: stores `v` masked with the high byte of the
/// address plus one; on a page cross the masked value replaces the high byte
/// of the address instead.
pub open spec fn store_high(m: Machine, op: Opcode, lo: u8, hi: u8, v: u8) -> Machine {
    let (m1, o) = resolve(m, op.mode, lo, hi, false, false);
    if o.crossed {
        let r = v & high_byte(o.addr);
        m1.write(word(low_byte(o.addr), r), r)
    } else {
        m1.write(o.addr, v & add8(high_byte(o.addr), 1))
    }
}

/// The effect of one decoded instruction, once its operands are fetched and
/// the program counter has moved past it.
#[verifier::opaque]
pub open spec fn execute(m: Machine, op: Opcode, lo: u8, hi: u8) -> Machine {
    let r = m.regs;
    match op.instr {
        Instr::Lda => load(m, op, lo, hi, Reg::A),
        Instr::Ldx => load(m, op, lo, hi, Reg::X),
        Instr::Ldy => load(m, op, lo, hi, Reg::Y),
        Instr::Sta => store(m, op, lo, hi, Reg::A),
        Instr::Stx => store(m, op, lo, hi, Reg::X),
        Instr::Sty => store(m, op, lo, hi, Reg::Y),
        Instr::Tax => m.with_regs(Registers { x: r.a, p: with_zn(r.p, r.a), ..r }),
        Instr::Tay => m.with_regs(Registers { y: r.a, p: with_zn(r.p, r.a), ..r }),
        Instr::Txa => m.with_a_zn(r.x),
        Instr::Tya => m.with_a_zn(r.y),
        Instr::Tsx => m.with_regs(Registers { x: r.s, p: with_zn(r.p, r.s), ..r }),
        Instr::Txs => m.with_s(r.x),
        Instr::Pha => push(m, r.a),
        Instr::Php => push(m, pushed_status(r.p)),
        Instr::Pla => {
            let (m1, v) = pop(m.read(stack_addr(r.s)));
            m1.with_a_zn(v)
        },
        Instr::Plp => pull_status(m),
        Instr::And => logic(m, op, lo, hi, LogicKind::And),
        Instr::Eor => logic(m, op, lo, hi, LogicKind::Eor),
        Instr::Ora => logic(m, op, lo, hi, LogicKind::Ora),
        Instr::Bit => {
            let (m1, o) = resolve(m, op.mode, lo, hi, true, false);
            m1.with_p(bit(r.a, o.value, r.p))
        },
        Instr::Adc => arith(m, op, lo, hi, true),
        Instr::Sbc | Instr::Usb => arith(m, op, lo, hi, false),
        Instr::Cmp => compare(m, op, lo, hi, Reg::A),
        Instr::Cpx => compare(m, op, lo, hi, Reg::X),
        Instr::Cpy => compare(m, op, lo, hi, Reg::Y),
        Instr::Inc => rmw(m, op, lo, hi, RmwKind::Inc).0,
        Instr::Dec => rmw(m, op, lo, hi, RmwKind::Dec).0,
        Instr::Inx => m.with_regs(Registers { x: add8(r.x, 1), p: with_zn(r.p, add8(r.x, 1)), ..r }),
        Instr::Iny => m.with_regs(Registers { y: add8(r.y, 1), p: with_zn(r.p, add8(r.y, 1)), ..r }),
        Instr::Dex => m.with_regs(Registers { x: add8(r.x, -1), p: with_zn(r.p, add8(r.x, -1)), ..r }),
        Instr::Dey => m.with_regs(Registers { y: add8(r.y, -1), p: with_zn(r.p, add8(r.y, -1)), ..r }),
        Instr::Asl => rmw(m, op, lo, hi, RmwKind::Shift(ShiftKind::Asl)).0,
        Instr::Lsr => rmw(m, op, lo, hi, RmwKind::Shift(ShiftKind::Lsr)).0,
        Instr::Rol => rmw(m, op, lo, hi, RmwKind::Shift(ShiftKind::Rol)).0,
        Instr::Ror => rmw(m, op, lo, hi, RmwKind::Shift(ShiftKind::Ror)).0,
        Instr::Jmp => {
            let (m1, o) = resolve(m, op.mode, lo, hi, false, false);
            m1.with_pc(o.addr)
        },
        Instr::Jsr => jsr(m, op),
        Instr::Rts => rts(m),
        Instr::Bmi => branch(m, op, lo, hi, FLAG_N, true),
        Instr::Bpl => branch(m, op, lo, hi, FLAG_N, false),
        Instr::Bvs => branch(m, op, lo, hi, FLAG_V, true),
        Instr::Bvc => branch(m, op, lo, hi, FLAG_V, false),
        Instr::Beq => branch(m, op, lo, hi, FLAG_Z, true),
        Instr::Bne => branch(m, op, lo, hi, FLAG_Z, false),
        Instr::Bcs => branch(m, op, lo, hi, FLAG_C, true),
        Instr::Bcc => branch(m, op, lo, hi, FLAG_C, false),
        Instr::Clc => m.with_p(with_flag(r.p, FLAG_C, false)),
        Instr::Cld => m.with_p(with_flag(r.p, FLAG_D, false)),
        Instr::Cli => m.with_p(with_flag(r.p, FLAG_I, false)),
        Instr::Clv => m.with_p(with_flag(r.p, FLAG_V, false)),
        Instr::Sec => m.with_p(with_flag(r.p, FLAG_C, true)),
        Instr::Sed => m.with_p(with_flag(r.p, FLAG_D, true)),
        Instr::Sei => m.with_p(with_flag(r.p, FLAG_I, true)),
        Instr::Brk => brk(m),
        Instr::Nop => resolve(m, op.mode, lo, hi, true, true).0,
        Instr::Rti => {
            let (m1, w) = pop16(pull_status(m));
            m1.with_pc(w)
        },
        Instr::Jam => Machine { regs: Registers { pc: add16(r.pc, -(op.bytes as int)), ..r }, halted: true, ..m },
        Instr::Slo => {
            let (m1, v) = rmw(m, op, lo, hi, RmwKind::Shift(ShiftKind::Asl));
            m1.with_a_zn(m1.regs.a | v)
        },
        Instr::Rla => {
            let (m1, v) = rmw(m, op, lo, hi, RmwKind::Shift(ShiftKind::Rol));
            m1.with_a_zn(m1.regs.a & v)
        },
        Instr::Sre => {
            let (m1, v) = rmw(m, op, lo, hi, RmwKind::Shift(ShiftKind::Lsr));
            m1.with_a_zn(m1.regs.a ^ v)
        },
        Instr::Rra => {
            let (m1, v) = rmw(m, op, lo, hi, RmwKind::Shift(ShiftKind::Ror));
            let (a, p) = adc(m1.regs.a, v, m1.regs.p);
            m1.with_regs(Registers { a, p, ..m1.regs })
        },
        Instr::Dcp => {
            let (m1, v) = rmw(m, op, lo, hi, RmwKind::Dec);
            m1.with_p(cmp(m1.regs.a, v, m1.regs.p))
        },
        Instr::Isc => {
            let (m1, v) = rmw(m, op, lo, hi, RmwKind::Inc);
            let (a, p) = sbc(m1.regs.a, v, m1.regs.p);
            m1.with_regs(Registers { a, p, ..m1.regs })
        },
        Instr::Anc => {
            let m1 = logic(m, op, lo, hi, LogicKind::And);
            m1.with_p(with_flag(m1.regs.p, FLAG_C, m1.regs.a & 0x80 != 0))
        },
        Instr::Alr => {
            let m1 = logic(m, op, lo, hi, LogicKind::And);
            let (a, p) = shift(ShiftKind::Lsr, m1.regs.a, m1.regs.p);
            m1.with_regs(Registers { a, p, ..m1.regs })
        },
        Instr::Arr => {
            let m1 = logic(m, op, lo, hi, LogicKind::And);
            let (a, p) = arr(m1.regs.a, m1.regs.p);
            m1.with_regs(Registers { a, p, ..m1.regs })
        },
        Instr::Sax => store_and(m, op, lo, hi),
        Instr::Ane => {
            let (m1, o) = resolve(m, op.mode, lo, hi, true, true);
            m1.with_a_zn((r.a | UNSTABLE_MAGIC) & r.x & o.value)
        },
        Instr::Lxa => {
            let (m1, o) = resolve(m, op.mode, lo, hi, true, true);
            let v = (r.a | UNSTABLE_MAGIC) & o.value;
            m1.with_regs(Registers { a: v, x: v, p: with_zn(r.p, v), ..r })
        },
        Instr::Sha => store_high(m, op, lo, hi, r.a & r.x),
        Instr::Shx => store_high(m, op, lo, hi, r.x),
        Instr::Shy => store_high(m, op, lo, hi, r.y),
        Instr::Tas => store_high(m.with_s(r.a & r.x), op, lo, hi, r.a & r.x),
        Instr::Lax => {
            let (m1, o) = resolve(m, op.mode, lo, hi, true, true);
            m1.with_regs(Registers { a: o.value, x: o.value, p: with_zn(r.p, o.value), ..r })
        },
        Instr::Las => {
            let (m1, o) = resolve(m, op.mode, lo, hi, true, false);
            let v = o.value & r.s;
            m1.with_regs(Registers { a: v, x: v, s: v, p: with_zn(r.p, v), ..r })
        },
        Instr::Sbx => {
            let v = r.a & r.x;
            let x = add8(v, -(lo as int));
            m.with_regs(Registers { x, p: with_flag(with_zn(r.p, x), FLAG_C, v >= lo), ..r })
        },
    }
}

/// `SAX`: stores `A & X`.
pub open spec fn store_and(m: Machine, op: Opcode, lo: u8, hi: u8) -> Machine {
    let (m1, o) = resolve(m, op.mode, lo, hi, false, false);
    m1.write(o.addr, m.regs.a & m.regs.x)
}

/// The operand bytes that dispatch fetches after the opcode: two for a
/// three-byte instruction, otherwise one (read and possibly ignored), and
/// none for `JSR`, which fetches its own.
pub open spec fn fetch_operands(m: Machine, opcode: u8, bytes: u8) -> (Machine, u8, u8) {
    let pc = m.regs.pc;
    if opcode == 0x20 {
        (m, 0, 0)
    } else if bytes > 2 {
        (m.read(add16(pc, 1)).read(add16(pc, 2)), m.mem[add16(pc, 1)], m.mem[add16(pc, 2)])
    } else {
        (m.read(add16(pc, 1)), m.mem[add16(pc, 1)], 0)
    }
}

/// At most `n` bus cycles were added between `before` and `after`.
pub open spec fn added_at_most(before: Machine, after: Machine, n: nat) -> bool {
    after.cycles.len() <= before.cycles.len() + n
}

/// One call of `tick`: nothing when halted; otherwise the opcode fetch, the
/// operand fetches, the program counter moved past the instruction, and the
/// instruction's own effect. The log holds this step's cycles only.
pub open spec fn step(m: Machine) -> Machine {
    let m0 = Machine { cycles: Seq::empty(), ..m };
    if m.halted {
        m0
    } else {
        let pc = m.regs.pc;
        let opcode = m.mem[pc];
        let op = opcode_table(opcode);
        let (m1, lo, hi) = fetch_operands(m0.read(pc), opcode, op.bytes);
        execute(m1.with_pc(add16(pc, op.bytes as int)), op, lo, hi)
    }
}

/// `reset`: the program counter loaded from the reset vector, the status set
/// to E and I, the halt latch cleared.
pub open spec fn reset(m: Machine) -> Machine {
    let m1 = Machine { cycles: Seq::empty(), ..m }.read(RESET_VECTOR).read(add16(RESET_VECTOR, 1));
    let pc = word(m.mem[RESET_VECTOR], m.mem[add16(RESET_VECTOR, 1)]);
    Machine { regs: Registers { pc, p: FLAG_E | FLAG_I, ..m.regs }, halted: false, ..m1 }
}

} // verus!
