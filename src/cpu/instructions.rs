//! Addressing modes and instruction handlers, each proved to do what the
//! model says.
use vstd::prelude::*;
use crate::alu::{
    ShiftKind, add_with_carry, arr_value, compare_flags, merge_pulled_status, shift_value,
    subtract_with_borrow, test_bits,
};
use crate::bus::Bus;
use crate::cpu::Cpu6502;
use crate::model;
use crate::model::{IRQ_VECTOR, LogicKind, Operand, Reg, RmwKind, STACK_BASE, UNSTABLE_MAGIC};
use crate::opcodes::{AddrMode, Instr, Opcode};
use crate::registers::{
    FLAG_B, FLAG_C, FLAG_D, FLAG_E, FLAG_I, FLAG_N, FLAG_V, FLAG_Z, hi_byte, lo_byte, make_word,
    set_flag, set_zn, test_flag, wrap_add16, wrap_add8, wrap_sub16, wrap_sub8,
};

verus! {

/// The last read of an addressing mode, when one is due; otherwise the
/// value that stands for it.
fn check_read<B: Bus>(cpu: &mut Cpu6502<B>, addr: u16, no_read_val: u8, pgx: bool, to_read: bool, cond_read: bool) -> (r: u8)
    ensures
        (final(cpu).machine(), r) == model::fetch_if(old(cpu).machine(), addr, no_read_val, pgx, to_read, cond_read),
        model::added_at_most(old(cpu).machine(), final(cpu).machine(), 1),
{
    if to_read && (!cond_read || pgx) {
        cpu.read(addr)
    } else {
        no_read_val
    }
}

fn abs_indexed<B: Bus>(cpu: &mut Cpu6502<B>, lo: u8, hi: u8, index: u8, read: bool, cond_read: bool) -> (r: Operand)
    ensures
        (final(cpu).machine(), r) == model::resolve_abs_indexed(old(cpu).machine(), lo, hi, index, read, cond_read),
        model::added_at_most(old(cpu).machine(), final(cpu).machine(), 2),
{
    // The address before the carry into the high byte is read first.
    let value = cpu.read(make_word(wrap_add8(lo, index), hi));
    let base = make_word(lo, hi);
    let eff = wrap_add16(base, index as u16);
    let crossed = hi_byte(eff) != hi_byte(base);
    let v = check_read(cpu, eff, value, crossed, read, cond_read);
    Operand { addr: eff, value: v, crossed }
}

fn zpg_indexed<B: Bus>(cpu: &mut Cpu6502<B>, lo: u8, index: u8, read: bool, cond_read: bool) -> (r: Operand)
    ensures
        (final(cpu).machine(), r) == model::resolve_zpg_indexed(old(cpu).machine(), lo, index, read, cond_read),
        model::added_at_most(old(cpu).machine(), final(cpu).machine(), 2),
{
    cpu.read(lo as u16);
    let eff = wrap_add8(lo, index) as u16;
    let v = check_read(cpu, eff, 0, true, read, cond_read);
    Operand { addr: eff, value: v, crossed: false }
}

/// Runs an addressing mode: its bus cycles, and the effective address,
/// value and page cross that it yields.
fn get_mem<B: Bus>(cpu: &mut Cpu6502<B>, mode: AddrMode, lo: u8, hi: u8, read: bool, cond_read: bool) -> (r: Operand)
    ensures
        (final(cpu).machine(), r) == model::resolve(old(cpu).machine(), mode, lo, hi, read, cond_read),
        final(cpu).machine().regs == old(cpu).machine().regs,
        final(cpu).machine().halted == old(cpu).machine().halted,
        model::added_at_most(old(cpu).machine(), final(cpu).machine(), 4),
{
    match mode {
        AddrMode::Abs => {
            let addr = make_word(lo, hi);
            let value = check_read(cpu, addr, 0, true, read, cond_read);
            Operand { addr, value, crossed: false }
        },
        AddrMode::AbsX => {
            let x = cpu.registers.x;
            abs_indexed(cpu, lo, hi, x, read, cond_read)
        },
        AddrMode::AbsY => {
            let y = cpu.registers.y;
            abs_indexed(cpu, lo, hi, y, read, cond_read)
        },
        AddrMode::Ind => {
            // The pointer's high byte comes from the same page: the carry out
            // of the low byte is lost.
            let lsb = cpu.read(make_word(lo, hi));
            let msb = cpu.read(make_word(wrap_add8(lo, 1), hi));
            let eff = make_word(lsb, msb);
            let value = check_read(cpu, eff, 0, true, read, cond_read);
            Operand { addr: eff, value, crossed: false }
        },
        AddrMode::IndX => {
            cpu.read(lo as u16);
            let zp = wrap_add8(lo, cpu.registers.x);
            let lsb = cpu.read(zp as u16);
            let msb = cpu.read(wrap_add8(zp, 1) as u16);
            let eff = make_word(lsb, msb);
            let value = check_read(cpu, eff, 0, true, read, cond_read);
            Operand { addr: eff, value, crossed: false }
        },
        AddrMode::IndY => {
            let lsb = cpu.read(lo as u16);
            let msb = cpu.read(wrap_add8(lo, 1) as u16);
            let y = cpu.registers.y;
            let value = cpu.read(make_word(wrap_add8(lsb, y), msb));
            let base = make_word(lsb, msb);
            let eff = wrap_add16(base, y as u16);
            let crossed = hi_byte(eff) != hi_byte(base);
            let v = check_read(cpu, eff, value, crossed, read, cond_read);
            Operand { addr: eff, value: v, crossed }
        },
        AddrMode::Rel => {
            let pc = cpu.registers.pc;
            let eff = if lo < 0x80 { wrap_add16(pc, lo as u16) } else { wrap_sub16(pc, 0x100 - lo as u16) };
            let crossed = hi_byte(eff) != hi_byte(pc);
            let value = check_read(cpu, eff, 0, crossed, read, cond_read);
            Operand { addr: eff, value, crossed }
        },
        AddrMode::Zpg => {
            let value = check_read(cpu, lo as u16, 0, true, read, cond_read);
            Operand { addr: lo as u16, value, crossed: false }
        },
        AddrMode::ZpgX => {
            let x = cpu.registers.x;
            zpg_indexed(cpu, lo, x, read, cond_read)
        },
        AddrMode::ZpgY => {
            let y = cpu.registers.y;
            zpg_indexed(cpu, lo, y, read, cond_read)
        },
        AddrMode::Acm => Operand { addr: 0, value: cpu.registers.a, crossed: false },
        AddrMode::Imm => Operand { addr: 0, value: lo, crossed: false },
        AddrMode::Imp => Operand { addr: 0, value: 0, crossed: false },
    }
}

fn update_zn_flags<B: Bus>(cpu: &mut Cpu6502<B>, result: u8)
    ensures
        final(cpu).machine() == old(cpu).machine().with_p(crate::registers::with_zn(old(cpu).machine().regs.p, result)),
{
    cpu.registers.p = set_zn(cpu.registers.p, result);
}

fn stack_address(s: u8) -> (r: u16)
    ensures
        r == model::stack_addr(s),
{
    STACK_BASE + s as u16
}

fn stack_push<B: Bus>(cpu: &mut Cpu6502<B>, value: u8)
    ensures
        final(cpu).machine() == model::push(old(cpu).machine(), value),
        model::added_at_most(old(cpu).machine(), final(cpu).machine(), 1),
{
    let s = cpu.registers.s;
    cpu.write(stack_address(s), value);
    cpu.registers.s = wrap_sub8(s, 1);
}

fn stack_pop<B: Bus>(cpu: &mut Cpu6502<B>) -> (r: u8)
    ensures
        (final(cpu).machine(), r) == model::pop(old(cpu).machine()),
        model::added_at_most(old(cpu).machine(), final(cpu).machine(), 1),
{
    let s = wrap_add8(cpu.registers.s, 1);
    cpu.registers.s = s;
    cpu.read(stack_address(s))
}

fn stack_push16<B: Bus>(cpu: &mut Cpu6502<B>, value: u16)
    ensures
        final(cpu).machine() == model::push16(old(cpu).machine(), value),
        model::added_at_most(old(cpu).machine(), final(cpu).machine(), 2),
{
    stack_push(cpu, hi_byte(value));
    stack_push(cpu, lo_byte(value));
}

fn stack_pop16<B: Bus>(cpu: &mut Cpu6502<B>) -> (r: u16)
    ensures
        (final(cpu).machine(), r) == model::pop16(old(cpu).machine()),
        model::added_at_most(old(cpu).machine(), final(cpu).machine(), 2),
{
    let lsb = stack_pop(cpu);
    let msb = stack_pop(cpu);
    make_word(lsb, msb)
}

fn load<B: Bus>(cpu: &mut Cpu6502<B>, op: Opcode, lo: u8, hi: u8, which: Reg)
    ensures
        final(cpu).machine() == model::load(old(cpu).machine(), op, lo, hi, which),
        model::added_at_most(old(cpu).machine(), final(cpu).machine(), 4),
{
    let o = get_mem(cpu, op.mode, lo, hi, true, true);
    match which {
        Reg::A => cpu.registers.a = o.value,
        Reg::X => cpu.registers.x = o.value,
        Reg::Y => cpu.registers.y = o.value,
    }
    update_zn_flags(cpu, o.value);
}

fn store<B: Bus>(cpu: &mut Cpu6502<B>, op: Opcode, lo: u8, hi: u8, which: Reg)
    ensures
        final(cpu).machine() == model::store(old(cpu).machine(), op, lo, hi, which),
        model::added_at_most(old(cpu).machine(), final(cpu).machine(), 5),
{
    let o = get_mem(cpu, op.mode, lo, hi, false, false);
    let v = match which {
        Reg::A => cpu.registers.a,
        Reg::X => cpu.registers.x,
        Reg::Y => cpu.registers.y,
    };
    cpu.write(o.addr, v);
}

fn logic<B: Bus>(cpu: &mut Cpu6502<B>, op: Opcode, lo: u8, hi: u8, kind: LogicKind)
    ensures
        final(cpu).machine() == model::logic(old(cpu).machine(), op, lo, hi, kind),
        model::added_at_most(old(cpu).machine(), final(cpu).machine(), 4),
{
    let o = get_mem(cpu, op.mode, lo, hi, true, true);
    let a = match kind {
        LogicKind::And => cpu.registers.a & o.value,
        LogicKind::Eor => cpu.registers.a ^ o.value,
        LogicKind::Ora => cpu.registers.a | o.value,
    };
    cpu.registers.a = a;
    update_zn_flags(cpu, a);
}

fn compare<B: Bus>(cpu: &mut Cpu6502<B>, op: Opcode, lo: u8, hi: u8, which: Reg)
    ensures
        final(cpu).machine() == model::compare(old(cpu).machine(), op, lo, hi, which),
        model::added_at_most(old(cpu).machine(), final(cpu).machine(), 4),
{
    let o = get_mem(cpu, op.mode, lo, hi, true, true);
    let reg = match which {
        Reg::A => cpu.registers.a,
        Reg::X => cpu.registers.x,
        Reg::Y => cpu.registers.y,
    };
    cpu.registers.p = compare_flags(reg, o.value, cpu.registers.p);
}

fn arith<B: Bus>(cpu: &mut Cpu6502<B>, op: Opcode, lo: u8, hi: u8, add: bool)
    ensures
        final(cpu).machine() == model::arith(old(cpu).machine(), op, lo, hi, add),
        model::added_at_most(old(cpu).machine(), final(cpu).machine(), 4),
{
    let o = get_mem(cpu, op.mode, lo, hi, true, true);
    let (a, p) = if add {
        add_with_carry(cpu.registers.a, o.value, cpu.registers.p)
    } else {
        subtract_with_borrow(cpu.registers.a, o.value, cpu.registers.p)
    };
    cpu.registers.a = a;
    cpu.registers.p = p;
}

fn modify_value(kind: RmwKind, v: u8, p: u8) -> (r: (u8, u8))
    ensures
        r == model::modify(kind, v, p),
{
    match kind {
        RmwKind::Shift(k) => shift_value(k, v, p),
        RmwKind::Inc => (wrap_add8(v, 1), set_zn(p, wrap_add8(v, 1))),
        RmwKind::Dec => (wrap_sub8(v, 1), set_zn(p, wrap_sub8(v, 1))),
    }
}

/// Read, write back unchanged, write modified; on the accumulator, no bus
/// cycles. Returns the modified value.
fn read_modify_write<B: Bus>(cpu: &mut Cpu6502<B>, op: Opcode, lo: u8, hi: u8, kind: RmwKind) -> (r: u8)
    ensures
        (final(cpu).machine(), r) == model::rmw(old(cpu).machine(), op, lo, hi, kind),
        model::added_at_most(old(cpu).machine(), final(cpu).machine(), 6),
{
    let o = get_mem(cpu, op.mode, lo, hi, true, false);
    let (v, p) = modify_value(kind, o.value, cpu.registers.p);
    if matches!(op.mode, AddrMode::Acm) {
        cpu.registers.a = v;
        cpu.registers.p = p;
    } else {
        cpu.write(o.addr, o.value);
        cpu.registers.p = p;
        cpu.write(o.addr, v);
    }
    v
}

fn branch<B: Bus>(cpu: &mut Cpu6502<B>, op: Opcode, lo: u8, hi: u8, mask: u8, set: bool)
    ensures
        final(cpu).machine() == model::branch(old(cpu).machine(), op, lo, hi, mask, set),
        model::added_at_most(old(cpu).machine(), final(cpu).machine(), 6),
{
    let o = get_mem(cpu, op.mode, lo, hi, false, false);
    if test_flag(cpu.registers.p, mask) == set {
        let pc = cpu.registers.pc;
        cpu.read(pc);
        if o.crossed {
            cpu.read(make_word(wrap_add8(lo_byte(pc), lo), hi_byte(pc)));
        }
        cpu.registers.pc = o.addr;
    }
}

fn pull_status<B: Bus>(cpu: &mut Cpu6502<B>)
    ensures
        final(cpu).machine() == model::pull_status(old(cpu).machine()),
        model::added_at_most(old(cpu).machine(), final(cpu).machine(), 2),
{
    let s = cpu.registers.s;
    cpu.read(stack_address(s));
    let v = stack_pop(cpu);
    cpu.registers.p = merge_pulled_status(cpu.registers.p, v);
}

fn store_high<B: Bus>(cpu: &mut Cpu6502<B>, op: Opcode, lo: u8, hi: u8, v: u8)
    ensures
        final(cpu).machine() == model::store_high(old(cpu).machine(), op, lo, hi, v),
        model::added_at_most(old(cpu).machine(), final(cpu).machine(), 5),
{
    let o = get_mem(cpu, op.mode, lo, hi, false, false);
    if o.crossed {
        let r = v & hi_byte(o.addr);
        cpu.write(make_word(lo_byte(o.addr), r), r);
    } else {
        cpu.write(o.addr, v & wrap_add8(hi_byte(o.addr), 1));
    }
}

/// Runs a decoded instruction on its operand bytes.
pub(crate) fn execute<B: Bus>(cpu: &mut Cpu6502<B>, op: Opcode, lo: u8, hi: u8)
    requires
        1 <= op.bytes,
    ensures
        final(cpu).machine() == model::execute(old(cpu).machine(), op, lo, hi),
        model::added_at_most(old(cpu).machine(), final(cpu).machine(), 8),
{
    match op.instr {
        Instr::Lda => lda(cpu, op, lo, hi),
        Instr::Ldx => ldx(cpu, op, lo, hi),
        Instr::Ldy => ldy(cpu, op, lo, hi),
        Instr::Sta => sta(cpu, op, lo, hi),
        Instr::Stx => stx(cpu, op, lo, hi),
        Instr::Sty => sty(cpu, op, lo, hi),
        Instr::Tax => tax(cpu, op, lo, hi),
        Instr::Tay => tay(cpu, op, lo, hi),
        Instr::Txa => txa(cpu, op, lo, hi),
        Instr::Tya => tya(cpu, op, lo, hi),
        Instr::Tsx => tsx(cpu, op, lo, hi),
        Instr::Txs => txs(cpu, op, lo, hi),
        Instr::Pha => pha(cpu, op, lo, hi),
        Instr::Php => php(cpu, op, lo, hi),
        Instr::Pla => pla(cpu, op, lo, hi),
        Instr::Plp => plp(cpu, op, lo, hi),
        Instr::And => and(cpu, op, lo, hi),
        Instr::Eor => eor(cpu, op, lo, hi),
        Instr::Ora => ora(cpu, op, lo, hi),
        Instr::Bit => bit(cpu, op, lo, hi),
        Instr::Adc => adc(cpu, op, lo, hi),
        Instr::Sbc => sbc(cpu, op, lo, hi),
        Instr::Usb => usb(cpu, op, lo, hi),
        Instr::Cmp => cmp(cpu, op, lo, hi),
        Instr::Cpx => cpx(cpu, op, lo, hi),
        Instr::Cpy => cpy(cpu, op, lo, hi),
        Instr::Inc => inc(cpu, op, lo, hi),
        Instr::Dec => dec(cpu, op, lo, hi),
        Instr::Inx => inx(cpu, op, lo, hi),
        Instr::Iny => iny(cpu, op, lo, hi),
        Instr::Dex => dex(cpu, op, lo, hi),
        Instr::Dey => dey(cpu, op, lo, hi),
        Instr::Asl => asl(cpu, op, lo, hi),
        Instr::Lsr => lsr(cpu, op, lo, hi),
        Instr::Rol => rol(cpu, op, lo, hi),
        Instr::Ror => ror(cpu, op, lo, hi),
        Instr::Jmp => jmp(cpu, op, lo, hi),
        Instr::Jsr => jsr(cpu, op, lo, hi),
        Instr::Rts => rts(cpu, op, lo, hi),
        Instr::Bmi => bmi(cpu, op, lo, hi),
        Instr::Bpl => bpl(cpu, op, lo, hi),
        Instr::Bvs => bvs(cpu, op, lo, hi),
        Instr::Bvc => bvc(cpu, op, lo, hi),
        Instr::Beq => beq(cpu, op, lo, hi),
        Instr::Bne => bne(cpu, op, lo, hi),
        Instr::Bcs => bcs(cpu, op, lo, hi),
        Instr::Bcc => bcc(cpu, op, lo, hi),
        Instr::Clc => clc(cpu, op, lo, hi),
        Instr::Cld => cld(cpu, op, lo, hi),
        Instr::Cli => cli(cpu, op, lo, hi),
        Instr::Clv => clv(cpu, op, lo, hi),
        Instr::Sec => sec(cpu, op, lo, hi),
        Instr::Sed => sed(cpu, op, lo, hi),
        Instr::Sei => sei(cpu, op, lo, hi),
        Instr::Brk => brk(cpu, op, lo, hi),
        Instr::Nop => nop(cpu, op, lo, hi),
        Instr::Rti => rti(cpu, op, lo, hi),
        Instr::Jam => jam(cpu, op, lo, hi),
        Instr::Slo => slo(cpu, op, lo, hi),
        Instr::Rla => rla(cpu, op, lo, hi),
        Instr::Sre => sre(cpu, op, lo, hi),
        Instr::Rra => rra(cpu, op, lo, hi),
        Instr::Dcp => dcp(cpu, op, lo, hi),
        Instr::Isc => isc(cpu, op, lo, hi),
        Instr::Anc => anc(cpu, op, lo, hi),
        Instr::Alr => alr(cpu, op, lo, hi),
        Instr::Arr => arr(cpu, op, lo, hi),
        Instr::Sax => sax(cpu, op, lo, hi),
        Instr::Ane => ane(cpu, op, lo, hi),
        Instr::Lxa => lxa(cpu, op, lo, hi),
        Instr::Sha => sha(cpu, op, lo, hi),
        Instr::Shx => shx(cpu, op, lo, hi),
        Instr::Shy => shy(cpu, op, lo, hi),
        Instr::Tas => tas(cpu, op, lo, hi),
        Instr::Lax => lax(cpu, op, lo, hi),
        Instr::Las => las(cpu, op, lo, hi),
        Instr::Sbx => sbx(cpu, op, lo, hi),
    }
}

pub(crate) fn lda<B: Bus>(cpu: &mut Cpu6502<B>, op: Opcode, lo: u8, hi: u8)
    requires
        op.instr == Instr::Lda,
    ensures
        final(cpu).machine() == model::execute(old(cpu).machine(), op, lo, hi),
        model::added_at_most(old(cpu).machine(), final(cpu).machine(), 8),
{
    proof {
        reveal(model::execute);
    }
    load(cpu, op, lo, hi, Reg::A);
}

pub(crate) fn ldx<B: Bus>(cpu: &mut Cpu6502<B>, op: Opcode, lo: u8, hi: u8)
    requires
        op.instr == Instr::Ldx,
    ensures
        final(cpu).machine() == model::execute(old(cpu).machine(), op, lo, hi),
        model::added_at_most(old(cpu).machine(), final(cpu).machine(), 8),
{
    proof {
        reveal(model::execute);
    }
    load(cpu, op, lo, hi, Reg::X);
}

pub(crate) fn ldy<B: Bus>(cpu: &mut Cpu6502<B>, op: Opcode, lo: u8, hi: u8)
    requires
        op.instr == Instr::Ldy,
    ensures
        final(cpu).machine() == model::execute(old(cpu).machine(), op, lo, hi),
        model::added_at_most(old(cpu).machine(), final(cpu).machine(), 8),
{
    proof {
        reveal(model::execute);
    }
    load(cpu, op, lo, hi, Reg::Y);
}

pub(crate) fn sta<B: Bus>(cpu: &mut Cpu6502<B>, op: Opcode, lo: u8, hi: u8)
    requires
        op.instr == Instr::Sta,
    ensures
        final(cpu).machine() == model::execute(old(cpu).machine(), op, lo, hi),
        model::added_at_most(old(cpu).machine(), final(cpu).machine(), 8),
{
    proof {
        reveal(model::execute);
    }
    store(cpu, op, lo, hi, Reg::A);
}

pub(crate) fn stx<B: Bus>(cpu: &mut Cpu6502<B>, op: Opcode, lo: u8, hi: u8)
    requires
        op.instr == Instr::Stx,
    ensures
        final(cpu).machine() == model::execute(old(cpu).machine(), op, lo, hi),
        model::added_at_most(old(cpu).machine(), final(cpu).machine(), 8),
{
    proof {
        reveal(model::execute);
    }
    store(cpu, op, lo, hi, Reg::X);
}

pub(crate) fn sty<B: Bus>(cpu: &mut Cpu6502<B>, op: Opcode, lo: u8, hi: u8)
    requires
        op.instr == Instr::Sty,
    ensures
        final(cpu).machine() == model::execute(old(cpu).machine(), op, lo, hi),
        model::added_at_most(old(cpu).machine(), final(cpu).machine(), 8),
{
    proof {
        reveal(model::execute);
    }
    store(cpu, op, lo, hi, Reg::Y);
}

pub(crate) fn tax<B: Bus>(cpu: &mut Cpu6502<B>, op: Opcode, lo: u8, hi: u8)
    requires
        op.instr == Instr::Tax,
    ensures
        final(cpu).machine() == model::execute(old(cpu).machine(), op, lo, hi),
        model::added_at_most(old(cpu).machine(), final(cpu).machine(), 8),
{
    proof {
        reveal(model::execute);
    }
    let a = cpu.registers.a;
    update_zn_flags(cpu, a);
    cpu.registers.x = a;
}

pub(crate) fn tay<B: Bus>(cpu: &mut Cpu6502<B>, op: Opcode, lo: u8, hi: u8)
    requires
        op.instr == Instr::Tay,
    ensures
        final(cpu).machine() == model::execute(old(cpu).machine(), op, lo, hi),
        model::added_at_most(old(cpu).machine(), final(cpu).machine(), 8),
{
    proof {
        reveal(model::execute);
    }
    let a = cpu.registers.a;
    update_zn_flags(cpu, a);
    cpu.registers.y = a;
}

pub(crate) fn txa<B: Bus>(cpu: &mut Cpu6502<B>, op: Opcode, lo: u8, hi: u8)
    requires
        op.instr == Instr::Txa,
    ensures
        final(cpu).machine() == model::execute(old(cpu).machine(), op, lo, hi),
        model::added_at_most(old(cpu).machine(), final(cpu).machine(), 8),
{
    proof {
        reveal(model::execute);
    }
    let x = cpu.registers.x;
    update_zn_flags(cpu, x);
    cpu.registers.a = x;
}

pub(crate) fn tya<B: Bus>(cpu: &mut Cpu6502<B>, op: Opcode, lo: u8, hi: u8)
    requires
        op.instr == Instr::Tya,
    ensures
        final(cpu).machine() == model::execute(old(cpu).machine(), op, lo, hi),
        model::added_at_most(old(cpu).machine(), final(cpu).machine(), 8),
{
    proof {
        reveal(model::execute);
    }
    let y = cpu.registers.y;
    update_zn_flags(cpu, y);
    cpu.registers.a = y;
}

pub(crate) fn tsx<B: Bus>(cpu: &mut Cpu6502<B>, op: Opcode, lo: u8, hi: u8)
    requires
        op.instr == Instr::Tsx,
    ensures
        final(cpu).machine() == model::execute(old(cpu).machine(), op, lo, hi),
        model::added_at_most(old(cpu).machine(), final(cpu).machine(), 8),
{
    proof {
        reveal(model::execute);
    }
    let s = cpu.registers.s;
    update_zn_flags(cpu, s);
    cpu.registers.x = s;
}

pub(crate) fn txs<B: Bus>(cpu: &mut Cpu6502<B>, op: Opcode, lo: u8, hi: u8)
    requires
        op.instr == Instr::Txs,
    ensures
        final(cpu).machine() == model::execute(old(cpu).machine(), op, lo, hi),
        model::added_at_most(old(cpu).machine(), final(cpu).machine(), 8),
{
    proof {
        reveal(model::execute);
    }
    cpu.registers.s = cpu.registers.x;
}

pub(crate) fn pha<B: Bus>(cpu: &mut Cpu6502<B>, op: Opcode, lo: u8, hi: u8)
    requires
        op.instr == Instr::Pha,
    ensures
        final(cpu).machine() == model::execute(old(cpu).machine(), op, lo, hi),
        model::added_at_most(old(cpu).machine(), final(cpu).machine(), 8),
{
    proof {
        reveal(model::execute);
    }
    let a = cpu.registers.a;
    stack_push(cpu, a);
}

pub(crate) fn php<B: Bus>(cpu: &mut Cpu6502<B>, op: Opcode, lo: u8, hi: u8)
    requires
        op.instr == Instr::Php,
    ensures
        final(cpu).machine() == model::execute(old(cpu).machine(), op, lo, hi),
        model::added_at_most(old(cpu).machine(), final(cpu).machine(), 8),
{
    proof {
        reveal(model::execute);
    }
    let p = cpu.registers.p | FLAG_B | FLAG_E;
    stack_push(cpu, p);
}

pub(crate) fn pla<B: Bus>(cpu: &mut Cpu6502<B>, op: Opcode, lo: u8, hi: u8)
    requires
        op.instr == Instr::Pla,
    ensures
        final(cpu).machine() == model::execute(old(cpu).machine(), op, lo, hi),
        model::added_at_most(old(cpu).machine(), final(cpu).machine(), 8),
{
    proof {
        reveal(model::execute);
    }
    let s = cpu.registers.s;
    cpu.read(stack_address(s));
    let v = stack_pop(cpu);
    cpu.registers.a = v;
    update_zn_flags(cpu, v);
}

pub(crate) fn plp<B: Bus>(cpu: &mut Cpu6502<B>, op: Opcode, lo: u8, hi: u8)
    requires
        op.instr == Instr::Plp,
    ensures
        final(cpu).machine() == model::execute(old(cpu).machine(), op, lo, hi),
        model::added_at_most(old(cpu).machine(), final(cpu).machine(), 8),
{
    proof {
        reveal(model::execute);
    }
    pull_status(cpu);
}

pub(crate) fn and<B: Bus>(cpu: &mut Cpu6502<B>, op: Opcode, lo: u8, hi: u8)
    requires
        op.instr == Instr::And,
    ensures
        final(cpu).machine() == model::execute(old(cpu).machine(), op, lo, hi),
        model::added_at_most(old(cpu).machine(), final(cpu).machine(), 8),
{
    proof {
        reveal(model::execute);
    }
    logic(cpu, op, lo, hi, LogicKind::And);
}

pub(crate) fn eor<B: Bus>(cpu: &mut Cpu6502<B>, op: Opcode, lo: u8, hi: u8)
    requires
        op.instr == Instr::Eor,
    ensures
        final(cpu).machine() == model::execute(old(cpu).machine(), op, lo, hi),
        model::added_at_most(old(cpu).machine(), final(cpu).machine(), 8),
{
    proof {
        reveal(model::execute);
    }
    logic(cpu, op, lo, hi, LogicKind::Eor);
}

pub(crate) fn ora<B: Bus>(cpu: &mut Cpu6502<B>, op: Opcode, lo: u8, hi: u8)
    requires
        op.instr == Instr::Ora,
    ensures
        final(cpu).machine() == model::execute(old(cpu).machine(), op, lo, hi),
        model::added_at_most(old(cpu).machine(), final(cpu).machine(), 8),
{
    proof {
        reveal(model::execute);
    }
    logic(cpu, op, lo, hi, LogicKind::Ora);
}

pub(crate) fn bit<B: Bus>(cpu: &mut Cpu6502<B>, op: Opcode, lo: u8, hi: u8)
    requires
        op.instr == Instr::Bit,
    ensures
        final(cpu).machine() == model::execute(old(cpu).machine(), op, lo, hi),
        model::added_at_most(old(cpu).machine(), final(cpu).machine(), 8),
{
    proof {
        reveal(model::execute);
    }
    let o = get_mem(cpu, op.mode, lo, hi, true, false);
    cpu.registers.p = test_bits(cpu.registers.a, o.value, cpu.registers.p);
}

pub(crate) fn adc<B: Bus>(cpu: &mut Cpu6502<B>, op: Opcode, lo: u8, hi: u8)
    requires
        op.instr == Instr::Adc,
    ensures
        final(cpu).machine() == model::execute(old(cpu).machine(), op, lo, hi),
        model::added_at_most(old(cpu).machine(), final(cpu).machine(), 8),
{
    proof {
        reveal(model::execute);
    }
    arith(cpu, op, lo, hi, true);
}

pub(crate) fn sbc<B: Bus>(cpu: &mut Cpu6502<B>, op: Opcode, lo: u8, hi: u8)
    requires
        op.instr == Instr::Sbc,
    ensures
        final(cpu).machine() == model::execute(old(cpu).machine(), op, lo, hi),
        model::added_at_most(old(cpu).machine(), final(cpu).machine(), 8),
{
    proof {
        reveal(model::execute);
    }
    arith(cpu, op, lo, hi, false);
}

pub(crate) fn usb<B: Bus>(cpu: &mut Cpu6502<B>, op: Opcode, lo: u8, hi: u8)
    requires
        op.instr == Instr::Usb,
    ensures
        final(cpu).machine() == model::execute(old(cpu).machine(), op, lo, hi),
        model::added_at_most(old(cpu).machine(), final(cpu).machine(), 8),
{
    proof {
        reveal(model::execute);
    }
    arith(cpu, op, lo, hi, false);
}

pub(crate) fn cmp<B: Bus>(cpu: &mut Cpu6502<B>, op: Opcode, lo: u8, hi: u8)
    requires
        op.instr == Instr::Cmp,
    ensures
        final(cpu).machine() == model::execute(old(cpu).machine(), op, lo, hi),
        model::added_at_most(old(cpu).machine(), final(cpu).machine(), 8),
{
    proof {
        reveal(model::execute);
    }
    compare(cpu, op, lo, hi, Reg::A);
}

pub(crate) fn cpx<B: Bus>(cpu: &mut Cpu6502<B>, op: Opcode, lo: u8, hi: u8)
    requires
        op.instr == Instr::Cpx,
    ensures
        final(cpu).machine() == model::execute(old(cpu).machine(), op, lo, hi),
        model::added_at_most(old(cpu).machine(), final(cpu).machine(), 8),
{
    proof {
        reveal(model::execute);
    }
    compare(cpu, op, lo, hi, Reg::X);
}

pub(crate) fn cpy<B: Bus>(cpu: &mut Cpu6502<B>, op: Opcode, lo: u8, hi: u8)
    requires
        op.instr == Instr::Cpy,
    ensures
        final(cpu).machine() == model::execute(old(cpu).machine(), op, lo, hi),
        model::added_at_most(old(cpu).machine(), final(cpu).machine(), 8),
{
    proof {
        reveal(model::execute);
    }
    compare(cpu, op, lo, hi, Reg::Y);
}

pub(crate) fn inc<B: Bus>(cpu: &mut Cpu6502<B>, op: Opcode, lo: u8, hi: u8)
    requires
        op.instr == Instr::Inc,
    ensures
        final(cpu).machine() == model::execute(old(cpu).machine(), op, lo, hi),
        model::added_at_most(old(cpu).machine(), final(cpu).machine(), 8),
{
    proof {
        reveal(model::execute);
    }
    read_modify_write(cpu, op, lo, hi, RmwKind::Inc);
}

pub(crate) fn dec<B: Bus>(cpu: &mut Cpu6502<B>, op: Opcode, lo: u8, hi: u8)
    requires
        op.instr == Instr::Dec,
    ensures
        final(cpu).machine() == model::execute(old(cpu).machine(), op, lo, hi),
        model::added_at_most(old(cpu).machine(), final(cpu).machine(), 8),
{
    proof {
        reveal(model::execute);
    }
    read_modify_write(cpu, op, lo, hi, RmwKind::Dec);
}

pub(crate) fn inx<B: Bus>(cpu: &mut Cpu6502<B>, op: Opcode, lo: u8, hi: u8)
    requires
        op.instr == Instr::Inx,
    ensures
        final(cpu).machine() == model::execute(old(cpu).machine(), op, lo, hi),
        model::added_at_most(old(cpu).machine(), final(cpu).machine(), 8),
{
    proof {
        reveal(model::execute);
    }
    let x = wrap_add8(cpu.registers.x, 1);
    cpu.registers.x = x;
    update_zn_flags(cpu, x);
}

pub(crate) fn iny<B: Bus>(cpu: &mut Cpu6502<B>, op: Opcode, lo: u8, hi: u8)
    requires
        op.instr == Instr::Iny,
    ensures
        final(cpu).machine() == model::execute(old(cpu).machine(), op, lo, hi),
        model::added_at_most(old(cpu).machine(), final(cpu).machine(), 8),
{
    proof {
        reveal(model::execute);
    }
    let y = wrap_add8(cpu.registers.y, 1);
    cpu.registers.y = y;
    update_zn_flags(cpu, y);
}

pub(crate) fn dex<B: Bus>(cpu: &mut Cpu6502<B>, op: Opcode, lo: u8, hi: u8)
    requires
        op.instr == Instr::Dex,
    ensures
        final(cpu).machine() == model::execute(old(cpu).machine(), op, lo, hi),
        model::added_at_most(old(cpu).machine(), final(cpu).machine(), 8),
{
    proof {
        reveal(model::execute);
    }
    let x = wrap_sub8(cpu.registers.x, 1);
    cpu.registers.x = x;
    update_zn_flags(cpu, x);
}

pub(crate) fn dey<B: Bus>(cpu: &mut Cpu6502<B>, op: Opcode, lo: u8, hi: u8)
    requires
        op.instr == Instr::Dey,
    ensures
        final(cpu).machine() == model::execute(old(cpu).machine(), op, lo, hi),
        model::added_at_most(old(cpu).machine(), final(cpu).machine(), 8),
{
    proof {
        reveal(model::execute);
    }
    let y = wrap_sub8(cpu.registers.y, 1);
    cpu.registers.y = y;
    update_zn_flags(cpu, y);
}

pub(crate) fn asl<B: Bus>(cpu: &mut Cpu6502<B>, op: Opcode, lo: u8, hi: u8)
    requires
        op.instr == Instr::Asl,
    ensures
        final(cpu).machine() == model::execute(old(cpu).machine(), op, lo, hi),
        model::added_at_most(old(cpu).machine(), final(cpu).machine(), 8),
{
    proof {
        reveal(model::execute);
    }
    read_modify_write(cpu, op, lo, hi, RmwKind::Shift(ShiftKind::Asl));
}

pub(crate) fn lsr<B: Bus>(cpu: &mut Cpu6502<B>, op: Opcode, lo: u8, hi: u8)
    requires
        op.instr == Instr::Lsr,
    ensures
        final(cpu).machine() == model::execute(old(cpu).machine(), op, lo, hi),
        model::added_at_most(old(cpu).machine(), final(cpu).machine(), 8),
{
    proof {
        reveal(model::execute);
    }
    read_modify_write(cpu, op, lo, hi, RmwKind::Shift(ShiftKind::Lsr));
}

pub(crate) fn rol<B: Bus>(cpu: &mut Cpu6502<B>, op: Opcode, lo: u8, hi: u8)
    requires
        op.instr == Instr::Rol,
    ensures
        final(cpu).machine() == model::execute(old(cpu).machine(), op, lo, hi),
        model::added_at_most(old(cpu).machine(), final(cpu).machine(), 8),
{
    proof {
        reveal(model::execute);
    }
    read_modify_write(cpu, op, lo, hi, RmwKind::Shift(ShiftKind::Rol));
}

pub(crate) fn ror<B: Bus>(cpu: &mut Cpu6502<B>, op: Opcode, lo: u8, hi: u8)
    requires
        op.instr == Instr::Ror,
    ensures
        final(cpu).machine() == model::execute(old(cpu).machine(), op, lo, hi),
        model::added_at_most(old(cpu).machine(), final(cpu).machine(), 8),
{
    proof {
        reveal(model::execute);
    }
    read_modify_write(cpu, op, lo, hi, RmwKind::Shift(ShiftKind::Ror));
}

pub(crate) fn jmp<B: Bus>(cpu: &mut Cpu6502<B>, op: Opcode, lo: u8, hi: u8)
    requires
        op.instr == Instr::Jmp,
    ensures
        final(cpu).machine() == model::execute(old(cpu).machine(), op, lo, hi),
        model::added_at_most(old(cpu).machine(), final(cpu).machine(), 8),
{
    proof {
        reveal(model::execute);
    }
    let o = get_mem(cpu, op.mode, lo, hi, false, false);
    cpu.registers.pc = o.addr;
}

pub(crate) fn jsr<B: Bus>(cpu: &mut Cpu6502<B>, op: Opcode, lo: u8, hi: u8)
    requires
        op.instr == Instr::Jsr,
        1 <= op.bytes,
    ensures
        final(cpu).machine() == model::execute(old(cpu).machine(), op, lo, hi),
        model::added_at_most(old(cpu).machine(), final(cpu).machine(), 8),
{
    proof {
        reveal(model::execute);
    }
    // The low operand byte, a read of the stack slot, the return address
    // pushed, and only then the high operand byte, which the pushes may
    // have overwritten.
    let pc1 = wrap_sub16(cpu.registers.pc, (op.bytes - 1) as u16);
    let adl = cpu.read(pc1);
    let pc2 = wrap_add16(pc1, 1);
    let s = cpu.registers.s;
    cpu.read(stack_address(s));
    stack_push16(cpu, pc2);
    let adh = cpu.read(pc2);
    cpu.registers.pc = make_word(adl, adh);
}

pub(crate) fn rts<B: Bus>(cpu: &mut Cpu6502<B>, op: Opcode, lo: u8, hi: u8)
    requires
        op.instr == Instr::Rts,
    ensures
        final(cpu).machine() == model::execute(old(cpu).machine(), op, lo, hi),
        model::added_at_most(old(cpu).machine(), final(cpu).machine(), 8),
{
    proof {
        reveal(model::execute);
    }
    let s = cpu.registers.s;
    cpu.read(stack_address(s));
    let w = stack_pop16(cpu);
    let pc = wrap_add16(w, 1);
    cpu.registers.pc = pc;
    cpu.read(wrap_sub16(pc, 1));
}

pub(crate) fn bmi<B: Bus>(cpu: &mut Cpu6502<B>, op: Opcode, lo: u8, hi: u8)
    requires
        op.instr == Instr::Bmi,
    ensures
        final(cpu).machine() == model::execute(old(cpu).machine(), op, lo, hi),
        model::added_at_most(old(cpu).machine(), final(cpu).machine(), 8),
{
    proof {
        reveal(model::execute);
    }
    branch(cpu, op, lo, hi, FLAG_N, true);
}

pub(crate) fn bpl<B: Bus>(cpu: &mut Cpu6502<B>, op: Opcode, lo: u8, hi: u8)
    requires
        op.instr == Instr::Bpl,
    ensures
        final(cpu).machine() == model::execute(old(cpu).machine(), op, lo, hi),
        model::added_at_most(old(cpu).machine(), final(cpu).machine(), 8),
{
    proof {
        reveal(model::execute);
    }
    branch(cpu, op, lo, hi, FLAG_N, false);
}

pub(crate) fn bvs<B: Bus>(cpu: &mut Cpu6502<B>, op: Opcode, lo: u8, hi: u8)
    requires
        op.instr == Instr::Bvs,
    ensures
        final(cpu).machine() == model::execute(old(cpu).machine(), op, lo, hi),
        model::added_at_most(old(cpu).machine(), final(cpu).machine(), 8),
{
    proof {
        reveal(model::execute);
    }
    branch(cpu, op, lo, hi, FLAG_V, true);
}

pub(crate) fn bvc<B: Bus>(cpu: &mut Cpu6502<B>, op: Opcode, lo: u8, hi: u8)
    requires
        op.instr == Instr::Bvc,
    ensures
        final(cpu).machine() == model::execute(old(cpu).machine(), op, lo, hi),
        model::added_at_most(old(cpu).machine(), final(cpu).machine(), 8),
{
    proof {
        reveal(model::execute);
    }
    branch(cpu, op, lo, hi, FLAG_V, false);
}

pub(crate) fn beq<B: Bus>(cpu: &mut Cpu6502<B>, op: Opcode, lo: u8, hi: u8)
    requires
        op.instr == Instr::Beq,
    ensures
        final(cpu).machine() == model::execute(old(cpu).machine(), op, lo, hi),
        model::added_at_most(old(cpu).machine(), final(cpu).machine(), 8),
{
    proof {
        reveal(model::execute);
    }
    branch(cpu, op, lo, hi, FLAG_Z, true);
}

pub(crate) fn bne<B: Bus>(cpu: &mut Cpu6502<B>, op: Opcode, lo: u8, hi: u8)
    requires
        op.instr == Instr::Bne,
    ensures
        final(cpu).machine() == model::execute(old(cpu).machine(), op, lo, hi),
        model::added_at_most(old(cpu).machine(), final(cpu).machine(), 8),
{
    proof {
        reveal(model::execute);
    }
    branch(cpu, op, lo, hi, FLAG_Z, false);
}

pub(crate) fn bcs<B: Bus>(cpu: &mut Cpu6502<B>, op: Opcode, lo: u8, hi: u8)
    requires
        op.instr == Instr::Bcs,
    ensures
        final(cpu).machine() == model::execute(old(cpu).machine(), op, lo, hi),
        model::added_at_most(old(cpu).machine(), final(cpu).machine(), 8),
{
    proof {
        reveal(model::execute);
    }
    branch(cpu, op, lo, hi, FLAG_C, true);
}

pub(crate) fn bcc<B: Bus>(cpu: &mut Cpu6502<B>, op: Opcode, lo: u8, hi: u8)
    requires
        op.instr == Instr::Bcc,
    ensures
        final(cpu).machine() == model::execute(old(cpu).machine(), op, lo, hi),
        model::added_at_most(old(cpu).machine(), final(cpu).machine(), 8),
{
    proof {
        reveal(model::execute);
    }
    branch(cpu, op, lo, hi, FLAG_C, false);
}

pub(crate) fn clc<B: Bus>(cpu: &mut Cpu6502<B>, op: Opcode, lo: u8, hi: u8)
    requires
        op.instr == Instr::Clc,
    ensures
        final(cpu).machine() == model::execute(old(cpu).machine(), op, lo, hi),
        model::added_at_most(old(cpu).machine(), final(cpu).machine(), 8),
{
    proof {
        reveal(model::execute);
    }
    cpu.registers.p = set_flag(cpu.registers.p, FLAG_C, false);
}

pub(crate) fn cld<B: Bus>(cpu: &mut Cpu6502<B>, op: Opcode, lo: u8, hi: u8)
    requires
        op.instr == Instr::Cld,
    ensures
        final(cpu).machine() == model::execute(old(cpu).machine(), op, lo, hi),
        model::added_at_most(old(cpu).machine(), final(cpu).machine(), 8),
{
    proof {
        reveal(model::execute);
    }
    cpu.registers.p = set_flag(cpu.registers.p, FLAG_D, false);
}

pub(crate) fn cli<B: Bus>(cpu: &mut Cpu6502<B>, op: Opcode, lo: u8, hi: u8)
    requires
        op.instr == Instr::Cli,
    ensures
        final(cpu).machine() == model::execute(old(cpu).machine(), op, lo, hi),
        model::added_at_most(old(cpu).machine(), final(cpu).machine(), 8),
{
    proof {
        reveal(model::execute);
    }
    cpu.registers.p = set_flag(cpu.registers.p, FLAG_I, false);
}

pub(crate) fn clv<B: Bus>(cpu: &mut Cpu6502<B>, op: Opcode, lo: u8, hi: u8)
    requires
        op.instr == Instr::Clv,
    ensures
        final(cpu).machine() == model::execute(old(cpu).machine(), op, lo, hi),
        model::added_at_most(old(cpu).machine(), final(cpu).machine(), 8),
{
    proof {
        reveal(model::execute);
    }
    cpu.registers.p = set_flag(cpu.registers.p, FLAG_V, false);
}

pub(crate) fn sec<B: Bus>(cpu: &mut Cpu6502<B>, op: Opcode, lo: u8, hi: u8)
    requires
        op.instr == Instr::Sec,
    ensures
        final(cpu).machine() == model::execute(old(cpu).machine(), op, lo, hi),
        model::added_at_most(old(cpu).machine(), final(cpu).machine(), 8),
{
    proof {
        reveal(model::execute);
    }
    cpu.registers.p = set_flag(cpu.registers.p, FLAG_C, true);
}

pub(crate) fn sed<B: Bus>(cpu: &mut Cpu6502<B>, op: Opcode, lo: u8, hi: u8)
    requires
        op.instr == Instr::Sed,
    ensures
        final(cpu).machine() == model::execute(old(cpu).machine(), op, lo, hi),
        model::added_at_most(old(cpu).machine(), final(cpu).machine(), 8),
{
    proof {
        reveal(model::execute);
    }
    cpu.registers.p = set_flag(cpu.registers.p, FLAG_D, true);
}

pub(crate) fn sei<B: Bus>(cpu: &mut Cpu6502<B>, op: Opcode, lo: u8, hi: u8)
    requires
        op.instr == Instr::Sei,
    ensures
        final(cpu).machine() == model::execute(old(cpu).machine(), op, lo, hi),
        model::added_at_most(old(cpu).machine(), final(cpu).machine(), 8),
{
    proof {
        reveal(model::execute);
    }
    cpu.registers.p = set_flag(cpu.registers.p, FLAG_I, true);
}

pub(crate) fn brk<B: Bus>(cpu: &mut Cpu6502<B>, op: Opcode, lo: u8, hi: u8)
    requires
        op.instr == Instr::Brk,
    ensures
        final(cpu).machine() == model::execute(old(cpu).machine(), op, lo, hi),
        model::added_at_most(old(cpu).machine(), final(cpu).machine(), 8),
{
    proof {
        reveal(model::execute);
    }
    let pc = cpu.registers.pc;
    stack_push16(cpu, pc);
    let p = cpu.registers.p | FLAG_B | FLAG_E;
    stack_push(cpu, p);
    let lsb = cpu.read(IRQ_VECTOR);
    let msb = cpu.read(IRQ_VECTOR + 1);
    cpu.registers.pc = make_word(lsb, msb);
    cpu.registers.p = set_flag(cpu.registers.p, FLAG_I, true);
}

pub(crate) fn nop<B: Bus>(cpu: &mut Cpu6502<B>, op: Opcode, lo: u8, hi: u8)
    requires
        op.instr == Instr::Nop,
    ensures
        final(cpu).machine() == model::execute(old(cpu).machine(), op, lo, hi),
        model::added_at_most(old(cpu).machine(), final(cpu).machine(), 8),
{
    proof {
        reveal(model::execute);
    }
    get_mem(cpu, op.mode, lo, hi, true, true);
}

pub(crate) fn rti<B: Bus>(cpu: &mut Cpu6502<B>, op: Opcode, lo: u8, hi: u8)
    requires
        op.instr == Instr::Rti,
    ensures
        final(cpu).machine() == model::execute(old(cpu).machine(), op, lo, hi),
        model::added_at_most(old(cpu).machine(), final(cpu).machine(), 8),
{
    proof {
        reveal(model::execute);
    }
    pull_status(cpu);
    cpu.registers.pc = stack_pop16(cpu);
}

pub(crate) fn jam<B: Bus>(cpu: &mut Cpu6502<B>, op: Opcode, lo: u8, hi: u8)
    requires
        op.instr == Instr::Jam,
    ensures
        final(cpu).machine() == model::execute(old(cpu).machine(), op, lo, hi),
        model::added_at_most(old(cpu).machine(), final(cpu).machine(), 8),
{
    proof {
        reveal(model::execute);
    }
    // Back to the opcode itself, so that nothing moves until a reset.
    cpu.registers.pc = wrap_sub16(cpu.registers.pc, op.bytes as u16);
    cpu.halted = true;
}

pub(crate) fn slo<B: Bus>(cpu: &mut Cpu6502<B>, op: Opcode, lo: u8, hi: u8)
    requires
        op.instr == Instr::Slo,
    ensures
        final(cpu).machine() == model::execute(old(cpu).machine(), op, lo, hi),
        model::added_at_most(old(cpu).machine(), final(cpu).machine(), 8),
{
    proof {
        reveal(model::execute);
    }
    let v = read_modify_write(cpu, op, lo, hi, RmwKind::Shift(ShiftKind::Asl));
    let a = cpu.registers.a | v;
    cpu.registers.a = a;
    update_zn_flags(cpu, a);
}

pub(crate) fn rla<B: Bus>(cpu: &mut Cpu6502<B>, op: Opcode, lo: u8, hi: u8)
    requires
        op.instr == Instr::Rla,
    ensures
        final(cpu).machine() == model::execute(old(cpu).machine(), op, lo, hi),
        model::added_at_most(old(cpu).machine(), final(cpu).machine(), 8),
{
    proof {
        reveal(model::execute);
    }
    let v = read_modify_write(cpu, op, lo, hi, RmwKind::Shift(ShiftKind::Rol));
    let a = cpu.registers.a & v;
    cpu.registers.a = a;
    update_zn_flags(cpu, a);
}

pub(crate) fn sre<B: Bus>(cpu: &mut Cpu6502<B>, op: Opcode, lo: u8, hi: u8)
    requires
        op.instr == Instr::Sre,
    ensures
        final(cpu).machine() == model::execute(old(cpu).machine(), op, lo, hi),
        model::added_at_most(old(cpu).machine(), final(cpu).machine(), 8),
{
    proof {
        reveal(model::execute);
    }
    let v = read_modify_write(cpu, op, lo, hi, RmwKind::Shift(ShiftKind::Lsr));
    let a = cpu.registers.a ^ v;
    cpu.registers.a = a;
    update_zn_flags(cpu, a);
}

pub(crate) fn rra<B: Bus>(cpu: &mut Cpu6502<B>, op: Opcode, lo: u8, hi: u8)
    requires
        op.instr == Instr::Rra,
    ensures
        final(cpu).machine() == model::execute(old(cpu).machine(), op, lo, hi),
        model::added_at_most(old(cpu).machine(), final(cpu).machine(), 8),
{
    proof {
        reveal(model::execute);
    }
    let v = read_modify_write(cpu, op, lo, hi, RmwKind::Shift(ShiftKind::Ror));
    let (a, p) = add_with_carry(cpu.registers.a, v, cpu.registers.p);
    cpu.registers.a = a;
    cpu.registers.p = p;
}

pub(crate) fn dcp<B: Bus>(cpu: &mut Cpu6502<B>, op: Opcode, lo: u8, hi: u8)
    requires
        op.instr == Instr::Dcp,
    ensures
        final(cpu).machine() == model::execute(old(cpu).machine(), op, lo, hi),
        model::added_at_most(old(cpu).machine(), final(cpu).machine(), 8),
{
    proof {
        reveal(model::execute);
    }
    let v = read_modify_write(cpu, op, lo, hi, RmwKind::Dec);
    cpu.registers.p = compare_flags(cpu.registers.a, v, cpu.registers.p);
}

pub(crate) fn isc<B: Bus>(cpu: &mut Cpu6502<B>, op: Opcode, lo: u8, hi: u8)
    requires
        op.instr == Instr::Isc,
    ensures
        final(cpu).machine() == model::execute(old(cpu).machine(), op, lo, hi),
        model::added_at_most(old(cpu).machine(), final(cpu).machine(), 8),
{
    proof {
        reveal(model::execute);
    }
    let v = read_modify_write(cpu, op, lo, hi, RmwKind::Inc);
    let (a, p) = subtract_with_borrow(cpu.registers.a, v, cpu.registers.p);
    cpu.registers.a = a;
    cpu.registers.p = p;
}

pub(crate) fn anc<B: Bus>(cpu: &mut Cpu6502<B>, op: Opcode, lo: u8, hi: u8)
    requires
        op.instr == Instr::Anc,
    ensures
        final(cpu).machine() == model::execute(old(cpu).machine(), op, lo, hi),
        model::added_at_most(old(cpu).machine(), final(cpu).machine(), 8),
{
    proof {
        reveal(model::execute);
    }
    logic(cpu, op, lo, hi, LogicKind::And);
    cpu.registers.p = set_flag(cpu.registers.p, FLAG_C, cpu.registers.a & 0x80 != 0);
}

pub(crate) fn alr<B: Bus>(cpu: &mut Cpu6502<B>, op: Opcode, lo: u8, hi: u8)
    requires
        op.instr == Instr::Alr,
    ensures
        final(cpu).machine() == model::execute(old(cpu).machine(), op, lo, hi),
        model::added_at_most(old(cpu).machine(), final(cpu).machine(), 8),
{
    proof {
        reveal(model::execute);
    }
    logic(cpu, op, lo, hi, LogicKind::And);
    let (a, p) = shift_value(ShiftKind::Lsr, cpu.registers.a, cpu.registers.p);
    cpu.registers.a = a;
    cpu.registers.p = p;
}

pub(crate) fn arr<B: Bus>(cpu: &mut Cpu6502<B>, op: Opcode, lo: u8, hi: u8)
    requires
        op.instr == Instr::Arr,
    ensures
        final(cpu).machine() == model::execute(old(cpu).machine(), op, lo, hi),
        model::added_at_most(old(cpu).machine(), final(cpu).machine(), 8),
{
    proof {
        reveal(model::execute);
    }
    logic(cpu, op, lo, hi, LogicKind::And);
    let (a, p) = arr_value(cpu.registers.a, cpu.registers.p);
    cpu.registers.a = a;
    cpu.registers.p = p;
}

pub(crate) fn sax<B: Bus>(cpu: &mut Cpu6502<B>, op: Opcode, lo: u8, hi: u8)
    requires
        op.instr == Instr::Sax,
    ensures
        final(cpu).machine() == model::execute(old(cpu).machine(), op, lo, hi),
        model::added_at_most(old(cpu).machine(), final(cpu).machine(), 8),
{
    proof {
        reveal(model::execute);
    }
    let o = get_mem(cpu, op.mode, lo, hi, false, false);
    let v = cpu.registers.a & cpu.registers.x;
    cpu.write(o.addr, v);
}

pub(crate) fn ane<B: Bus>(cpu: &mut Cpu6502<B>, op: Opcode, lo: u8, hi: u8)
    requires
        op.instr == Instr::Ane,
    ensures
        final(cpu).machine() == model::execute(old(cpu).machine(), op, lo, hi),
        model::added_at_most(old(cpu).machine(), final(cpu).machine(), 8),
{
    proof {
        reveal(model::execute);
    }
    let o = get_mem(cpu, op.mode, lo, hi, true, true);
    let a = (cpu.registers.a | UNSTABLE_MAGIC) & cpu.registers.x & o.value;
    cpu.registers.a = a;
    update_zn_flags(cpu, a);
}

pub(crate) fn lxa<B: Bus>(cpu: &mut Cpu6502<B>, op: Opcode, lo: u8, hi: u8)
    requires
        op.instr == Instr::Lxa,
    ensures
        final(cpu).machine() == model::execute(old(cpu).machine(), op, lo, hi),
        model::added_at_most(old(cpu).machine(), final(cpu).machine(), 8),
{
    proof {
        reveal(model::execute);
    }
    let o = get_mem(cpu, op.mode, lo, hi, true, true);
    let a = (cpu.registers.a | UNSTABLE_MAGIC) & o.value;
    cpu.registers.a = a;
    cpu.registers.x = a;
    update_zn_flags(cpu, a);
}

pub(crate) fn sha<B: Bus>(cpu: &mut Cpu6502<B>, op: Opcode, lo: u8, hi: u8)
    requires
        op.instr == Instr::Sha,
    ensures
        final(cpu).machine() == model::execute(old(cpu).machine(), op, lo, hi),
        model::added_at_most(old(cpu).machine(), final(cpu).machine(), 8),
{
    proof {
        reveal(model::execute);
    }
    let v = cpu.registers.a & cpu.registers.x;
    store_high(cpu, op, lo, hi, v);
}

pub(crate) fn shx<B: Bus>(cpu: &mut Cpu6502<B>, op: Opcode, lo: u8, hi: u8)
    requires
        op.instr == Instr::Shx,
    ensures
        final(cpu).machine() == model::execute(old(cpu).machine(), op, lo, hi),
        model::added_at_most(old(cpu).machine(), final(cpu).machine(), 8),
{
    proof {
        reveal(model::execute);
    }
    let v = cpu.registers.x;
    store_high(cpu, op, lo, hi, v);
}

pub(crate) fn shy<B: Bus>(cpu: &mut Cpu6502<B>, op: Opcode, lo: u8, hi: u8)
    requires
        op.instr == Instr::Shy,
    ensures
        final(cpu).machine() == model::execute(old(cpu).machine(), op, lo, hi),
        model::added_at_most(old(cpu).machine(), final(cpu).machine(), 8),
{
    proof {
        reveal(model::execute);
    }
    let v = cpu.registers.y;
    store_high(cpu, op, lo, hi, v);
}

pub(crate) fn tas<B: Bus>(cpu: &mut Cpu6502<B>, op: Opcode, lo: u8, hi: u8)
    requires
        op.instr == Instr::Tas,
    ensures
        final(cpu).machine() == model::execute(old(cpu).machine(), op, lo, hi),
        model::added_at_most(old(cpu).machine(), final(cpu).machine(), 8),
{
    proof {
        reveal(model::execute);
    }
    let v = cpu.registers.a & cpu.registers.x;
    cpu.registers.s = v;
    store_high(cpu, op, lo, hi, v);
}

pub(crate) fn lax<B: Bus>(cpu: &mut Cpu6502<B>, op: Opcode, lo: u8, hi: u8)
    requires
        op.instr == Instr::Lax,
    ensures
        final(cpu).machine() == model::execute(old(cpu).machine(), op, lo, hi),
        model::added_at_most(old(cpu).machine(), final(cpu).machine(), 8),
{
    proof {
        reveal(model::execute);
    }
    let o = get_mem(cpu, op.mode, lo, hi, true, true);
    cpu.registers.a = o.value;
    cpu.registers.x = o.value;
    update_zn_flags(cpu, o.value);
}

pub(crate) fn las<B: Bus>(cpu: &mut Cpu6502<B>, op: Opcode, lo: u8, hi: u8)
    requires
        op.instr == Instr::Las,
    ensures
        final(cpu).machine() == model::execute(old(cpu).machine(), op, lo, hi),
        model::added_at_most(old(cpu).machine(), final(cpu).machine(), 8),
{
    proof {
        reveal(model::execute);
    }
    let o = get_mem(cpu, op.mode, lo, hi, true, false);
    let v = o.value & cpu.registers.s;
    update_zn_flags(cpu, v);
    cpu.registers.a = v;
    cpu.registers.x = v;
    cpu.registers.s = v;
}

pub(crate) fn sbx<B: Bus>(cpu: &mut Cpu6502<B>, op: Opcode, lo: u8, hi: u8)
    requires
        op.instr == Instr::Sbx,
    ensures
        final(cpu).machine() == model::execute(old(cpu).machine(), op, lo, hi),
        model::added_at_most(old(cpu).machine(), final(cpu).machine(), 8),
{
    proof {
        reveal(model::execute);
    }
    // Compares `A & X` with the operand and keeps the difference in X.
    let v = cpu.registers.a & cpu.registers.x;
    let x = wrap_sub8(v, lo);
    cpu.registers.x = x;
    update_zn_flags(cpu, x);
    cpu.registers.p = set_flag(cpu.registers.p, FLAG_C, v >= lo);
}
} // verus!
