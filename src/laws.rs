//! Properties of the processor that span several instructions or all inputs,
//! stated over the model and proved.
use vstd::prelude::*;
use crate::alu::{adc, pulled_status, sbc};
use crate::model::{
    Machine, arith, branch, branch_target, brk, execute, fetch_operands, jsr, pull_status, push,
    pushed_status, resolve, rts, stack_addr, step,
};
use crate::opcodes::{AddrMode, Instr, Opcode, entry_of, opcode_table};
use crate::registers::{
    FLAG_C, FLAG_D, FLAG_E, FLAG_N, FLAG_V, FLAG_Z, Registers, add16, add8, flag, high_byte, low_byte,
    with_flag, with_zn, word,
};

verus! {

proof fn lemma_with_zn(p: u8, v: u8)
    ensures
        flag(with_zn(p, v), FLAG_Z) == (v == 0),
        flag(with_zn(p, v), FLAG_N) == (v >= 0x80),
{
    assert(flag(with_zn(p, v), FLAG_Z) == (v == 0) && flag(with_zn(p, v), FLAG_N) == (v >= 0x80)) by (bit_vector);
}

proof fn lemma_word_bytes(w: u16)
    ensures
        word(low_byte(w), high_byte(w)) == w,
{
}

proof fn lemma_known_opcodes()
    ensures
        opcode_table(0x48) == entry_of(Instr::Pha, AddrMode::Imp, 1),
        opcode_table(0x68) == entry_of(Instr::Pla, AddrMode::Imp, 1),
        opcode_table(0x08) == entry_of(Instr::Php, AddrMode::Imp, 1),
        opcode_table(0x28) == entry_of(Instr::Plp, AddrMode::Imp, 1),
        opcode_table(0x20) == entry_of(Instr::Jsr, AddrMode::Abs, 3),
        opcode_table(0x60) == entry_of(Instr::Rts, AddrMode::Imp, 1),
        opcode_table(0x00) == entry_of(Instr::Brk, AddrMode::Imp, 2),
        opcode_table(0x6C) == entry_of(Instr::Jmp, AddrMode::Ind, 3),
        opcode_table(0x69) == entry_of(Instr::Adc, AddrMode::Imm, 2),
        opcode_table(0xE9) == entry_of(Instr::Sbc, AddrMode::Imm, 2),
{
    reveal(opcode_table);
}

proof fn lemma_execute_jam(m: Machine, op: Opcode, lo: u8, hi: u8)
    requires
        op.instr == Instr::Jam,
    ensures
        execute(m, op, lo, hi).regs.pc == add16(m.regs.pc, -(op.bytes as int)),
        execute(m, op, lo, hi).halted,
{
    reveal(execute);
}

proof fn lemma_execute_pha(m: Machine, op: Opcode, lo: u8, hi: u8)
    requires
        op.instr == Instr::Pha,
    ensures
        execute(m, op, lo, hi) == push(m, m.regs.a),
{
    reveal(execute);
}

proof fn lemma_execute_pla(m: Machine, op: Opcode, lo: u8, hi: u8)
    requires
        op.instr == Instr::Pla,
    ensures
        execute(m, op, lo, hi) == ({
            let (m1, v) = crate::model::pop(m.read(stack_addr(m.regs.s)));
            m1.with_a_zn(v)
        }),
{
    reveal(execute);
}

/// The arguments with which `step` runs the instruction at the program
/// counter: the machine after the fetches, the decoded opcode, the operands.
pub open spec fn dispatched(m: Machine) -> (Machine, Opcode, u8, u8) {
    let pc = m.regs.pc;
    let op = opcode_table(m.mem[pc]);
    let (m1, lo, hi) = fetch_operands(Machine { cycles: Seq::empty(), ..m }.read(pc), m.mem[pc], op.bytes);
    (m1.with_pc(add16(pc, op.bytes as int)), op, lo, hi)
}

proof fn lemma_step_dispatch(m: Machine)
    requires
        !m.halted,
    ensures
        ({
            let (m1, op, lo, hi) = dispatched(m);
            step(m) == execute(m1, op, lo, hi)
        }),
{
}

proof fn lemma_execute_stack(m: Machine, op: Opcode, lo: u8, hi: u8)
    ensures
        op.instr == Instr::Php ==> execute(m, op, lo, hi) == push(m, pushed_status(m.regs.p)),
        op.instr == Instr::Plp ==> execute(m, op, lo, hi) == pull_status(m),
        op.instr == Instr::Brk ==> execute(m, op, lo, hi) == brk(m),
        op.instr == Instr::Jsr ==> execute(m, op, lo, hi) == jsr(m, op),
        op.instr == Instr::Rts ==> execute(m, op, lo, hi) == rts(m),
        op.instr == Instr::Jmp ==> execute(m, op, lo, hi) == ({
            let (m1, o) = resolve(m, op.mode, lo, hi, false, false);
            m1.with_pc(o.addr)
        }),
{
    reveal(execute);
}

proof fn lemma_execute_arith(m: Machine, op: Opcode, lo: u8, hi: u8)
    ensures
        op.instr == Instr::Adc ==> execute(m, op, lo, hi) == arith(m, op, lo, hi, true),
        op.instr == Instr::Sbc ==> execute(m, op, lo, hi) == arith(m, op, lo, hi, false),
{
    reveal(execute);
}

/// Whether the branch instruction `instr` is taken under status `p`.
pub open spec fn branch_taken(instr: Instr, p: u8) -> bool {
    match instr {
        Instr::Bmi => flag(p, FLAG_N),
        Instr::Bpl => !flag(p, FLAG_N),
        Instr::Bvs => flag(p, FLAG_V),
        Instr::Bvc => !flag(p, FLAG_V),
        Instr::Beq => flag(p, FLAG_Z),
        Instr::Bne => !flag(p, FLAG_Z),
        Instr::Bcs => flag(p, FLAG_C),
        Instr::Bcc => !flag(p, FLAG_C),
        _ => false,
    }
}

/// The opcode bytes of the eight branches.
pub open spec fn is_branch_opcode(b: u8) -> bool {
    b == 0x10 || b == 0x30 || b == 0x50 || b == 0x70 || b == 0x90 || b == 0xB0 || b == 0xD0 || b == 0xF0
}

proof fn lemma_branch_opcodes(b: u8)
    requires
        is_branch_opcode(b),
    ensures
        opcode_table(b).mode == AddrMode::Rel,
        opcode_table(b).bytes == 2,
        ({
            let i = opcode_table(b).instr;
            i == Instr::Bmi || i == Instr::Bpl || i == Instr::Bvs || i == Instr::Bvc || i == Instr::Beq
                || i == Instr::Bne || i == Instr::Bcs || i == Instr::Bcc
        }),
{
    reveal(opcode_table);
}

proof fn lemma_execute_branch(m: Machine, op: Opcode, lo: u8, hi: u8)
    ensures
        op.instr == Instr::Bmi ==> execute(m, op, lo, hi) == branch(m, op, lo, hi, FLAG_N, true),
        op.instr == Instr::Bpl ==> execute(m, op, lo, hi) == branch(m, op, lo, hi, FLAG_N, false),
        op.instr == Instr::Bvs ==> execute(m, op, lo, hi) == branch(m, op, lo, hi, FLAG_V, true),
        op.instr == Instr::Bvc ==> execute(m, op, lo, hi) == branch(m, op, lo, hi, FLAG_V, false),
        op.instr == Instr::Beq ==> execute(m, op, lo, hi) == branch(m, op, lo, hi, FLAG_Z, true),
        op.instr == Instr::Bne ==> execute(m, op, lo, hi) == branch(m, op, lo, hi, FLAG_Z, false),
        op.instr == Instr::Bcs ==> execute(m, op, lo, hi) == branch(m, op, lo, hi, FLAG_C, true),
        op.instr == Instr::Bcc ==> execute(m, op, lo, hi) == branch(m, op, lo, hi, FLAG_C, false),
{
    reveal(execute);
}

proof fn lemma_status_bits(p: u8, q: u8)
    ensures
        pushed_status(p) & FLAG_E != 0,
        pulled_status(q, pushed_status(p)) & 0xCF == p & 0xCF,
{
    assert(pushed_status(p) & FLAG_E != 0) by (bit_vector);
    assert(pulled_status(q, pushed_status(p)) & 0xCF == p & 0xCF) by (bit_vector);
}

/// The status byte that `PHP` pushes, its third bus cycle, has the
/// extension bit set.
pub proof fn law_php_pushes_extension(m: Machine)
    requires
        !m.halted,
        m.mem[m.regs.pc] == 0x08,
    ensures
        step(m).cycles.len() == 3,
        step(m).cycles[2].kind == crate::bus::CycleKind::Write,
        step(m).cycles[2].address == stack_addr(m.regs.s),
        step(m).cycles[2].value & FLAG_E != 0,
{
    lemma_known_opcodes();
    lemma_step_dispatch(m);
    let (m1, op, lo, hi) = dispatched(m);
    lemma_execute_stack(m1, op, lo, hi);
    lemma_status_bits(m.regs.p, 0);
}

/// The status byte that `BRK` pushes, its fifth bus cycle, has the
/// extension bit set.
#[verifier::rlimit(50)]
pub proof fn law_brk_pushes_extension(m: Machine)
    requires
        !m.halted,
        m.mem[m.regs.pc] == 0x00,
    ensures
        step(m).cycles.len() == 7,
        step(m).cycles[4].kind == crate::bus::CycleKind::Write,
        step(m).cycles[4].address == stack_addr(add8(m.regs.s, -2)),
        step(m).cycles[4].value & FLAG_E != 0,
{
    lemma_known_opcodes();
    lemma_step_dispatch(m);
    let (m1, op, lo, hi) = dispatched(m);
    lemma_execute_stack(m1, op, lo, hi);
    lemma_status_bits(m.regs.p, 0);
    assert(add8(add8(m.regs.s, -1), -1) == add8(m.regs.s, -2));
}

/// `PHP`, any change to the status, then `PLP`: N, V, D, I, Z and C are as
/// they were, and so is the stack pointer. The `PLP` opcode must not sit in
/// the stack slot that `PHP` writes.
#[verifier::rlimit(50)]
pub proof fn law_php_plp_restores_flags(m: Machine, other: u8)
    requires
        !m.halted,
        m.regs.p & 0x30 == 0,
        m.mem[m.regs.pc] == 0x08,
        m.mem[add16(m.regs.pc, 1)] == 0x28,
        add16(m.regs.pc, 1) != stack_addr(m.regs.s),
    ensures
        ({
            let m1 = step(m);
            let m2 = step(m1.with_p(other));
            &&& m2.regs.p & 0xCF == m.regs.p & 0xCF
            &&& m2.regs.s == m.regs.s
        }),
{
    lemma_known_opcodes();
    lemma_step_dispatch(m);
    let (m1, op, lo, hi) = dispatched(m);
    lemma_execute_stack(m1, op, lo, hi);
    let n1 = step(m).with_p(other);
    assert(n1.regs.pc == add16(m.regs.pc, 1));
    assert(n1.mem[n1.regs.pc] == 0x28);
    lemma_step_dispatch(n1);
    let (n2, op2, lo2, hi2) = dispatched(n1);
    lemma_execute_stack(n2, op2, lo2, hi2);
    assert(add8(add8(m.regs.s, -1), 1) == m.regs.s);
    lemma_status_bits(m.regs.p, other);
}

#[verifier::rlimit(50)]
proof fn lemma_jsr_step(m: Machine, target: u16)
    requires
        !m.halted,
        m.mem[m.regs.pc] == 0x20,
        m.mem[add16(m.regs.pc, 1)] == low_byte(target),
        m.mem[add16(m.regs.pc, 2)] == high_byte(target),
        add16(m.regs.pc, 2) != stack_addr(m.regs.s),
        add16(m.regs.pc, 2) != stack_addr(add8(m.regs.s, -1)),
    ensures
        ({
            let ret = add16(m.regs.pc, 2);
            let r = step(m);
            &&& r.regs.pc == target
            &&& r.regs.s == add8(add8(m.regs.s, -1), -1)
            &&& r.mem == m.mem.insert(stack_addr(m.regs.s), high_byte(ret)).insert(
                stack_addr(add8(m.regs.s, -1)),
                low_byte(ret),
            )
            &&& !r.halted
        }),
{
    let pc = m.regs.pc;
    lemma_known_opcodes();
    lemma_step_dispatch(m);
    let (m1, op, lo, hi) = dispatched(m);
    lemma_execute_stack(m1, op, lo, hi);
    assert(add16(add16(pc, 3), 1 - 3) == add16(pc, 1));
    assert(add16(add16(pc, 1), 1) == add16(pc, 2));
    lemma_word_bytes(target);
}

proof fn lemma_rts_step(m: Machine)
    requires
        !m.halted,
        m.mem[m.regs.pc] == 0x60,
    ensures
        ({
            let lo = m.mem[stack_addr(add8(m.regs.s, 1))];
            let hi = m.mem[stack_addr(add8(add8(m.regs.s, 1), 1))];
            let r = step(m);
            &&& r.regs.pc == add16(word(lo, hi), 1)
            &&& r.regs.s == add8(add8(m.regs.s, 1), 1)
        }),
{
    lemma_known_opcodes();
    lemma_step_dispatch(m);
    let (m1, op, lo, hi) = dispatched(m);
    lemma_execute_stack(m1, op, lo, hi);
}

/// `JSR target` followed by the `RTS` at `target`: the program counter
/// comes back to the instruction after the `JSR`, and the stack pointer to
/// where it was. Neither the `JSR`'s high operand byte nor the `RTS` may
/// sit in the two stack slots that the return address is pushed to.
#[verifier::rlimit(50)]
pub proof fn law_jsr_rts_round_trip(m: Machine, target: u16)
    requires
        !m.halted,
        m.mem[m.regs.pc] == 0x20,
        m.mem[add16(m.regs.pc, 1)] == low_byte(target),
        m.mem[add16(m.regs.pc, 2)] == high_byte(target),
        m.mem[target] == 0x60,
        add16(m.regs.pc, 2) != stack_addr(m.regs.s),
        add16(m.regs.pc, 2) != stack_addr(add8(m.regs.s, -1)),
        target != stack_addr(m.regs.s),
        target != stack_addr(add8(m.regs.s, -1)),
    ensures
        step(m).regs.pc == target,
        step(step(m)).regs.pc == add16(m.regs.pc, 3),
        step(step(m)).regs.s == m.regs.s,
{
    let pc = m.regs.pc;
    let s = m.regs.s;
    let ret = add16(pc, 2);
    lemma_jsr_step(m, target);
    let n1 = step(m);
    assert(stack_addr(s) != stack_addr(add8(s, -1)));
    assert(add8(add8(add8(s, -1), -1), 1) == add8(s, -1));
    assert(add8(add8(s, -1), 1) == s);
    assert(n1.mem[stack_addr(add8(s, -1))] == low_byte(ret));
    assert(n1.mem[stack_addr(s)] == high_byte(ret));
    lemma_rts_step(n1);
    lemma_word_bytes(ret);
    assert(add16(ret, 1) == add16(pc, 3));
}

/// `JMP ($xxFF)` takes the pointer's high byte from `$xx00`, in the same
/// page, not from the next page.
pub proof fn law_jmp_indirect_page_wrap(m: Machine)
    requires
        !m.halted,
        m.mem[m.regs.pc] == 0x6C,
        m.mem[add16(m.regs.pc, 1)] == 0xFF,
    ensures
        ({
            let page = m.mem[add16(m.regs.pc, 2)];
            step(m).regs.pc == word(m.mem[word(0xFF, page)], m.mem[word(0x00, page)])
        }),
{
    lemma_known_opcodes();
    lemma_step_dispatch(m);
    let (m1, op, lo, hi) = dispatched(m);
    lemma_execute_stack(m1, op, lo, hi);
}

/// `(zp,X)` reads its pointer from page zero: the operand plus X wraps
/// within `0x00..=0xFF`, and so does the pointer's second byte.
pub proof fn law_indexed_indirect_wraps(m: Machine, lo: u8, hi: u8, read: bool, cond: bool)
    ensures
        ({
            let (m1, o) = resolve(m, AddrMode::IndX, lo, hi, read, cond);
            let n = m.cycles.len() as int;
            let zp = (lo as int + m.regs.x as int) % 256;
            &&& m1.cycles[n + 1].address == zp
            &&& m1.cycles[n + 2].address == (zp + 1) % 256
            &&& o.addr == word(m.mem[zp as u16], m.mem[((zp + 1) % 256) as u16])
        }),
{
}

/// A branch not taken takes two bus cycles; taken within the page, one
/// more; taken across a page, two more. A taken branch lands on its target.
#[verifier::rlimit(50)]
pub proof fn law_branch_timing(m: Machine)
    requires
        !m.halted,
        is_branch_opcode(m.mem[m.regs.pc]),
    ensures
        ({
            let next = add16(m.regs.pc, 2);
            let target = branch_target(next, m.mem[add16(m.regs.pc, 1)]);
            let instr = opcode_table(m.mem[m.regs.pc]).instr;
            let r = step(m);
            &&& !branch_taken(instr, m.regs.p) ==> r.cycles.len() == 2 && r.regs.pc == next
            &&& branch_taken(instr, m.regs.p) && high_byte(target) == high_byte(next) ==> r.cycles.len() == 3 && r.regs.pc == target
            &&& branch_taken(instr, m.regs.p) && high_byte(target) != high_byte(next) ==> r.cycles.len() == 4 && r.regs.pc == target
        }),
{
    lemma_branch_opcodes(m.mem[m.regs.pc]);
    lemma_step_dispatch(m);
    let (m1, op, lo, hi) = dispatched(m);
    lemma_execute_branch(m1, op, lo, hi);
}

/// Whether `x` is two packed decimal digits.
pub open spec fn is_bcd(x: u8) -> bool {
    x % 16 <= 9 && x / 16 <= 9
}

/// The number that the packed decimal digits of `x` stand for.
pub open spec fn bcd_value(x: u8) -> int {
    (x / 16) as int * 10 + (x % 16) as int
}

/// In binary mode, `ADC v` with carry `c` and then `SBC v` with the carry
/// set to the opposite of `c` gives the accumulator back.
pub proof fn law_adc_then_sbc_binary(a: u8, v: u8, p: u8)
    by (bit_vector)
    requires
        !flag(p, FLAG_D),
    ensures
        ({
            let (sum, flags) = adc(a, v, p);
            sbc(sum, v, with_flag(flags, FLAG_C, !flag(p, FLAG_C))).0 == a
        }),
{
}

/// In decimal mode, for packed decimal `a` and `v`, `ADC` leaves the packed
/// decimal form of `(a + v + C) mod 100` in A, and sets C exactly when the
/// sum passes 99.
pub proof fn law_adc_decimal(a: u8, v: u8, p: u8)
    by (bit_vector)
    requires
        flag(p, FLAG_D),
        is_bcd(a),
        is_bcd(v),
    ensures
        ({
            let (r, q) = adc(a, v, p);
            let sum = bcd_value(a) + bcd_value(v) + if flag(p, FLAG_C) { 1int } else { 0int };
            &&& is_bcd(r)
            &&& bcd_value(r) == sum % 100
            &&& flag(q, FLAG_C) == (sum > 99)
        }),
{
}

/// Every bus cycle of a step is on an address that fits in 16 bits.
pub proof fn law_cycle_addresses_fit(m: Machine)
    ensures
        forall|i: int| 0 <= i < step(m).cycles.len() ==> step(m).cycles[i].address <= 0xFFFF,
{
}

/// In binary mode, `ADC #v` and then `SBC #v`, with the carry set to the
/// opposite of what it was before the `ADC`, leave A as it was.
#[verifier::rlimit(50)]
pub proof fn law_adc_sbc_immediate_round_trip(m: Machine, v: u8)
    requires
        !m.halted,
        !flag(m.regs.p, FLAG_D),
        m.mem[m.regs.pc] == 0x69,
        m.mem[add16(m.regs.pc, 1)] == v,
        m.mem[add16(m.regs.pc, 2)] == 0xE9,
        m.mem[add16(m.regs.pc, 3)] == v,
    ensures
        ({
            let m1 = step(m);
            let m2 = step(m1.with_p(with_flag(m1.regs.p, FLAG_C, !flag(m.regs.p, FLAG_C))));
            &&& m2.regs.a == m.regs.a
            &&& m2.regs.pc == add16(m.regs.pc, 4)
        }),
{
    let pc = m.regs.pc;
    lemma_known_opcodes();
    lemma_step_dispatch(m);
    let (d1, op1, lo1, hi1) = dispatched(m);
    lemma_execute_arith(d1, op1, lo1, hi1);
    let m1 = step(m);
    let n1 = m1.with_p(with_flag(m1.regs.p, FLAG_C, !flag(m.regs.p, FLAG_C)));
    assert(n1.regs.pc == add16(pc, 2));
    assert(add16(add16(pc, 2), 1) == add16(pc, 3));
    lemma_step_dispatch(n1);
    let (d2, op2, lo2, hi2) = dispatched(n1);
    lemma_execute_arith(d2, op2, lo2, hi2);
    law_adc_then_sbc_binary(m.regs.a, v, m.regs.p);
    assert(add16(add16(pc, 2), 2) == add16(pc, 4));
}

/// In decimal mode, `ADC #v` on packed decimal A and `v` leaves the packed
/// decimal form of `(A + v + C) mod 100` in A, and sets C exactly when the
/// sum passes 99.
pub proof fn law_adc_immediate_decimal(m: Machine, v: u8)
    requires
        !m.halted,
        flag(m.regs.p, FLAG_D),
        is_bcd(m.regs.a),
        is_bcd(v),
        m.mem[m.regs.pc] == 0x69,
        m.mem[add16(m.regs.pc, 1)] == v,
    ensures
        ({
            let r = step(m).regs;
            let sum = bcd_value(m.regs.a) + bcd_value(v) + if flag(m.regs.p, FLAG_C) { 1int } else { 0int };
            &&& is_bcd(r.a)
            &&& bcd_value(r.a) == sum % 100
            &&& flag(r.p, FLAG_C) == (sum > 99)
        }),
{
    lemma_known_opcodes();
    lemma_step_dispatch(m);
    let (d1, op1, lo1, hi1) = dispatched(m);
    lemma_execute_arith(d1, op1, lo1, hi1);
    law_adc_decimal(m.regs.a, v, m.regs.p);
}

/// A halted processor does nothing on a step: no bus cycles, no change.
pub proof fn law_halted_is_inert(m: Machine)
    requires
        m.halted,
    ensures
        step(m).cycles.len() == 0,
        step(m).regs == m.regs,
        step(m).mem == m.mem,
        step(m).halted,
{
}

/// After a `JAM` opcode the program counter is back at the opcode and the
/// processor is halted.
pub proof fn law_jam_halts_in_place(m: Machine)
    requires
        !m.halted,
        opcode_table(m.mem[m.regs.pc]).instr == Instr::Jam,
    ensures
        step(m).regs.pc == m.regs.pc,
        step(m).halted,
{
    let pc = m.regs.pc;
    let op = opcode_table(m.mem[pc]);
    assert(1 <= op.bytes <= 3) by {
        reveal(opcode_table);
    }
    let (m1, lo, hi) = crate::model::fetch_operands(Machine { cycles: Seq::empty(), ..m }.read(pc), m.mem[pc], op.bytes);
    lemma_execute_jam(m1.with_pc(add16(pc, op.bytes as int)), op, lo, hi);
}

/// `PHA`, then any value put in A, then `PLA`: A holds the pushed value
/// again, Z and N describe it, and the stack pointer is back where it was.
/// The `PLA` opcode must not sit in the stack slot that `PHA` writes.
#[verifier::rlimit(50)]
pub proof fn law_pha_pla_round_trip(m: Machine, other: u8)
    requires
        !m.halted,
        m.mem[m.regs.pc] == 0x48,
        m.mem[add16(m.regs.pc, 1)] == 0x68,
        add16(m.regs.pc, 1) != stack_addr(m.regs.s),
    ensures
        ({
            let m1 = step(m);
            let m2 = step(m1.with_regs(Registers { a: other, ..m1.regs }));
            &&& m2.regs.a == m.regs.a
            &&& flag(m2.regs.p, FLAG_Z) == (m.regs.a == 0)
            &&& flag(m2.regs.p, FLAG_N) == (m.regs.a >= 0x80)
            &&& m2.regs.s == m.regs.s
        }),
{
    let pc = m.regs.pc;
    let s = m.regs.s;
    lemma_known_opcodes();
    let m0 = Machine { cycles: Seq::empty(), ..m }.read(pc).read(add16(pc, 1)).with_pc(add16(pc, 1));
    lemma_execute_pha(m0, opcode_table(0x48), m.mem[add16(pc, 1)], 0);
    let m1 = step(m);
    assert(m1.regs.pc == add16(pc, 1));
    assert(m1.regs.s == add8(s, -1));
    assert(m1.mem == m.mem.insert(stack_addr(s), m.regs.a));
    let m1b = m1.with_regs(Registers { a: other, ..m1.regs });
    assert(m1b.mem[add16(pc, 1)] == 0x68);
    let pc1 = add16(pc, 1);
    let m1c = Machine { cycles: Seq::empty(), ..m1b }.read(pc1).read(add16(pc1, 1)).with_pc(add16(pc1, 1));
    lemma_execute_pla(m1c, opcode_table(0x68), m1b.mem[add16(pc1, 1)], 0);
    let m2 = step(m1b);
    assert(add8(add8(s, -1), 1) == s);
    assert(m2.regs.a == m.regs.a);
    lemma_with_zn(m1b.regs.p, m.regs.a);
}

} // verus!
