use rust_6502::alu::{add_with_carry, arr_value, compare_flags, subtract_with_borrow};
use rust_6502::opcodes::{decode, AddrMode, Instr};
use rust_6502::{BusCycle, Cpu6502, CycleKind, Ram, FLAG_C, FLAG_D, FLAG_I, FLAG_N, FLAG_V, FLAG_Z};

fn cpu_at(pc: u16, program: &[u8]) -> Cpu6502<Ram> {
    let mut ram = Ram::new();
    for (i, &b) in program.iter().enumerate() {
        ram.poke(pc.wrapping_add(i as u16), b);
    }
    let mut cpu = Cpu6502::new(ram);
    cpu.registers.pc = pc;
    cpu
}

fn rd(address: u16, value: u8) -> BusCycle {
    BusCycle { address, value, kind: CycleKind::Read }
}

fn wr(address: u16, value: u8) -> BusCycle {
    BusCycle { address, value, kind: CycleKind::Write }
}

#[test]
fn new_cpu_is_zeroed() {
    let cpu = Cpu6502::new(Ram::new());
    assert_eq!(cpu.registers.pc, 0);
    assert_eq!(cpu.registers.s, 0);
    assert_eq!(cpu.registers.p, 0);
    assert!(!cpu.is_halted());
    assert!(cpu.cycles().is_empty());
}

#[test]
fn reset_reads_vector() {
    let mut ram = Ram::new();
    ram.poke(0xFFFC, 0x34);
    ram.poke(0xFFFD, 0x12);
    let mut cpu = Cpu6502::new(ram);
    cpu.reset();
    assert_eq!(cpu.registers.pc, 0x1234);
    assert_eq!(cpu.registers.p, 0x24);
    assert_eq!(cpu.cycles().clone(), vec![rd(0xFFFC, 0x34), rd(0xFFFD, 0x12)]);
}

#[test]
fn implied_reads_dummy_operand() {
    let mut cpu = cpu_at(0x0400, &[0xEA, 0x77]);
    assert_eq!(cpu.tick(), 2);
    assert_eq!(cpu.cycles().clone(), vec![rd(0x0400, 0xEA), rd(0x0401, 0x77)]);
    assert_eq!(cpu.registers.pc, 0x0401);
}

#[test]
fn inc_zero_page_dummy_write() {
    let mut cpu = cpu_at(0x0400, &[0xE6, 0x10]);
    cpu.bus.poke(0x10, 0xFF);
    assert_eq!(cpu.tick(), 5);
    assert_eq!(
        cpu.cycles().clone(),
        vec![rd(0x0400, 0xE6), rd(0x0401, 0x10), rd(0x0010, 0xFF), wr(0x0010, 0xFF), wr(0x0010, 0x00)]
    );
    assert_ne!(cpu.registers.p & FLAG_Z, 0);
}

#[test]
fn lda_absolute_x_page_cross() {
    let mut cpu = cpu_at(0x0400, &[0xBD, 0xF0, 0x20]);
    cpu.registers.x = 0x20;
    cpu.bus.poke(0x2010, 0x11);
    cpu.bus.poke(0x2110, 0x80);
    assert_eq!(cpu.tick(), 5);
    assert_eq!(cpu.cycles()[3], rd(0x2010, 0x11));
    assert_eq!(cpu.cycles()[4], rd(0x2110, 0x80));
    assert_eq!(cpu.registers.a, 0x80);
    assert_ne!(cpu.registers.p & FLAG_N, 0);

    // No page cross: the first read is the value.
    let mut cpu = cpu_at(0x0400, &[0xBD, 0x00, 0x20]);
    cpu.registers.x = 0x10;
    cpu.bus.poke(0x2010, 0x11);
    assert_eq!(cpu.tick(), 4);
    assert_eq!(cpu.registers.a, 0x11);
}

#[test]
fn sta_absolute_x_always_reads_unfixed() {
    let mut cpu = cpu_at(0x0400, &[0x9D, 0x00, 0x20]);
    cpu.registers.x = 0x10;
    cpu.registers.a = 0x42;
    assert_eq!(cpu.tick(), 5);
    assert_eq!(cpu.cycles()[3], rd(0x2010, 0x00));
    assert_eq!(cpu.cycles()[4], wr(0x2010, 0x42));
}

#[test]
fn adc_binary_flags() {
    let mut cpu = cpu_at(0x0400, &[0x69, 0x50]);
    cpu.registers.a = 0x50;
    cpu.tick();
    assert_eq!(cpu.registers.a, 0xA0);
    assert_ne!(cpu.registers.p & FLAG_V, 0);
    assert_ne!(cpu.registers.p & FLAG_N, 0);
    assert_eq!(cpu.registers.p & FLAG_C, 0);

    let mut cpu = cpu_at(0x0400, &[0x69, 0x01]);
    cpu.registers.a = 0xFF;
    cpu.tick();
    assert_eq!(cpu.registers.a, 0x00);
    assert_ne!(cpu.registers.p & FLAG_C, 0);
    assert_ne!(cpu.registers.p & FLAG_Z, 0);
}

#[test]
fn sbc_decimal() {
    let mut cpu = cpu_at(0x0400, &[0xE9, 0x01]);
    cpu.registers.a = 0x10;
    cpu.registers.p = FLAG_D | FLAG_C;
    cpu.tick();
    assert_eq!(cpu.registers.a, 0x09);
    assert_ne!(cpu.registers.p & FLAG_C, 0);

    let mut cpu = cpu_at(0x0400, &[0xE9, 0x01]);
    cpu.registers.a = 0x00;
    cpu.registers.p = FLAG_D | FLAG_C;
    cpu.tick();
    assert_eq!(cpu.registers.a, 0x99);
    assert_eq!(cpu.registers.p & FLAG_C, 0);
}

#[test]
fn compare_sets_carry() {
    let mut cpu = cpu_at(0x0400, &[0xC9, 0x10, 0xE0, 0x30, 0xC0, 0x05]);
    cpu.registers.a = 0x20;
    cpu.registers.x = 0x20;
    cpu.registers.y = 0x05;
    cpu.tick();
    assert_ne!(cpu.registers.p & FLAG_C, 0);
    assert_eq!(cpu.registers.p & FLAG_Z, 0);
    cpu.tick();
    assert_eq!(cpu.registers.p & FLAG_C, 0);
    assert_ne!(cpu.registers.p & FLAG_N, 0);
    cpu.tick();
    assert_ne!(cpu.registers.p & FLAG_Z, 0);
    assert_ne!(cpu.registers.p & FLAG_C, 0);
}

#[test]
fn bit_copies_high_bits() {
    let mut cpu = cpu_at(0x0400, &[0x24, 0x10]);
    cpu.bus.poke(0x10, 0xC0);
    cpu.registers.a = 0x01;
    cpu.tick();
    assert_ne!(cpu.registers.p & FLAG_N, 0);
    assert_ne!(cpu.registers.p & FLAG_V, 0);
    assert_ne!(cpu.registers.p & FLAG_Z, 0);
}

#[test]
fn rotates_through_carry() {
    let mut cpu = cpu_at(0x0400, &[0x2A, 0x6A, 0x0A, 0x4A]);
    cpu.registers.a = 0x80;
    cpu.registers.p = FLAG_C;
    cpu.tick(); // ROL A
    assert_eq!(cpu.registers.a, 0x01);
    assert_ne!(cpu.registers.p & FLAG_C, 0);
    cpu.tick(); // ROR A
    assert_eq!(cpu.registers.a, 0x80);
    assert_ne!(cpu.registers.p & FLAG_C, 0);
    cpu.tick(); // ASL A
    assert_eq!(cpu.registers.a, 0x00);
    assert_ne!(cpu.registers.p & FLAG_Z, 0);
    assert_ne!(cpu.registers.p & FLAG_C, 0);
    cpu.registers.a = 0x03;
    cpu.tick(); // LSR A
    assert_eq!(cpu.registers.a, 0x01);
    assert_ne!(cpu.registers.p & FLAG_C, 0);
}

#[test]
fn brk_and_rti() {
    let mut cpu = cpu_at(0x0400, &[0x00, 0xFF]);
    cpu.bus.poke(0xFFFE, 0x00);
    cpu.bus.poke(0xFFFF, 0x90);
    cpu.bus.poke(0x9000, 0x40);
    cpu.registers.s = 0xFF;
    cpu.registers.p = FLAG_C;
    assert_eq!(cpu.tick(), 7);
    assert_eq!(cpu.registers.pc, 0x9000);
    assert_ne!(cpu.registers.p & FLAG_I, 0);
    assert_eq!(cpu.bus.peek(0x01FF), 0x04);
    assert_eq!(cpu.bus.peek(0x01FE), 0x02);
    assert_eq!(cpu.bus.peek(0x01FD), 0x31);
    assert_eq!(cpu.tick(), 6);
    assert_eq!(cpu.registers.pc, 0x0402);
    assert_eq!(cpu.registers.s, 0xFF);
    assert_eq!(cpu.registers.p & 0xCF, FLAG_C);
}

#[test]
fn transfers_and_counters() {
    let mut cpu = cpu_at(0x0400, &[0xAA, 0xE8, 0x9A, 0xBA, 0xCA, 0x88, 0xA8]);
    cpu.registers.a = 0xFF;
    cpu.tick(); // TAX
    assert_eq!(cpu.registers.x, 0xFF);
    cpu.tick(); // INX
    assert_eq!(cpu.registers.x, 0x00);
    assert_ne!(cpu.registers.p & FLAG_Z, 0);
    let p = cpu.registers.p;
    cpu.tick(); // TXS
    assert_eq!(cpu.registers.s, 0x00);
    assert_eq!(cpu.registers.p, p);
    cpu.tick(); // TSX
    cpu.tick(); // DEX
    assert_eq!(cpu.registers.x, 0xFF);
    cpu.tick(); // DEY
    assert_eq!(cpu.registers.y, 0xFF);
    cpu.tick(); // TAY
    assert_eq!(cpu.registers.y, 0xFF);
    assert_ne!(cpu.registers.p & FLAG_N, 0);
}

#[test]
fn illegal_slo_and_dcp() {
    let mut cpu = cpu_at(0x0400, &[0x07, 0x10, 0xC7, 0x11]);
    cpu.bus.poke(0x10, 0x81);
    cpu.bus.poke(0x11, 0x43);
    cpu.registers.a = 0x01;
    assert_eq!(cpu.tick(), 5); // SLO $10
    assert_eq!(cpu.bus.peek(0x10), 0x02);
    assert_eq!(cpu.registers.a, 0x03);
    assert_ne!(cpu.registers.p & FLAG_C, 0);
    cpu.registers.a = 0x42;
    cpu.tick(); // DCP $11
    assert_eq!(cpu.bus.peek(0x11), 0x42);
    assert_ne!(cpu.registers.p & FLAG_Z, 0);
    assert_ne!(cpu.registers.p & FLAG_C, 0);
}

#[test]
fn illegal_isc_and_rra() {
    let mut cpu = cpu_at(0x0400, &[0xE7, 0x10, 0x67, 0x11]);
    cpu.bus.poke(0x10, 0x0F);
    cpu.bus.poke(0x11, 0x03);
    cpu.registers.a = 0x20;
    cpu.registers.p = FLAG_C;
    cpu.tick(); // ISC $10: mem 0x10, A = 0x20 - 0x10
    assert_eq!(cpu.bus.peek(0x10), 0x10);
    assert_eq!(cpu.registers.a, 0x10);
    cpu.tick(); // RRA $11: mem 0x81 (carry in), carry out 1, A = 0x10 + 0x81 + 1
    assert_eq!(cpu.bus.peek(0x11), 0x81);
    assert_eq!(cpu.registers.a, 0x92);
}

#[test]
fn illegal_unstable_constants() {
    let mut cpu = cpu_at(0x0400, &[0x8B, 0xFF, 0xAB, 0x0F]);
    cpu.registers.a = 0x00;
    cpu.registers.x = 0x3C;
    cpu.tick(); // ANE #$FF
    assert_eq!(cpu.registers.a, 0x2C);
    cpu.registers.a = 0x01;
    cpu.tick(); // LXA #$0F
    assert_eq!(cpu.registers.a, 0x0F);
    assert_eq!(cpu.registers.x, 0x0F);
}

#[test]
fn illegal_sbx_las_lax() {
    let mut cpu = cpu_at(0x0400, &[0xCB, 0x02, 0xBB, 0x00, 0x30, 0xA7, 0x20]);
    cpu.registers.a = 0xF0;
    cpu.registers.x = 0x3F;
    cpu.tick(); // SBX #$02: X = 0x30 - 2
    assert_eq!(cpu.registers.x, 0x2E);
    assert_ne!(cpu.registers.p & FLAG_C, 0);
    cpu.registers.s = 0x5A;
    cpu.registers.y = 0x00;
    cpu.bus.poke(0x3000, 0xF3);
    cpu.tick(); // LAS $3000,Y
    assert_eq!(cpu.registers.a, 0x52);
    assert_eq!(cpu.registers.x, 0x52);
    assert_eq!(cpu.registers.s, 0x52);
    cpu.bus.poke(0x20, 0x99);
    cpu.tick(); // LAX $20
    assert_eq!(cpu.registers.a, 0x99);
    assert_eq!(cpu.registers.x, 0x99);
}

#[test]
fn illegal_store_high_quirk() {
    // SHX $20F0,Y without a page cross: X & (0x20 + 1).
    let mut cpu = cpu_at(0x0400, &[0x9E, 0xF0, 0x20]);
    cpu.registers.x = 0xFF;
    cpu.registers.y = 0x01;
    cpu.tick();
    assert_eq!(cpu.bus.peek(0x20F1), 0x21);

    // With a page cross the stored value replaces the address's high byte.
    let mut cpu = cpu_at(0x0400, &[0x9E, 0xF0, 0x21]);
    cpu.registers.x = 0x13;
    cpu.registers.y = 0x20;
    cpu.tick();
    assert_eq!(cpu.bus.peek(0x0210), 0x02);

    // TAS sets S to A & X.
    let mut cpu = cpu_at(0x0400, &[0x9B, 0x00, 0x30]);
    cpu.registers.a = 0xF3;
    cpu.registers.x = 0x7E;
    cpu.registers.y = 0x01;
    cpu.tick();
    assert_eq!(cpu.registers.s, 0x72);
    assert_eq!(cpu.bus.peek(0x3001), 0x30);
}

#[test]
fn illegal_arr_anc_alr() {
    let mut cpu = cpu_at(0x0400, &[0x6B, 0xFF, 0x0B, 0x80, 0x4B, 0x03]);
    cpu.registers.a = 0xC0;
    cpu.registers.p = 0;
    cpu.tick(); // ARR #$FF: 0xC0 ror = 0x60; C = bit 6, V = bit6 ^ bit5
    assert_eq!(cpu.registers.a, 0x60);
    assert_ne!(cpu.registers.p & FLAG_C, 0);
    assert_eq!(cpu.registers.p & FLAG_V, 0);
    cpu.registers.a = 0xF0;
    cpu.tick(); // ANC #$80
    assert_eq!(cpu.registers.a, 0x80);
    assert_ne!(cpu.registers.p & FLAG_C, 0);
    cpu.registers.a = 0xFF;
    cpu.tick(); // ALR #$03
    assert_eq!(cpu.registers.a, 0x01);
    assert_ne!(cpu.registers.p & FLAG_C, 0);
}

#[test]
fn nop_addressing_cycles() {
    let mut cpu = cpu_at(0x0400, &[0x0C, 0x00, 0x20, 0x14, 0x10, 0x1C, 0xF0, 0x20]);
    assert_eq!(cpu.tick(), 4); // NOP $2000
    cpu.registers.x = 0x20;
    assert_eq!(cpu.tick(), 4); // NOP $10,X
    assert_eq!(cpu.tick(), 5); // NOP $20F0,X across a page
    assert_eq!(cpu.registers.pc, 0x0408);
}

#[test]
fn ram_peek_poke() {
    let mut ram = Ram::new();
    assert_eq!(ram.peek(0xFFFF), 0);
    ram.poke(0xFFFF, 7);
    ram.poke(0x0000, 9);
    assert_eq!(ram.peek(0xFFFF), 7);
    assert_eq!(ram.peek(0x0000), 9);
}

#[test]
fn decode_table_entries() {
    for op in 0..=255u8 {
        let e = decode(op);
        assert!(1 <= e.bytes && e.bytes <= 3);
    }
    let brk = decode(0x00);
    assert_eq!((brk.instr, brk.mode, brk.bytes), (Instr::Brk, AddrMode::Imp, 2));
    let jmp = decode(0x6C);
    assert_eq!((jmp.instr, jmp.mode, jmp.bytes), (Instr::Jmp, AddrMode::Ind, 3));
    let lax = decode(0xB3);
    assert_eq!((lax.instr, lax.mode, lax.bytes), (Instr::Lax, AddrMode::IndY, 2));
    let jams = (0..=255u8).filter(|&op| decode(op).instr == Instr::Jam).count();
    assert_eq!(jams, 12);
}

#[test]
fn alu_functions() {
    assert_eq!(add_with_carry(0x19, 0x28, FLAG_D), (0x47, FLAG_D));
    assert_eq!(add_with_carry(0x7F, 0x01, 0), (0x80, FLAG_N | FLAG_V));
    assert_eq!(subtract_with_borrow(0x05, 0x03, FLAG_C), (0x02, FLAG_C));
    assert_eq!(subtract_with_borrow(0x80, 0x01, FLAG_C), (0x7F, FLAG_C | FLAG_V));
    assert_eq!(compare_flags(0x10, 0x20, 0), FLAG_N);
    // Decimal ARR: low nibble of the AND result above 4 and high nibble above 4.
    assert_eq!(arr_value(0x55, FLAG_D), (0x80, FLAG_D | FLAG_C | FLAG_V));
}
