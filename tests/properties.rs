use rust_6502::{Cpu6502, CycleKind, Ram, FLAG_C, FLAG_D, FLAG_E, FLAG_N, FLAG_Z};

fn cpu_at(pc: u16, program: &[u8]) -> Cpu6502<Ram> {
    let mut ram = Ram::new();
    for (i, &b) in program.iter().enumerate() {
        ram.poke(pc.wrapping_add(i as u16), b);
    }
    let mut cpu = Cpu6502::new(ram);
    cpu.registers.pc = pc;
    cpu
}

#[test]
fn cycle_count_matches_log() {
    // LDA ($10),Y across a page, INC $1234,X, BRK.
    let mut cpu = cpu_at(0x0400, &[0xB1, 0x10, 0xFE, 0x34, 0x12, 0x00]);
    cpu.bus.poke(0x10, 0xF0);
    cpu.bus.poke(0x11, 0x20);
    cpu.registers.y = 0x20;
    cpu.registers.x = 0x01;
    for expected in [6u8, 7, 7] {
        let n = cpu.tick();
        assert_eq!(n, expected);
        assert_eq!(n as usize, cpu.cycles().len());
    }
}

#[test]
fn pushed_status_has_extension_bit() {
    let mut cpu = cpu_at(0x0400, &[0x08, 0x00]);
    cpu.registers.s = 0xFF;
    cpu.registers.p = 0;
    cpu.tick();
    let pushed = cpu.cycles()[2];
    assert_eq!(pushed.kind, CycleKind::Write);
    assert_eq!(pushed.address, 0x01FF);
    assert_eq!(pushed.value, 0x30);
    assert_ne!(pushed.value & FLAG_E, 0);

    cpu.tick();
    let pushed = cpu.cycles()[4];
    assert_eq!(pushed.kind, CycleKind::Write);
    assert_eq!(pushed.address, 0x01FC);
    assert_ne!(pushed.value & FLAG_E, 0);
}

#[test]
fn jam_halts_in_place() {
    let mut cpu = cpu_at(0x0400, &[0x02, 0xEA]);
    let n = cpu.tick();
    assert_eq!(n, 2);
    assert_eq!(cpu.registers.pc, 0x0400);
    assert!(cpu.is_halted());
    assert_eq!(cpu.tick(), 0);
    assert!(cpu.cycles().is_empty());
    assert_eq!(cpu.registers.pc, 0x0400);

    cpu.bus.poke(0xFFFC, 0x00);
    cpu.bus.poke(0xFFFD, 0x06);
    cpu.reset();
    assert!(!cpu.is_halted());
    assert_eq!(cpu.registers.pc, 0x0600);
    assert_eq!(cpu.registers.p, 0x24);
}

#[test]
fn pha_pla_round_trip() {
    for v in [0x00u8, 0x01, 0x7F, 0x80, 0xFF] {
        let mut cpu = cpu_at(0x0400, &[0x48, 0x68]);
        cpu.registers.s = 0xFF;
        cpu.registers.a = v;
        cpu.tick();
        cpu.registers.a = 0;
        cpu.tick();
        assert_eq!(cpu.registers.a, v);
        assert_eq!(cpu.registers.p & FLAG_Z != 0, v == 0);
        assert_eq!(cpu.registers.p & FLAG_N != 0, v >= 0x80);
        assert_eq!(cpu.registers.s, 0xFF);
    }
}

#[test]
fn jsr_rts_round_trip() {
    for target in [0x0000u16, 0x1234, 0x80FF, 0xFFF0] {
        let mut cpu = cpu_at(0x0400, &[0x20, target as u8, (target >> 8) as u8]);
        cpu.bus.poke(target, 0x60);
        cpu.registers.s = 0xF0;
        cpu.tick();
        assert_eq!(cpu.registers.pc, target);
        assert_eq!(cpu.tick(), 6);
        assert_eq!(cpu.registers.pc, 0x0403);
        assert_eq!(cpu.registers.s, 0xF0);
    }
}

#[test]
fn php_plp_restores_flags() {
    for p in [0x00u8, 0xCF, 0x41, 0x8A] {
        let mut cpu = cpu_at(0x0400, &[0x08, 0x28]);
        cpu.registers.s = 0xFF;
        cpu.registers.p = p;
        cpu.tick();
        cpu.registers.p = !p;
        cpu.tick();
        assert_eq!(cpu.registers.p & 0xCF, p & 0xCF);
        assert_eq!(cpu.registers.s, 0xFF);
    }
}

#[test]
fn adc_then_sbc_binary_is_identity() {
    for a in [0x00u8, 0x01, 0x7F, 0x80, 0xC3, 0xFF] {
        for v in [0x00u8, 0x01, 0x50, 0x80, 0xFF] {
            for carry in [false, true] {
                let mut cpu = cpu_at(0x0400, &[0x69, v, 0xE9, v]);
                cpu.registers.a = a;
                cpu.registers.p = if carry { FLAG_C } else { 0 };
                cpu.tick();
                if carry {
                    cpu.registers.p &= !FLAG_C;
                } else {
                    cpu.registers.p |= FLAG_C;
                }
                cpu.tick();
                assert_eq!(cpu.registers.a, a);
            }
        }
    }
}

#[test]
fn adc_decimal_all_digits() {
    for a in 0..100u8 {
        for b in 0..100u8 {
            for carry in [0u8, 1] {
                let pa = (a / 10) << 4 | (a % 10);
                let pb = (b / 10) << 4 | (b % 10);
                let mut cpu = cpu_at(0x0400, &[0x69, pb]);
                cpu.registers.a = pa;
                cpu.registers.p = FLAG_D | carry;
                cpu.tick();
                let sum = a as u32 + b as u32 + carry as u32;
                let r = (sum % 100) as u8;
                assert_eq!(cpu.registers.a, (r / 10) << 4 | (r % 10));
                assert_eq!(cpu.registers.p & FLAG_C != 0, sum > 99);
            }
        }
    }
}

#[test]
fn indexed_indirect_wraps_in_zero_page() {
    // LDA ($F0,X) with X = 0x15: pointer at 0x05/0x06, not 0x0105.
    let mut cpu = cpu_at(0x0400, &[0xA1, 0xF0]);
    cpu.registers.x = 0x15;
    cpu.bus.poke(0x0005, 0x00);
    cpu.bus.poke(0x0006, 0x30);
    cpu.bus.poke(0x0105, 0xEE);
    cpu.bus.poke(0x3000, 0x99);
    assert_eq!(cpu.tick(), 6);
    assert_eq!(cpu.cycles()[2].address, 0x00F0);
    assert_eq!(cpu.cycles()[3].address, 0x0005);
    assert_eq!(cpu.cycles()[4].address, 0x0006);
    assert_eq!(cpu.registers.a, 0x99);

    // Pointer at 0xFF: its second byte comes from 0x00.
    let mut cpu = cpu_at(0x0400, &[0xA1, 0xFE]);
    cpu.registers.x = 0x01;
    cpu.bus.poke(0x00FF, 0x34);
    cpu.bus.poke(0x0000, 0x12);
    cpu.bus.poke(0x1234, 0x5A);
    cpu.tick();
    assert_eq!(cpu.cycles()[4].address, 0x0000);
    assert_eq!(cpu.registers.a, 0x5A);
}

#[test]
fn jmp_indirect_stays_in_page() {
    let mut cpu = cpu_at(0x0400, &[0x6C, 0xFF, 0x30]);
    cpu.bus.poke(0x30FF, 0x78);
    cpu.bus.poke(0x3000, 0x56);
    cpu.bus.poke(0x3100, 0x99);
    cpu.tick();
    assert_eq!(cpu.registers.pc, 0x5678);
}

#[test]
fn branch_extra_cycles() {
    // BCC with a backward offset across a page.
    let mut cpu = cpu_at(0x0400, &[0x90, 0xF0]);
    cpu.registers.p = 0;
    assert_eq!(cpu.tick(), 4);
    assert_eq!(cpu.registers.pc, 0x03F2);

    // BCS, same page, taken.
    let mut cpu = cpu_at(0x0410, &[0xB0, 0xFE]);
    cpu.registers.p = FLAG_C;
    assert_eq!(cpu.tick(), 3);
    assert_eq!(cpu.registers.pc, 0x0410);

    // BMI not taken.
    let mut cpu = cpu_at(0x0410, &[0x30, 0x40]);
    assert_eq!(cpu.tick(), 2);
    assert_eq!(cpu.registers.pc, 0x0412);
}
