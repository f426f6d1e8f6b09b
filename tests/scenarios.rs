use rust_6502::{BusCycle, Cpu6502, CycleKind, Ram, FLAG_C, FLAG_D, FLAG_N, FLAG_V, FLAG_Z};

fn cpu_with(program: &[(u16, u8)]) -> Cpu6502<Ram> {
    let mut ram = Ram::new();
    for &(address, value) in program {
        ram.poke(address, value);
    }
    Cpu6502::new(ram)
}

fn rd(address: u16, value: u8) -> BusCycle {
    BusCycle { address, value, kind: CycleKind::Read }
}

fn wr(address: u16, value: u8) -> BusCycle {
    BusCycle { address, value, kind: CycleKind::Write }
}

#[test]
fn lda_immediate() {
    let mut cpu = cpu_with(&[(0x8000, 0xA9), (0x8001, 0x42)]);
    cpu.registers.pc = 0x8000;
    let n = cpu.tick();
    assert_eq!(cpu.registers.a, 0x42);
    assert_eq!(cpu.registers.pc, 0x8002);
    assert_eq!(cpu.registers.p & FLAG_Z, 0);
    assert_eq!(cpu.registers.p & FLAG_N, 0);
    assert_eq!(n, 2);
    assert_eq!(cpu.cycles().clone(), vec![rd(0x8000, 0xA9), rd(0x8001, 0x42)]);
}

#[test]
fn sta_absolute() {
    let mut cpu = cpu_with(&[(0x8000, 0x8D), (0x8001, 0x34), (0x8002, 0x12)]);
    cpu.registers.pc = 0x8000;
    cpu.registers.a = 0x55;
    let n = cpu.tick();
    assert_eq!(cpu.bus.peek(0x1234), 0x55);
    assert_eq!(cpu.registers.pc, 0x8003);
    assert_eq!(n, 4);
    assert_eq!(*cpu.cycles().last().unwrap(), wr(0x1234, 0x55));
}

#[test]
fn jmp_indirect_page_bug() {
    let mut cpu = cpu_with(&[
        (0x4000, 0x6C),
        (0x4001, 0xFF),
        (0x4002, 0x02),
        (0x02FF, 0x00),
        (0x0200, 0x80),
        (0x0300, 0x50),
    ]);
    cpu.registers.pc = 0x4000;
    let n = cpu.tick();
    assert_eq!(cpu.registers.pc, 0x8000);
    assert_eq!(n, 5);
    assert_eq!(cpu.cycles()[3], rd(0x02FF, 0x00));
    assert_eq!(cpu.cycles()[4], rd(0x0200, 0x80));
}

#[test]
fn adc_decimal_examples() {
    let mut cpu = cpu_with(&[(0x8000, 0x69), (0x8001, 0x28), (0x8002, 0x69), (0x8003, 0x55)]);
    cpu.registers.pc = 0x8000;
    cpu.registers.p = FLAG_D;
    cpu.registers.a = 0x19;
    cpu.tick();
    assert_eq!(cpu.registers.a, 0x47);
    assert_eq!(cpu.registers.p & (FLAG_C | FLAG_N | FLAG_V | FLAG_Z), 0);

    cpu.registers.a = 0x55;
    cpu.bus.poke(0x8003, 0x55);
    cpu.tick();
    assert_eq!(cpu.registers.a, 0x10);
    assert_ne!(cpu.registers.p & FLAG_C, 0);
}

#[test]
fn jsr_cycle_sequence() {
    let mut cpu = cpu_with(&[(0x8000, 0x20), (0x8001, 0x34), (0x8002, 0x12), (0x01FF, 0x77)]);
    cpu.registers.pc = 0x8000;
    cpu.registers.s = 0xFF;
    let n = cpu.tick();
    assert_eq!(n, 6);
    assert_eq!(
        cpu.cycles().clone(),
        vec![
            rd(0x8000, 0x20),
            rd(0x8001, 0x34),
            rd(0x01FF, 0x77),
            wr(0x01FF, 0x80),
            wr(0x01FE, 0x02),
            rd(0x8002, 0x12),
        ]
    );
    assert_eq!(cpu.registers.pc, 0x1234);
    assert_eq!(cpu.registers.s, 0xFD);
}

#[test]
fn jsr_reads_high_byte_after_pushes() {
    // The return address is pushed over the JSR's own high operand byte.
    let mut cpu = cpu_with(&[(0x01FD, 0x20), (0x01FE, 0x34), (0x01FF, 0x12)]);
    cpu.registers.pc = 0x01FD;
    cpu.registers.s = 0xFF;
    cpu.tick();
    // Pushed: 0x01 at 0x01FF, then 0xFF at 0x01FE; the high byte is read from 0x01FF.
    assert_eq!(cpu.registers.pc, 0x0134);
}

#[test]
fn bne_timing() {
    // Not taken.
    let mut cpu = cpu_with(&[(0x8000, 0xD0), (0x8001, 0x05)]);
    cpu.registers.pc = 0x8000;
    cpu.registers.p = FLAG_Z;
    assert_eq!(cpu.tick(), 2);
    assert_eq!(cpu.registers.pc, 0x8002);

    // Taken, same page.
    cpu.registers.pc = 0x8000;
    cpu.registers.p = 0;
    assert_eq!(cpu.tick(), 3);
    assert_eq!(cpu.registers.pc, 0x8007);

    // Taken, across a page.
    cpu.bus.poke(0x80FA, 0xD0);
    cpu.bus.poke(0x80FB, 0x05);
    cpu.registers.pc = 0x80FA;
    assert_eq!(cpu.tick(), 4);
    assert_eq!(cpu.registers.pc, 0x8101);
    assert_eq!(cpu.cycles()[2], rd(0x80FC, 0x00));
    assert_eq!(cpu.cycles()[3], rd(0x8001, 0x05));
}
