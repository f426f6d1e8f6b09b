//! The processor: registers, halt latch, per-step cycle log, and dispatch.
use vstd::prelude::*;
use crate::bus::{Bus, BusCycle, CycleKind};
use crate::model::{Machine, RESET_VECTOR, reset as reset_model, step};
use crate::opcodes::decode;
use crate::registers::{FLAG_E, FLAG_I, Registers, make_word, wrap_add16};

mod instructions;

verus! {

/// A MOS 6502 wired to a bus. Each `tick` runs one instruction and logs
/// its bus cycles.
pub struct Cpu6502<B> {
    pub registers: Registers,
    pub bus: B,
    cycles: Vec<BusCycle>,
    halted: bool,
}

impl<B: Bus> Cpu6502<B> {
    /// The registers, memory, cycle log and halt latch.
    pub closed spec fn machine(&self) -> Machine {
        Machine { regs: self.registers, mem: self.bus.mem(), cycles: self.cycles@, halted: self.halted }
    }

    /// Registers zero, status empty, not halted, nothing logged.
    pub fn new(bus: B) -> (r: Self)
        ensures
            r.machine().regs == (Registers { pc: 0, s: 0, a: 0, x: 0, y: 0, p: 0 }),
            r.machine().mem == bus.mem(),
            r.machine().cycles.len() == 0,
            !r.machine().halted,
    {
        Cpu6502 {
            registers: Registers { pc: 0, s: 0, a: 0, x: 0, y: 0, p: 0 },
            bus,
            cycles: Vec::new(),
            halted: false,
        }
    }

    /// Loads the program counter from the reset vector, sets E and I, and
    /// clears the halt latch. The log holds the two vector reads.
    pub fn reset(&mut self)
        ensures
            final(self).machine() == reset_model(old(self).machine()),
    {
        self.cycles.clear();
        let lsb = self.read(RESET_VECTOR);
        let msb = self.read(RESET_VECTOR + 1);
        self.registers.pc = make_word(lsb, msb);
        self.registers.p = FLAG_E | FLAG_I;
        self.halted = false;
    }

    /// Runs one instruction and returns the number of bus cycles it took,
    /// which is the length of the log. When halted it does nothing and
    /// returns 0.
    pub fn tick(&mut self) -> (n: u8)
        ensures
            final(self).machine() == step(old(self).machine()),
            n as nat == final(self).machine().cycles.len(),
    {
        self.cycles.clear();
        if self.halted {
            return 0;
        }
        let pc = self.registers.pc;
        let fetch = self.read(pc);
        let opcode = decode(fetch);
        let mut lo: u8 = 0;
        let mut hi: u8 = 0;
        if fetch != 0x20 {
            lo = self.read(wrap_add16(pc, 1));
            if opcode.bytes > 2 {
                hi = self.read(wrap_add16(pc, 2));
            }
        }
        self.registers.pc = wrap_add16(pc, opcode.bytes as u16);
        instructions::execute(self, opcode, lo, hi);
        self.cycles.len() as u8
    }

    /// The bus cycles of the last step, in order.
    pub fn cycles(&self) -> (r: &Vec<BusCycle>)
        ensures
            r@ == self.machine().cycles,
    {
        &self.cycles
    }

    /// Whether a `JAM` opcode has halted the processor.
    pub fn is_halted(&self) -> (r: bool)
        ensures
            r == self.machine().halted,
    {
        self.halted
    }

    /// One read cycle, logged.
    fn read(&mut self, address: u16) -> (value: u8)
        ensures
            value == old(self).machine().mem[address],
            final(self).machine() == old(self).machine().read(address),
    {
        let value = self.bus.read(address);
        self.cycles.push(BusCycle { address, value, kind: CycleKind::Read });
        value
    }

    /// One write cycle, logged.
    fn write(&mut self, address: u16, value: u8)
        ensures
            final(self).machine() == old(self).machine().write(address, value),
    {
        self.bus.write(address, value);
        self.cycles.push(BusCycle { address, value, kind: CycleKind::Write });
    }
}

} // verus!
