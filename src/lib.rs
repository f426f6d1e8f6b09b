//! A cycle-accurate MOS 6502 core: every documented and undocumented opcode,
//! with each bus cycle logged in order. The processor reaches memory only
//! through a [`Bus`]; [`Ram`] is a plain 64 KiB one.
use vstd::prelude::*;

pub mod alu;
pub mod bus;
pub mod cpu;
pub mod laws;
pub mod model;
pub mod opcodes;
pub mod registers;

pub use bus::{Bus, BusCycle, CycleKind, Ram};
pub use cpu::Cpu6502;
pub use registers::{
    FLAG_B, FLAG_C, FLAG_D, FLAG_E, FLAG_I, FLAG_N, FLAG_V, FLAG_Z, Registers,
};

verus! {

} // verus!
