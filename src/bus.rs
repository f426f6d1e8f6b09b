//! The memory side of the processor: the `Bus` trait, the record of one bus
//! cycle, and a flat 64 KiB RAM.
use vstd::prelude::*;

verus! {

/// Whether a bus cycle read or wrote memory.
#[derive(Clone, Copy, Debug, PartialEq, Eq, Structural)]
pub enum CycleKind {
    Read,
    Write,
}

/// One access on the address bus: where, what byte, and in which direction.
#[derive(Clone, Copy, Debug, PartialEq, Eq, Structural)]
pub struct BusCycle {
    pub address: u16,
    pub value: u8,
    pub kind: CycleKind,
}

/// The memory that the processor reads and writes. Every call is one bus cycle.
///
/// `mem` is the content that reads observe: a read returns the current byte and
/// leaves the content alone, a write stores its byte at its address.
pub trait Bus {
    spec fn mem(&self) -> Map<u16, u8>;

    fn read(&mut self, address: u16) -> (value: u8)
        ensures
            value == old(self).mem()[address],
            final(self).mem() == old(self).mem(),
    ;

    fn write(&mut self, address: u16, value: u8)
        ensures
            final(self).mem() == old(self).mem().insert(address, value),
    ;
}

/// A flat 64 KiB memory with no side effects.
pub struct Ram {
    bytes: [u8; 65536],
}

impl Ram {
    pub closed spec fn view_mem(&self) -> Map<u16, u8> {
        Map::new(|a: u16| true, |a: u16| self.bytes@[a as int])
    }

    /// All bytes zero.
    pub fn new() -> (r: Ram)
        ensures
            forall|a: u16| #[trigger] r.view_mem().dom().contains(a) && r.view_mem()[a] == 0,
    {
        let bytes = [0u8; 65536];
        Ram { bytes }
    }

    /// The byte at `address`, without a bus cycle.
    pub fn peek(&self, address: u16) -> (r: u8)
        ensures
            r == self.view_mem()[address],
    {
        self.bytes[address as usize]
    }

    /// Stores `value` at `address`, without a bus cycle.
    pub fn poke(&mut self, address: u16, value: u8)
        ensures
            final(self).view_mem() == old(self).view_mem().insert(address, value),
    {
        self.bytes[address as usize] = value;
        assert(self.view_mem() =~= old(self).view_mem().insert(address, value));
    }
}

impl Bus for Ram {
    open spec fn mem(&self) -> Map<u16, u8> {
        self.view_mem()
    }

    fn read(&mut self, address: u16) -> (value: u8) {
        self.peek(address)
    }

    fn write(&mut self, address: u16, value: u8) {
        self.poke(address, value)
    }
}

} // verus!
