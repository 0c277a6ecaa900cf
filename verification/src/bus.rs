//! The bus: what the processor reads from and writes to. Anything that can
//! answer a 16-bit address with a byte can stand behind it; this module holds
//! the interface and the plainest such thing, 64 KiB of memory.

use vstd::prelude::*;

verus! {

/// The size of the address space in bytes.
pub const ADDRESS_SPACE: usize = 0x10000;

/// A byte-addressed region that the processor can be attached to.
///
/// The view is the mathematical state of everything behind the bus. A read
/// may change it (a register that clears when read), so reading has a value
/// and an effect.
pub trait Bus: View + Sized {
    /// What the implementation needs to hold of itself.
    spec fn wf(&self) -> bool;

    /// The byte that a read of `addr` returns.
    spec fn read_value(state: Self::V, addr: u16) -> u8;

    /// The state after a read of `addr`.
    spec fn after_read(state: Self::V, addr: u16) -> Self::V;

    /// The state after `data` was written to `addr`.
    spec fn after_write(state: Self::V, addr: u16, data: u8) -> Self::V;

    /// The state after `data` was placed in the cell behind `addr`, if it has
    /// one, without any of the effects that a write through the bus has.
    spec fn after_poke(state: Self::V, addr: u16, data: u8) -> Self::V;

    /// Reads the byte at `addr`.
    fn read(&mut self, addr: u16) -> (data: u8)
        requires
            old(self).wf(),
        ensures
            final(self).wf(),
            data == Self::read_value(old(self)@, addr),
            final(self)@ == Self::after_read(old(self)@, addr),
    ;

    /// Writes `data` to `addr`.
    fn write(&mut self, addr: u16, data: u8)
        requires
            old(self).wf(),
        ensures
            final(self).wf(),
            final(self)@ == Self::after_write(old(self)@, addr, data),
    ;

    /// Places `data` in the cell behind `addr`, around the peripherals: for
    /// setting memory up before the processor runs.
    fn poke(&mut self, addr: u16, data: u8)
        requires
            old(self).wf(),
        ensures
            final(self).wf(),
            final(self)@ == Self::after_poke(old(self)@, addr, data),
    ;
}

/// 64 KiB of plain memory: every address has a cell of its own, and reading
/// changes nothing.
pub struct FlatMemory {
    cells: Vec<u8>,
}

impl View for FlatMemory {
    type V = Seq<u8>;

    closed spec fn view(&self) -> Seq<u8> {
        self.cells@
    }
}

impl FlatMemory {
    /// Memory with every cell zero.
    pub fn new() -> (memory: Self)
        ensures
            memory.wf(),
            memory@ == Seq::new(ADDRESS_SPACE as nat, |i: int| 0u8),
    {
        let mut cells: Vec<u8> = Vec::new();
        let mut n: usize = 0;
        while n < ADDRESS_SPACE
            invariant
                n <= ADDRESS_SPACE,
                cells@ == Seq::new(n as nat, |i: int| 0u8),
            decreases ADDRESS_SPACE - n,
        {
            cells.push(0);
            n += 1;
        }
        FlatMemory { cells }
    }

    /// The byte at `addr`, without going through the bus.
    pub fn peek(&self, addr: u16) -> (data: u8)
        requires
            self.wf(),
        ensures
            data == self@[addr as int],
    {
        self.cells[addr as usize]
    }
}

impl Bus for FlatMemory {
    closed spec fn wf(&self) -> bool {
        self.cells@.len() == ADDRESS_SPACE
    }

    open spec fn read_value(state: Seq<u8>, addr: u16) -> u8 {
        state[addr as int]
    }

    open spec fn after_read(state: Seq<u8>, addr: u16) -> Seq<u8> {
        state
    }

    open spec fn after_write(state: Seq<u8>, addr: u16, data: u8) -> Seq<u8> {
        state.update(addr as int, data)
    }

    open spec fn after_poke(state: Seq<u8>, addr: u16, data: u8) -> Seq<u8> {
        state.update(addr as int, data)
    }

    fn read(&mut self, addr: u16) -> (data: u8) {
        self.cells[addr as usize]
    }

    fn write(&mut self, addr: u16, data: u8) {
        self.cells.set(addr as usize, data);
    }

    fn poke(&mut self, addr: u16, data: u8) {
        self.cells.set(addr as usize, data);
    }
}

} // verus!
