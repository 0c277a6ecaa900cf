//! The bus of the console: it resolves every address to the one region that
//! owns it and passes the access on. The regions are the system memory, the
//! register windows of the video and the audio unit, and the program memory
//! of the cartridge.

use vstd::prelude::*;
use crate::apu::{APU, WINDOW_END};
use crate::bus::Bus;
use crate::ppu::{PpuState, PPU};

verus! {

/// Size of the system memory.
pub const RAM_SIZE: usize = 0x0800;

/// First address after the mirrors of the system memory.
pub const RAM_END: u16 = 0x2000;

/// First address after the mirrors of the video registers.
pub const VIDEO_END: u16 = 0x4000;

/// First address that a program image answers.
pub const PROGRAM_START: u16 = 0x8000;

/// Size of one bank of program memory. A cartridge holds one or two.
pub const BANK_SIZE: usize = 0x4000;

/// The owner of an address, with the place of the address inside it.
#[derive(Copy, Clone, Debug, PartialEq, Eq, Structural)]
pub enum Region {
    /// A cell of the system memory.
    Ram(u16),
    /// A register of the video unit.
    Video(u16),
    /// A register of the audio unit, by its address.
    Audio(u16),
    /// A cell of the program memory.
    Program(u16),
    /// No owner: reads return the last byte that went over the bus, writes
    /// are lost.
    Open,
}

/// The region that owns an address, for a program image of `program_len`
/// bytes. System memory repeats every `$0800` up to `$2000`, the eight
/// video registers repeat up to `$4000`, the audio window ends at `$4017`,
/// and the program image repeats from `$8000` to the end, so that one bank
/// shows twice. All else is open: `$4018` to `$7FFF`, and the program space
/// without a cartridge.
pub open spec fn region_of(addr: u16, program_len: nat) -> Region {
    if addr < RAM_END {
        Region::Ram((addr % 0x0800) as u16)
    } else if addr < VIDEO_END {
        Region::Video((addr % 8) as u16)
    } else if addr <= WINDOW_END {
        Region::Audio(addr)
    } else if addr >= PROGRAM_START && program_len > 0 {
        Region::Program(((addr - PROGRAM_START) % program_len as int) as u16)
    } else {
        Region::Open
    }
}

/// The state of everything behind the console's bus.
pub struct SystemState {
    pub ram: Seq<u8>,
    pub ppu: PpuState,
    pub apu: APU,
    /// The program image of the cartridge; empty without one.
    pub program: Seq<u8>,
    /// The last byte that went over the bus.
    pub last: u8,
}

impl SystemState {
    /// The byte that a read of `addr` returns.
    pub open spec fn read_value(self, addr: u16) -> u8 {
        match region_of(addr, self.program.len()) {
            Region::Ram(cell) => self.ram[cell as int],
            Region::Video(register) => self.ppu.read_value(register),
            Region::Audio(register) => self.apu.read_value(register),
            Region::Program(cell) => self.program[cell as int],
            Region::Open => self.last,
        }
    }

    /// The state after a read of `addr`: the video unit has seen the read
    /// if it owns the address, and the byte read is the last on the bus.
    pub open spec fn after_read(self, addr: u16) -> SystemState {
        match region_of(addr, self.program.len()) {
            Region::Video(register) => SystemState {
                ppu: self.ppu.after_read(register),
                last: self.read_value(addr),
                ..self
            },
            _ => SystemState { last: self.read_value(addr), ..self },
        }
    }

    /// The state after `data` was written to `addr`: the owner of the
    /// address has taken the byte, and it is the last on the bus.
    pub open spec fn after_write(self, addr: u16, data: u8) -> SystemState {
        match region_of(addr, self.program.len()) {
            Region::Ram(cell) => SystemState {
                ram: self.ram.update(cell as int, data),
                last: data,
                ..self
            },
            Region::Video(register) => SystemState {
                ppu: self.ppu.after_write(register, data),
                last: data,
                ..self
            },
            Region::Audio(register) => SystemState {
                apu: self.apu.after_write(register, data),
                last: data,
                ..self
            },
            Region::Program(cell) => SystemState {
                program: self.program.update(cell as int, data),
                last: data,
                ..self
            },
            Region::Open => SystemState { last: data, ..self },
        }
    }

    /// The state after `data` was placed behind `addr` around the bus: only
    /// a memory cell takes it.
    pub open spec fn after_poke(self, addr: u16, data: u8) -> SystemState {
        match region_of(addr, self.program.len()) {
            Region::Ram(cell) => SystemState { ram: self.ram.update(cell as int, data), ..self },
            Region::Program(cell) => SystemState {
                program: self.program.update(cell as int, data),
                ..self
            },
            _ => self,
        }
    }
}

/// The bus of the console, with what is attached to it.
pub struct SystemBus {
    ram: [u8; 0x0800],
    /// The video unit.
    pub ppu: PPU,
    /// The audio unit.
    pub apu: APU,
    program: Vec<u8>,
    last: u8,
}

impl View for SystemBus {
    type V = SystemState;

    closed spec fn view(&self) -> SystemState {
        SystemState {
            ram: self.ram@,
            ppu: self.ppu@,
            apu: self.apu,
            program: self.program@,
            last: self.last,
        }
    }
}

/// Whether a program image has a length that the fixed mapping takes: one
/// bank or two.
pub open spec fn fits_fixed_mapping(program: Seq<u8>) -> bool {
    program.len() == BANK_SIZE || program.len() == 2 * BANK_SIZE
}

impl SystemBus {
    /// A bus at power-on, without a cartridge: memory zeroed, both units
    /// at power-on, nothing on the bus yet.
    pub fn new() -> (bus: Self)
        ensures
            bus.wf(),
            bus@ == (SystemState {
                ram: Seq::new(RAM_SIZE as nat, |i: int| 0u8),
                ppu: PpuState::power_on(),
                apu: APU::power_on(),
                program: Seq::empty(),
                last: 0,
            }),
    {
        let bus = SystemBus {
            ram: [0;0x0800],
            ppu: PPU::new(),
            apu: APU::new(),
            program: Vec::new(),
            last: 0,
        };
        proof {
            assert(bus.ram@ =~= Seq::new(RAM_SIZE as nat, |i: int| 0u8));
        }
        bus
    }

    /// Puts a cartridge in: its program image answers from `$8000` on.
    pub fn insert_cartridge(&mut self, program: Vec<u8>)
        requires
            old(self).wf(),
            fits_fixed_mapping(program@),
        ensures
            final(self).wf(),
            final(self)@ == (SystemState { program: program@, ..old(self)@ }),
    {
        self.program = program;
    }

    /// Resolves an address to the region that owns it.
    pub fn region(&self, addr: u16) -> (region: Region)
        requires
            self.wf(),
        ensures
            region == region_of(addr, self@.program.len()),
            region matches Region::Ram(cell) ==> cell < RAM_SIZE,
            region matches Region::Program(cell) ==> cell < self@.program.len(),
    {
        if addr < RAM_END {
            Region::Ram(addr % 0x0800)
        } else if addr < VIDEO_END {
            Region::Video(addr % 8)
        } else if addr <= WINDOW_END {
            Region::Audio(addr)
        } else if addr >= PROGRAM_START && self.program.len() > 0 {
            Region::Program(((addr - PROGRAM_START) as usize % self.program.len()) as u16)
        } else {
            Region::Open
        }
    }
}

impl Bus for SystemBus {
    closed spec fn wf(&self) -> bool {
        self.program@.len() == 0 || fits_fixed_mapping(self.program@)
    }

    open spec fn read_value(state: SystemState, addr: u16) -> u8 {
        state.read_value(addr)
    }

    open spec fn after_read(state: SystemState, addr: u16) -> SystemState {
        state.after_read(addr)
    }

    open spec fn after_write(state: SystemState, addr: u16, data: u8) -> SystemState {
        state.after_write(addr, data)
    }

    open spec fn after_poke(state: SystemState, addr: u16, data: u8) -> SystemState {
        state.after_poke(addr, data)
    }

    fn read(&mut self, addr: u16) -> (data: u8) {
        let data = match self.region(addr) {
            Region::Ram(cell) => self.ram[cell as usize],
            Region::Video(register) => self.ppu.cpu_read(register),
            Region::Audio(register) => self.apu.cpu_read(register),
            Region::Program(cell) => self.program[cell as usize],
            Region::Open => self.last,
        };
        self.last = data;
        data
    }

    fn write(&mut self, addr: u16, data: u8) {
        match self.region(addr) {
            Region::Ram(cell) => {
                self.ram[cell as usize] = data;
            },
            Region::Video(register) => {
                self.ppu.cpu_write(register, data);
            },
            Region::Audio(register) => {
                self.apu.cpu_write(register, data);
            },
            Region::Program(cell) => {
                self.program.set(cell as usize, data);
            },
            Region::Open => {},
        }
        self.last = data;
    }

    fn poke(&mut self, addr: u16, data: u8) {
        match self.region(addr) {
            Region::Ram(cell) => {
                self.ram[cell as usize] = data;
            },
            Region::Program(cell) => {
                self.program.set(cell as usize, data);
            },
            _ => {},
        }
    }
}

/// Every address has exactly one owner, found by arithmetic alone: the
/// region follows from the address and the length of the program image, and
/// the place in it lies inside the region.
pub proof fn lemma_every_address_has_one_owner(addr: u16, program_len: nat)
    requires
        program_len == 0 || program_len == BANK_SIZE || program_len == 2 * BANK_SIZE,
    ensures
        match region_of(addr, program_len) {
            Region::Ram(cell) => addr < 0x2000 && cell < RAM_SIZE && cell == addr % 0x0800,
            Region::Video(register) => 0x2000 <= addr < 0x4000 && register < 8 && register == addr
                % 8,
            Region::Audio(register) => 0x4000 <= addr <= 0x4017 && register == addr,
            Region::Program(cell) => addr >= 0x8000 && cell < program_len && cell == (addr
                - 0x8000) % (program_len as int),
            Region::Open => 0x4018 <= addr < 0x8000 || (addr >= 0x8000 && program_len == 0),
        },
{
}

/// System memory shows four times: a byte written below `$2000` is read
/// back from every address below `$2000` that differs by a multiple of
/// `$0800`, and from no other cell of the memory.
pub proof fn lemma_ram_is_mirrored(state: SystemState, addr: u16, data: u8, other: u16)
    requires
        state.ram.len() == RAM_SIZE,
        addr < 0x2000,
        other < 0x2000,
    ensures
        state.after_write(addr, data).read_value(other) == (if other % 0x0800 == addr % 0x0800 {
            data
        } else {
            state.read_value(other)
        }),
{
}

/// The eight video registers repeat through their window: an access
/// anywhere from `$2000` to `$3FFF` is the access to the register that the
/// three low bits of the address name.
pub proof fn lemma_video_registers_are_mirrored(state: SystemState, addr: u16, data: u8)
    requires
        0x2000 <= addr < 0x4000,
    ensures
        state.read_value(addr) == state.read_value((0x2000 + addr % 8) as u16),
        state.after_read(addr) == state.after_read((0x2000 + addr % 8) as u16),
        state.after_write(addr, data) == state.after_write((0x2000 + addr % 8) as u16, data),
        state.read_value(addr) == state.ppu.read_value((addr % 8) as u16),
{
}

/// A program image of one bank shows twice: the upper half of the program
/// space mirrors the lower. An image of two banks fills the space.
pub proof fn lemma_single_bank_shows_twice(state: SystemState, addr: u16)
    requires
        0x8000 <= addr < 0xC000,
        fits_fixed_mapping(state.program),
    ensures
        state.program.len() == BANK_SIZE ==> state.read_value(addr) == state.read_value(
            (addr + 0x4000) as u16,
        ),
        state.read_value(addr) == state.program[addr - 0x8000],
        state.program.len() == 2 * BANK_SIZE ==> state.read_value((addr + 0x4000) as u16)
            == state.program[addr - 0x8000 + 0x4000],
{
}

/// An address without an owner reads as the last byte that went over the
/// bus: zero at power-on, then whatever was read or written last.
pub proof fn lemma_open_bus_returns_last_byte(state: SystemState, open: u16, addr: u16, data: u8)
    requires
        region_of(open, state.program.len()) == Region::Open,
    ensures
        state.read_value(open) == state.last,
        state.after_read(open) == state,
        state.after_write(addr, data).read_value(open) == data,
        state.after_read(addr).read_value(open) == state.read_value(addr),
        state.after_write(open, data) == (SystemState { last: data, ..state }),
{
}

} // verus!
