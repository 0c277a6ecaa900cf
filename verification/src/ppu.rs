//! The video unit as the processor sees it: eight registers, behind which
//! lie the video memory, the sprite memory and the palette. Pixels are not
//! drawn here.

use vstd::prelude::*;
use crate::addressing::{advance, following};
use crate::alu::{increment, incremented};

verus! {

/// Size of the video memory that holds the nametables.
pub const VRAM_SIZE: usize = 2048;

/// Size of the sprite memory.
pub const OAM_SIZE: usize = 256;

/// Size of the palette memory.
pub const PALETTE_SIZE: usize = 32;

/// First address of the video address space that the palette answers.
pub const PALETTE_BASE: u16 = 0x3F00;

/// Size of the video address space.
pub const VIDEO_SPACE: u16 = 0x4000;

/// Bit of the status register that is set while the vertical blank is
/// pending.
pub const VBLANK_BIT: u8 = 0x80;

/// Bit of the control register that makes the data port step by 32.
pub const STEP_BIT: u8 = 0x04;

/// The video unit.
pub struct PPU {
    // Video memory for the nametables
    vram: [u8; 2048],
    // Sprite memory for 64 sprites
    oam_data: [u8; 256],
    // Palette memory
    palette_ram: [u8; 32],
    // Current video address
    v: u16,
    // Temporary video address
    t: u16,
    // Fine horizontal scroll
    x: u8,
    // Write toggle of the scroll and address registers
    w: bool,
    ppuctrl: u8,
    ppumask: u8,
    ppustatus: u8,
    oam_addr: u8,
    // Where the beam is
    scanline: i16,
    cycle: u16,
    // What the data port returns next
    data_buffer: u8,
}

/// The state of the video unit.
pub struct PpuState {
    pub vram: Seq<u8>,
    pub oam: Seq<u8>,
    pub palette: Seq<u8>,
    /// Current video address.
    pub v: u16,
    /// Temporary video address.
    pub t: u16,
    /// Fine horizontal scroll.
    pub x: u8,
    /// Write toggle: set between the first and the second write to the
    /// scroll or address register.
    pub w: bool,
    pub ctrl: u8,
    pub mask: u8,
    pub status: u8,
    pub oam_addr: u8,
    pub scanline: i16,
    pub cycle: u16,
    /// What a read of the data port returns next.
    pub data_buffer: u8,
}

/// The register that an address names: its three low bits.
pub open spec fn register(addr: u16) -> int {
    addr as int % 8
}

/// Whether a video address lies in the palette.
pub open spec fn in_palette(v: u16) -> bool {
    v % VIDEO_SPACE >= PALETTE_BASE
}

/// The cell of video memory behind a video address: the memory repeats
/// every 2048 bytes through the whole video address space, under the
/// palette too.
pub open spec fn vram_index(v: u16) -> int {
    v as int % 2048
}

/// The cell of palette memory behind a video address.
pub open spec fn palette_index(v: u16) -> int {
    v as int % 32
}

/// By how much an access to the data port moves the video address: by 1,
/// or by 32 when the control register says so.
pub open spec fn port_step(ctrl: u8) -> u8 {
    if ctrl & STEP_BIT == 0 {
        1
    } else {
        32
    }
}

impl PpuState {
    /// The state at power-on: all memory and every register zero, the beam
    /// on the pre-render line.
    pub open spec fn power_on() -> PpuState {
        PpuState {
            vram: Seq::new(VRAM_SIZE as nat, |i: int| 0u8),
            oam: Seq::new(OAM_SIZE as nat, |i: int| 0u8),
            palette: Seq::new(PALETTE_SIZE as nat, |i: int| 0u8),
            v: 0,
            t: 0,
            x: 0,
            w: false,
            ctrl: 0,
            mask: 0,
            status: 0,
            oam_addr: 0,
            scanline: -1i16,
            cycle: 0,
            data_buffer: 0,
        }
    }

    /// The byte that a read of the register at `addr` returns. The status
    /// register and the sprite data can be read; the data port returns the
    /// palette at once and video memory one read late; every other register
    /// reads as zero.
    pub open spec fn read_value(self, addr: u16) -> u8 {
        if register(addr) == 2 {
            self.status
        } else if register(addr) == 4 {
            self.oam[self.oam_addr as int]
        } else if register(addr) == 7 {
            if in_palette(self.v) {
                self.palette[palette_index(self.v)]
            } else {
                self.data_buffer
            }
        } else {
            0
        }
    }

    /// The state after a read of the register at `addr`. Reading the status
    /// clears the pending vertical blank and the write toggle. Reading the
    /// data port fills the buffer from video memory and moves the video
    /// address on.
    pub open spec fn after_read(self, addr: u16) -> PpuState {
        if register(addr) == 2 {
            PpuState { status: self.status & 0x7F, w: false, ..self }
        } else if register(addr) == 7 {
            PpuState {
                data_buffer: self.vram[vram_index(self.v)],
                v: following(self.v, port_step(self.ctrl)),
                ..self
            }
        } else {
            self
        }
    }

    /// The state after the first write of a pair to the scroll register:
    /// coarse and fine horizontal scroll.
    pub open spec fn after_first_scroll(self, data: u8) -> PpuState {
        PpuState {
            t: (self.t & 0xFFE0) | (data as u16 >> 3),
            x: data & 0x07,
            w: true,
            ..self
        }
    }

    /// The state after the second write of a pair to the scroll register:
    /// coarse and fine vertical scroll.
    pub open spec fn after_second_scroll(self, data: u8) -> PpuState {
        PpuState {
            t: (self.t & 0x8C1F) | ((data as u16 & 0xF8) << 2) | ((data as u16 & 0x07) << 12),
            w: false,
            ..self
        }
    }

    /// The state after the first write of a pair to the address register:
    /// the high six bits of the address.
    pub open spec fn after_first_address(self, data: u8) -> PpuState {
        PpuState { t: (self.t & 0x00FF) | ((data as u16 & 0x3F) << 8), w: true, ..self }
    }

    /// The state after the second write of a pair to the address register:
    /// the low byte of the address, which then becomes the video address.
    pub open spec fn after_second_address(self, data: u8) -> PpuState {
        PpuState {
            t: (self.t & 0xFF00) | (data as u16),
            v: (self.t & 0xFF00) | (data as u16),
            w: false,
            ..self
        }
    }

    /// The state after a write to the data port: the byte goes to the palette
    /// or to video memory, and the video address moves on.
    pub open spec fn after_data_write(self, data: u8) -> PpuState {
        if in_palette(self.v) {
            PpuState {
                palette: self.palette.update(palette_index(self.v), data),
                v: following(self.v, port_step(self.ctrl)),
                ..self
            }
        } else {
            PpuState {
                vram: self.vram.update(vram_index(self.v), data),
                v: following(self.v, port_step(self.ctrl)),
                ..self
            }
        }
    }

    /// The state after `data` was written to the register at `addr`. The
    /// status register takes no write.
    pub open spec fn after_write(self, addr: u16, data: u8) -> PpuState {
        if register(addr) == 0 {
            PpuState {
                ctrl: data,
                t: (self.t & 0xF3FF) | ((data as u16 & 0x03) << 10),
                ..self
            }
        } else if register(addr) == 1 {
            PpuState { mask: data, ..self }
        } else if register(addr) == 3 {
            PpuState { oam_addr: data, ..self }
        } else if register(addr) == 4 {
            PpuState {
                oam: self.oam.update(self.oam_addr as int, data),
                oam_addr: incremented(self.oam_addr),
                ..self
            }
        } else if register(addr) == 5 {
            if self.w {
                self.after_second_scroll(data)
            } else {
                self.after_first_scroll(data)
            }
        } else if register(addr) == 6 {
            if self.w {
                self.after_second_address(data)
            } else {
                self.after_first_address(data)
            }
        } else if register(addr) == 7 {
            self.after_data_write(data)
        } else {
            self
        }
    }
}

impl View for PPU {
    type V = PpuState;

    closed spec fn view(&self) -> PpuState {
        PpuState {
            vram: self.vram@,
            oam: self.oam_data@,
            palette: self.palette_ram@,
            v: self.v,
            t: self.t,
            x: self.x,
            w: self.w,
            ctrl: self.ppuctrl,
            mask: self.ppumask,
            status: self.ppustatus,
            oam_addr: self.oam_addr,
            scanline: self.scanline,
            cycle: self.cycle,
            data_buffer: self.data_buffer,
        }
    }
}

fn step_of(ctrl: u8) -> (step: u8)
    ensures
        step == port_step(ctrl),
{
    if ctrl & STEP_BIT == 0 {
        1
    } else {
        32
    }
}

impl PPU {
    /// A video unit at power-on.
    pub fn new() -> (ppu: Self)
        ensures
            ppu@ == PpuState::power_on(),
    {
        let ppu = PPU {
            vram: [0;2048],
            oam_data: [0;256],
            palette_ram: [0;32],
            v: 0,
            t: 0,
            x: 0,
            w: false,
            ppuctrl: 0,
            ppumask: 0,
            ppustatus: 0,
            oam_addr: 0,
            scanline: -1,
            cycle: 0,
            data_buffer: 0,
        };
        proof {
            assert(ppu.vram@ =~= PpuState::power_on().vram);
            assert(ppu.oam_data@ =~= PpuState::power_on().oam);
            assert(ppu.palette_ram@ =~= PpuState::power_on().palette);
        }
        ppu
    }

    /// Answers a read by the processor of the register at `addr`, of which
    /// the three low bits count.
    pub fn cpu_read(&mut self, addr: u16) -> (data: u8)
        ensures
            data == old(self)@.read_value(addr),
            final(self)@ == old(self)@.after_read(addr),
    {
        let register = addr % 8;
        if register == 2 {
            let status = self.ppustatus;
            self.ppustatus = self.ppustatus & 0x7F;
            self.w = false;
            status
        } else if register == 4 {
            self.oam_data[self.oam_addr as usize]
        } else if register == 7 {
            let stored = self.vram[(self.v % 2048) as usize];
            let data = if self.v % VIDEO_SPACE >= PALETTE_BASE {
                self.palette_ram[(self.v % 32) as usize]
            } else {
                self.data_buffer
            };
            self.data_buffer = stored;
            self.v = advance(self.v, step_of(self.ppuctrl));
            data
        } else {
            0
        }
    }

    /// Takes a write by the processor to the register at `addr`, of which the
    /// three low bits count.
    pub fn cpu_write(&mut self, addr: u16, data: u8)
        ensures
            final(self)@ == old(self)@.after_write(addr, data),
    {
        let register = addr % 8;
        if register == 0 {
            self.ppuctrl = data;
            self.t = (self.t & 0xF3FF) | ((data as u16 & 0x03) << 10);
        } else if register == 1 {
            self.ppumask = data;
        } else if register == 3 {
            self.oam_addr = data;
        } else if register == 4 {
            self.oam_data[self.oam_addr as usize] = data;
            self.oam_addr = increment(self.oam_addr);
        } else if register == 5 {
            if !self.w {
                self.t = (self.t & 0xFFE0) | (data as u16 >> 3);
                self.x = data & 0x07;
                self.w = true;
            } else {
                self.t = (self.t & 0x8C1F) | ((data as u16 & 0xF8) << 2) | ((data as u16 & 0x07)
                    << 12);
                self.w = false;
            }
        } else if register == 6 {
            if !self.w {
                self.t = (self.t & 0x00FF) | ((data as u16 & 0x3F) << 8);
                self.w = true;
            } else {
                self.t = (self.t & 0xFF00) | (data as u16);
                self.v = self.t;
                self.w = false;
            }
        } else if register == 7 {
            if self.v % VIDEO_SPACE >= PALETTE_BASE {
                self.palette_ram[(self.v % 32) as usize] = data;
            } else {
                self.vram[(self.v % 2048) as usize] = data;
            }
            self.v = advance(self.v, step_of(self.ppuctrl));
        }
    }

    /// One cycle of the video unit. Drawing is not part of this library: the
    /// state stays as it is.
    pub fn step(&mut self)
        ensures
            final(self)@ == old(self)@,
    {
    }
}

proof fn lemma_masks(status: u8, t: u16, high: u8, low: u8)
    by (bit_vector)
    ensures
        (status & 0x7Fu8) & 0x80u8 == 0u8,
        (status & 0x7Fu8) & 0x7Fu8 == status & 0x7Fu8,
        (((t & 0x00FFu16) | ((high as u16 & 0x3Fu16) << 8u16)) & 0xFF00u16) | (low as u16) == ((
        high as u16 & 0x3Fu16) << 8u16) | (low as u16),
        ((high as u16 & 0x3Fu16) << 8u16) | (low as u16) < 0x4000u16,
{
}

/// Reading the status register returns the status as it was, and leaves
/// the pending vertical blank cleared and the write toggle reset.
pub proof fn lemma_status_read_clears(state: PpuState)
    ensures
        state.read_value(2) == state.status,
        state.after_read(2).status & VBLANK_BIT == 0,
        !state.after_read(2).w,
        state.after_read(2).after_read(2) == state.after_read(2),
{
    lemma_masks(state.status, 0, 0, 0);
}

/// Two writes to the address register, after the toggle was reset, set the
/// video address to the low six bits of the first byte as high byte and the
/// second byte as low byte: an address of the video address space.
pub proof fn lemma_address_pair_sets_video_address(state: PpuState, high: u8, low: u8)
    requires
        !state.w,
    ensures
        ({
            let after = state.after_write(6, high).after_write(6, low);
            &&& after.v == ((high as u16 & 0x3F) << 8) | (low as u16)
            &&& after.v < VIDEO_SPACE
            &&& !after.w
            &&& after.vram == state.vram
        }),
{
    lemma_masks(0, state.t, high, low);
}

/// The data port reads video memory one read late: a read returns what the
/// read before it fetched, and fetches the byte at the video address for
/// the read after it. The palette is read at once. Every access moves the
/// video address on by 1 or by 32.
pub proof fn lemma_data_port_is_buffered(state: PpuState)
    ensures
        !in_palette(state.v) ==> state.read_value(7) == state.data_buffer,
        in_palette(state.v) ==> state.read_value(7) == state.palette[palette_index(state.v)],
        state.after_read(7).data_buffer == state.vram[vram_index(state.v)],
        !in_palette(state.after_read(7).v) ==> state.after_read(7).read_value(7)
            == state.vram[vram_index(state.v)],
        port_step(state.ctrl) == 1 || port_step(state.ctrl) == 32,
        state.after_read(7).v == (state.v + port_step(state.ctrl)) % 0x10000,
{
    reveal(following);
}

/// A byte written through the data port lands in the cell behind the video
/// address: in the palette from `$3F00` on, else in video memory.
pub proof fn lemma_data_port_writes_cell(state: PpuState, data: u8)
    requires
        state.vram.len() == VRAM_SIZE,
        state.palette.len() == PALETTE_SIZE,
    ensures
        in_palette(state.v) ==> state.after_write(7, data).palette[palette_index(state.v)] == data
            && state.after_write(7, data).vram == state.vram,
        !in_palette(state.v) ==> state.after_write(7, data).vram[vram_index(state.v)] == data
            && state.after_write(7, data).palette == state.palette,
{
}

/// The sprite port writes at the sprite address and moves it on, wrapping
/// after the last byte; reading it moves nothing.
pub proof fn lemma_sprite_port(state: PpuState, data: u8)
    requires
        state.oam.len() == OAM_SIZE,
    ensures
        state.after_write(4, data).oam[state.oam_addr as int] == data,
        state.after_write(4, data).oam_addr == (state.oam_addr + 1) % 256,
        state.after_write(3, data).read_value(4) == state.oam[data as int],
        state.after_read(4) == state,
{
    reveal(incremented);
}

} // verus!
