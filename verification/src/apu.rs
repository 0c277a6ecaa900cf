//! The audio unit as the processor sees it: the register window from
//! `$4000` to `$4017`. No sound is made here.

use vstd::prelude::*;

verus! {

/// First address of the register window.
pub const WINDOW_START: u16 = 0x4000;

/// Last address of the register window.
pub const WINDOW_END: u16 = 0x4017;

/// Address of the status register.
pub const STATUS_REGISTER: u16 = 0x4015;

/// Address of the frame counter register.
pub const FRAME_COUNTER_REGISTER: u16 = 0x4017;

/// A pulse channel, behind `$4000` to `$4003` and `$4004` to `$4007`.
#[derive(Copy, Clone, Debug, PartialEq, Eq, Structural)]
pub struct Pulse {
    duty: u8,
    // Also the loop flag of the envelope
    length_counter_halt: bool,
    constant_volume: bool,
    // Also the period of the envelope
    volume: u8,
    sweep_enabled: bool,
    sweep_period: u8,
    sweep_negate: bool,
    sweep_shift: u8,
    timer: u16,
    length_counter: u8,
}

/// The triangle channel, behind `$4008` to `$400B`.
#[derive(Copy, Clone, Debug, PartialEq, Eq, Structural)]
pub struct Triangle {
    // Also halts the linear counter
    control_flag: bool,
    linear_counter_load: u8,
    timer: u16,
    length_counter: u8,
}

/// The noise channel, behind `$400C` to `$400F`.
#[derive(Copy, Clone, Debug, PartialEq, Eq, Structural)]
pub struct Noise {
    // Also the loop flag of the envelope
    length_counter_halt: bool,
    constant_volume: bool,
    // Also the period of the envelope
    volume: u8,
    // Loops the noise
    mode: bool,
    period: u8,
    length_counter: u8,
}

/// The sample channel, behind `$4010` to `$4013`.
#[derive(Copy, Clone, Debug, PartialEq, Eq, Structural)]
pub struct DMC {
    irq_enabled: bool,
    loop_flag: bool,
    frequency: u8,
    load_counter: u8,
    sample_address: u8,
    sample_length: u8,
}

/// The audio unit.
#[derive(Copy, Clone, Debug, PartialEq, Eq, Structural)]
pub struct APU {
    pulse1: Pulse,
    pulse2: Pulse,
    triangle: Triangle,
    noise: Noise,
    dmc: DMC,
    // Register $4015
    status: u8,
    // Register $4017
    frame_counter: u8,
}

impl Pulse {
    /// A silent pulse channel.
    pub closed spec fn silent() -> Pulse {
        Pulse {
            duty: 0,
            length_counter_halt: false,
            constant_volume: false,
            volume: 0,
            sweep_enabled: false,
            sweep_period: 0,
            sweep_negate: false,
            sweep_shift: 0,
            timer: 0,
            length_counter: 0,
        }
    }

    fn new() -> (pulse: Pulse)
        ensures
            pulse == Pulse::silent(),
    {
        Pulse {
            duty: 0,
            length_counter_halt: false,
            constant_volume: false,
            volume: 0,
            sweep_enabled: false,
            sweep_period: 0,
            sweep_negate: false,
            sweep_shift: 0,
            timer: 0,
            length_counter: 0,
        }
    }
}

impl Triangle {
    /// A silent triangle channel.
    pub closed spec fn silent() -> Triangle {
        Triangle { control_flag: false, linear_counter_load: 0, timer: 0, length_counter: 0 }
    }
}

impl Noise {
    /// A silent noise channel.
    pub closed spec fn silent() -> Noise {
        Noise {
            length_counter_halt: false,
            constant_volume: false,
            volume: 0,
            mode: false,
            period: 0,
            length_counter: 0,
        }
    }
}

impl DMC {
    /// A silent sample channel.
    pub closed spec fn silent() -> DMC {
        DMC {
            irq_enabled: false,
            loop_flag: false,
            frequency: 0,
            load_counter: 0,
            sample_address: 0,
            sample_length: 0,
        }
    }
}

impl APU {
    /// The audio unit at power-on: every channel silent, both registers
    /// zero.
    pub closed spec fn power_on() -> APU {
        APU {
            pulse1: Pulse::silent(),
            pulse2: Pulse::silent(),
            triangle: Triangle::silent(),
            noise: Noise::silent(),
            dmc: DMC::silent(),
            status: 0,
            frame_counter: 0,
        }
    }

    /// What the status register holds.
    pub closed spec fn status_value(self) -> u8 {
        self.status
    }

    /// What the frame counter register holds.
    pub closed spec fn frame_counter_value(self) -> u8 {
        self.frame_counter
    }

    /// The audio unit with another byte in the status register.
    pub closed spec fn with_status(self, data: u8) -> APU {
        APU { status: data, ..self }
    }

    /// The audio unit with another byte in the frame counter register.
    pub closed spec fn with_frame_counter(self, data: u8) -> APU {
        APU { frame_counter: data, ..self }
    }

    /// The byte that a read of `addr` returns: the status register can be
    /// read, every other address reads as zero.
    pub open spec fn read_value(self, addr: u16) -> u8 {
        if addr == STATUS_REGISTER {
            self.status_value()
        } else {
            0
        }
    }

    /// The audio unit after `data` was written to `addr`. The status and
    /// the frame counter keep the byte; a write to a channel register, or
    /// outside the window, changes nothing.
    pub open spec fn after_write(self, addr: u16, data: u8) -> APU {
        if addr == STATUS_REGISTER {
            self.with_status(data)
        } else if addr == FRAME_COUNTER_REGISTER {
            self.with_frame_counter(data)
        } else {
            self
        }
    }

    /// An audio unit at power-on.
    pub fn new() -> (apu: Self)
        ensures
            apu == APU::power_on(),
    {
        APU {
            pulse1: Pulse::new(),
            pulse2: Pulse::new(),
            triangle: Triangle {
                control_flag: false,
                linear_counter_load: 0,
                timer: 0,
                length_counter: 0,
            },
            noise: Noise {
                length_counter_halt: false,
                constant_volume: false,
                volume: 0,
                mode: false,
                period: 0,
                length_counter: 0,
            },
            dmc: DMC {
                irq_enabled: false,
                loop_flag: false,
                frequency: 0,
                load_counter: 0,
                sample_address: 0,
                sample_length: 0,
            },
            status: 0,
            frame_counter: 0,
        }
    }

    /// What the frame counter register holds.
    pub fn frame_counter(&self) -> (data: u8)
        ensures
            data == self.frame_counter_value(),
    {
        self.frame_counter
    }

    /// Answers a read by the processor of the register at `addr`.
    pub fn cpu_read(&self, addr: u16) -> (data: u8)
        ensures
            data == self.read_value(addr),
    {
        if addr == STATUS_REGISTER {
            self.status
        } else {
            0
        }
    }

    /// Takes a write by the processor to the register at `addr`.
    pub fn cpu_write(&mut self, addr: u16, data: u8)
        ensures
            *final(self) == old(self).after_write(addr, data),
    {
        if addr == STATUS_REGISTER {
            self.status = data;
        } else if addr == FRAME_COUNTER_REGISTER {
            self.frame_counter = data;
        }
    }

    /// Moves the audio unit one cycle on. Making sound is not part of this
    /// library: the state stays as it is.
    pub fn tick(&mut self)
        ensures
            *final(self) == *old(self),
    {
    }
}

/// A register keeps what was written to it, and a write to one register
/// leaves the other alone.
pub proof fn lemma_registers_keep_their_bytes(apu: APU, data: u8)
    ensures
        apu.after_write(STATUS_REGISTER, data).read_value(STATUS_REGISTER) == data,
        apu.after_write(STATUS_REGISTER, data).frame_counter_value() == apu.frame_counter_value(),
        apu.after_write(FRAME_COUNTER_REGISTER, data).frame_counter_value() == data,
        apu.after_write(FRAME_COUNTER_REGISTER, data).read_value(STATUS_REGISTER)
            == apu.read_value(STATUS_REGISTER),
        APU::power_on().read_value(STATUS_REGISTER) == 0,
        APU::power_on().frame_counter_value() == 0,
{
}

} // verus!
