//! The processor status word, held as seven flags, and its form as one byte
//! on the stack.

use vstd::prelude::*;

verus! {

/// Bit of the status byte that holds the carry flag.
pub const CARRY_BIT: u8 = 0x01;

/// Bit of the status byte that holds the zero flag.
pub const ZERO_BIT: u8 = 0x02;

/// Bit of the status byte that holds the interrupt-disable flag.
pub const INTERRUPT_BIT: u8 = 0x04;

/// Bit of the status byte that holds the decimal flag.
pub const DECIMAL_BIT: u8 = 0x08;

/// Bit of the status byte that tells a software break from an interrupt.
pub const BREAK_BIT: u8 = 0x10;

/// Bit of the status byte that no flag uses; it is always written as one.
pub const UNUSED_BIT: u8 = 0x20;

/// Bit of the status byte that holds the overflow flag.
pub const OVERFLOW_BIT: u8 = 0x40;

/// Bit of the status byte that holds the negative flag.
pub const NEGATIVE_BIT: u8 = 0x80;

/// The status flags. The decimal flag can be set and cleared, and nothing
/// in the arithmetic reads it.
#[derive(Copy, Clone, Debug, PartialEq, Eq, Structural)]
pub struct Flags {
    pub negative: bool,
    pub overflow: bool,
    pub brk: bool,
    pub decimal: bool,
    pub interrupt_disable: bool,
    pub zero: bool,
    pub carry: bool,
}

/// Whether a byte is negative when read as a two's-complement number.
pub open spec fn is_negative(value: u8) -> bool {
    value >= 128
}

/// One if the flag is set, else zero.
pub open spec fn weight(flag: bool) -> int {
    if flag {
        1
    } else {
        0
    }
}

impl Flags {
    /// The flags after power-on: all clear.
    pub open spec fn cleared() -> Flags {
        Flags {
            negative: false,
            overflow: false,
            brk: false,
            decimal: false,
            interrupt_disable: false,
            zero: false,
            carry: false,
        }
    }

    /// The flags as one byte: each flag at its bit, and the unused bit set.
    pub open spec fn byte(self) -> u8 {
        (128 * weight(self.negative) + 64 * weight(self.overflow) + 32 + 16 * weight(self.brk) + 8
            * weight(self.decimal) + 4 * weight(self.interrupt_disable) + 2 * weight(self.zero)
            + weight(self.carry)) as u8
    }

    /// The flags that a status byte holds.
    pub open spec fn of_byte(byte: u8) -> Flags {
        Flags {
            negative: byte >= 128,
            overflow: (byte / 64) % 2 == 1,
            brk: (byte / 16) % 2 == 1,
            decimal: (byte / 8) % 2 == 1,
            interrupt_disable: (byte / 4) % 2 == 1,
            zero: (byte / 2) % 2 == 1,
            carry: byte % 2 == 1,
        }
    }

    /// The flags with negative and zero taken from `value`: what a load, a
    /// transfer or a computation leaves.
    pub open spec fn with_nz(self, value: u8) -> Flags {
        Flags { negative: is_negative(value), zero: value == 0, ..self }
    }

    /// All flags clear.
    pub fn new() -> (flags: Flags)
        ensures
            flags == Flags::cleared(),
    {
        Flags {
            negative: false,
            overflow: false,
            brk: false,
            decimal: false,
            interrupt_disable: false,
            zero: false,
            carry: false,
        }
    }

    /// Packs the flags into a status byte.
    pub fn to_byte(&self) -> (byte: u8)
        ensures
            byte == self.byte(),
    {
        let mut byte: u8 = UNUSED_BIT;
        if self.negative {
            byte += NEGATIVE_BIT;
        }
        if self.overflow {
            byte += OVERFLOW_BIT;
        }
        if self.brk {
            byte += BREAK_BIT;
        }
        if self.decimal {
            byte += DECIMAL_BIT;
        }
        if self.interrupt_disable {
            byte += INTERRUPT_BIT;
        }
        if self.zero {
            byte += ZERO_BIT;
        }
        if self.carry {
            byte += CARRY_BIT;
        }
        byte
    }

    /// Unpacks a status byte.
    pub fn from_byte(byte: u8) -> (flags: Flags)
        ensures
            flags == Flags::of_byte(byte),
    {
        proof {
            lemma_status_bits(byte);
        }
        Flags {
            negative: byte & NEGATIVE_BIT != 0,
            overflow: byte & OVERFLOW_BIT != 0,
            brk: byte & BREAK_BIT != 0,
            decimal: byte & DECIMAL_BIT != 0,
            interrupt_disable: byte & INTERRUPT_BIT != 0,
            zero: byte & ZERO_BIT != 0,
            carry: byte & CARRY_BIT != 0,
        }
    }

    /// Takes negative and zero from `value`.
    pub fn set_nz(&mut self, value: u8)
        ensures
            *final(self) == old(self).with_nz(value),
    {
        self.negative = value >= 0x80;
        self.zero = value == 0;
    }
}

/// Testing a status byte against a flag's mask reads the flag's bit.
pub proof fn lemma_status_bits(byte: u8)
    by (bit_vector)
    ensures
        (byte & 0x80 != 0) == (byte >= 128),
        (byte & 0x40 != 0) == ((byte / 64) % 2 == 1),
        (byte & 0x20 != 0) == ((byte / 32) % 2 == 1),
        (byte & 0x10 != 0) == ((byte / 16) % 2 == 1),
        (byte & 0x08 != 0) == ((byte / 8) % 2 == 1),
        (byte & 0x04 != 0) == ((byte / 4) % 2 == 1),
        (byte & 0x02 != 0) == ((byte / 2) % 2 == 1),
        (byte & 0x01 != 0) == (byte % 2 == 1),
{
}

/// Packing flags and unpacking the byte gives the flags back.
pub proof fn lemma_flags_round_trip(flags: Flags)
    ensures
        Flags::of_byte(flags.byte()) == flags,
{
}

proof fn lemma_bits_add_up(byte: u8)
    by (bit_vector)
    ensures
        (if byte >= 128 { 128u8 } else { 0u8 }) + (if (byte / 64) % 2 == 1 { 64u8 } else { 0u8 })
            + 32u8 + (if (byte / 16) % 2 == 1 { 16u8 } else { 0u8 }) + (if (byte / 8) % 2 == 1 {
            8u8
        } else {
            0u8
        }) + (if (byte / 4) % 2 == 1 { 4u8 } else { 0u8 }) + (if (byte / 2) % 2 == 1 {
            2u8
        } else {
            0u8
        }) + (if byte % 2 == 1 { 1u8 } else { 0u8 }) == (byte | 0x20),
{
}

/// Unpacking a status byte and packing the flags gives the byte back, with
/// the unused bit set.
pub proof fn lemma_byte_round_trip(byte: u8)
    ensures
        Flags::of_byte(byte).byte() == byte | UNUSED_BIT,
{
    lemma_bits_add_up(byte);
}

} // verus!
