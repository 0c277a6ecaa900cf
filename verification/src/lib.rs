//! A cycle-stepped emulator core for the 6502-family processor of the NES:
//! the opcode table, the system bus with its mirrored regions, the register
//! windows of the video and audio units, and the fetch-decode-execute engine.
//!
//! Every executable function carries a contract over a mathematical model of
//! the machine, and the contracts are proved.
//!
//! - [`decoder`]: the opcode table and the disassembler.
//! - [`flags`], [`alu`], [`addressing`]: the status word, the arithmetic on
//!   bytes and the arithmetic on addresses.
//! - [`bus`]: what a processor can be attached to, and plain memory.
//! - [`machine`]: the model of the processor, one function per family of
//!   operations, and [`laws`] that follow from it.
//! - [`cpu`]: the engine that executes the model.
//! - [`ppu`], [`apu`], [`system`]: the two units as the processor sees them,
//!   and the bus of the console that routes to them.
//! - [`rom`], [`console`]: the container of a program image, and the console
//!   built around one.

pub mod addressing;
pub mod alu;
pub mod apu;
pub mod bus;
pub mod console;
pub mod cpu;
pub mod decoder;
pub mod flags;
pub mod laws;
pub mod machine;
pub mod ppu;
pub mod rom;
pub mod system;
