//! The opcode table: every opcode byte resolves to a mnemonic, an addressing
//! mode, an instruction length and a base cycle count. A stateless
//! disassembler walks a byte stream with it.

use vstd::prelude::*;

verus! {

/// The operation an opcode performs.
#[derive(Copy, Clone, Debug, PartialEq, Eq, Structural)]
pub enum Mnemonic {
    // Load and store
    LDA, LDX, LDY, STA, STX, STY,
    // Register transfer
    TAX, TAY, TXA, TYA,
    // Stack
    TSX, TXS, PHA, PHP, PLA, PLP,
    // Logical
    AND, EOR, ORA, BIT,
    // Arithmetic
    ADC, SBC, CMP, CPX, CPY,
    // Increment and decrement
    INC, INX, INY, DEC, DEX, DEY,
    // Shifts
    ASL, LSR, ROL, ROR,
    // Jumps and calls
    JMP, JSR, RTS,
    // Branches
    BCC, BCS, BEQ, BMI, BNE, BPL, BVC, BVS,
    // Status flag changes
    CLC, CLD, CLI, CLV, SEC, SED, SEI,
    // System
    BRK, NOP, RTI,
    // Unofficial opcodes
    ALR, ANC, ARR, AXS, DCP, ISC, JAM, LAS, LAX, RLA, RRA, SAX, SLO, SRE, AHX, SHX, SHY, TAS, XAA,
}

/// The rule by which an instruction finds its operand.
#[derive(Copy, Clone, Debug, PartialEq, Eq, Structural)]
pub enum AddressMode {
    Implied,
    Accumulator,
    Immediate,
    ZeroPage,
    ZeroPageX,
    ZeroPageY,
    Relative,
    Absolute,
    AbsoluteX,
    AbsoluteY,
    Indirect,
    IndirectX,
    IndirectY,
}

/// How an operation touches its memory operand; the base cycle count of an
/// opcode follows from this and from the addressing mode.
#[derive(Copy, Clone, Debug, PartialEq, Eq, Structural)]
pub enum Access {
    /// Reads the operand, or takes it from the instruction stream.
    Read,
    /// Writes the operand without reading it.
    Write,
    /// Reads the operand, changes it and writes it back.
    Modify,
    /// Has no memory operand, or its own fixed timing.
    Other,
}

/// The family of an operation: operations of one family change the machine
/// in the same manner.
#[derive(Copy, Clone, Debug, PartialEq, Eq, Structural)]
pub enum Family {
    /// Loads into a register and stores from one.
    LoadStore,
    /// Copies between the accumulator and an index register.
    Transfer,
    /// Pushes, pulls, and copies to and from the stack pointer.
    Stack,
    /// Bitwise operations on the accumulator, and the bit test.
    Logical,
    /// Addition, subtraction and comparison.
    Arithmetic,
    /// Adds or subtracts one, in a register or in memory.
    IncDec,
    /// Shifts and rotates.
    Shift,
    /// Jumps, calls and returns.
    Jump,
    /// Conditional branches.
    Branch,
    /// Sets or clears one flag.
    FlagChange,
    /// Break, return from interrupt, no-op and halt.
    System,
    /// Unofficial: two official operations on one operand.
    Combined,
    /// Unofficial: the remaining operations.
    Unofficial,
}

/// One row of the opcode table.
#[derive(Copy, Clone, Debug, PartialEq, Eq, Structural)]
pub struct InstructionInfo {
    pub mnemonic: Mnemonic,
    pub mode: AddressMode,
    /// Length of the instruction in bytes, opcode included.
    pub bytes: u8,
    /// Cycles the instruction takes before any penalty.
    pub cycles: u8,
}

/// One instruction found in a byte stream.
#[derive(Copy, Clone, Debug, PartialEq, Eq, Structural)]
pub struct DecodedInstruction {
    pub info: InstructionInfo,
    /// The operand bytes as one little-endian number; `None` where the
    /// instruction has no operand or the stream ended inside it.
    pub operand: Option<u16>,
}

impl AddressMode {
    /// Length in bytes of an instruction with this addressing mode.
    pub open spec fn instruction_len(self) -> u8 {
        match self {
            AddressMode::Implied | AddressMode::Accumulator => 1,
            AddressMode::Immediate
            | AddressMode::ZeroPage
            | AddressMode::ZeroPageX
            | AddressMode::ZeroPageY
            | AddressMode::Relative
            | AddressMode::IndirectX
            | AddressMode::IndirectY => 2,
            AddressMode::Absolute
            | AddressMode::AbsoluteX
            | AddressMode::AbsoluteY
            | AddressMode::Indirect => 3,
        }
    }

    /// Whether the mode adds an index register to a 16-bit base, so that the
    /// sum can leave the base's page.
    pub open spec fn can_cross_page(self) -> bool {
        self == AddressMode::AbsoluteX || self == AddressMode::AbsoluteY || self
            == AddressMode::IndirectY
    }
}

impl Mnemonic {
    /// How the operation touches its memory operand.
    pub open spec fn access(self) -> Access {
        match self {
            Mnemonic::LDA
            | Mnemonic::LDX
            | Mnemonic::LDY
            | Mnemonic::EOR
            | Mnemonic::AND
            | Mnemonic::ORA
            | Mnemonic::ADC
            | Mnemonic::SBC
            | Mnemonic::CMP
            | Mnemonic::CPX
            | Mnemonic::CPY
            | Mnemonic::BIT
            | Mnemonic::NOP
            | Mnemonic::LAX
            | Mnemonic::LAS
            | Mnemonic::ALR
            | Mnemonic::ANC
            | Mnemonic::ARR
            | Mnemonic::AXS
            | Mnemonic::XAA => Access::Read,
            Mnemonic::STA
            | Mnemonic::STX
            | Mnemonic::STY
            | Mnemonic::SAX
            | Mnemonic::AHX
            | Mnemonic::SHX
            | Mnemonic::SHY
            | Mnemonic::TAS => Access::Write,
            Mnemonic::ASL
            | Mnemonic::LSR
            | Mnemonic::ROL
            | Mnemonic::ROR
            | Mnemonic::INC
            | Mnemonic::DEC
            | Mnemonic::SLO
            | Mnemonic::RLA
            | Mnemonic::SRE
            | Mnemonic::RRA
            | Mnemonic::DCP
            | Mnemonic::ISC => Access::Modify,
            _ => Access::Other,
        }
    }

    /// The family of the operation.
    pub open spec fn family(self) -> Family {
        match self {
            Mnemonic::LDA
            | Mnemonic::LDX
            | Mnemonic::LDY
            | Mnemonic::STA
            | Mnemonic::STX
            | Mnemonic::STY => Family::LoadStore,
            Mnemonic::TAX | Mnemonic::TAY | Mnemonic::TXA | Mnemonic::TYA => Family::Transfer,
            Mnemonic::TSX
            | Mnemonic::TXS
            | Mnemonic::PHA
            | Mnemonic::PHP
            | Mnemonic::PLA
            | Mnemonic::PLP => Family::Stack,
            Mnemonic::AND | Mnemonic::EOR | Mnemonic::ORA | Mnemonic::BIT => Family::Logical,
            Mnemonic::ADC
            | Mnemonic::SBC
            | Mnemonic::CMP
            | Mnemonic::CPX
            | Mnemonic::CPY => Family::Arithmetic,
            Mnemonic::INC
            | Mnemonic::INX
            | Mnemonic::INY
            | Mnemonic::DEC
            | Mnemonic::DEX
            | Mnemonic::DEY => Family::IncDec,
            Mnemonic::ASL | Mnemonic::LSR | Mnemonic::ROL | Mnemonic::ROR => Family::Shift,
            Mnemonic::JMP | Mnemonic::JSR | Mnemonic::RTS => Family::Jump,
            Mnemonic::BCC
            | Mnemonic::BCS
            | Mnemonic::BEQ
            | Mnemonic::BMI
            | Mnemonic::BNE
            | Mnemonic::BPL
            | Mnemonic::BVC
            | Mnemonic::BVS => Family::Branch,
            Mnemonic::CLC
            | Mnemonic::CLD
            | Mnemonic::CLI
            | Mnemonic::CLV
            | Mnemonic::SEC
            | Mnemonic::SED
            | Mnemonic::SEI => Family::FlagChange,
            Mnemonic::BRK | Mnemonic::NOP | Mnemonic::RTI | Mnemonic::JAM => Family::System,
            Mnemonic::SLO
            | Mnemonic::RLA
            | Mnemonic::SRE
            | Mnemonic::RRA
            | Mnemonic::DCP
            | Mnemonic::ISC
            | Mnemonic::LAX
            | Mnemonic::SAX => Family::Combined,
            Mnemonic::ALR
            | Mnemonic::ANC
            | Mnemonic::ARR
            | Mnemonic::AXS
            | Mnemonic::XAA
            | Mnemonic::LAS
            | Mnemonic::AHX
            | Mnemonic::SHX
            | Mnemonic::SHY
            | Mnemonic::TAS => Family::Unofficial,
        }
    }
}

/// Cycles of a reading instruction, by addressing mode.
pub open spec fn read_cycles(mode: AddressMode) -> u8 {
    match mode {
        AddressMode::Implied | AddressMode::Accumulator | AddressMode::Immediate => 2,
        AddressMode::ZeroPage => 3,
        AddressMode::ZeroPageX
        | AddressMode::ZeroPageY
        | AddressMode::Absolute
        | AddressMode::AbsoluteX
        | AddressMode::AbsoluteY => 4,
        AddressMode::IndirectY => 5,
        AddressMode::IndirectX => 6,
        AddressMode::Relative | AddressMode::Indirect => 2,
    }
}

/// Cycles of a storing instruction, by addressing mode: an indexed store
/// always pays for the index addition.
pub open spec fn write_cycles(mode: AddressMode) -> u8 {
    match mode {
        AddressMode::ZeroPage => 3,
        AddressMode::ZeroPageX | AddressMode::ZeroPageY | AddressMode::Absolute => 4,
        AddressMode::AbsoluteX | AddressMode::AbsoluteY => 5,
        AddressMode::IndirectX | AddressMode::IndirectY => 6,
        _ => 2,
    }
}

/// Cycles of a read-modify-write instruction, by addressing mode: two more
/// than the fixed-cycle store to the same place.
pub open spec fn modify_cycles(mode: AddressMode) -> u8 {
    match mode {
        AddressMode::ZeroPage => 5,
        AddressMode::ZeroPageX | AddressMode::Absolute => 6,
        AddressMode::AbsoluteX | AddressMode::AbsoluteY => 7,
        AddressMode::IndirectX | AddressMode::IndirectY => 8,
        _ => 2,
    }
}

/// The base cycle count of an operation in an addressing mode.
pub open spec fn base_cycles(mnemonic: Mnemonic, mode: AddressMode) -> u8 {
    match mnemonic {
        Mnemonic::JAM => 0,
        Mnemonic::PHA | Mnemonic::PHP => 3,
        Mnemonic::PLA | Mnemonic::PLP => 4,
        Mnemonic::RTS | Mnemonic::RTI | Mnemonic::JSR => 6,
        Mnemonic::BRK => 7,
        Mnemonic::JMP => if mode == AddressMode::Indirect {
            5
        } else {
            3
        },
        _ => match mnemonic.access() {
            Access::Read => read_cycles(mode),
            Access::Write => write_cycles(mode),
            Access::Modify => modify_cycles(mode),
            Access::Other => 2,
        },
    }
}

/// Whether an instruction takes one cycle more when its indexed address lies
/// in another page than its base: only reading instructions do, in the three
/// modes that add an index to a 16-bit base.
pub open spec fn pays_page_penalty(info: InstructionInfo) -> bool {
    info.mnemonic.access() == Access::Read && info.mode.can_cross_page()
}

/// The operation and addressing mode of every opcode byte.
#[verifier::opaque]
pub open spec fn opcode_shape(opcode: u8) -> (Mnemonic, AddressMode) {
    match opcode {
        0x00 => (Mnemonic::BRK, AddressMode::Implied),
        0x01 => (Mnemonic::ORA, AddressMode::IndirectX),
        0x02 => (Mnemonic::JAM, AddressMode::Implied),
        0x03 => (Mnemonic::SLO, AddressMode::IndirectX),
        0x04 => (Mnemonic::NOP, AddressMode::ZeroPage),
        0x05 => (Mnemonic::ORA, AddressMode::ZeroPage),
        0x06 => (Mnemonic::ASL, AddressMode::ZeroPage),
        0x07 => (Mnemonic::SLO, AddressMode::ZeroPage),
        0x08 => (Mnemonic::PHP, AddressMode::Implied),
        0x09 => (Mnemonic::ORA, AddressMode::Immediate),
        0x0A => (Mnemonic::ASL, AddressMode::Accumulator),
        0x0B => (Mnemonic::ANC, AddressMode::Immediate),
        0x0C => (Mnemonic::NOP, AddressMode::Absolute),
        0x0D => (Mnemonic::ORA, AddressMode::Absolute),
        0x0E => (Mnemonic::ASL, AddressMode::Absolute),
        0x0F => (Mnemonic::SLO, AddressMode::Absolute),
        0x10 => (Mnemonic::BPL, AddressMode::Relative),
        0x11 => (Mnemonic::ORA, AddressMode::IndirectY),
        0x12 => (Mnemonic::JAM, AddressMode::Implied),
        0x13 => (Mnemonic::SLO, AddressMode::IndirectY),
        0x14 => (Mnemonic::NOP, AddressMode::ZeroPageX),
        0x15 => (Mnemonic::ORA, AddressMode::ZeroPageX),
        0x16 => (Mnemonic::ASL, AddressMode::ZeroPageX),
        0x17 => (Mnemonic::SLO, AddressMode::ZeroPageX),
        0x18 => (Mnemonic::CLC, AddressMode::Implied),
        0x19 => (Mnemonic::ORA, AddressMode::AbsoluteY),
        0x1A => (Mnemonic::NOP, AddressMode::Implied),
        0x1B => (Mnemonic::SLO, AddressMode::AbsoluteY),
        0x1C => (Mnemonic::NOP, AddressMode::AbsoluteX),
        0x1D => (Mnemonic::ORA, AddressMode::AbsoluteX),
        0x1E => (Mnemonic::ASL, AddressMode::AbsoluteX),
        0x1F => (Mnemonic::SLO, AddressMode::AbsoluteX),
        0x20 => (Mnemonic::JSR, AddressMode::Absolute),
        0x21 => (Mnemonic::AND, AddressMode::IndirectX),
        0x22 => (Mnemonic::JAM, AddressMode::Implied),
        0x23 => (Mnemonic::RLA, AddressMode::IndirectX),
        0x24 => (Mnemonic::BIT, AddressMode::ZeroPage),
        0x25 => (Mnemonic::AND, AddressMode::ZeroPage),
        0x26 => (Mnemonic::ROL, AddressMode::ZeroPage),
        0x27 => (Mnemonic::RLA, AddressMode::ZeroPage),
        0x28 => (Mnemonic::PLP, AddressMode::Implied),
        0x29 => (Mnemonic::AND, AddressMode::Immediate),
        0x2A => (Mnemonic::ROL, AddressMode::Accumulator),
        0x2B => (Mnemonic::ANC, AddressMode::Immediate),
        0x2C => (Mnemonic::BIT, AddressMode::Absolute),
        0x2D => (Mnemonic::AND, AddressMode::Absolute),
        0x2E => (Mnemonic::ROL, AddressMode::Absolute),
        0x2F => (Mnemonic::RLA, AddressMode::Absolute),
        0x30 => (Mnemonic::BMI, AddressMode::Relative),
        0x31 => (Mnemonic::AND, AddressMode::IndirectY),
        0x32 => (Mnemonic::JAM, AddressMode::Implied),
        0x33 => (Mnemonic::RLA, AddressMode::IndirectY),
        0x34 => (Mnemonic::NOP, AddressMode::ZeroPageX),
        0x35 => (Mnemonic::AND, AddressMode::ZeroPageX),
        0x36 => (Mnemonic::ROL, AddressMode::ZeroPageX),
        0x37 => (Mnemonic::RLA, AddressMode::ZeroPageX),
        0x38 => (Mnemonic::SEC, AddressMode::Implied),
        0x39 => (Mnemonic::AND, AddressMode::AbsoluteY),
        0x3A => (Mnemonic::NOP, AddressMode::Implied),
        0x3B => (Mnemonic::RLA, AddressMode::AbsoluteY),
        0x3C => (Mnemonic::NOP, AddressMode::AbsoluteX),
        0x3D => (Mnemonic::AND, AddressMode::AbsoluteX),
        0x3E => (Mnemonic::ROL, AddressMode::AbsoluteX),
        0x3F => (Mnemonic::RLA, AddressMode::AbsoluteX),
        0x40 => (Mnemonic::RTI, AddressMode::Implied),
        0x41 => (Mnemonic::EOR, AddressMode::IndirectX),
        0x42 => (Mnemonic::JAM, AddressMode::Implied),
        0x43 => (Mnemonic::SRE, AddressMode::IndirectX),
        0x44 => (Mnemonic::NOP, AddressMode::ZeroPage),
        0x45 => (Mnemonic::EOR, AddressMode::ZeroPage),
        0x46 => (Mnemonic::LSR, AddressMode::ZeroPage),
        0x47 => (Mnemonic::SRE, AddressMode::ZeroPage),
        0x48 => (Mnemonic::PHA, AddressMode::Implied),
        0x49 => (Mnemonic::EOR, AddressMode::Immediate),
        0x4A => (Mnemonic::LSR, AddressMode::Accumulator),
        0x4B => (Mnemonic::ALR, AddressMode::Immediate),
        0x4C => (Mnemonic::JMP, AddressMode::Absolute),
        0x4D => (Mnemonic::EOR, AddressMode::Absolute),
        0x4E => (Mnemonic::LSR, AddressMode::Absolute),
        0x4F => (Mnemonic::SRE, AddressMode::Absolute),
        0x50 => (Mnemonic::BVC, AddressMode::Relative),
        0x51 => (Mnemonic::EOR, AddressMode::IndirectY),
        0x52 => (Mnemonic::JAM, AddressMode::Implied),
        0x53 => (Mnemonic::SRE, AddressMode::IndirectY),
        0x54 => (Mnemonic::NOP, AddressMode::ZeroPageX),
        0x55 => (Mnemonic::EOR, AddressMode::ZeroPageX),
        0x56 => (Mnemonic::LSR, AddressMode::ZeroPageX),
        0x57 => (Mnemonic::SRE, AddressMode::ZeroPageX),
        0x58 => (Mnemonic::CLI, AddressMode::Implied),
        0x59 => (Mnemonic::EOR, AddressMode::AbsoluteY),
        0x5A => (Mnemonic::NOP, AddressMode::Implied),
        0x5B => (Mnemonic::SRE, AddressMode::AbsoluteY),
        0x5C => (Mnemonic::NOP, AddressMode::AbsoluteX),
        0x5D => (Mnemonic::EOR, AddressMode::AbsoluteX),
        0x5E => (Mnemonic::LSR, AddressMode::AbsoluteX),
        0x5F => (Mnemonic::SRE, AddressMode::AbsoluteX),
        0x60 => (Mnemonic::RTS, AddressMode::Implied),
        0x61 => (Mnemonic::ADC, AddressMode::IndirectX),
        0x62 => (Mnemonic::JAM, AddressMode::Implied),
        0x63 => (Mnemonic::RRA, AddressMode::IndirectX),
        0x64 => (Mnemonic::NOP, AddressMode::ZeroPage),
        0x65 => (Mnemonic::ADC, AddressMode::ZeroPage),
        0x66 => (Mnemonic::ROR, AddressMode::ZeroPage),
        0x67 => (Mnemonic::RRA, AddressMode::ZeroPage),
        0x68 => (Mnemonic::PLA, AddressMode::Implied),
        0x69 => (Mnemonic::ADC, AddressMode::Immediate),
        0x6A => (Mnemonic::ROR, AddressMode::Accumulator),
        0x6B => (Mnemonic::ARR, AddressMode::Immediate),
        0x6C => (Mnemonic::JMP, AddressMode::Indirect),
        0x6D => (Mnemonic::ADC, AddressMode::Absolute),
        0x6E => (Mnemonic::ROR, AddressMode::Absolute),
        0x6F => (Mnemonic::RRA, AddressMode::Absolute),
        0x70 => (Mnemonic::BVS, AddressMode::Relative),
        0x71 => (Mnemonic::ADC, AddressMode::IndirectY),
        0x72 => (Mnemonic::JAM, AddressMode::Implied),
        0x73 => (Mnemonic::RRA, AddressMode::IndirectY),
        0x74 => (Mnemonic::NOP, AddressMode::ZeroPageX),
        0x75 => (Mnemonic::ADC, AddressMode::ZeroPageX),
        0x76 => (Mnemonic::ROR, AddressMode::ZeroPageX),
        0x77 => (Mnemonic::RRA, AddressMode::ZeroPageX),
        0x78 => (Mnemonic::SEI, AddressMode::Implied),
        0x79 => (Mnemonic::ADC, AddressMode::AbsoluteY),
        0x7A => (Mnemonic::NOP, AddressMode::Implied),
        0x7B => (Mnemonic::RRA, AddressMode::AbsoluteY),
        0x7C => (Mnemonic::NOP, AddressMode::AbsoluteX),
        0x7D => (Mnemonic::ADC, AddressMode::AbsoluteX),
        0x7E => (Mnemonic::ROR, AddressMode::AbsoluteX),
        0x7F => (Mnemonic::RRA, AddressMode::AbsoluteX),
        0x80 => (Mnemonic::NOP, AddressMode::Immediate),
        0x81 => (Mnemonic::STA, AddressMode::IndirectX),
        0x82 => (Mnemonic::NOP, AddressMode::Immediate),
        0x83 => (Mnemonic::SAX, AddressMode::IndirectX),
        0x84 => (Mnemonic::STY, AddressMode::ZeroPage),
        0x85 => (Mnemonic::STA, AddressMode::ZeroPage),
        0x86 => (Mnemonic::STX, AddressMode::ZeroPage),
        0x87 => (Mnemonic::SAX, AddressMode::ZeroPage),
        0x88 => (Mnemonic::DEY, AddressMode::Implied),
        0x89 => (Mnemonic::NOP, AddressMode::Immediate),
        0x8A => (Mnemonic::TXA, AddressMode::Implied),
        0x8B => (Mnemonic::XAA, AddressMode::Immediate),
        0x8C => (Mnemonic::STY, AddressMode::Absolute),
        0x8D => (Mnemonic::STA, AddressMode::Absolute),
        0x8E => (Mnemonic::STX, AddressMode::Absolute),
        0x8F => (Mnemonic::SAX, AddressMode::Absolute),
        0x90 => (Mnemonic::BCC, AddressMode::Relative),
        0x91 => (Mnemonic::STA, AddressMode::IndirectY),
        0x92 => (Mnemonic::JAM, AddressMode::Implied),
        0x93 => (Mnemonic::AHX, AddressMode::IndirectY),
        0x94 => (Mnemonic::STY, AddressMode::ZeroPageX),
        0x95 => (Mnemonic::STA, AddressMode::ZeroPageX),
        0x96 => (Mnemonic::STX, AddressMode::ZeroPageY),
        0x97 => (Mnemonic::SAX, AddressMode::ZeroPageY),
        0x98 => (Mnemonic::TYA, AddressMode::Implied),
        0x99 => (Mnemonic::STA, AddressMode::AbsoluteY),
        0x9A => (Mnemonic::TXS, AddressMode::Implied),
        0x9B => (Mnemonic::TAS, AddressMode::AbsoluteY),
        0x9C => (Mnemonic::SHY, AddressMode::AbsoluteX),
        0x9D => (Mnemonic::STA, AddressMode::AbsoluteX),
        0x9E => (Mnemonic::SHX, AddressMode::AbsoluteY),
        0x9F => (Mnemonic::AHX, AddressMode::AbsoluteY),
        0xA0 => (Mnemonic::LDY, AddressMode::Immediate),
        0xA1 => (Mnemonic::LDA, AddressMode::IndirectX),
        0xA2 => (Mnemonic::LDX, AddressMode::Immediate),
        0xA3 => (Mnemonic::LAX, AddressMode::IndirectX),
        0xA4 => (Mnemonic::LDY, AddressMode::ZeroPage),
        0xA5 => (Mnemonic::LDA, AddressMode::ZeroPage),
        0xA6 => (Mnemonic::LDX, AddressMode::ZeroPage),
        0xA7 => (Mnemonic::LAX, AddressMode::ZeroPage),
        0xA8 => (Mnemonic::TAY, AddressMode::Implied),
        0xA9 => (Mnemonic::LDA, AddressMode::Immediate),
        0xAA => (Mnemonic::TAX, AddressMode::Implied),
        0xAB => (Mnemonic::LAX, AddressMode::Immediate),
        0xAC => (Mnemonic::LDY, AddressMode::Absolute),
        0xAD => (Mnemonic::LDA, AddressMode::Absolute),
        0xAE => (Mnemonic::LDX, AddressMode::Absolute),
        0xAF => (Mnemonic::LAX, AddressMode::Absolute),
        0xB0 => (Mnemonic::BCS, AddressMode::Relative),
        0xB1 => (Mnemonic::LDA, AddressMode::IndirectY),
        0xB2 => (Mnemonic::JAM, AddressMode::Implied),
        0xB3 => (Mnemonic::LAX, AddressMode::IndirectY),
        0xB4 => (Mnemonic::LDY, AddressMode::ZeroPageX),
        0xB5 => (Mnemonic::LDA, AddressMode::ZeroPageX),
        0xB6 => (Mnemonic::LDX, AddressMode::ZeroPageY),
        0xB7 => (Mnemonic::LAX, AddressMode::ZeroPageY),
        0xB8 => (Mnemonic::CLV, AddressMode::Implied),
        0xB9 => (Mnemonic::LDA, AddressMode::AbsoluteY),
        0xBA => (Mnemonic::TSX, AddressMode::Implied),
        0xBB => (Mnemonic::LAS, AddressMode::AbsoluteY),
        0xBC => (Mnemonic::LDY, AddressMode::AbsoluteX),
        0xBD => (Mnemonic::LDA, AddressMode::AbsoluteX),
        0xBE => (Mnemonic::LDX, AddressMode::AbsoluteY),
        0xBF => (Mnemonic::LAX, AddressMode::AbsoluteY),
        0xC0 => (Mnemonic::CPY, AddressMode::Immediate),
        0xC1 => (Mnemonic::CMP, AddressMode::IndirectX),
        0xC2 => (Mnemonic::NOP, AddressMode::Immediate),
        0xC3 => (Mnemonic::DCP, AddressMode::IndirectX),
        0xC4 => (Mnemonic::CPY, AddressMode::ZeroPage),
        0xC5 => (Mnemonic::CMP, AddressMode::ZeroPage),
        0xC6 => (Mnemonic::DEC, AddressMode::ZeroPage),
        0xC7 => (Mnemonic::DCP, AddressMode::ZeroPage),
        0xC8 => (Mnemonic::INY, AddressMode::Implied),
        0xC9 => (Mnemonic::CMP, AddressMode::Immediate),
        0xCA => (Mnemonic::DEX, AddressMode::Implied),
        0xCB => (Mnemonic::AXS, AddressMode::Immediate),
        0xCC => (Mnemonic::CPY, AddressMode::Absolute),
        0xCD => (Mnemonic::CMP, AddressMode::Absolute),
        0xCE => (Mnemonic::DEC, AddressMode::Absolute),
        0xCF => (Mnemonic::DCP, AddressMode::Absolute),
        0xD0 => (Mnemonic::BNE, AddressMode::Relative),
        0xD1 => (Mnemonic::CMP, AddressMode::IndirectY),
        0xD2 => (Mnemonic::JAM, AddressMode::Implied),
        0xD3 => (Mnemonic::DCP, AddressMode::IndirectY),
        0xD4 => (Mnemonic::NOP, AddressMode::ZeroPageX),
        0xD5 => (Mnemonic::CMP, AddressMode::ZeroPageX),
        0xD6 => (Mnemonic::DEC, AddressMode::ZeroPageX),
        0xD7 => (Mnemonic::DCP, AddressMode::ZeroPageX),
        0xD8 => (Mnemonic::CLD, AddressMode::Implied),
        0xD9 => (Mnemonic::CMP, AddressMode::AbsoluteY),
        0xDA => (Mnemonic::NOP, AddressMode::Implied),
        0xDB => (Mnemonic::DCP, AddressMode::AbsoluteY),
        0xDC => (Mnemonic::NOP, AddressMode::AbsoluteX),
        0xDD => (Mnemonic::CMP, AddressMode::AbsoluteX),
        0xDE => (Mnemonic::DEC, AddressMode::AbsoluteX),
        0xDF => (Mnemonic::DCP, AddressMode::AbsoluteX),
        0xE0 => (Mnemonic::CPX, AddressMode::Immediate),
        0xE1 => (Mnemonic::SBC, AddressMode::IndirectX),
        0xE2 => (Mnemonic::NOP, AddressMode::Immediate),
        0xE3 => (Mnemonic::ISC, AddressMode::IndirectX),
        0xE4 => (Mnemonic::CPX, AddressMode::ZeroPage),
        0xE5 => (Mnemonic::SBC, AddressMode::ZeroPage),
        0xE6 => (Mnemonic::INC, AddressMode::ZeroPage),
        0xE7 => (Mnemonic::ISC, AddressMode::ZeroPage),
        0xE8 => (Mnemonic::INX, AddressMode::Implied),
        0xE9 => (Mnemonic::SBC, AddressMode::Immediate),
        0xEA => (Mnemonic::NOP, AddressMode::Implied),
        0xEB => (Mnemonic::SBC, AddressMode::Immediate),
        0xEC => (Mnemonic::CPX, AddressMode::Absolute),
        0xED => (Mnemonic::SBC, AddressMode::Absolute),
        0xEE => (Mnemonic::INC, AddressMode::Absolute),
        0xEF => (Mnemonic::ISC, AddressMode::Absolute),
        0xF0 => (Mnemonic::BEQ, AddressMode::Relative),
        0xF1 => (Mnemonic::SBC, AddressMode::IndirectY),
        0xF2 => (Mnemonic::JAM, AddressMode::Implied),
        0xF3 => (Mnemonic::ISC, AddressMode::IndirectY),
        0xF4 => (Mnemonic::NOP, AddressMode::ZeroPageX),
        0xF5 => (Mnemonic::SBC, AddressMode::ZeroPageX),
        0xF6 => (Mnemonic::INC, AddressMode::ZeroPageX),
        0xF7 => (Mnemonic::ISC, AddressMode::ZeroPageX),
        0xF8 => (Mnemonic::SED, AddressMode::Implied),
        0xF9 => (Mnemonic::SBC, AddressMode::AbsoluteY),
        0xFA => (Mnemonic::NOP, AddressMode::Implied),
        0xFB => (Mnemonic::ISC, AddressMode::AbsoluteY),
        0xFC => (Mnemonic::NOP, AddressMode::AbsoluteX),
        0xFD => (Mnemonic::SBC, AddressMode::AbsoluteX),
        0xFE => (Mnemonic::INC, AddressMode::AbsoluteX),
        0xFF => (Mnemonic::ISC, AddressMode::AbsoluteX),
    }
}

/// The table row of an opcode byte: its shape, the length its addressing
/// mode gives it, and the cycles its kind of access costs in that mode.
pub open spec fn opcode_info(opcode: u8) -> InstructionInfo {
    let (mnemonic, mode) = opcode_shape(opcode);
    InstructionInfo {
        mnemonic,
        mode,
        bytes: mode.instruction_len(),
        cycles: base_cycles(mnemonic, mode),
    }
}

fn entry(mnemonic: Mnemonic, mode: AddressMode, bytes: u8, cycles: u8) -> (info: InstructionInfo)
    ensures
        info == (InstructionInfo { mnemonic, mode, bytes, cycles }),
{
    InstructionInfo { mnemonic, mode, bytes, cycles }
}


fn row_0(opcode: u8) -> (info: InstructionInfo)
    requires
        opcode / 16 == 0x0,
    ensures
        info == opcode_info(opcode),
{
    proof {
        reveal(opcode_shape);
    }
    match opcode {
        0x00 => entry(Mnemonic::BRK, AddressMode::Implied, 1, 7),
        0x01 => entry(Mnemonic::ORA, AddressMode::IndirectX, 2, 6),
        0x02 => entry(Mnemonic::JAM, AddressMode::Implied, 1, 0),
        0x03 => entry(Mnemonic::SLO, AddressMode::IndirectX, 2, 8),
        0x04 => entry(Mnemonic::NOP, AddressMode::ZeroPage, 2, 3),
        0x05 => entry(Mnemonic::ORA, AddressMode::ZeroPage, 2, 3),
        0x06 => entry(Mnemonic::ASL, AddressMode::ZeroPage, 2, 5),
        0x07 => entry(Mnemonic::SLO, AddressMode::ZeroPage, 2, 5),
        0x08 => entry(Mnemonic::PHP, AddressMode::Implied, 1, 3),
        0x09 => entry(Mnemonic::ORA, AddressMode::Immediate, 2, 2),
        0x0A => entry(Mnemonic::ASL, AddressMode::Accumulator, 1, 2),
        0x0B => entry(Mnemonic::ANC, AddressMode::Immediate, 2, 2),
        0x0C => entry(Mnemonic::NOP, AddressMode::Absolute, 3, 4),
        0x0D => entry(Mnemonic::ORA, AddressMode::Absolute, 3, 4),
        0x0E => entry(Mnemonic::ASL, AddressMode::Absolute, 3, 6),
        0x0F => entry(Mnemonic::SLO, AddressMode::Absolute, 3, 6),
        _ => unreached(),
    }
}

fn row_1(opcode: u8) -> (info: InstructionInfo)
    requires
        opcode / 16 == 0x1,
    ensures
        info == opcode_info(opcode),
{
    proof {
        reveal(opcode_shape);
    }
    match opcode {
        0x10 => entry(Mnemonic::BPL, AddressMode::Relative, 2, 2),
        0x11 => entry(Mnemonic::ORA, AddressMode::IndirectY, 2, 5),
        0x12 => entry(Mnemonic::JAM, AddressMode::Implied, 1, 0),
        0x13 => entry(Mnemonic::SLO, AddressMode::IndirectY, 2, 8),
        0x14 => entry(Mnemonic::NOP, AddressMode::ZeroPageX, 2, 4),
        0x15 => entry(Mnemonic::ORA, AddressMode::ZeroPageX, 2, 4),
        0x16 => entry(Mnemonic::ASL, AddressMode::ZeroPageX, 2, 6),
        0x17 => entry(Mnemonic::SLO, AddressMode::ZeroPageX, 2, 6),
        0x18 => entry(Mnemonic::CLC, AddressMode::Implied, 1, 2),
        0x19 => entry(Mnemonic::ORA, AddressMode::AbsoluteY, 3, 4),
        0x1A => entry(Mnemonic::NOP, AddressMode::Implied, 1, 2),
        0x1B => entry(Mnemonic::SLO, AddressMode::AbsoluteY, 3, 7),
        0x1C => entry(Mnemonic::NOP, AddressMode::AbsoluteX, 3, 4),
        0x1D => entry(Mnemonic::ORA, AddressMode::AbsoluteX, 3, 4),
        0x1E => entry(Mnemonic::ASL, AddressMode::AbsoluteX, 3, 7),
        0x1F => entry(Mnemonic::SLO, AddressMode::AbsoluteX, 3, 7),
        _ => unreached(),
    }
}

fn row_2(opcode: u8) -> (info: InstructionInfo)
    requires
        opcode / 16 == 0x2,
    ensures
        info == opcode_info(opcode),
{
    proof {
        reveal(opcode_shape);
    }
    match opcode {
        0x20 => entry(Mnemonic::JSR, AddressMode::Absolute, 3, 6),
        0x21 => entry(Mnemonic::AND, AddressMode::IndirectX, 2, 6),
        0x22 => entry(Mnemonic::JAM, AddressMode::Implied, 1, 0),
        0x23 => entry(Mnemonic::RLA, AddressMode::IndirectX, 2, 8),
        0x24 => entry(Mnemonic::BIT, AddressMode::ZeroPage, 2, 3),
        0x25 => entry(Mnemonic::AND, AddressMode::ZeroPage, 2, 3),
        0x26 => entry(Mnemonic::ROL, AddressMode::ZeroPage, 2, 5),
        0x27 => entry(Mnemonic::RLA, AddressMode::ZeroPage, 2, 5),
        0x28 => entry(Mnemonic::PLP, AddressMode::Implied, 1, 4),
        0x29 => entry(Mnemonic::AND, AddressMode::Immediate, 2, 2),
        0x2A => entry(Mnemonic::ROL, AddressMode::Accumulator, 1, 2),
        0x2B => entry(Mnemonic::ANC, AddressMode::Immediate, 2, 2),
        0x2C => entry(Mnemonic::BIT, AddressMode::Absolute, 3, 4),
        0x2D => entry(Mnemonic::AND, AddressMode::Absolute, 3, 4),
        0x2E => entry(Mnemonic::ROL, AddressMode::Absolute, 3, 6),
        0x2F => entry(Mnemonic::RLA, AddressMode::Absolute, 3, 6),
        _ => unreached(),
    }
}

fn row_3(opcode: u8) -> (info: InstructionInfo)
    requires
        opcode / 16 == 0x3,
    ensures
        info == opcode_info(opcode),
{
    proof {
        reveal(opcode_shape);
    }
    match opcode {
        0x30 => entry(Mnemonic::BMI, AddressMode::Relative, 2, 2),
        0x31 => entry(Mnemonic::AND, AddressMode::IndirectY, 2, 5),
        0x32 => entry(Mnemonic::JAM, AddressMode::Implied, 1, 0),
        0x33 => entry(Mnemonic::RLA, AddressMode::IndirectY, 2, 8),
        0x34 => entry(Mnemonic::NOP, AddressMode::ZeroPageX, 2, 4),
        0x35 => entry(Mnemonic::AND, AddressMode::ZeroPageX, 2, 4),
        0x36 => entry(Mnemonic::ROL, AddressMode::ZeroPageX, 2, 6),
        0x37 => entry(Mnemonic::RLA, AddressMode::ZeroPageX, 2, 6),
        0x38 => entry(Mnemonic::SEC, AddressMode::Implied, 1, 2),
        0x39 => entry(Mnemonic::AND, AddressMode::AbsoluteY, 3, 4),
        0x3A => entry(Mnemonic::NOP, AddressMode::Implied, 1, 2),
        0x3B => entry(Mnemonic::RLA, AddressMode::AbsoluteY, 3, 7),
        0x3C => entry(Mnemonic::NOP, AddressMode::AbsoluteX, 3, 4),
        0x3D => entry(Mnemonic::AND, AddressMode::AbsoluteX, 3, 4),
        0x3E => entry(Mnemonic::ROL, AddressMode::AbsoluteX, 3, 7),
        0x3F => entry(Mnemonic::RLA, AddressMode::AbsoluteX, 3, 7),
        _ => unreached(),
    }
}

fn row_4(opcode: u8) -> (info: InstructionInfo)
    requires
        opcode / 16 == 0x4,
    ensures
        info == opcode_info(opcode),
{
    proof {
        reveal(opcode_shape);
    }
    match opcode {
        0x40 => entry(Mnemonic::RTI, AddressMode::Implied, 1, 6),
        0x41 => entry(Mnemonic::EOR, AddressMode::IndirectX, 2, 6),
        0x42 => entry(Mnemonic::JAM, AddressMode::Implied, 1, 0),
        0x43 => entry(Mnemonic::SRE, AddressMode::IndirectX, 2, 8),
        0x44 => entry(Mnemonic::NOP, AddressMode::ZeroPage, 2, 3),
        0x45 => entry(Mnemonic::EOR, AddressMode::ZeroPage, 2, 3),
        0x46 => entry(Mnemonic::LSR, AddressMode::ZeroPage, 2, 5),
        0x47 => entry(Mnemonic::SRE, AddressMode::ZeroPage, 2, 5),
        0x48 => entry(Mnemonic::PHA, AddressMode::Implied, 1, 3),
        0x49 => entry(Mnemonic::EOR, AddressMode::Immediate, 2, 2),
        0x4A => entry(Mnemonic::LSR, AddressMode::Accumulator, 1, 2),
        0x4B => entry(Mnemonic::ALR, AddressMode::Immediate, 2, 2),
        0x4C => entry(Mnemonic::JMP, AddressMode::Absolute, 3, 3),
        0x4D => entry(Mnemonic::EOR, AddressMode::Absolute, 3, 4),
        0x4E => entry(Mnemonic::LSR, AddressMode::Absolute, 3, 6),
        0x4F => entry(Mnemonic::SRE, AddressMode::Absolute, 3, 6),
        _ => unreached(),
    }
}

fn row_5(opcode: u8) -> (info: InstructionInfo)
    requires
        opcode / 16 == 0x5,
    ensures
        info == opcode_info(opcode),
{
    proof {
        reveal(opcode_shape);
    }
    match opcode {
        0x50 => entry(Mnemonic::BVC, AddressMode::Relative, 2, 2),
        0x51 => entry(Mnemonic::EOR, AddressMode::IndirectY, 2, 5),
        0x52 => entry(Mnemonic::JAM, AddressMode::Implied, 1, 0),
        0x53 => entry(Mnemonic::SRE, AddressMode::IndirectY, 2, 8),
        0x54 => entry(Mnemonic::NOP, AddressMode::ZeroPageX, 2, 4),
        0x55 => entry(Mnemonic::EOR, AddressMode::ZeroPageX, 2, 4),
        0x56 => entry(Mnemonic::LSR, AddressMode::ZeroPageX, 2, 6),
        0x57 => entry(Mnemonic::SRE, AddressMode::ZeroPageX, 2, 6),
        0x58 => entry(Mnemonic::CLI, AddressMode::Implied, 1, 2),
        0x59 => entry(Mnemonic::EOR, AddressMode::AbsoluteY, 3, 4),
        0x5A => entry(Mnemonic::NOP, AddressMode::Implied, 1, 2),
        0x5B => entry(Mnemonic::SRE, AddressMode::AbsoluteY, 3, 7),
        0x5C => entry(Mnemonic::NOP, AddressMode::AbsoluteX, 3, 4),
        0x5D => entry(Mnemonic::EOR, AddressMode::AbsoluteX, 3, 4),
        0x5E => entry(Mnemonic::LSR, AddressMode::AbsoluteX, 3, 7),
        0x5F => entry(Mnemonic::SRE, AddressMode::AbsoluteX, 3, 7),
        _ => unreached(),
    }
}

fn row_6(opcode: u8) -> (info: InstructionInfo)
    requires
        opcode / 16 == 0x6,
    ensures
        info == opcode_info(opcode),
{
    proof {
        reveal(opcode_shape);
    }
    match opcode {
        0x60 => entry(Mnemonic::RTS, AddressMode::Implied, 1, 6),
        0x61 => entry(Mnemonic::ADC, AddressMode::IndirectX, 2, 6),
        0x62 => entry(Mnemonic::JAM, AddressMode::Implied, 1, 0),
        0x63 => entry(Mnemonic::RRA, AddressMode::IndirectX, 2, 8),
        0x64 => entry(Mnemonic::NOP, AddressMode::ZeroPage, 2, 3),
        0x65 => entry(Mnemonic::ADC, AddressMode::ZeroPage, 2, 3),
        0x66 => entry(Mnemonic::ROR, AddressMode::ZeroPage, 2, 5),
        0x67 => entry(Mnemonic::RRA, AddressMode::ZeroPage, 2, 5),
        0x68 => entry(Mnemonic::PLA, AddressMode::Implied, 1, 4),
        0x69 => entry(Mnemonic::ADC, AddressMode::Immediate, 2, 2),
        0x6A => entry(Mnemonic::ROR, AddressMode::Accumulator, 1, 2),
        0x6B => entry(Mnemonic::ARR, AddressMode::Immediate, 2, 2),
        0x6C => entry(Mnemonic::JMP, AddressMode::Indirect, 3, 5),
        0x6D => entry(Mnemonic::ADC, AddressMode::Absolute, 3, 4),
        0x6E => entry(Mnemonic::ROR, AddressMode::Absolute, 3, 6),
        0x6F => entry(Mnemonic::RRA, AddressMode::Absolute, 3, 6),
        _ => unreached(),
    }
}

fn row_7(opcode: u8) -> (info: InstructionInfo)
    requires
        opcode / 16 == 0x7,
    ensures
        info == opcode_info(opcode),
{
    proof {
        reveal(opcode_shape);
    }
    match opcode {
        0x70 => entry(Mnemonic::BVS, AddressMode::Relative, 2, 2),
        0x71 => entry(Mnemonic::ADC, AddressMode::IndirectY, 2, 5),
        0x72 => entry(Mnemonic::JAM, AddressMode::Implied, 1, 0),
        0x73 => entry(Mnemonic::RRA, AddressMode::IndirectY, 2, 8),
        0x74 => entry(Mnemonic::NOP, AddressMode::ZeroPageX, 2, 4),
        0x75 => entry(Mnemonic::ADC, AddressMode::ZeroPageX, 2, 4),
        0x76 => entry(Mnemonic::ROR, AddressMode::ZeroPageX, 2, 6),
        0x77 => entry(Mnemonic::RRA, AddressMode::ZeroPageX, 2, 6),
        0x78 => entry(Mnemonic::SEI, AddressMode::Implied, 1, 2),
        0x79 => entry(Mnemonic::ADC, AddressMode::AbsoluteY, 3, 4),
        0x7A => entry(Mnemonic::NOP, AddressMode::Implied, 1, 2),
        0x7B => entry(Mnemonic::RRA, AddressMode::AbsoluteY, 3, 7),
        0x7C => entry(Mnemonic::NOP, AddressMode::AbsoluteX, 3, 4),
        0x7D => entry(Mnemonic::ADC, AddressMode::AbsoluteX, 3, 4),
        0x7E => entry(Mnemonic::ROR, AddressMode::AbsoluteX, 3, 7),
        0x7F => entry(Mnemonic::RRA, AddressMode::AbsoluteX, 3, 7),
        _ => unreached(),
    }
}

fn row_8(opcode: u8) -> (info: InstructionInfo)
    requires
        opcode / 16 == 0x8,
    ensures
        info == opcode_info(opcode),
{
    proof {
        reveal(opcode_shape);
    }
    match opcode {
        0x80 => entry(Mnemonic::NOP, AddressMode::Immediate, 2, 2),
        0x81 => entry(Mnemonic::STA, AddressMode::IndirectX, 2, 6),
        0x82 => entry(Mnemonic::NOP, AddressMode::Immediate, 2, 2),
        0x83 => entry(Mnemonic::SAX, AddressMode::IndirectX, 2, 6),
        0x84 => entry(Mnemonic::STY, AddressMode::ZeroPage, 2, 3),
        0x85 => entry(Mnemonic::STA, AddressMode::ZeroPage, 2, 3),
        0x86 => entry(Mnemonic::STX, AddressMode::ZeroPage, 2, 3),
        0x87 => entry(Mnemonic::SAX, AddressMode::ZeroPage, 2, 3),
        0x88 => entry(Mnemonic::DEY, AddressMode::Implied, 1, 2),
        0x89 => entry(Mnemonic::NOP, AddressMode::Immediate, 2, 2),
        0x8A => entry(Mnemonic::TXA, AddressMode::Implied, 1, 2),
        0x8B => entry(Mnemonic::XAA, AddressMode::Immediate, 2, 2),
        0x8C => entry(Mnemonic::STY, AddressMode::Absolute, 3, 4),
        0x8D => entry(Mnemonic::STA, AddressMode::Absolute, 3, 4),
        0x8E => entry(Mnemonic::STX, AddressMode::Absolute, 3, 4),
        0x8F => entry(Mnemonic::SAX, AddressMode::Absolute, 3, 4),
        _ => unreached(),
    }
}

fn row_9(opcode: u8) -> (info: InstructionInfo)
    requires
        opcode / 16 == 0x9,
    ensures
        info == opcode_info(opcode),
{
    proof {
        reveal(opcode_shape);
    }
    match opcode {
        0x90 => entry(Mnemonic::BCC, AddressMode::Relative, 2, 2),
        0x91 => entry(Mnemonic::STA, AddressMode::IndirectY, 2, 6),
        0x92 => entry(Mnemonic::JAM, AddressMode::Implied, 1, 0),
        0x93 => entry(Mnemonic::AHX, AddressMode::IndirectY, 2, 6),
        0x94 => entry(Mnemonic::STY, AddressMode::ZeroPageX, 2, 4),
        0x95 => entry(Mnemonic::STA, AddressMode::ZeroPageX, 2, 4),
        0x96 => entry(Mnemonic::STX, AddressMode::ZeroPageY, 2, 4),
        0x97 => entry(Mnemonic::SAX, AddressMode::ZeroPageY, 2, 4),
        0x98 => entry(Mnemonic::TYA, AddressMode::Implied, 1, 2),
        0x99 => entry(Mnemonic::STA, AddressMode::AbsoluteY, 3, 5),
        0x9A => entry(Mnemonic::TXS, AddressMode::Implied, 1, 2),
        0x9B => entry(Mnemonic::TAS, AddressMode::AbsoluteY, 3, 5),
        0x9C => entry(Mnemonic::SHY, AddressMode::AbsoluteX, 3, 5),
        0x9D => entry(Mnemonic::STA, AddressMode::AbsoluteX, 3, 5),
        0x9E => entry(Mnemonic::SHX, AddressMode::AbsoluteY, 3, 5),
        0x9F => entry(Mnemonic::AHX, AddressMode::AbsoluteY, 3, 5),
        _ => unreached(),
    }
}

fn row_a(opcode: u8) -> (info: InstructionInfo)
    requires
        opcode / 16 == 0xA,
    ensures
        info == opcode_info(opcode),
{
    proof {
        reveal(opcode_shape);
    }
    match opcode {
        0xA0 => entry(Mnemonic::LDY, AddressMode::Immediate, 2, 2),
        0xA1 => entry(Mnemonic::LDA, AddressMode::IndirectX, 2, 6),
        0xA2 => entry(Mnemonic::LDX, AddressMode::Immediate, 2, 2),
        0xA3 => entry(Mnemonic::LAX, AddressMode::IndirectX, 2, 6),
        0xA4 => entry(Mnemonic::LDY, AddressMode::ZeroPage, 2, 3),
        0xA5 => entry(Mnemonic::LDA, AddressMode::ZeroPage, 2, 3),
        0xA6 => entry(Mnemonic::LDX, AddressMode::ZeroPage, 2, 3),
        0xA7 => entry(Mnemonic::LAX, AddressMode::ZeroPage, 2, 3),
        0xA8 => entry(Mnemonic::TAY, AddressMode::Implied, 1, 2),
        0xA9 => entry(Mnemonic::LDA, AddressMode::Immediate, 2, 2),
        0xAA => entry(Mnemonic::TAX, AddressMode::Implied, 1, 2),
        0xAB => entry(Mnemonic::LAX, AddressMode::Immediate, 2, 2),
        0xAC => entry(Mnemonic::LDY, AddressMode::Absolute, 3, 4),
        0xAD => entry(Mnemonic::LDA, AddressMode::Absolute, 3, 4),
        0xAE => entry(Mnemonic::LDX, AddressMode::Absolute, 3, 4),
        0xAF => entry(Mnemonic::LAX, AddressMode::Absolute, 3, 4),
        _ => unreached(),
    }
}

fn row_b(opcode: u8) -> (info: InstructionInfo)
    requires
        opcode / 16 == 0xB,
    ensures
        info == opcode_info(opcode),
{
    proof {
        reveal(opcode_shape);
    }
    match opcode {
        0xB0 => entry(Mnemonic::BCS, AddressMode::Relative, 2, 2),
        0xB1 => entry(Mnemonic::LDA, AddressMode::IndirectY, 2, 5),
        0xB2 => entry(Mnemonic::JAM, AddressMode::Implied, 1, 0),
        0xB3 => entry(Mnemonic::LAX, AddressMode::IndirectY, 2, 5),
        0xB4 => entry(Mnemonic::LDY, AddressMode::ZeroPageX, 2, 4),
        0xB5 => entry(Mnemonic::LDA, AddressMode::ZeroPageX, 2, 4),
        0xB6 => entry(Mnemonic::LDX, AddressMode::ZeroPageY, 2, 4),
        0xB7 => entry(Mnemonic::LAX, AddressMode::ZeroPageY, 2, 4),
        0xB8 => entry(Mnemonic::CLV, AddressMode::Implied, 1, 2),
        0xB9 => entry(Mnemonic::LDA, AddressMode::AbsoluteY, 3, 4),
        0xBA => entry(Mnemonic::TSX, AddressMode::Implied, 1, 2),
        0xBB => entry(Mnemonic::LAS, AddressMode::AbsoluteY, 3, 4),
        0xBC => entry(Mnemonic::LDY, AddressMode::AbsoluteX, 3, 4),
        0xBD => entry(Mnemonic::LDA, AddressMode::AbsoluteX, 3, 4),
        0xBE => entry(Mnemonic::LDX, AddressMode::AbsoluteY, 3, 4),
        0xBF => entry(Mnemonic::LAX, AddressMode::AbsoluteY, 3, 4),
        _ => unreached(),
    }
}

fn row_c(opcode: u8) -> (info: InstructionInfo)
    requires
        opcode / 16 == 0xC,
    ensures
        info == opcode_info(opcode),
{
    proof {
        reveal(opcode_shape);
    }
    match opcode {
        0xC0 => entry(Mnemonic::CPY, AddressMode::Immediate, 2, 2),
        0xC1 => entry(Mnemonic::CMP, AddressMode::IndirectX, 2, 6),
        0xC2 => entry(Mnemonic::NOP, AddressMode::Immediate, 2, 2),
        0xC3 => entry(Mnemonic::DCP, AddressMode::IndirectX, 2, 8),
        0xC4 => entry(Mnemonic::CPY, AddressMode::ZeroPage, 2, 3),
        0xC5 => entry(Mnemonic::CMP, AddressMode::ZeroPage, 2, 3),
        0xC6 => entry(Mnemonic::DEC, AddressMode::ZeroPage, 2, 5),
        0xC7 => entry(Mnemonic::DCP, AddressMode::ZeroPage, 2, 5),
        0xC8 => entry(Mnemonic::INY, AddressMode::Implied, 1, 2),
        0xC9 => entry(Mnemonic::CMP, AddressMode::Immediate, 2, 2),
        0xCA => entry(Mnemonic::DEX, AddressMode::Implied, 1, 2),
        0xCB => entry(Mnemonic::AXS, AddressMode::Immediate, 2, 2),
        0xCC => entry(Mnemonic::CPY, AddressMode::Absolute, 3, 4),
        0xCD => entry(Mnemonic::CMP, AddressMode::Absolute, 3, 4),
        0xCE => entry(Mnemonic::DEC, AddressMode::Absolute, 3, 6),
        0xCF => entry(Mnemonic::DCP, AddressMode::Absolute, 3, 6),
        _ => unreached(),
    }
}

fn row_d(opcode: u8) -> (info: InstructionInfo)
    requires
        opcode / 16 == 0xD,
    ensures
        info == opcode_info(opcode),
{
    proof {
        reveal(opcode_shape);
    }
    match opcode {
        0xD0 => entry(Mnemonic::BNE, AddressMode::Relative, 2, 2),
        0xD1 => entry(Mnemonic::CMP, AddressMode::IndirectY, 2, 5),
        0xD2 => entry(Mnemonic::JAM, AddressMode::Implied, 1, 0),
        0xD3 => entry(Mnemonic::DCP, AddressMode::IndirectY, 2, 8),
        0xD4 => entry(Mnemonic::NOP, AddressMode::ZeroPageX, 2, 4),
        0xD5 => entry(Mnemonic::CMP, AddressMode::ZeroPageX, 2, 4),
        0xD6 => entry(Mnemonic::DEC, AddressMode::ZeroPageX, 2, 6),
        0xD7 => entry(Mnemonic::DCP, AddressMode::ZeroPageX, 2, 6),
        0xD8 => entry(Mnemonic::CLD, AddressMode::Implied, 1, 2),
        0xD9 => entry(Mnemonic::CMP, AddressMode::AbsoluteY, 3, 4),
        0xDA => entry(Mnemonic::NOP, AddressMode::Implied, 1, 2),
        0xDB => entry(Mnemonic::DCP, AddressMode::AbsoluteY, 3, 7),
        0xDC => entry(Mnemonic::NOP, AddressMode::AbsoluteX, 3, 4),
        0xDD => entry(Mnemonic::CMP, AddressMode::AbsoluteX, 3, 4),
        0xDE => entry(Mnemonic::DEC, AddressMode::AbsoluteX, 3, 7),
        0xDF => entry(Mnemonic::DCP, AddressMode::AbsoluteX, 3, 7),
        _ => unreached(),
    }
}

fn row_e(opcode: u8) -> (info: InstructionInfo)
    requires
        opcode / 16 == 0xE,
    ensures
        info == opcode_info(opcode),
{
    proof {
        reveal(opcode_shape);
    }
    match opcode {
        0xE0 => entry(Mnemonic::CPX, AddressMode::Immediate, 2, 2),
        0xE1 => entry(Mnemonic::SBC, AddressMode::IndirectX, 2, 6),
        0xE2 => entry(Mnemonic::NOP, AddressMode::Immediate, 2, 2),
        0xE3 => entry(Mnemonic::ISC, AddressMode::IndirectX, 2, 8),
        0xE4 => entry(Mnemonic::CPX, AddressMode::ZeroPage, 2, 3),
        0xE5 => entry(Mnemonic::SBC, AddressMode::ZeroPage, 2, 3),
        0xE6 => entry(Mnemonic::INC, AddressMode::ZeroPage, 2, 5),
        0xE7 => entry(Mnemonic::ISC, AddressMode::ZeroPage, 2, 5),
        0xE8 => entry(Mnemonic::INX, AddressMode::Implied, 1, 2),
        0xE9 => entry(Mnemonic::SBC, AddressMode::Immediate, 2, 2),
        0xEA => entry(Mnemonic::NOP, AddressMode::Implied, 1, 2),
        0xEB => entry(Mnemonic::SBC, AddressMode::Immediate, 2, 2),
        0xEC => entry(Mnemonic::CPX, AddressMode::Absolute, 3, 4),
        0xED => entry(Mnemonic::SBC, AddressMode::Absolute, 3, 4),
        0xEE => entry(Mnemonic::INC, AddressMode::Absolute, 3, 6),
        0xEF => entry(Mnemonic::ISC, AddressMode::Absolute, 3, 6),
        _ => unreached(),
    }
}

fn row_f(opcode: u8) -> (info: InstructionInfo)
    requires
        opcode / 16 == 0xF,
    ensures
        info == opcode_info(opcode),
{
    proof {
        reveal(opcode_shape);
    }
    match opcode {
        0xF0 => entry(Mnemonic::BEQ, AddressMode::Relative, 2, 2),
        0xF1 => entry(Mnemonic::SBC, AddressMode::IndirectY, 2, 5),
        0xF2 => entry(Mnemonic::JAM, AddressMode::Implied, 1, 0),
        0xF3 => entry(Mnemonic::ISC, AddressMode::IndirectY, 2, 8),
        0xF4 => entry(Mnemonic::NOP, AddressMode::ZeroPageX, 2, 4),
        0xF5 => entry(Mnemonic::SBC, AddressMode::ZeroPageX, 2, 4),
        0xF6 => entry(Mnemonic::INC, AddressMode::ZeroPageX, 2, 6),
        0xF7 => entry(Mnemonic::ISC, AddressMode::ZeroPageX, 2, 6),
        0xF8 => entry(Mnemonic::SED, AddressMode::Implied, 1, 2),
        0xF9 => entry(Mnemonic::SBC, AddressMode::AbsoluteY, 3, 4),
        0xFA => entry(Mnemonic::NOP, AddressMode::Implied, 1, 2),
        0xFB => entry(Mnemonic::ISC, AddressMode::AbsoluteY, 3, 7),
        0xFC => entry(Mnemonic::NOP, AddressMode::AbsoluteX, 3, 4),
        0xFD => entry(Mnemonic::SBC, AddressMode::AbsoluteX, 3, 4),
        0xFE => entry(Mnemonic::INC, AddressMode::AbsoluteX, 3, 7),
        0xFF => entry(Mnemonic::ISC, AddressMode::AbsoluteX, 3, 7),
        _ => unreached(),
    }
}

/// Looks an opcode byte up in the table. Every byte has a row: the bytes
/// that no documented instruction claims are unofficial operations, no-ops
/// or the halting `JAM`.
pub fn lookup(opcode: u8) -> (info: InstructionInfo)
    ensures
        info == opcode_info(opcode),
        1 <= info.bytes <= 3,
{
    match opcode / 16 {
        0x0 => row_0(opcode),
        0x1 => row_1(opcode),
        0x2 => row_2(opcode),
        0x3 => row_3(opcode),
        0x4 => row_4(opcode),
        0x5 => row_5(opcode),
        0x6 => row_6(opcode),
        0x7 => row_7(opcode),
        0x8 => row_8(opcode),
        0x9 => row_9(opcode),
        0xA => row_a(opcode),
        0xB => row_b(opcode),
        0xC => row_c(opcode),
        0xD => row_d(opcode),
        0xE => row_e(opcode),
        _ => row_f(opcode),
    }
}

/// The operand of the instruction whose opcode stands at `pos`: one byte,
/// or two bytes read as a little-endian number; `None` where the
/// instruction has no operand or the stream ends before its last byte.
pub open spec fn operand_at(bytes: Seq<u8>, pos: int) -> Option<u16> {
    let len = opcode_info(bytes[pos]).bytes;
    if len == 2 && pos + 1 < bytes.len() {
        Some(bytes[pos + 1] as u16)
    } else if len == 3 && pos + 2 < bytes.len() {
        Some((bytes[pos + 1] + 256 * bytes[pos + 2]) as u16)
    } else {
        None
    }
}

/// The instruction whose opcode stands at `pos`.
pub open spec fn instruction_at(bytes: Seq<u8>, pos: int) -> DecodedInstruction {
    DecodedInstruction { info: opcode_info(bytes[pos]), operand: operand_at(bytes, pos) }
}

/// The instructions found from `pos` on: the one at `pos`, then those that
/// start where it ends, as long as bytes are left.
pub open spec fn listing_from(bytes: Seq<u8>, pos: int) -> Seq<DecodedInstruction>
    decreases bytes.len() - pos,
{
    if 0 <= pos < bytes.len() {
        let next = pos + opcode_info(bytes[pos]).mode.instruction_len();
        if next < bytes.len() {
            seq![instruction_at(bytes, pos)] + listing_from(bytes, next)
        } else {
            seq![instruction_at(bytes, pos)]
        }
    } else {
        Seq::empty()
    }
}

/// The instructions of a whole byte stream.
pub open spec fn listing(bytes: Seq<u8>) -> Seq<DecodedInstruction> {
    listing_from(bytes, 0)
}

/// Whether the stream ended inside the instruction: it has operand bytes
/// and none was decoded.
pub open spec fn is_truncated(instruction: DecodedInstruction) -> bool {
    instruction.info.bytes > 1 && instruction.operand is None
}

/// The bytes that a sequence of instructions takes up, each counted with its
/// full length.
pub open spec fn encoded_len(instructions: Seq<DecodedInstruction>) -> int
    decreases instructions.len(),
{
    if instructions.len() == 0 {
        0
    } else {
        encoded_len(instructions.drop_last()) + instructions.last().info.bytes
    }
}

/// Decodes the instruction whose opcode stands at `pos`. A caller that
/// adds the instruction's length to `pos` walks the stream one instruction
/// at a time, and may start again from any position.
pub fn decode_at(bytecode: &[u8], pos: usize) -> (instruction: DecodedInstruction)
    requires
        pos < bytecode@.len(),
    ensures
        instruction == instruction_at(bytecode@, pos as int),
{
    let info = lookup(bytecode[pos]);
    let rest = bytecode.len() - pos;
    let operand = if info.bytes == 2 && rest > 1 {
        Some(bytecode[pos + 1] as u16)
    } else if info.bytes == 3 && rest > 2 {
        Some(bytecode[pos + 1] as u16 + 256 * (bytecode[pos + 2] as u16))
    } else {
        None
    };
    DecodedInstruction { info, operand }
}

/// Disassembles a byte stream into its instructions. An instruction that
/// the end of the stream cuts short is listed without an operand.
pub fn disassemble(bytecode: &[u8]) -> (instructions: Vec<DecodedInstruction>)
    ensures
        instructions@ == listing(bytecode@),
{
    let mut instructions: Vec<DecodedInstruction> = Vec::new();
    let mut pc: usize = 0;
    while pc < bytecode.len()
        invariant
            pc <= bytecode@.len(),
            instructions@ + listing_from(bytecode@, pc as int) == listing(bytecode@),
        decreases bytecode@.len() - pc,
    {
        let instruction = decode_at(bytecode, pc);
        let len = instruction.info.bytes as usize;
        proof {
            let rest = listing_from(bytecode@, pc + len);
            assert(rest.len() == 0 <== pc + len >= bytecode@.len());
            assert(instructions@.push(instruction) + rest == instructions@ + (seq![instruction]
                + rest));
            assert(seq![instruction] + Seq::<DecodedInstruction>::empty() == seq![instruction]);
        }
        instructions.push(instruction);
        if len < bytecode.len() - pc {
            pc += len;
        } else {
            pc = bytecode.len();
        }
    }
    instructions
}

proof fn lemma_encoded_len_prepend(first: DecodedInstruction, rest: Seq<DecodedInstruction>)
    ensures
        encoded_len(seq![first] + rest) == first.info.bytes + encoded_len(rest),
    decreases rest.len(),
{
    let all = seq![first] + rest;
    if rest.len() == 0 {
        assert(all.drop_last() == Seq::<DecodedInstruction>::empty());
        assert(all.last() == first);
        assert(encoded_len(all.drop_last()) == 0);
    } else {
        assert(all.drop_last() == seq![first] + rest.drop_last());
        assert(all.last() == rest.last());
        lemma_encoded_len_prepend(first, rest.drop_last());
    }
}

/// The lengths of the listed instructions add up to the length of the
/// stream, but for a last instruction that the end of the stream cuts short:
/// only the last one can be cut short, it starts inside the stream, and it
/// is listed without an operand.
pub proof fn lemma_listing_covers_stream(bytes: Seq<u8>, pos: int)
    requires
        0 <= pos <= bytes.len(),
    ensures
        ({
            let found = listing_from(bytes, pos);
            &&& forall|i: int| 0 <= i < found.len() - 1 ==> !is_truncated(#[trigger] found[i])
            &&& found.len() > 0 && is_truncated(found.last()) ==> pos + encoded_len(
                found.drop_last(),
            ) < bytes.len() < pos + encoded_len(found)
            &&& !(found.len() > 0 && is_truncated(found.last())) ==> pos + encoded_len(found)
                == bytes.len()
        }),
    decreases bytes.len() - pos,
{
    if pos < bytes.len() {
        let first = instruction_at(bytes, pos);
        let next = pos + first.info.bytes;
        let rest = listing_from(bytes, next);
        let found = listing_from(bytes, pos);
        assert(seq![first] + Seq::<DecodedInstruction>::empty() == seq![first]);
        assert(found == seq![first] + rest);
        lemma_encoded_len_prepend(first, rest);
        if next <= bytes.len() {
            lemma_listing_covers_stream(bytes, next);
            if rest.len() > 0 {
                assert(found.drop_last() == seq![first] + rest.drop_last());
                lemma_encoded_len_prepend(first, rest.drop_last());
                assert(found.last() == rest.last());
                assert forall|i: int| 0 <= i < found.len() - 1 implies !is_truncated(
                    #[trigger] found[i],
                ) by {
                    if i > 0 {
                        assert(found[i] == rest[i - 1]);
                    }
                }
            } else {
                assert(found.drop_last() == Seq::<DecodedInstruction>::empty());
            }
        } else {
            assert(rest == Seq::<DecodedInstruction>::empty());
            assert(found.drop_last() == Seq::<DecodedInstruction>::empty());
        }
    }
}

/// Every opcode byte has a row in the table, whose length is that of its
/// addressing mode and lies between one and three bytes.
pub proof fn lemma_table_is_total(opcode: u8)
    ensures
        1 <= opcode_info(opcode).bytes <= 3,
        opcode_info(opcode).bytes == opcode_info(opcode).mode.instruction_len(),
        opcode_info(opcode).cycles == 0 <==> opcode_info(opcode).mnemonic == Mnemonic::JAM,
{
}

} // verus!
