//! The machine as mathematics: the registers, the flags and the state of
//! whatever is attached to the bus, and what one instruction makes of them.
//! The executable engine is proved to compute these functions.

use vstd::prelude::*;
use crate::addressing::{
    branch_target, crosses_page, following, high_byte, indexed, low_byte, next_in_page, page,
    preceding, stack_address, word, zero_page_indexed, IRQ_VECTOR, NMI_VECTOR, RESET_VECTOR,
};
use crate::alu::{
    comparison, decremented, difference_with_borrow, incremented, shifted_left, shifted_right,
    sum_with_carry, Comparison, Shifted, Sum,
};
use crate::bus::Bus;
use crate::decoder::{
    opcode_info, pays_page_penalty, AddressMode, Family, InstructionInfo, Mnemonic,
};
use crate::flags::Flags;

verus! {

/// The stack pointer after a reset.
pub const RESET_STACK_POINTER: u8 = 0xFD;

/// Cycles that a reset or an interrupt takes.
pub const INTERRUPT_CYCLES: u8 = 7;

/// The state of the processor and of what is attached to it. `S` is the
/// state of the bus.
pub struct Machine<S> {
    pub pc: u16,
    pub sp: u8,
    pub ac: u8,
    pub idx: u8,
    pub idy: u8,
    pub status: Flags,
    pub halted: bool,
    pub bus: S,
}

/// What an instruction works on, once its addressing mode is resolved.
#[derive(Copy, Clone, Debug, PartialEq, Eq, Structural)]
pub enum Operand {
    /// Nothing: the instruction names its registers itself.
    Implied,
    /// The accumulator.
    Accumulator,
    /// A byte of the instruction itself: an immediate value, or the
    /// displacement of a branch.
    Immediate(u8),
    /// The memory cell at an address.
    Memory(u16),
}

/// An operand with the machine that resolving it left behind, and whether
/// an index addition left the page of its base.
pub struct Resolved<S> {
    pub operand: Operand,
    pub crossed: bool,
    pub machine: Machine<S>,
}

/// One read through the bus: the byte, and the machine after the read.
pub open spec fn read<B: Bus>(m: Machine<B::V>, addr: u16) -> (u8, Machine<B::V>) {
    (B::read_value(m.bus, addr), Machine { bus: B::after_read(m.bus, addr), ..m })
}

/// One write through the bus.
pub open spec fn write<B: Bus>(m: Machine<B::V>, addr: u16, data: u8) -> Machine<B::V> {
    Machine { bus: B::after_write(m.bus, addr, data), ..m }
}

/// Two reads, the low byte first, joined into a little-endian word.
pub open spec fn read_word<B: Bus>(m: Machine<B::V>, lo_addr: u16, hi_addr: u16) -> (
    u16,
    Machine<B::V>,
) {
    let (lo, after_lo) = read::<B>(m, lo_addr);
    let (hi, after_hi) = read::<B>(after_lo, hi_addr);
    (word(lo, hi), after_hi)
}

/// A push: the byte goes to the cell that the stack pointer names, and the
/// stack pointer steps down, wrapping within the stack page.
pub open spec fn push<B: Bus>(m: Machine<B::V>, data: u8) -> Machine<B::V> {
    Machine { sp: decremented(m.sp), ..write::<B>(m, stack_address(m.sp), data) }
}

/// A pull: the stack pointer steps up, wrapping within the stack page, and
/// the byte comes from the cell that it then names.
pub open spec fn pull<B: Bus>(m: Machine<B::V>) -> (u8, Machine<B::V>) {
    let sp = incremented(m.sp);
    read::<B>(Machine { sp, ..m }, stack_address(sp))
}

/// A word pushed: the high byte first, then the low byte.
pub open spec fn push_word<B: Bus>(m: Machine<B::V>, value: u16) -> Machine<B::V> {
    push::<B>(push::<B>(m, high_byte(value)), low_byte(value))
}

/// A word pulled: the low byte first, then the high byte.
pub open spec fn pull_word<B: Bus>(m: Machine<B::V>) -> (u16, Machine<B::V>) {
    let (lo, after_lo) = pull::<B>(m);
    let (hi, after_hi) = pull::<B>(after_lo);
    (word(lo, hi), after_hi)
}

/// The operand of the instruction whose opcode stands at `m.pc`, by
/// addressing mode. The operand bytes are read through the bus, and so are
/// the pointers of the indirect modes.
pub open spec fn resolve<B: Bus>(m: Machine<B::V>, mode: AddressMode) -> Resolved<B::V> {
    let (first, m1) = read::<B>(m, following(m.pc, 1));
    let (second, m2) = read::<B>(m1, following(m.pc, 2));
    let base = word(first, second);
    match mode {
        AddressMode::Implied => Resolved { operand: Operand::Implied, crossed: false, machine: m },
        AddressMode::Accumulator => Resolved {
            operand: Operand::Accumulator,
            crossed: false,
            machine: m,
        },
        AddressMode::Immediate | AddressMode::Relative => Resolved {
            operand: Operand::Immediate(first),
            crossed: false,
            machine: m1,
        },
        AddressMode::ZeroPage => Resolved {
            operand: Operand::Memory(first as u16),
            crossed: false,
            machine: m1,
        },
        AddressMode::ZeroPageX => Resolved {
            operand: Operand::Memory(zero_page_indexed(first, m.idx) as u16),
            crossed: false,
            machine: m1,
        },
        AddressMode::ZeroPageY => Resolved {
            operand: Operand::Memory(zero_page_indexed(first, m.idy) as u16),
            crossed: false,
            machine: m1,
        },
        AddressMode::Absolute => Resolved {
            operand: Operand::Memory(base),
            crossed: false,
            machine: m2,
        },
        AddressMode::AbsoluteX => Resolved {
            operand: Operand::Memory(indexed(base, m.idx)),
            crossed: crosses_page(base, m.idx),
            machine: m2,
        },
        AddressMode::AbsoluteY => Resolved {
            operand: Operand::Memory(indexed(base, m.idy)),
            crossed: crosses_page(base, m.idy),
            machine: m2,
        },
        AddressMode::Indirect => {
            let (target, m3) = read_word::<B>(m2, base, next_in_page(base));
            Resolved { operand: Operand::Memory(target), crossed: false, machine: m3 }
        },
        AddressMode::IndirectX => {
            let pointer = zero_page_indexed(first, m.idx);
            let (target, m3) = read_word::<B>(
                m1,
                pointer as u16,
                zero_page_indexed(pointer, 1) as u16,
            );
            Resolved { operand: Operand::Memory(target), crossed: false, machine: m3 }
        },
        AddressMode::IndirectY => {
            let (pointed, m3) = read_word::<B>(
                m1,
                first as u16,
                zero_page_indexed(first, 1) as u16,
            );
            Resolved {
                operand: Operand::Memory(indexed(pointed, m.idy)),
                crossed: crosses_page(pointed, m.idy),
                machine: m3,
            }
        },
    }
}

/// The byte that an operand stands for: the immediate byte itself, the
/// accumulator, or what a read of the memory cell returns.
#[verifier::opaque]
pub open spec fn operand_value<B: Bus>(m: Machine<B::V>, operand: Operand) -> (
    u8,
    Machine<B::V>,
) {
    match operand {
        Operand::Implied => (0, m),
        Operand::Accumulator => (m.ac, m),
        Operand::Immediate(value) => (value, m),
        Operand::Memory(addr) => read::<B>(m, addr),
    }
}

/// The machine after `data` was stored where the operand says: in the
/// accumulator or in the memory cell. Other operands take no store.
#[verifier::opaque]
pub open spec fn store_operand<B: Bus>(m: Machine<B::V>, operand: Operand, data: u8) -> Machine<
    B::V,
> {
    match operand {
        Operand::Accumulator => Machine { ac: data, ..m },
        Operand::Memory(addr) => write::<B>(m, addr, data),
        _ => m,
    }
}

/// The address of a memory operand; zero for the others.
pub open spec fn operand_address(operand: Operand) -> u16 {
    match operand {
        Operand::Memory(addr) => addr,
        _ => 0,
    }
}

/// The flags after an addition or subtraction.
pub open spec fn with_sum(status: Flags, sum: Sum) -> Flags {
    Flags { carry: sum.carry, overflow: sum.overflow, ..status.with_nz(sum.value) }
}

/// The flags after a shift or rotate.
pub open spec fn with_shifted(status: Flags, shifted: Shifted) -> Flags {
    Flags { carry: shifted.carry, ..status.with_nz(shifted.value) }
}

/// The flags after a comparison.
pub open spec fn with_comparison(status: Flags, result: Comparison) -> Flags {
    Flags { negative: result.negative, zero: result.zero, carry: result.carry, ..status }
}

/// The flags after a bit test of `value` against the accumulator: zero
/// from the conjunction, negative and overflow from bits 7 and 6 of `value`.
pub open spec fn with_bit_test(status: Flags, ac: u8, value: u8) -> Flags {
    Flags {
        zero: ac & value == 0,
        negative: value >= 128,
        overflow: (value / 64) % 2 == 1,
        ..status
    }
}

/// Whether a branch is taken, by the flag that its mnemonic tests. `false`
/// for every other mnemonic.
pub open spec fn branch_taken(mnemonic: Mnemonic, status: Flags) -> bool {
    match mnemonic {
        Mnemonic::BCC => !status.carry,
        Mnemonic::BCS => status.carry,
        Mnemonic::BNE => !status.zero,
        Mnemonic::BEQ => status.zero,
        Mnemonic::BPL => !status.negative,
        Mnemonic::BMI => status.negative,
        Mnemonic::BVC => !status.overflow,
        Mnemonic::BVS => status.overflow,
        _ => false,
    }
}

/// The byte that an operand of a branch holds as displacement.
pub open spec fn displacement(operand: Operand) -> u8 {
    match operand {
        Operand::Immediate(value) => value,
        _ => 0,
    }
}

/// The cycles that a branch adds to its base count: none when it is not
/// taken, one when it is, and one more when its target lies in another page
/// than the instruction after the branch, which `next` addresses.
pub open spec fn branch_penalty(
    mnemonic: Mnemonic,
    status: Flags,
    next: u16,
    operand: Operand,
) -> int {
    if !branch_taken(mnemonic, status) {
        0
    } else if page(branch_target(next, displacement(operand))) == page(next) {
        1
    } else {
        2
    }
}

/// The cycle that an indexed read adds when it leaves the page of its base.
pub open spec fn page_penalty(info: InstructionInfo, crossed: bool) -> int {
    if pays_page_penalty(info) && crossed {
        1
    } else {
        0
    }
}

/// The interrupt sequence, which `BRK` shares: the return address is
/// pushed, high byte first, then the status byte, whose break bit tells a
/// software break from a hardware interrupt; interrupts are disabled; and
/// the program counter is loaded from the vector.
pub open spec fn interrupt<B: Bus>(
    m: Machine<B::V>,
    vector: u16,
    software: bool,
    return_to: u16,
) -> Machine<B::V> {
    let saved = push::<B>(
        push_word::<B>(m, return_to),
        (Flags { brk: software, ..m.status }).byte(),
    );
    let (target, vectored) = read_word::<B>(saved, vector, following(vector, 1));
    Machine {
        pc: target,
        status: Flags { interrupt_disable: true, ..m.status },
        ..vectored
    }
}

/// The high byte of an address plus one: what the unstable stores combine
/// with the registers they write.
pub open spec fn high_plus_one(addr: u16) -> u8 {
    incremented(high_byte(addr))
}

/// Loads set negative and zero from the loaded byte; stores change no
/// flag.
pub open spec fn load_store<B: Bus>(
    m: Machine<B::V>,
    mnemonic: Mnemonic,
    operand: Operand,
) -> Machine<B::V> {
    let (value, loaded) = operand_value::<B>(m, operand);
    match mnemonic {
        Mnemonic::LDA => Machine { ac: value, status: m.status.with_nz(value), ..loaded },
        Mnemonic::LDX => Machine { idx: value, status: m.status.with_nz(value), ..loaded },
        Mnemonic::LDY => Machine { idy: value, status: m.status.with_nz(value), ..loaded },
        Mnemonic::STA => store_operand::<B>(m, operand, m.ac),
        Mnemonic::STX => store_operand::<B>(m, operand, m.idx),
        Mnemonic::STY => store_operand::<B>(m, operand, m.idy),
        _ => m,
    }
}

/// Transfers between the accumulator and an index register set negative and
/// zero from the byte moved.
pub open spec fn transfer<B: Bus>(m: Machine<B::V>, mnemonic: Mnemonic) -> Machine<B::V> {
    match mnemonic {
        Mnemonic::TAX => Machine { idx: m.ac, status: m.status.with_nz(m.ac), ..m },
        Mnemonic::TAY => Machine { idy: m.ac, status: m.status.with_nz(m.ac), ..m },
        Mnemonic::TXA => Machine { ac: m.idx, status: m.status.with_nz(m.idx), ..m },
        Mnemonic::TYA => Machine { ac: m.idy, status: m.status.with_nz(m.idy), ..m },
        _ => m,
    }
}

/// The stack operations. Copying the stack pointer to X sets negative and
/// zero, copying X to the stack pointer sets no flag. The status byte is
/// pushed with its break bit set; pulling it restores every flag; pulling
/// the accumulator sets negative and zero.
pub open spec fn stack<B: Bus>(m: Machine<B::V>, mnemonic: Mnemonic) -> Machine<B::V> {
    let (pulled, after) = pull::<B>(m);
    match mnemonic {
        Mnemonic::TSX => Machine { idx: m.sp, status: m.status.with_nz(m.sp), ..m },
        Mnemonic::TXS => Machine { sp: m.idx, ..m },
        Mnemonic::PHA => push::<B>(m, m.ac),
        Mnemonic::PHP => push::<B>(m, (Flags { brk: true, ..m.status }).byte()),
        Mnemonic::PLA => Machine { ac: pulled, status: m.status.with_nz(pulled), ..after },
        Mnemonic::PLP => Machine { status: Flags::of_byte(pulled), ..after },
        _ => m,
    }
}

/// The bitwise operations on the accumulator set negative and zero from
/// their result; the bit test stores nothing.
pub open spec fn logical<B: Bus>(
    m: Machine<B::V>,
    mnemonic: Mnemonic,
    operand: Operand,
) -> Machine<B::V> {
    let (value, loaded) = operand_value::<B>(m, operand);
    match mnemonic {
        Mnemonic::AND => Machine {
            ac: m.ac & value,
            status: m.status.with_nz(m.ac & value),
            ..loaded
        },
        Mnemonic::EOR => Machine {
            ac: m.ac ^ value,
            status: m.status.with_nz(m.ac ^ value),
            ..loaded
        },
        Mnemonic::ORA => Machine {
            ac: m.ac | value,
            status: m.status.with_nz(m.ac | value),
            ..loaded
        },
        Mnemonic::BIT => Machine { status: with_bit_test(m.status, m.ac, value), ..loaded },
        _ => loaded,
    }
}

/// Addition and subtraction work in binary whatever the decimal flag says;
/// the comparisons subtract for the flags alone.
pub open spec fn arithmetic<B: Bus>(
    m: Machine<B::V>,
    mnemonic: Mnemonic,
    operand: Operand,
) -> Machine<B::V> {
    let (value, loaded) = operand_value::<B>(m, operand);
    match mnemonic {
        Mnemonic::ADC => {
            let sum = sum_with_carry(m.ac, value, m.status.carry);
            Machine { ac: sum.value, status: with_sum(m.status, sum), ..loaded }
        },
        Mnemonic::SBC => {
            let sum = difference_with_borrow(m.ac, value, m.status.carry);
            Machine { ac: sum.value, status: with_sum(m.status, sum), ..loaded }
        },
        Mnemonic::CMP => Machine {
            status: with_comparison(m.status, comparison(m.ac, value)),
            ..loaded
        },
        Mnemonic::CPX => Machine {
            status: with_comparison(m.status, comparison(m.idx, value)),
            ..loaded
        },
        Mnemonic::CPY => Machine {
            status: with_comparison(m.status, comparison(m.idy, value)),
            ..loaded
        },
        _ => loaded,
    }
}

/// Increments and decrements wrap in eight bits, set negative and zero, and
/// leave the carry alone.
pub open spec fn inc_dec<B: Bus>(
    m: Machine<B::V>,
    mnemonic: Mnemonic,
    operand: Operand,
) -> Machine<B::V> {
    let (value, loaded) = operand_value::<B>(m, operand);
    match mnemonic {
        Mnemonic::INC => Machine {
            status: m.status.with_nz(incremented(value)),
            ..store_operand::<B>(loaded, operand, incremented(value))
        },
        Mnemonic::DEC => Machine {
            status: m.status.with_nz(decremented(value)),
            ..store_operand::<B>(loaded, operand, decremented(value))
        },
        Mnemonic::INX => Machine {
            idx: incremented(m.idx),
            status: m.status.with_nz(incremented(m.idx)),
            ..m
        },
        Mnemonic::INY => Machine {
            idy: incremented(m.idy),
            status: m.status.with_nz(incremented(m.idy)),
            ..m
        },
        Mnemonic::DEX => Machine {
            idx: decremented(m.idx),
            status: m.status.with_nz(decremented(m.idx)),
            ..m
        },
        Mnemonic::DEY => Machine {
            idy: decremented(m.idy),
            status: m.status.with_nz(decremented(m.idy)),
            ..m
        },
        _ => m,
    }
}

/// What a shift or rotate makes of a byte: a shift lets a zero in, a
/// rotate the carry.
pub open spec fn shift_result(mnemonic: Mnemonic, value: u8, carry: bool) -> Shifted {
    match mnemonic {
        Mnemonic::ASL => shifted_left(value, false),
        Mnemonic::LSR => shifted_right(value, false),
        Mnemonic::ROL => shifted_left(value, carry),
        _ => shifted_right(value, carry),
    }
}

/// Shifts and rotates work on the accumulator or on a memory cell, and set
/// negative, zero and carry.
pub open spec fn shift<B: Bus>(
    m: Machine<B::V>,
    mnemonic: Mnemonic,
    operand: Operand,
) -> Machine<B::V> {
    let (value, loaded) = operand_value::<B>(m, operand);
    let shifted = shift_result(mnemonic, value, m.status.carry);
    Machine {
        status: with_shifted(m.status, shifted),
        ..store_operand::<B>(loaded, operand, shifted.value)
    }
}

/// A jump sets the program counter. A call first pushes the address of the
/// last byte of the call instruction, high byte first; a return pulls it
/// and continues one byte after it.
pub open spec fn jump<B: Bus>(
    m: Machine<B::V>,
    mnemonic: Mnemonic,
    operand: Operand,
) -> Machine<B::V> {
    let (pulled, after) = pull_word::<B>(m);
    match mnemonic {
        Mnemonic::JMP => Machine { pc: operand_address(operand), ..m },
        Mnemonic::JSR => Machine {
            pc: operand_address(operand),
            ..push_word::<B>(m, preceding(m.pc))
        },
        Mnemonic::RTS => Machine { pc: following(pulled, 1), ..after },
        _ => m,
    }
}

/// A branch that is taken adds its displacement to the program counter.
pub open spec fn branch<B: Bus>(
    m: Machine<B::V>,
    mnemonic: Mnemonic,
    operand: Operand,
) -> Machine<B::V> {
    if branch_taken(mnemonic, m.status) {
        Machine { pc: branch_target(m.pc, displacement(operand)), ..m }
    } else {
        m
    }
}

/// The flags after a flag-change operation: one flag set or cleared.
pub open spec fn changed_flag(mnemonic: Mnemonic, status: Flags) -> Flags {
    match mnemonic {
        Mnemonic::CLC => Flags { carry: false, ..status },
        Mnemonic::CLD => Flags { decimal: false, ..status },
        Mnemonic::CLI => Flags { interrupt_disable: false, ..status },
        Mnemonic::CLV => Flags { overflow: false, ..status },
        Mnemonic::SEC => Flags { carry: true, ..status },
        Mnemonic::SED => Flags { decimal: true, ..status },
        Mnemonic::SEI => Flags { interrupt_disable: true, ..status },
        _ => status,
    }
}

/// The system operations. `BRK` is a software interrupt whose return
/// address lies two bytes after its opcode; `RTI` pulls the status byte and
/// then the program counter; `NOP` does nothing but read its operand, where
/// it has one in memory; `JAM` halts the machine.
pub open spec fn system<B: Bus>(
    m: Machine<B::V>,
    mnemonic: Mnemonic,
    operand: Operand,
) -> Machine<B::V> {
    match mnemonic {
        Mnemonic::BRK => interrupt::<B>(m, IRQ_VECTOR, true, following(m.pc, 1)),
        Mnemonic::NOP => operand_value::<B>(m, operand).1,
        Mnemonic::RTI => {
            let (pulled, after) = pull::<B>(m);
            let (target, returned) = pull_word::<B>(after);
            Machine { pc: target, status: Flags::of_byte(pulled), ..returned }
        },
        Mnemonic::JAM => Machine { halted: true, ..m },
        _ => m,
    }
}

/// The unofficial operations that combine two official ones: each does
/// what its two halves do one after the other, with one read and one write
/// of the operand. `SLO` shifts left and then ORs, `RLA` rotates left and
/// then ANDs, `SRE` shifts right and then XORs, `RRA` rotates right and then
/// adds with the carry that the rotate let out, `DCP` decrements and then
/// compares, `ISC` increments and then subtracts, `LAX` loads the
/// accumulator and X at once, `SAX` stores the conjunction of the two.
pub open spec fn combined<B: Bus>(
    m: Machine<B::V>,
    mnemonic: Mnemonic,
    operand: Operand,
) -> Machine<B::V> {
    let (value, loaded) = operand_value::<B>(m, operand);
    match mnemonic {
        Mnemonic::SLO => {
            let shifted = shifted_left(value, false);
            Machine {
                ac: m.ac | shifted.value,
                status: Flags { carry: shifted.carry, ..m.status.with_nz(m.ac | shifted.value) },
                ..store_operand::<B>(loaded, operand, shifted.value)
            }
        },
        Mnemonic::RLA => {
            let shifted = shifted_left(value, m.status.carry);
            Machine {
                ac: m.ac & shifted.value,
                status: Flags { carry: shifted.carry, ..m.status.with_nz(m.ac & shifted.value) },
                ..store_operand::<B>(loaded, operand, shifted.value)
            }
        },
        Mnemonic::SRE => {
            let shifted = shifted_right(value, false);
            Machine {
                ac: m.ac ^ shifted.value,
                status: Flags { carry: shifted.carry, ..m.status.with_nz(m.ac ^ shifted.value) },
                ..store_operand::<B>(loaded, operand, shifted.value)
            }
        },
        Mnemonic::RRA => {
            let shifted = shifted_right(value, m.status.carry);
            let sum = sum_with_carry(m.ac, shifted.value, shifted.carry);
            Machine {
                ac: sum.value,
                status: with_sum(m.status, sum),
                ..store_operand::<B>(loaded, operand, shifted.value)
            }
        },
        Mnemonic::DCP => Machine {
            status: with_comparison(m.status, comparison(m.ac, decremented(value))),
            ..store_operand::<B>(loaded, operand, decremented(value))
        },
        Mnemonic::ISC => {
            let sum = difference_with_borrow(m.ac, incremented(value), m.status.carry);
            Machine {
                ac: sum.value,
                status: with_sum(m.status, sum),
                ..store_operand::<B>(loaded, operand, incremented(value))
            }
        },
        Mnemonic::LAX => Machine {
            ac: value,
            idx: value,
            status: m.status.with_nz(value),
            ..loaded
        },
        Mnemonic::SAX => store_operand::<B>(m, operand, m.ac & m.idx),
        _ => m,
    }
}

/// The remaining unofficial operations. `ALR` ANDs and shifts right, `ANC`
/// ANDs and copies the sign into the carry, `ARR` ANDs, rotates right and
/// takes carry and overflow from bits 6 and 5 of the result, `AXS` subtracts
/// the operand from `A & X` into X as a comparison would, `LAS` loads
/// accumulator, X and stack pointer with the operand ANDed with the stack
/// pointer.
///
/// The unstable ones are given one fixed reading: `XAA` loads `X & operand`
/// into the accumulator; `AHX`, `SHX`, `SHY` and `TAS` store their registers
/// ANDed with the high byte of the effective address plus one, and `TAS`
/// first sets the stack pointer to `A & X`.
pub open spec fn unofficial<B: Bus>(
    m: Machine<B::V>,
    mnemonic: Mnemonic,
    operand: Operand,
) -> Machine<B::V> {
    let (value, loaded) = operand_value::<B>(m, operand);
    let high = high_plus_one(operand_address(operand));
    match mnemonic {
        Mnemonic::ALR => {
            let shifted = shifted_right(m.ac & value, false);
            Machine { ac: shifted.value, status: with_shifted(m.status, shifted), ..loaded }
        },
        Mnemonic::ANC => Machine {
            ac: m.ac & value,
            status: Flags { carry: (m.ac & value) >= 128, ..m.status.with_nz(m.ac & value) },
            ..loaded
        },
        Mnemonic::ARR => {
            let result = shifted_right(m.ac & value, m.status.carry).value;
            Machine {
                ac: result,
                status: Flags {
                    carry: (result / 64) % 2 == 1,
                    overflow: (result / 64) % 2 != (result / 32) % 2,
                    ..m.status.with_nz(result)
                },
                ..loaded
            }
        },
        Mnemonic::AXS => Machine {
            idx: difference_with_borrow(m.ac & m.idx, value, true).value,
            status: with_comparison(m.status, comparison(m.ac & m.idx, value)),
            ..loaded
        },
        Mnemonic::XAA => Machine {
            ac: m.idx & value,
            status: m.status.with_nz(m.idx & value),
            ..loaded
        },
        Mnemonic::LAS => Machine {
            ac: value & m.sp,
            idx: value & m.sp,
            sp: value & m.sp,
            status: m.status.with_nz(value & m.sp),
            ..loaded
        },
        Mnemonic::AHX => store_operand::<B>(m, operand, m.ac & m.idx & high),
        Mnemonic::SHX => store_operand::<B>(m, operand, m.idx & high),
        Mnemonic::SHY => store_operand::<B>(m, operand, m.idy & high),
        Mnemonic::TAS => store_operand::<B>(
            Machine { sp: m.ac & m.idx, ..m },
            operand,
            m.ac & m.idx & high,
        ),
        _ => m,
    }
}

/// What an operation makes of the machine, by family. `m.pc` addresses the
/// instruction after the one executed, and `operand` is its resolved
/// operand.
pub open spec fn execute<B: Bus>(
    m: Machine<B::V>,
    mnemonic: Mnemonic,
    operand: Operand,
) -> Machine<B::V> {
    match mnemonic.family() {
        Family::LoadStore => load_store::<B>(m, mnemonic, operand),
        Family::Transfer => transfer::<B>(m, mnemonic),
        Family::Stack => stack::<B>(m, mnemonic),
        Family::Logical => logical::<B>(m, mnemonic, operand),
        Family::Arithmetic => arithmetic::<B>(m, mnemonic, operand),
        Family::IncDec => inc_dec::<B>(m, mnemonic, operand),
        Family::Shift => shift::<B>(m, mnemonic, operand),
        Family::Jump => jump::<B>(m, mnemonic, operand),
        Family::Branch => branch::<B>(m, mnemonic, operand),
        Family::FlagChange => Machine { status: changed_flag(mnemonic, m.status), ..m },
        Family::System => system::<B>(m, mnemonic, operand),
        Family::Combined => combined::<B>(m, mnemonic, operand),
        Family::Unofficial => unofficial::<B>(m, mnemonic, operand),
    }
}

/// One instruction: the cycles it takes and the machine it leaves.
///
/// A halted machine stays as it is and takes no cycles. Otherwise the
/// opcode at the program counter is fetched and looked up. `JAM` halts the
/// machine, with the program counter left on the opcode. Any other
/// instruction has its operand resolved, the program counter moved past it,
/// and its operation executed; it takes its base cycles, one more for an
/// indexed read that leaves its page, and one or two more for a taken
/// branch.
pub open spec fn step<B: Bus>(m: Machine<B::V>) -> (u8, Machine<B::V>) {
    if m.halted {
        (0, m)
    } else {
        let (opcode, fetched) = read::<B>(m, m.pc);
        let info = opcode_info(opcode);
        if info.mnemonic == Mnemonic::JAM {
            (0, Machine { halted: true, ..fetched })
        } else {
            let resolved = resolve::<B>(fetched, info.mode);
            let ready = Machine { pc: following(m.pc, info.bytes), ..resolved.machine };
            let cycles = info.cycles + page_penalty(info, resolved.crossed) + branch_penalty(
                info.mnemonic,
                ready.status,
                ready.pc,
                resolved.operand,
            );
            (cycles as u8, execute::<B>(ready, info.mnemonic, resolved.operand))
        }
    }
}

/// The machine after a reset: running, the program counter loaded from the
/// reset vector, the stack pointer at its reset value, interrupts disabled
/// and every other flag clear. Nothing is pushed, and the accumulator and
/// the index registers keep what they held.
pub open spec fn reset<B: Bus>(m: Machine<B::V>) -> Machine<B::V> {
    let (target, vectored) = read_word::<B>(m, RESET_VECTOR, following(RESET_VECTOR, 1));
    Machine {
        pc: target,
        sp: RESET_STACK_POINTER,
        status: Flags { interrupt_disable: true, ..Flags::cleared() },
        halted: false,
        ..vectored
    }
}

/// The machine after a non-maskable interrupt was raised between two
/// instructions. A halted machine does not answer.
pub open spec fn nmi<B: Bus>(m: Machine<B::V>) -> (u8, Machine<B::V>) {
    if m.halted {
        (0, m)
    } else {
        (INTERRUPT_CYCLES, interrupt::<B>(m, NMI_VECTOR, false, m.pc))
    }
}

/// The machine after a maskable interrupt was requested between two
/// instructions. A halted machine does not answer, nor one whose
/// interrupt-disable flag is set.
pub open spec fn irq<B: Bus>(m: Machine<B::V>) -> (u8, Machine<B::V>) {
    if m.halted || m.status.interrupt_disable {
        (0, m)
    } else {
        (INTERRUPT_CYCLES, interrupt::<B>(m, IRQ_VECTOR, false, m.pc))
    }
}

/// The state of the bus after `bytes` were placed in the cells behind
/// `origin`, `origin + 1` and so on, each as [`Bus::after_poke`] places it.
pub open spec fn poked<B: Bus>(state: B::V, bytes: Seq<u8>, origin: u16) -> B::V
    decreases bytes.len(),
{
    if bytes.len() == 0 {
        state
    } else {
        B::after_poke(
            poked::<B>(state, bytes.drop_last(), origin),
            (origin + bytes.len() - 1) as u16,
            bytes.last(),
        )
    }
}

/// The machine after a program image was loaded at `origin`: the registers
/// keep what they held.
pub open spec fn load<B: Bus>(m: Machine<B::V>, bytes: Seq<u8>, origin: u16) -> Machine<B::V> {
    Machine { bus: poked::<B>(m.bus, bytes, origin), ..m }
}

/// The cycles counted and the machine left when instructions are executed
/// one after the other, starting with `spent` cycles on the count, until
/// one of them halts the machine or takes the count over `budget`. At least
/// one instruction is executed.
pub open spec fn run<B: Bus>(m: Machine<B::V>, spent: nat, budget: nat) -> (nat, Machine<B::V>)
    decreases budget - spent,
{
    let (cycles, next) = step::<B>(m);
    if cycles == 0 || spent + cycles > budget {
        (spent + cycles as nat, next)
    } else {
        run::<B>(next, spent + cycles as nat, budget)
    }
}

} // verus!
