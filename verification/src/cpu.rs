//! The execution engine: registers, flags, and the fetch-decode-execute
//! step, attached to anything that implements [`Bus`].

use vstd::prelude::*;
use crate::addressing::{
    advance, branch_to, high, index_address, index_zero_page, low, make_word, retreat, stack_cell,
    step_in_page, IRQ_VECTOR, NMI_VECTOR, RESET_VECTOR,
};
use crate::alu::{
    adc, compare, decrement, increment, sbc, shift_left, shift_right, Comparison, Shifted, Sum,
};
use crate::bus::{Bus, FlatMemory, ADDRESS_SPACE};
use crate::decoder::{lookup, pays_page_penalty, Access, AddressMode, InstructionInfo, Mnemonic};
use crate::flags::{lemma_status_bits, Flags};
use crate::machine;
use crate::machine::{Machine, Operand, INTERRUPT_CYCLES, RESET_STACK_POINTER};

verus! {

/// The processor, with the bus it is attached to.
pub struct CPU<B: Bus> {
    /// Program counter.
    pub pc: u16,
    /// Stack pointer: the low byte of an address in the stack page.
    pub sp: u8,
    /// Accumulator.
    pub ac: u8,
    /// Index register X.
    pub idx: u8,
    /// Index register Y.
    pub idy: u8,
    /// Status flags.
    pub status: Flags,
    /// Set by the halting opcode; only a reset clears it.
    pub halted: bool,
    /// What the processor reads from and writes to.
    pub bus: B,
}

impl<B: Bus> View for CPU<B> {
    type V = Machine<B::V>;

    open spec fn view(&self) -> Machine<B::V> {
        Machine {
            pc: self.pc,
            sp: self.sp,
            ac: self.ac,
            idx: self.idx,
            idy: self.idy,
            status: self.status,
            halted: self.halted,
            bus: self.bus@,
        }
    }
}

impl CPU<FlatMemory> {
    /// A processor at power-on, attached to 64 KiB of zeroed memory: every
    /// register zero, every flag clear, running.
    pub fn new() -> (cpu: Self)
        ensures
            cpu.wf(),
            cpu@ == (Machine {
                pc: 0,
                sp: 0,
                ac: 0,
                idx: 0,
                idy: 0,
                status: Flags::cleared(),
                halted: false,
                bus: Seq::new(ADDRESS_SPACE as nat, |i: int| 0u8),
            }),
    {
        CPU::with_bus(FlatMemory::new())
    }
}

impl<B: Bus> CPU<B> {
    /// What the engine needs to hold: that its bus is in order.
    pub open spec fn wf(&self) -> bool {
        self.bus.wf()
    }

    /// A processor at power-on, attached to `bus`: every register zero,
    /// every flag clear, running.
    pub fn with_bus(bus: B) -> (cpu: Self)
        requires
            bus.wf(),
        ensures
            cpu.wf(),
            cpu@ == (Machine {
                pc: 0,
                sp: 0,
                ac: 0,
                idx: 0,
                idy: 0,
                status: Flags::cleared(),
                halted: false,
                bus: bus@,
            }),
    {
        CPU { pc: 0, sp: 0, ac: 0, idx: 0, idy: 0, status: Flags::new(), halted: false, bus }
    }

    fn read(&mut self, addr: u16) -> (data: u8)
        requires
            old(self).wf(),
        ensures
            final(self).wf(),
            (data, final(self)@) == machine::read::<B>(old(self)@, addr),
    {
        self.bus.read(addr)
    }

    fn write(&mut self, addr: u16, data: u8)
        requires
            old(self).wf(),
        ensures
            final(self).wf(),
            final(self)@ == machine::write::<B>(old(self)@, addr, data),
    {
        self.bus.write(addr, data)
    }

    fn read_word(&mut self, lo_addr: u16, hi_addr: u16) -> (value: u16)
        requires
            old(self).wf(),
        ensures
            final(self).wf(),
            (value, final(self)@) == machine::read_word::<B>(old(self)@, lo_addr, hi_addr),
    {
        let lo = self.read(lo_addr);
        let hi = self.read(hi_addr);
        make_word(lo, hi)
    }

    fn push(&mut self, data: u8)
        requires
            old(self).wf(),
        ensures
            final(self).wf(),
            final(self)@ == machine::push::<B>(old(self)@, data),
    {
        self.write(stack_cell(self.sp), data);
        self.sp = decrement(self.sp);
    }

    fn pull(&mut self) -> (data: u8)
        requires
            old(self).wf(),
        ensures
            final(self).wf(),
            (data, final(self)@) == machine::pull::<B>(old(self)@),
    {
        self.sp = increment(self.sp);
        self.read(stack_cell(self.sp))
    }

    fn push_word(&mut self, value: u16)
        requires
            old(self).wf(),
        ensures
            final(self).wf(),
            final(self)@ == machine::push_word::<B>(old(self)@, value),
    {
        self.push(high(value));
        self.push(low(value));
    }

    fn pull_word(&mut self) -> (value: u16)
        requires
            old(self).wf(),
        ensures
            final(self).wf(),
            (value, final(self)@) == machine::pull_word::<B>(old(self)@),
    {
        let lo = self.pull();
        let hi = self.pull();
        make_word(lo, hi)
    }

    /// Resolves the operand of the instruction whose opcode stands at the
    /// program counter, and tells whether an index addition left the page.
    fn resolve(&mut self, mode: AddressMode) -> (result: (Operand, bool))
        requires
            old(self).wf(),
        ensures
            final(self).wf(),
            (machine::Resolved { operand: result.0, crossed: result.1, machine: final(self)@ })
                == machine::resolve::<B>(old(self)@, mode),
    {
        let first_addr = advance(self.pc, 1);
        let second_addr = advance(self.pc, 2);
        match mode {
            AddressMode::Implied => (Operand::Implied, false),
            AddressMode::Accumulator => (Operand::Accumulator, false),
            AddressMode::Immediate | AddressMode::Relative => {
                let value = self.read(first_addr);
                (Operand::Immediate(value), false)
            },
            AddressMode::ZeroPage => {
                let addr = self.read(first_addr);
                (Operand::Memory(addr as u16), false)
            },
            AddressMode::ZeroPageX => {
                let base = self.read(first_addr);
                (Operand::Memory(index_zero_page(base, self.idx) as u16), false)
            },
            AddressMode::ZeroPageY => {
                let base = self.read(first_addr);
                (Operand::Memory(index_zero_page(base, self.idy) as u16), false)
            },
            AddressMode::Absolute => {
                let addr = self.read_word(first_addr, second_addr);
                (Operand::Memory(addr), false)
            },
            AddressMode::AbsoluteX => {
                let base = self.read_word(first_addr, second_addr);
                let (addr, crossed) = index_address(base, self.idx);
                (Operand::Memory(addr), crossed)
            },
            AddressMode::AbsoluteY => {
                let base = self.read_word(first_addr, second_addr);
                let (addr, crossed) = index_address(base, self.idy);
                (Operand::Memory(addr), crossed)
            },
            AddressMode::Indirect => {
                let pointer = self.read_word(first_addr, second_addr);
                let target = self.read_word(pointer, step_in_page(pointer));
                (Operand::Memory(target), false)
            },
            AddressMode::IndirectX => {
                let base = self.read(first_addr);
                let pointer = index_zero_page(base, self.idx);
                let target = self.read_word(pointer as u16, index_zero_page(pointer, 1) as u16);
                (Operand::Memory(target), false)
            },
            AddressMode::IndirectY => {
                let pointer = self.read(first_addr);
                let base = self.read_word(pointer as u16, index_zero_page(pointer, 1) as u16);
                let (addr, crossed) = index_address(base, self.idy);
                (Operand::Memory(addr), crossed)
            },
        }
    }

    /// Fetches the byte that an operand stands for. Only the bus can change.
    fn operand_value(&mut self, operand: Operand) -> (value: u8)
        requires
            old(self).wf(),
        ensures
            final(self).wf(),
            (value, final(self)@) == machine::operand_value::<B>(old(self)@, operand),
            final(self)@ == (Machine { bus: final(self)@.bus, ..old(self)@ }),
    {
        proof {
            reveal(machine::operand_value);
        }
        match operand {
            Operand::Implied => 0,
            Operand::Accumulator => self.ac,
            Operand::Immediate(value) => value,
            Operand::Memory(addr) => self.read(addr),
        }
    }

    /// Stores a byte where an operand says. Only the accumulator and the bus
    /// can change.
    fn store_operand(&mut self, operand: Operand, data: u8)
        requires
            old(self).wf(),
        ensures
            final(self).wf(),
            final(self)@ == machine::store_operand::<B>(old(self)@, operand, data),
            final(self)@ == (Machine {
                ac: final(self)@.ac,
                bus: final(self)@.bus,
                ..old(self)@
            }),
            final(self)@.ac == (if operand == Operand::Accumulator {
                data
            } else {
                old(self)@.ac
            }),
    {
        proof {
            reveal(machine::store_operand);
        }
        match operand {
            Operand::Accumulator => {
                self.ac = data;
            },
            Operand::Memory(addr) => {
                self.write(addr, data);
            },
            _ => {},
        }
    }
}

fn flags_after_sum(status: Flags, sum: Sum) -> (flags: Flags)
    ensures
        flags == machine::with_sum(status, sum),
{
    let mut flags = status;
    flags.set_nz(sum.value);
    flags.carry = sum.carry;
    flags.overflow = sum.overflow;
    flags
}

fn flags_after_shift(status: Flags, shifted: Shifted) -> (flags: Flags)
    ensures
        flags == machine::with_shifted(status, shifted),
{
    let mut flags = status;
    flags.set_nz(shifted.value);
    flags.carry = shifted.carry;
    flags
}

fn flags_after_compare(status: Flags, result: Comparison) -> (flags: Flags)
    ensures
        flags == machine::with_comparison(status, result),
{
    let mut flags = status;
    flags.negative = result.negative;
    flags.zero = result.zero;
    flags.carry = result.carry;
    flags
}

fn flags_after_value(status: Flags, value: u8) -> (flags: Flags)
    ensures
        flags == status.with_nz(value),
{
    let mut flags = status;
    flags.set_nz(value);
    flags
}

fn is_taken(mnemonic: Mnemonic, status: Flags) -> (taken: bool)
    ensures
        taken == machine::branch_taken(mnemonic, status),
{
    match mnemonic {
        Mnemonic::BCC => !status.carry,
        Mnemonic::BCS => status.carry,
        Mnemonic::BNE => !status.zero,
        Mnemonic::BEQ => status.zero,
        Mnemonic::BPL => !status.negative,
        Mnemonic::BMI => status.negative,
        Mnemonic::BVC => !status.overflow,
        Mnemonic::BVS => status.overflow,
        _ => false,
    }
}

fn displacement_of(operand: Operand) -> (value: u8)
    ensures
        value == machine::displacement(operand),
{
    match operand {
        Operand::Immediate(value) => value,
        _ => 0,
    }
}

fn address_of(operand: Operand) -> (addr: u16)
    ensures
        addr == machine::operand_address(operand),
{
    match operand {
        Operand::Memory(addr) => addr,
        _ => 0,
    }
}

fn branch_cycles(mnemonic: Mnemonic, status: Flags, next: u16, operand: Operand) -> (extra: u8)
    ensures
        extra == machine::branch_penalty(mnemonic, status, next, operand),
{
    if !is_taken(mnemonic, status) {
        0
    } else if branch_to(next, displacement_of(operand)) / 256 == next / 256 {
        1
    } else {
        2
    }
}

fn reads_operand(mnemonic: Mnemonic) -> (reads: bool)
    ensures
        reads == (mnemonic.access() == Access::Read),
{
    match mnemonic {
        Mnemonic::LDA
        | Mnemonic::LDX
        | Mnemonic::LDY
        | Mnemonic::EOR
        | Mnemonic::AND
        | Mnemonic::ORA
        | Mnemonic::ADC
        | Mnemonic::SBC
        | Mnemonic::CMP
        | Mnemonic::CPX
        | Mnemonic::CPY
        | Mnemonic::BIT
        | Mnemonic::NOP
        | Mnemonic::LAX
        | Mnemonic::LAS
        | Mnemonic::ALR
        | Mnemonic::ANC
        | Mnemonic::ARR
        | Mnemonic::AXS
        | Mnemonic::XAA => true,
        _ => false,
    }
}

fn pays_penalty(info: InstructionInfo) -> (pays: bool)
    ensures
        pays == pays_page_penalty(info),
{
    reads_operand(info.mnemonic) && match info.mode {
        AddressMode::AbsoluteX | AddressMode::AbsoluteY | AddressMode::IndirectY => true,
        _ => false,
    }
}

fn change_flag(mnemonic: Mnemonic, status: Flags) -> (flags: Flags)
    ensures
        flags == machine::changed_flag(mnemonic, status),
{
    let mut flags = status;
    match mnemonic {
        Mnemonic::CLC => {
            flags.carry = false;
        },
        Mnemonic::CLD => {
            flags.decimal = false;
        },
        Mnemonic::CLI => {
            flags.interrupt_disable = false;
        },
        Mnemonic::CLV => {
            flags.overflow = false;
        },
        Mnemonic::SEC => {
            flags.carry = true;
        },
        Mnemonic::SED => {
            flags.decimal = true;
        },
        Mnemonic::SEI => {
            flags.interrupt_disable = true;
        },
        _ => {},
    }
    flags
}

fn shift_by(mnemonic: Mnemonic, value: u8, carry: bool) -> (shifted: Shifted)
    ensures
        shifted == machine::shift_result(mnemonic, value, carry),
{
    match mnemonic {
        Mnemonic::ASL => shift_left(value, false),
        Mnemonic::LSR => shift_right(value, false),
        Mnemonic::ROL => shift_left(value, carry),
        _ => shift_right(value, carry),
    }
}

// One function for each operation, held to the model of its family.
impl<B: Bus> CPU<B> {
    /// The interrupt sequence: pushes the return address and the status
    /// byte, disables interrupts and jumps through the vector.
    fn interrupt(&mut self, vector: u16, software: bool, return_to: u16)
        requires
            old(self).wf(),
        ensures
            final(self).wf(),
            final(self)@ == machine::interrupt::<B>(old(self)@, vector, software, return_to),
    {
        let mut pushed = self.status;
        pushed.brk = software;
        self.push_word(return_to);
        self.push(pushed.to_byte());
        self.pc = self.read_word(vector, advance(vector, 1));
        self.status.interrupt_disable = true;
    }

    fn lda(&mut self, operand: Operand)
        requires
            old(self).wf(),
        ensures
            final(self).wf(),
            final(self)@ == machine::load_store::<B>(old(self)@, Mnemonic::LDA, operand),
    {
        let value = self.operand_value(operand);
        self.ac = value;
        self.status.set_nz(value);
    }

    fn ldx(&mut self, operand: Operand)
        requires
            old(self).wf(),
        ensures
            final(self).wf(),
            final(self)@ == machine::load_store::<B>(old(self)@, Mnemonic::LDX, operand),
    {
        let value = self.operand_value(operand);
        self.idx = value;
        self.status.set_nz(value);
    }

    fn ldy(&mut self, operand: Operand)
        requires
            old(self).wf(),
        ensures
            final(self).wf(),
            final(self)@ == machine::load_store::<B>(old(self)@, Mnemonic::LDY, operand),
    {
        let value = self.operand_value(operand);
        self.idy = value;
        self.status.set_nz(value);
    }

    fn sta(&mut self, operand: Operand)
        requires
            old(self).wf(),
        ensures
            final(self).wf(),
            final(self)@ == machine::load_store::<B>(old(self)@, Mnemonic::STA, operand),
    {
        self.store_operand(operand, self.ac);
    }

    fn stx(&mut self, operand: Operand)
        requires
            old(self).wf(),
        ensures
            final(self).wf(),
            final(self)@ == machine::load_store::<B>(old(self)@, Mnemonic::STX, operand),
    {
        self.store_operand(operand, self.idx);
    }

    fn sty(&mut self, operand: Operand)
        requires
            old(self).wf(),
        ensures
            final(self).wf(),
            final(self)@ == machine::load_store::<B>(old(self)@, Mnemonic::STY, operand),
    {
        self.store_operand(operand, self.idy);
    }

    fn tax(&mut self)
        requires
            old(self).wf(),
        ensures
            final(self).wf(),
            final(self)@ == machine::transfer::<B>(old(self)@, Mnemonic::TAX),
    {
        self.idx = self.ac;
        self.status.set_nz(self.ac);
    }

    fn tay(&mut self)
        requires
            old(self).wf(),
        ensures
            final(self).wf(),
            final(self)@ == machine::transfer::<B>(old(self)@, Mnemonic::TAY),
    {
        self.idy = self.ac;
        self.status.set_nz(self.ac);
    }

    fn txa(&mut self)
        requires
            old(self).wf(),
        ensures
            final(self).wf(),
            final(self)@ == machine::transfer::<B>(old(self)@, Mnemonic::TXA),
    {
        self.ac = self.idx;
        self.status.set_nz(self.ac);
    }

    fn tya(&mut self)
        requires
            old(self).wf(),
        ensures
            final(self).wf(),
            final(self)@ == machine::transfer::<B>(old(self)@, Mnemonic::TYA),
    {
        self.ac = self.idy;
        self.status.set_nz(self.ac);
    }

    fn tsx(&mut self)
        requires
            old(self).wf(),
        ensures
            final(self).wf(),
            final(self)@ == machine::stack::<B>(old(self)@, Mnemonic::TSX),
    {
        self.idx = self.sp;
        self.status.set_nz(self.sp);
    }

    fn txs(&mut self)
        requires
            old(self).wf(),
        ensures
            final(self).wf(),
            final(self)@ == machine::stack::<B>(old(self)@, Mnemonic::TXS),
    {
        self.sp = self.idx;
    }

    fn pha(&mut self)
        requires
            old(self).wf(),
        ensures
            final(self).wf(),
            final(self)@ == machine::stack::<B>(old(self)@, Mnemonic::PHA),
    {
        self.push(self.ac);
    }

    fn php(&mut self)
        requires
            old(self).wf(),
        ensures
            final(self).wf(),
            final(self)@ == machine::stack::<B>(old(self)@, Mnemonic::PHP),
    {
        let mut pushed = self.status;
        pushed.brk = true;
        self.push(pushed.to_byte());
    }

    fn pla(&mut self)
        requires
            old(self).wf(),
        ensures
            final(self).wf(),
            final(self)@ == machine::stack::<B>(old(self)@, Mnemonic::PLA),
    {
        let value = self.pull();
        self.ac = value;
        self.status.set_nz(value);
    }

    fn plp(&mut self)
        requires
            old(self).wf(),
        ensures
            final(self).wf(),
            final(self)@ == machine::stack::<B>(old(self)@, Mnemonic::PLP),
    {
        let value = self.pull();
        self.status = Flags::from_byte(value);
    }

    fn and(&mut self, operand: Operand)
        requires
            old(self).wf(),
        ensures
            final(self).wf(),
            final(self)@ == machine::logical::<B>(old(self)@, Mnemonic::AND, operand),
    {
        let value = self.operand_value(operand);
        self.ac = self.ac & value;
        self.status.set_nz(self.ac);
    }

    fn eor(&mut self, operand: Operand)
        requires
            old(self).wf(),
        ensures
            final(self).wf(),
            final(self)@ == machine::logical::<B>(old(self)@, Mnemonic::EOR, operand),
    {
        let value = self.operand_value(operand);
        self.ac = self.ac ^ value;
        self.status.set_nz(self.ac);
    }

    fn ora(&mut self, operand: Operand)
        requires
            old(self).wf(),
        ensures
            final(self).wf(),
            final(self)@ == machine::logical::<B>(old(self)@, Mnemonic::ORA, operand),
    {
        let value = self.operand_value(operand);
        self.ac = self.ac | value;
        self.status.set_nz(self.ac);
    }

    fn bit(&mut self, operand: Operand)
        requires
            old(self).wf(),
        ensures
            final(self).wf(),
            final(self)@ == machine::logical::<B>(old(self)@, Mnemonic::BIT, operand),
    {
        let value = self.operand_value(operand);
        proof {
            lemma_status_bits(value);
        }
        self.status.zero = self.ac & value == 0;
        self.status.negative = value & 0x80 != 0;
        self.status.overflow = value & 0x40 != 0;
    }

    fn adc(&mut self, operand: Operand)
        requires
            old(self).wf(),
        ensures
            final(self).wf(),
            final(self)@ == machine::arithmetic::<B>(old(self)@, Mnemonic::ADC, operand),
    {
        let value = self.operand_value(operand);
        let sum = adc(self.ac, value, self.status.carry);
        self.ac = sum.value;
        self.status = flags_after_sum(self.status, sum);
    }

    fn sbc(&mut self, operand: Operand)
        requires
            old(self).wf(),
        ensures
            final(self).wf(),
            final(self)@ == machine::arithmetic::<B>(old(self)@, Mnemonic::SBC, operand),
    {
        let value = self.operand_value(operand);
        let sum = sbc(self.ac, value, self.status.carry);
        self.ac = sum.value;
        self.status = flags_after_sum(self.status, sum);
    }

    fn cmp(&mut self, operand: Operand)
        requires
            old(self).wf(),
        ensures
            final(self).wf(),
            final(self)@ == machine::arithmetic::<B>(old(self)@, Mnemonic::CMP, operand),
    {
        let value = self.operand_value(operand);
        self.status = flags_after_compare(self.status, compare(self.ac, value));
    }

    fn cpx(&mut self, operand: Operand)
        requires
            old(self).wf(),
        ensures
            final(self).wf(),
            final(self)@ == machine::arithmetic::<B>(old(self)@, Mnemonic::CPX, operand),
    {
        let value = self.operand_value(operand);
        self.status = flags_after_compare(self.status, compare(self.idx, value));
    }

    fn cpy(&mut self, operand: Operand)
        requires
            old(self).wf(),
        ensures
            final(self).wf(),
            final(self)@ == machine::arithmetic::<B>(old(self)@, Mnemonic::CPY, operand),
    {
        let value = self.operand_value(operand);
        self.status = flags_after_compare(self.status, compare(self.idy, value));
    }

    fn inc(&mut self, operand: Operand)
        requires
            old(self).wf(),
        ensures
            final(self).wf(),
            final(self)@ == machine::inc_dec::<B>(old(self)@, Mnemonic::INC, operand),
    {
        let value = self.operand_value(operand);
        let result = increment(value);
        self.store_operand(operand, result);
        self.status.set_nz(result);
    }

    fn dec(&mut self, operand: Operand)
        requires
            old(self).wf(),
        ensures
            final(self).wf(),
            final(self)@ == machine::inc_dec::<B>(old(self)@, Mnemonic::DEC, operand),
    {
        let value = self.operand_value(operand);
        let result = decrement(value);
        self.store_operand(operand, result);
        self.status.set_nz(result);
    }

    fn inx(&mut self, operand: Operand)
        requires
            old(self).wf(),
        ensures
            final(self).wf(),
            final(self)@ == machine::inc_dec::<B>(old(self)@, Mnemonic::INX, operand),
    {
        self.idx = increment(self.idx);
        self.status.set_nz(self.idx);
    }

    fn iny(&mut self, operand: Operand)
        requires
            old(self).wf(),
        ensures
            final(self).wf(),
            final(self)@ == machine::inc_dec::<B>(old(self)@, Mnemonic::INY, operand),
    {
        self.idy = increment(self.idy);
        self.status.set_nz(self.idy);
    }

    fn dex(&mut self, operand: Operand)
        requires
            old(self).wf(),
        ensures
            final(self).wf(),
            final(self)@ == machine::inc_dec::<B>(old(self)@, Mnemonic::DEX, operand),
    {
        self.idx = decrement(self.idx);
        self.status.set_nz(self.idx);
    }

    fn dey(&mut self, operand: Operand)
        requires
            old(self).wf(),
        ensures
            final(self).wf(),
            final(self)@ == machine::inc_dec::<B>(old(self)@, Mnemonic::DEY, operand),
    {
        self.idy = decrement(self.idy);
        self.status.set_nz(self.idy);
    }

    fn jmp(&mut self, operand: Operand)
        requires
            old(self).wf(),
        ensures
            final(self).wf(),
            final(self)@ == machine::jump::<B>(old(self)@, Mnemonic::JMP, operand),
    {
        self.pc = address_of(operand);
    }

    fn jsr(&mut self, operand: Operand)
        requires
            old(self).wf(),
        ensures
            final(self).wf(),
            final(self)@ == machine::jump::<B>(old(self)@, Mnemonic::JSR, operand),
    {
        self.push_word(retreat(self.pc));
        self.pc = address_of(operand);
    }

    fn rts(&mut self, operand: Operand)
        requires
            old(self).wf(),
        ensures
            final(self).wf(),
            final(self)@ == machine::jump::<B>(old(self)@, Mnemonic::RTS, operand),
    {
        let pulled = self.pull_word();
        self.pc = advance(pulled, 1);
    }

    fn brk(&mut self, operand: Operand)
        requires
            old(self).wf(),
        ensures
            final(self).wf(),
            final(self)@ == machine::system::<B>(old(self)@, Mnemonic::BRK, operand),
    {
        self.interrupt(IRQ_VECTOR, true, advance(self.pc, 1));
    }

    fn nop(&mut self, operand: Operand)
        requires
            old(self).wf(),
        ensures
            final(self).wf(),
            final(self)@ == machine::system::<B>(old(self)@, Mnemonic::NOP, operand),
    {
        let _ = self.operand_value(operand);
    }

    fn rti(&mut self, operand: Operand)
        requires
            old(self).wf(),
        ensures
            final(self).wf(),
            final(self)@ == machine::system::<B>(old(self)@, Mnemonic::RTI, operand),
    {
        let status = self.pull();
        self.pc = self.pull_word();
        self.status = Flags::from_byte(status);
    }

    fn jam(&mut self, operand: Operand)
        requires
            old(self).wf(),
        ensures
            final(self).wf(),
            final(self)@ == machine::system::<B>(old(self)@, Mnemonic::JAM, operand),
    {
        self.halted = true;
    }

    fn slo(&mut self, operand: Operand)
        requires
            old(self).wf(),
        ensures
            final(self).wf(),
            final(self)@ == machine::combined::<B>(old(self)@, Mnemonic::SLO, operand),
    {
        let ac = self.ac;
        let value = self.operand_value(operand);
        let shifted = shift_left(value, false);
        self.store_operand(operand, shifted.value);
        self.ac = ac | shifted.value;
        self.status.set_nz(self.ac);
        self.status.carry = shifted.carry;
    }

    fn rla(&mut self, operand: Operand)
        requires
            old(self).wf(),
        ensures
            final(self).wf(),
            final(self)@ == machine::combined::<B>(old(self)@, Mnemonic::RLA, operand),
    {
        let ac = self.ac;
        let value = self.operand_value(operand);
        let shifted = shift_left(value, self.status.carry);
        self.store_operand(operand, shifted.value);
        self.ac = ac & shifted.value;
        self.status.set_nz(self.ac);
        self.status.carry = shifted.carry;
    }

    fn sre(&mut self, operand: Operand)
        requires
            old(self).wf(),
        ensures
            final(self).wf(),
            final(self)@ == machine::combined::<B>(old(self)@, Mnemonic::SRE, operand),
    {
        let ac = self.ac;
        let value = self.operand_value(operand);
        let shifted = shift_right(value, false);
        self.store_operand(operand, shifted.value);
        self.ac = ac ^ shifted.value;
        self.status.set_nz(self.ac);
        self.status.carry = shifted.carry;
    }

    fn rra(&mut self, operand: Operand)
        requires
            old(self).wf(),
        ensures
            final(self).wf(),
            final(self)@ == machine::combined::<B>(old(self)@, Mnemonic::RRA, operand),
    {
        let ac = self.ac;
        let value = self.operand_value(operand);
        let shifted = shift_right(value, self.status.carry);
        self.store_operand(operand, shifted.value);
        let sum = adc(ac, shifted.value, shifted.carry);
        self.ac = sum.value;
        self.status = flags_after_sum(self.status, sum);
    }

    fn dcp(&mut self, operand: Operand)
        requires
            old(self).wf(),
        ensures
            final(self).wf(),
            final(self)@ == machine::combined::<B>(old(self)@, Mnemonic::DCP, operand),
    {
        let ac = self.ac;
        let value = self.operand_value(operand);
        let result = decrement(value);
        self.store_operand(operand, result);
        self.status = flags_after_compare(self.status, compare(ac, result));
    }

    fn isc(&mut self, operand: Operand)
        requires
            old(self).wf(),
        ensures
            final(self).wf(),
            final(self)@ == machine::combined::<B>(old(self)@, Mnemonic::ISC, operand),
    {
        let ac = self.ac;
        let value = self.operand_value(operand);
        let result = increment(value);
        self.store_operand(operand, result);
        let sum = sbc(ac, result, self.status.carry);
        self.ac = sum.value;
        self.status = flags_after_sum(self.status, sum);
    }

    fn lax(&mut self, operand: Operand)
        requires
            old(self).wf(),
        ensures
            final(self).wf(),
            final(self)@ == machine::combined::<B>(old(self)@, Mnemonic::LAX, operand),
    {
        let value = self.operand_value(operand);
        self.ac = value;
        self.idx = value;
        self.status.set_nz(value);
    }

    fn sax(&mut self, operand: Operand)
        requires
            old(self).wf(),
        ensures
            final(self).wf(),
            final(self)@ == machine::combined::<B>(old(self)@, Mnemonic::SAX, operand),
    {
        self.store_operand(operand, self.ac & self.idx);
    }

    fn alr(&mut self, operand: Operand)
        requires
            old(self).wf(),
        ensures
            final(self).wf(),
            final(self)@ == machine::unofficial::<B>(old(self)@, Mnemonic::ALR, operand),
    {
        let value = self.operand_value(operand);
        let shifted = shift_right(self.ac & value, false);
        self.ac = shifted.value;
        self.status = flags_after_shift(self.status, shifted);
    }

    fn anc(&mut self, operand: Operand)
        requires
            old(self).wf(),
        ensures
            final(self).wf(),
            final(self)@ == machine::unofficial::<B>(old(self)@, Mnemonic::ANC, operand),
    {
        let value = self.operand_value(operand);
        self.ac = self.ac & value;
        self.status.set_nz(self.ac);
        self.status.carry = self.ac >= 0x80;
    }

    fn arr(&mut self, operand: Operand)
        requires
            old(self).wf(),
        ensures
            final(self).wf(),
            final(self)@ == machine::unofficial::<B>(old(self)@, Mnemonic::ARR, operand),
    {
        let value = self.operand_value(operand);
        let result = shift_right(self.ac & value, self.status.carry).value;
        self.ac = result;
        self.status.set_nz(result);
        self.status.carry = (result / 64) % 2 == 1;
        self.status.overflow = (result / 64) % 2 != (result / 32) % 2;
    }

    fn axs(&mut self, operand: Operand)
        requires
            old(self).wf(),
        ensures
            final(self).wf(),
            final(self)@ == machine::unofficial::<B>(old(self)@, Mnemonic::AXS, operand),
    {
        let value = self.operand_value(operand);
        let both = self.ac & self.idx;
        self.idx = sbc(both, value, true).value;
        self.status = flags_after_compare(self.status, compare(both, value));
    }

    fn xaa(&mut self, operand: Operand)
        requires
            old(self).wf(),
        ensures
            final(self).wf(),
            final(self)@ == machine::unofficial::<B>(old(self)@, Mnemonic::XAA, operand),
    {
        let value = self.operand_value(operand);
        self.ac = self.idx & value;
        self.status.set_nz(self.ac);
    }

    fn las(&mut self, operand: Operand)
        requires
            old(self).wf(),
        ensures
            final(self).wf(),
            final(self)@ == machine::unofficial::<B>(old(self)@, Mnemonic::LAS, operand),
    {
        let value = self.operand_value(operand);
        let result = value & self.sp;
        self.ac = result;
        self.idx = result;
        self.sp = result;
        self.status.set_nz(result);
    }

    fn ahx(&mut self, operand: Operand)
        requires
            old(self).wf(),
        ensures
            final(self).wf(),
            final(self)@ == machine::unofficial::<B>(old(self)@, Mnemonic::AHX, operand),
    {
        let high = increment(high(address_of(operand)));
        self.store_operand(operand, self.ac & self.idx & high);
    }

    fn shx(&mut self, operand: Operand)
        requires
            old(self).wf(),
        ensures
            final(self).wf(),
            final(self)@ == machine::unofficial::<B>(old(self)@, Mnemonic::SHX, operand),
    {
        let high = increment(high(address_of(operand)));
        self.store_operand(operand, self.idx & high);
    }

    fn shy(&mut self, operand: Operand)
        requires
            old(self).wf(),
        ensures
            final(self).wf(),
            final(self)@ == machine::unofficial::<B>(old(self)@, Mnemonic::SHY, operand),
    {
        let high = increment(high(address_of(operand)));
        self.store_operand(operand, self.idy & high);
    }

    fn tas(&mut self, operand: Operand)
        requires
            old(self).wf(),
        ensures
            final(self).wf(),
            final(self)@ == machine::unofficial::<B>(old(self)@, Mnemonic::TAS, operand),
    {
        let high = increment(high(address_of(operand)));
        let both = self.ac & self.idx;
        self.sp = both;
        self.store_operand(operand, both & high);
    }

    fn shift(&mut self, mnemonic: Mnemonic, operand: Operand)
        requires
            old(self).wf(),
        ensures
            final(self).wf(),
            final(self)@ == machine::shift::<B>(old(self)@, mnemonic, operand),
    {
        let value = self.operand_value(operand);
        let shifted = shift_by(mnemonic, value, self.status.carry);
        self.store_operand(operand, shifted.value);
        self.status = flags_after_shift(self.status, shifted);
    }

    fn branch(&mut self, mnemonic: Mnemonic, operand: Operand)
        requires
            old(self).wf(),
        ensures
            final(self).wf(),
            final(self)@ == machine::branch::<B>(old(self)@, mnemonic, operand),
    {
        if is_taken(mnemonic, self.status) {
            self.pc = branch_to(self.pc, displacement_of(operand));
        }
    }

    /// Executes one operation on its resolved operand. The program counter
    /// addresses the instruction after it.
    fn execute(&mut self, mnemonic: Mnemonic, operand: Operand)
        requires
            old(self).wf(),
        ensures
            final(self).wf(),
            final(self)@ == machine::execute::<B>(old(self)@, mnemonic, operand),
    {
        match mnemonic {
            Mnemonic::LDA => self.lda(operand),
            Mnemonic::LDX => self.ldx(operand),
            Mnemonic::LDY => self.ldy(operand),
            Mnemonic::STA => self.sta(operand),
            Mnemonic::STX => self.stx(operand),
            Mnemonic::STY => self.sty(operand),
            Mnemonic::TAX => self.tax(),
            Mnemonic::TAY => self.tay(),
            Mnemonic::TXA => self.txa(),
            Mnemonic::TYA => self.tya(),
            Mnemonic::TSX => self.tsx(),
            Mnemonic::TXS => self.txs(),
            Mnemonic::PHA => self.pha(),
            Mnemonic::PHP => self.php(),
            Mnemonic::PLA => self.pla(),
            Mnemonic::PLP => self.plp(),
            Mnemonic::AND => self.and(operand),
            Mnemonic::EOR => self.eor(operand),
            Mnemonic::ORA => self.ora(operand),
            Mnemonic::BIT => self.bit(operand),
            Mnemonic::ADC => self.adc(operand),
            Mnemonic::SBC => self.sbc(operand),
            Mnemonic::CMP => self.cmp(operand),
            Mnemonic::CPX => self.cpx(operand),
            Mnemonic::CPY => self.cpy(operand),
            Mnemonic::INC => self.inc(operand),
            Mnemonic::INX => self.inx(operand),
            Mnemonic::INY => self.iny(operand),
            Mnemonic::DEC => self.dec(operand),
            Mnemonic::DEX => self.dex(operand),
            Mnemonic::DEY => self.dey(operand),
            Mnemonic::ASL | Mnemonic::LSR | Mnemonic::ROL | Mnemonic::ROR => self.shift(
                mnemonic,
                operand,
            ),
            Mnemonic::JMP => self.jmp(operand),
            Mnemonic::JSR => self.jsr(operand),
            Mnemonic::RTS => self.rts(operand),
            Mnemonic::BCC
            | Mnemonic::BCS
            | Mnemonic::BEQ
            | Mnemonic::BMI
            | Mnemonic::BNE
            | Mnemonic::BPL
            | Mnemonic::BVC
            | Mnemonic::BVS => self.branch(mnemonic, operand),
            Mnemonic::CLC
            | Mnemonic::CLD
            | Mnemonic::CLI
            | Mnemonic::CLV
            | Mnemonic::SEC
            | Mnemonic::SED
            | Mnemonic::SEI => {
                self.status = change_flag(mnemonic, self.status);
            },
            Mnemonic::BRK => self.brk(operand),
            Mnemonic::NOP => self.nop(operand),
            Mnemonic::RTI => self.rti(operand),
            Mnemonic::ALR => self.alr(operand),
            Mnemonic::ANC => self.anc(operand),
            Mnemonic::ARR => self.arr(operand),
            Mnemonic::AXS => self.axs(operand),
            Mnemonic::DCP => self.dcp(operand),
            Mnemonic::ISC => self.isc(operand),
            Mnemonic::JAM => self.jam(operand),
            Mnemonic::LAS => self.las(operand),
            Mnemonic::LAX => self.lax(operand),
            Mnemonic::RLA => self.rla(operand),
            Mnemonic::RRA => self.rra(operand),
            Mnemonic::SAX => self.sax(operand),
            Mnemonic::SLO => self.slo(operand),
            Mnemonic::SRE => self.sre(operand),
            Mnemonic::AHX => self.ahx(operand),
            Mnemonic::SHX => self.shx(operand),
            Mnemonic::SHY => self.shy(operand),
            Mnemonic::TAS => self.tas(operand),
            Mnemonic::XAA => self.xaa(operand),
        }
    }

    /// Executes one instruction and returns the cycles it took. A halted
    /// processor does nothing and returns zero; so does the halting opcode,
    /// which leaves the processor halted.
    pub fn step(&mut self) -> (cycles: u8)
        requires
            old(self).wf(),
        ensures
            final(self).wf(),
            (cycles, final(self)@) == machine::step::<B>(old(self)@),
    {
        if self.halted {
            return 0;
        }
        let start = self.pc;
        let opcode = self.read(start);
        let info = lookup(opcode);
        if info.mnemonic == Mnemonic::JAM {
            self.halted = true;
            return 0;
        }
        let (operand, crossed) = self.resolve(info.mode);
        self.pc = advance(start, info.bytes);
        let page_cycles: u8 = if crossed && pays_penalty(info) {
            1
        } else {
            0
        };
        let branch = branch_cycles(info.mnemonic, self.status, self.pc, operand);
        self.execute(info.mnemonic, operand);
        info.cycles + page_cycles + branch
    }

    /// Resets the processor and returns the cycles taken: it runs again,
    /// from the address in the reset vector.
    pub fn reset(&mut self) -> (cycles: u8)
        requires
            old(self).wf(),
        ensures
            final(self).wf(),
            final(self)@ == machine::reset::<B>(old(self)@),
            cycles == INTERRUPT_CYCLES,
    {
        self.pc = self.read_word(RESET_VECTOR, advance(RESET_VECTOR, 1));
        self.sp = RESET_STACK_POINTER;
        self.status = Flags::new();
        self.status.interrupt_disable = true;
        self.halted = false;
        INTERRUPT_CYCLES
    }

    /// Raises the non-maskable interrupt and returns the cycles taken: seven,
    /// or zero where the processor is halted.
    pub fn nmi(&mut self) -> (cycles: u8)
        requires
            old(self).wf(),
        ensures
            final(self).wf(),
            (cycles, final(self)@) == machine::nmi::<B>(old(self)@),
    {
        if self.halted {
            return 0;
        }
        self.interrupt(NMI_VECTOR, false, self.pc);
        INTERRUPT_CYCLES
    }

    /// Requests the maskable interrupt and returns the cycles taken: seven,
    /// or zero where the processor is halted or has interrupts disabled.
    pub fn irq(&mut self) -> (cycles: u8)
        requires
            old(self).wf(),
        ensures
            final(self).wf(),
            (cycles, final(self)@) == machine::irq::<B>(old(self)@),
    {
        if self.halted || self.status.interrupt_disable {
            return 0;
        }
        self.interrupt(IRQ_VECTOR, false, self.pc);
        INTERRUPT_CYCLES
    }

    /// Copies a program image into the cells behind `origin` and the
    /// addresses after it, around the bus: no peripheral sees a write. The
    /// image has to fit between `origin` and the end of the address space.
    pub fn load(&mut self, bytes: &[u8], origin: u16)
        requires
            old(self).wf(),
            origin + bytes@.len() <= ADDRESS_SPACE,
        ensures
            final(self).wf(),
            final(self)@ == machine::load::<B>(old(self)@, bytes@, origin),
    {
        let ghost before = self@;
        let mut done: usize = 0;
        while done < bytes.len()
            invariant
                done <= bytes@.len(),
                origin + bytes@.len() <= ADDRESS_SPACE,
                self.wf(),
                self@ == machine::load::<B>(before, bytes@.take(done as int), origin),
            decreases bytes@.len() - done,
        {
            proof {
                assert(bytes@.take(done + 1).drop_last() == bytes@.take(done as int));
            }
            self.bus.poke((origin as usize + done) as u16, bytes[done]);
            done += 1;
        }
        proof {
            assert(bytes@.take(done as int) == bytes@);
        }
    }

    /// Executes instructions until one halts the processor or the cycles
    /// counted exceed `budget`, and returns the cycles counted. Whether the
    /// processor halted can be read from `halted`.
    pub fn run(&mut self, budget: u64) -> (cycles: u64)
        requires
            old(self).wf(),
            budget <= u64::MAX - u8::MAX,
        ensures
            final(self).wf(),
            (cycles as nat, final(self)@) == machine::run::<B>(old(self)@, 0, budget as nat),
    {
        let ghost before = self@;
        let mut total: u64 = 0;
        loop
            invariant_except_break
                total <= budget,
                machine::run::<B>(self@, total as nat, budget as nat) == machine::run::<B>(
                    before,
                    0,
                    budget as nat,
                ),
            invariant
                self.wf(),
                budget <= u64::MAX - u8::MAX,
            ensures
                self.wf(),
                (total as nat, self@) == machine::run::<B>(before, 0, budget as nat),
            decreases budget - total,
        {
            let cycles = self.step();
            total += cycles as u64;
            if cycles == 0 || total > budget {
                break ;
            }
        }
        total
    }
}

} // verus!
