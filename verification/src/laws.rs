//! What holds of every machine, proved from the model: where the addressing
//! modes can reach, what the stack does at its ends, how many cycles an
//! instruction takes, and that a halted machine stays halted.

use vstd::prelude::*;
use crate::addressing::{
    branch_target, following, high_byte, low_byte, next_in_page, page, preceding, stack_address,
    word, zero_page_indexed,
};
use crate::alu::{decremented, incremented};
use crate::bus::{Bus, FlatMemory, ADDRESS_SPACE};
use crate::decoder::{
    opcode_info, pays_page_penalty, Access, AddressMode, Family, InstructionInfo, Mnemonic,
};
use crate::flags::Flags;
use crate::machine::{
    arithmetic, branch_taken, combined, inc_dec, interrupt, jump, load_store, logical,
    operand_value, poked, pull, pull_word, push, push_word, read, resolve, run, shift, step,
    store_operand, system, Machine, Operand,
};

verus! {

/// The opcode that a machine fetches next.
pub open spec fn next_opcode<B: Bus>(m: Machine<B::V>) -> u8 {
    read::<B>(m, m.pc).0
}

/// The table row of the instruction that a machine executes next.
pub open spec fn next_instruction<B: Bus>(m: Machine<B::V>) -> InstructionInfo {
    opcode_info(next_opcode::<B>(m))
}

/// The operand of the instruction that a machine executes next, resolved.
pub open spec fn next_operand<B: Bus>(m: Machine<B::V>) -> crate::machine::Resolved<B::V> {
    resolve::<B>(read::<B>(m, m.pc).1, next_instruction::<B>(m).mode)
}

/// The zero-page modes never reach beyond page 0: an index that takes the
/// sum past `$FF` wraps it around to the start of the page.
pub proof fn lemma_zero_page_modes_stay_in_page_zero<B: Bus>(m: Machine<B::V>, mode: AddressMode)
    requires
        mode == AddressMode::ZeroPage || mode == AddressMode::ZeroPageX || mode
            == AddressMode::ZeroPageY,
    ensures
        resolve::<B>(m, mode).operand matches Operand::Memory(addr) && addr < 0x0100,
        !resolve::<B>(m, mode).crossed,
{
}

/// In the zero-page indexed modes the address is the operand byte plus the
/// index register, less `$100` where the sum does not fit in a byte.
pub proof fn lemma_zero_page_index_wraps<B: Bus>(m: Machine<B::V>)
    ensures
        ({
            let base = read::<B>(m, following(m.pc, 1)).0;
            let wrapped = if base + m.idx < 0x100 {
                base + m.idx
            } else {
                base + m.idx - 0x100
            };
            resolve::<B>(m, AddressMode::ZeroPageX).operand == Operand::Memory(wrapped as u16)
        }),
        ({
            let base = read::<B>(m, following(m.pc, 1)).0;
            let wrapped = if base + m.idy < 0x100 {
                base + m.idy
            } else {
                base + m.idy - 0x100
            };
            resolve::<B>(m, AddressMode::ZeroPageY).operand == Operand::Memory(wrapped as u16)
        }),
{
    reveal(zero_page_indexed);
}

/// The indirect jump reads the high byte of its target from the page of
/// the pointer: where the pointer is the last byte of a page, from the first
/// byte of that page.
pub proof fn lemma_indirect_pointer_wraps_in_page<B: Bus>(m: Machine<B::V>)
    ensures
        ({
            let (lo, m1) = read::<B>(m, following(m.pc, 1));
            let (hi, m2) = read::<B>(m1, following(m.pc, 2));
            let pointer = word(lo, hi);
            let (target_lo, m3) = read::<B>(m2, pointer);
            let high_addr = if pointer % 256 == 255 {
                pointer - 255
            } else {
                pointer + 1
            };
            let (target_hi, m4) = read::<B>(m3, high_addr as u16);
            resolve::<B>(m, AddressMode::Indirect).operand == Operand::Memory(
                word(target_lo, target_hi),
            )
        }),
{
    reveal(next_in_page);
}

/// A push writes to the stack page at the stack pointer and moves the
/// pointer down; a pull moves it up and reads there. Neither leaves the
/// page: below `$00` comes `$FF`, above `$FF` comes `$00`.
pub proof fn lemma_stack_wraps_in_its_page<B: Bus>(m: Machine<B::V>, data: u8)
    ensures
        push::<B>(m, data).bus == B::after_write(m.bus, (0x0100 + m.sp) as u16, data),
        push::<B>(m, data).sp == (if m.sp == 0 {
            0xFFu8
        } else {
            (m.sp - 1) as u8
        }),
        pull::<B>(m).1.sp == (if m.sp == 0xFF {
            0u8
        } else {
            (m.sp + 1) as u8
        }),
        pull::<B>(m).0 == B::read_value(m.bus, (0x0100 + pull::<B>(m).1.sp) as u16),
        pull::<B>(push::<B>(m, data)).1.sp == m.sp,
{
    reveal(stack_address);
    reveal(decremented);
    reveal(incremented);
}

/// A halted machine stays as it is: a step takes no cycles and changes
/// nothing, however often it is made.
pub proof fn lemma_halted_machine_stays<B: Bus>(m: Machine<B::V>)
    requires
        m.halted,
    ensures
        step::<B>(m) == (0u8, m),
        step::<B>(step::<B>(m).1) == (0u8, m),
{
}

/// The halting opcode halts the machine in no cycles, with every register
/// as it was, and every later step finds the machine as the halt left it.
pub proof fn lemma_jam_halts_for_good<B: Bus>(m: Machine<B::V>)
    requires
        !m.halted,
        next_instruction::<B>(m).mnemonic == Mnemonic::JAM,
    ensures
        ({
            let (cycles, halted) = step::<B>(m);
            &&& cycles == 0
            &&& halted == (Machine { halted: true, bus: halted.bus, ..m })
            &&& step::<B>(halted) == (0u8, halted)
            &&& step::<B>(step::<B>(halted).1) == (0u8, halted)
        }),
{
}

/// A step takes no cycles exactly when it leaves the machine halted: every
/// instruction but the halting one takes at least two.
pub proof fn lemma_only_a_halt_is_free<B: Bus>(m: Machine<B::V>)
    ensures
        step::<B>(m).0 == 0 <==> (m.halted || next_instruction::<B>(m).mnemonic == Mnemonic::JAM),
        step::<B>(m).0 == 0 ==> step::<B>(m).1.halted,
        step::<B>(m).0 != 0 ==> 2 <= step::<B>(m).0 <= 8,
{
}

/// What an instruction costs. One that is no branch takes its base cycles,
/// and one more only if it reads through an indexed mode and the index
/// takes the address out of the page of its base. Stores and
/// read-modify-write instructions never pay: their base count has the
/// cycle in it.
pub proof fn lemma_page_crossing_costs_one_cycle<B: Bus>(m: Machine<B::V>)
    requires
        !m.halted,
        next_instruction::<B>(m).mnemonic.family() != Family::Branch,
    ensures
        ({
            let info = next_instruction::<B>(m);
            let crossed = next_operand::<B>(m).crossed;
            &&& step::<B>(m).0 == (if pays_page_penalty(info) && crossed {
                info.cycles + 1
            } else {
                info.cycles as int
            })
            &&& pays_page_penalty(info) <==> info.mnemonic.access() == Access::Read && (info.mode
                == AddressMode::AbsoluteX || info.mode == AddressMode::AbsoluteY || info.mode
                == AddressMode::IndirectY)
            &&& crossed ==> info.mode == AddressMode::AbsoluteX || info.mode
                == AddressMode::AbsoluteY || info.mode == AddressMode::IndirectY
        }),
{
}

/// In the absolute indexed modes the address crosses a page exactly when
/// the page of base plus index is not the page of the base.
pub proof fn lemma_absolute_indexed_crossing<B: Bus>(m: Machine<B::V>)
    ensures
        ({
            let (lo, m1) = read::<B>(m, following(m.pc, 1));
            let (hi, m2) = read::<B>(m1, following(m.pc, 2));
            let base = word(lo, hi);
            &&& resolve::<B>(m, AddressMode::AbsoluteX).crossed == (base + m.idx < 0x10000 && (base
                + m.idx) / 256 != base / 256 || base + m.idx >= 0x10000 && (base + m.idx
                - 0x10000) / 256 != base / 256)
            &&& resolve::<B>(m, AddressMode::AbsoluteX).operand == Operand::Memory(
                (if base + m.idx < 0x10000 {
                    base + m.idx
                } else {
                    base + m.idx - 0x10000
                }) as u16,
            )
        }),
{
    reveal(following);
}

/// What a branch costs: two cycles when it is not taken, three when it is
/// taken to the page of the instruction after it, four when it is taken to
/// another page.
pub proof fn lemma_branch_cycles<B: Bus>(m: Machine<B::V>)
    requires
        !m.halted,
        next_instruction::<B>(m).mnemonic.family() == Family::Branch,
    ensures
        ({
            let info = next_instruction::<B>(m);
            let next = following(m.pc, 2);
            let target = branch_target(next, read::<B>(read::<B>(m, m.pc).1, following(m.pc, 1)).0);
            let taken = branch_taken(info.mnemonic, m.status);
            &&& info.mode == AddressMode::Relative
            &&& step::<B>(m).0 == (if !taken {
                2int
            } else if page(target) == page(next) {
                3int
            } else {
                4int
            })
            &&& step::<B>(m).1.pc == (if taken {
                target
            } else {
                next
            })
        }),
{
    let opcode = next_opcode::<B>(m);
    lemma_branches_are_relative(opcode);
}

/// Every branch opcode has the relative mode, two bytes and two base
/// cycles.
pub proof fn lemma_branches_are_relative(opcode: u8)
    requires
        opcode_info(opcode).mnemonic.family() == Family::Branch,
    ensures
        opcode_info(opcode).mode == AddressMode::Relative,
        opcode_info(opcode).bytes == 2,
        opcode_info(opcode).cycles == 2,
{
    reveal(crate::decoder::opcode_shape);
}

/// A run ends halted or over budget, and overshoots the budget by less
/// than one instruction.
pub proof fn lemma_run_stops<B: Bus>(m: Machine<B::V>, spent: nat, budget: nat)
    requires
        spent <= budget,
    ensures
        ({
            let (cycles, end) = run::<B>(m, spent, budget);
            &&& spent <= cycles <= budget + 8
            &&& end.halted || cycles > budget
        }),
    decreases budget - spent,
{
    lemma_only_a_halt_is_free::<B>(m);
    let (cycles, next) = step::<B>(m);
    if !(cycles == 0 || spent + cycles > budget) {
        lemma_run_stops::<B>(next, spent + cycles as nat, budget);
    }
}

/// A run of a halted machine changes nothing and counts nothing.
pub proof fn lemma_run_of_halted_machine<B: Bus>(m: Machine<B::V>, budget: nat)
    requires
        m.halted,
    ensures
        run::<B>(m, 0, budget) == (0nat, m),
{
}

/// After a reset the machine runs from the address that the reset vector
/// holds, low byte at `$FFFC` and high byte at `$FFFD`, whatever state it
/// was in.
pub proof fn lemma_reset_follows_vector<B: Bus>(m: Machine<B::V>)
    ensures
        ({
            let (lo, m1) = read::<B>(m, 0xFFFC);
            let (hi, m2) = read::<B>(m1, 0xFFFD);
            let after = crate::machine::reset::<B>(m);
            &&& after.pc == lo + 256 * hi
            &&& !after.halted
            &&& after.sp == 0xFD
            &&& after.status.interrupt_disable
            &&& after.bus == m2.bus
            &&& after.ac == m.ac && after.idx == m.idx && after.idy == m.idy
        }),
{
    reveal(following);
    reveal(word);
}

/// Loading an image into flat memory puts byte `i` of the image at
/// `origin + i` and leaves every other cell as it was.
pub proof fn lemma_load_places_bytes(memory: Seq<u8>, bytes: Seq<u8>, origin: u16)
    requires
        memory.len() == ADDRESS_SPACE,
        origin + bytes.len() <= ADDRESS_SPACE,
    ensures
        poked::<FlatMemory>(memory, bytes, origin).len() == ADDRESS_SPACE,
        forall|i: int|
            0 <= i < ADDRESS_SPACE ==> #[trigger] poked::<FlatMemory>(memory, bytes, origin)[i]
                == (if origin <= i < origin + bytes.len() {
                bytes[i - origin]
            } else {
                memory[i]
            }),
    decreases bytes.len(),
{
    if bytes.len() > 0 {
        lemma_load_places_bytes(memory, bytes.drop_last(), origin);
    }
}

/// On plain memory each combined operation leaves the machine as its two
/// halves do when they are executed one after the other on the same
/// operand.
pub proof fn lemma_combined_is_its_two_halves(m: Machine<Seq<u8>>, addr: u16)
    requires
        m.bus.len() == ADDRESS_SPACE,
    ensures
        ({
            let cell = Operand::Memory(addr);
            &&& combined::<FlatMemory>(m, Mnemonic::SLO, cell) == logical::<FlatMemory>(
                shift::<FlatMemory>(m, Mnemonic::ASL, cell),
                Mnemonic::ORA,
                cell,
            )
            &&& combined::<FlatMemory>(m, Mnemonic::RLA, cell) == logical::<FlatMemory>(
                shift::<FlatMemory>(m, Mnemonic::ROL, cell),
                Mnemonic::AND,
                cell,
            )
            &&& combined::<FlatMemory>(m, Mnemonic::SRE, cell) == logical::<FlatMemory>(
                shift::<FlatMemory>(m, Mnemonic::LSR, cell),
                Mnemonic::EOR,
                cell,
            )
            &&& combined::<FlatMemory>(m, Mnemonic::RRA, cell) == arithmetic::<FlatMemory>(
                shift::<FlatMemory>(m, Mnemonic::ROR, cell),
                Mnemonic::ADC,
                cell,
            )
            &&& combined::<FlatMemory>(m, Mnemonic::DCP, cell) == arithmetic::<FlatMemory>(
                inc_dec::<FlatMemory>(m, Mnemonic::DEC, cell),
                Mnemonic::CMP,
                cell,
            )
            &&& combined::<FlatMemory>(m, Mnemonic::ISC, cell) == arithmetic::<FlatMemory>(
                inc_dec::<FlatMemory>(m, Mnemonic::INC, cell),
                Mnemonic::SBC,
                cell,
            )
            &&& combined::<FlatMemory>(m, Mnemonic::LAX, cell) == load_store::<FlatMemory>(
                load_store::<FlatMemory>(m, Mnemonic::LDA, cell),
                Mnemonic::LDX,
                cell,
            )
        }),
{
    reveal(operand_value);
    reveal(store_operand);
}

proof fn lemma_stack_arithmetic(sp: u8)
    ensures
        incremented(decremented(sp)) == sp,
        0x0100 <= stack_address(sp) <= 0x01FF,
        stack_address(decremented(sp)) != stack_address(sp),
        stack_address(decremented(decremented(sp))) != stack_address(sp),
{
    reveal(stack_address);
    reveal(decremented);
    reveal(incremented);
}

proof fn lemma_pull_top(x: Machine<Seq<u8>>, below: u8, data: u8)
    requires
        x.bus.len() == ADDRESS_SPACE,
        x.sp == decremented(below),
        x.bus[stack_address(below) as int] == data,
    ensures
        pull::<FlatMemory>(x) == (data, Machine { sp: below, ..x }),
{
    lemma_stack_arithmetic(below);
}

proof fn lemma_pull_word_top(x: Machine<Seq<u8>>, below: u8, value: u16)
    requires
        x.bus.len() == ADDRESS_SPACE,
        x.sp == decremented(decremented(below)),
        x.bus[stack_address(below) as int] == high_byte(value),
        x.bus[stack_address(decremented(below)) as int] == low_byte(value),
    ensures
        pull_word::<FlatMemory>(x) == (value, Machine { sp: below, ..x }),
{
    lemma_pull_top(x, decremented(below), low_byte(value));
    let after_lo = Machine { sp: decremented(below), ..x };
    lemma_pull_top(after_lo, below, high_byte(value));
    crate::addressing::lemma_word_round_trip(value, 0, 0);
}

proof fn lemma_push_word_stores(m: Machine<Seq<u8>>, value: u16)
    requires
        m.bus.len() == ADDRESS_SPACE,
    ensures
        ({
            let pushed = push_word::<FlatMemory>(m, value);
            &&& pushed == (Machine { sp: pushed.sp, bus: pushed.bus, ..m })
            &&& pushed.sp == decremented(decremented(m.sp))
            &&& pushed.bus.len() == ADDRESS_SPACE
            &&& pushed.bus[stack_address(m.sp) as int] == high_byte(value)
            &&& pushed.bus[stack_address(decremented(m.sp)) as int] == low_byte(value)
        }),
{
    lemma_stack_arithmetic(m.sp);
    lemma_stack_arithmetic(decremented(m.sp));
}

/// On plain memory a pull gives back what was pushed and the stack pointer
/// is where it was, wherever in the stack page it stood.
pub proof fn lemma_pull_returns_the_pushed_byte(m: Machine<Seq<u8>>, data: u8)
    requires
        m.bus.len() == ADDRESS_SPACE,
    ensures
        pull::<FlatMemory>(push::<FlatMemory>(m, data)).0 == data,
        pull::<FlatMemory>(push::<FlatMemory>(m, data)).1.sp == m.sp,
{
    lemma_stack_arithmetic(m.sp);
    lemma_pull_top(push::<FlatMemory>(m, data), m.sp, data);
}

/// On plain memory a call followed by a return continues behind the call:
/// the program counter is where it stood after the call was fetched, and
/// the stack pointer is where it was.
pub proof fn lemma_return_undoes_call(m: Machine<Seq<u8>>, target: u16)
    requires
        m.bus.len() == ADDRESS_SPACE,
    ensures
        ({
            let called = jump::<FlatMemory>(m, Mnemonic::JSR, Operand::Memory(target));
            let returned = jump::<FlatMemory>(called, Mnemonic::RTS, Operand::Implied);
            &&& called.pc == target
            &&& returned.pc == m.pc
            &&& returned.sp == m.sp
            &&& returned.status == m.status
        }),
{
    let called = jump::<FlatMemory>(m, Mnemonic::JSR, Operand::Memory(target));
    lemma_push_word_stores(m, preceding(m.pc));
    lemma_pull_word_top(called, m.sp, preceding(m.pc));
    assert(following(preceding(m.pc), 1) == m.pc) by {
        reveal(following);
        reveal(preceding);
    }
}

/// On plain memory a return from interrupt undoes an interrupt: the
/// program counter, the stack pointer and the flags are what they were when
/// the interrupt was taken, but for the break flag, which comes back as the
/// interrupt pushed it.
pub proof fn lemma_return_from_interrupt_undoes_interrupt(
    m: Machine<Seq<u8>>,
    vector: u16,
    software: bool,
)
    requires
        m.bus.len() == ADDRESS_SPACE,
    ensures
        ({
            let taken = interrupt::<FlatMemory>(m, vector, software, m.pc);
            let returned = system::<FlatMemory>(taken, Mnemonic::RTI, Operand::Implied);
            &&& taken.status.interrupt_disable
            &&& returned.pc == m.pc
            &&& returned.sp == m.sp
            &&& returned.status == (Flags { brk: software, ..m.status })
        }),
{
    let pushed_flags = Flags { brk: software, ..m.status };
    let with_pc = push_word::<FlatMemory>(m, m.pc);
    let saved = push::<FlatMemory>(with_pc, pushed_flags.byte());
    let taken = interrupt::<FlatMemory>(m, vector, software, m.pc);
    lemma_push_word_stores(m, m.pc);
    lemma_stack_arithmetic(m.sp);
    lemma_stack_arithmetic(decremented(m.sp));
    lemma_stack_arithmetic(with_pc.sp);
    assert(taken.bus == saved.bus && taken.sp == saved.sp);
    lemma_pull_top(taken, with_pc.sp, pushed_flags.byte());
    let after_flags = Machine { sp: with_pc.sp, ..taken };
    lemma_pull_word_top(after_flags, m.sp, m.pc);
    crate::flags::lemma_flags_round_trip(pushed_flags);
}

} // verus!
