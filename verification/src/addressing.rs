//! The arithmetic of addresses: little-endian words, pages of 256 bytes,
//! indexing with and without wraparound, and branch displacements.
//!
//! Most definitions are opaque, so that proofs about the machine do not
//! unfold them: a proof that needs one reveals it.

use vstd::prelude::*;
use crate::alu::signed;

verus! {

/// First address of the stack page.
pub const STACK_BASE: u16 = 0x0100;

/// Where the two-byte vector of the non-maskable interrupt lies.
pub const NMI_VECTOR: u16 = 0xFFFA;

/// Where the two-byte reset vector lies.
pub const RESET_VECTOR: u16 = 0xFFFC;

/// Where the two-byte vector of the maskable interrupt and of `BRK` lies.
pub const IRQ_VECTOR: u16 = 0xFFFE;

/// The 16-bit number with low byte `lo` and high byte `hi`.
#[verifier::opaque]
pub open spec fn word(lo: u8, hi: u8) -> u16 {
    (lo + 256 * hi) as u16
}

/// The low byte of a 16-bit number.
#[verifier::opaque]
pub open spec fn low_byte(value: u16) -> u8 {
    (value % 256) as u8
}

/// The high byte of a 16-bit number.
#[verifier::opaque]
pub open spec fn high_byte(value: u16) -> u8 {
    (value / 256) as u8
}

/// The page of an address: which block of 256 bytes it lies in.
pub open spec fn page(addr: u16) -> int {
    addr as int / 256
}

/// The address `distance` bytes after `addr`, wrapping at the end of the
/// address space.
#[verifier::opaque]
pub open spec fn following(addr: u16, distance: u8) -> u16 {
    ((addr + distance) % 0x10000) as u16
}

/// The address before `addr`, wrapping at the start of the address space.
#[verifier::opaque]
pub open spec fn preceding(addr: u16) -> u16 {
    ((addr - 1) % 0x10000) as u16
}

/// A 16-bit base plus an index register, in full 16-bit arithmetic.
pub open spec fn indexed(base: u16, index: u8) -> u16 {
    following(base, index)
}

/// Whether adding the index takes the address out of the base's page.
pub open spec fn crosses_page(base: u16, index: u8) -> bool {
    page(indexed(base, index)) != page(base)
}

/// A zero-page base plus an index register: the sum wraps within page 0.
#[verifier::opaque]
pub open spec fn zero_page_indexed(base: u8, index: u8) -> u8 {
    ((base + index) % 256) as u8
}

/// The address after `addr` within the same page: after the last byte of a
/// page comes the first byte of that page, not of the next. The indirect
/// jump fetches the high byte of its target from there.
#[verifier::opaque]
pub open spec fn next_in_page(addr: u16) -> u16 {
    (256 * page(addr) + (addr + 1) % 256) as u16
}

/// Where a taken branch goes: `next`, the address of the instruction after
/// the branch, plus the displacement read as a signed byte.
#[verifier::opaque]
pub open spec fn branch_target(next: u16, displacement: u8) -> u16 {
    ((next + signed(displacement)) % 0x10000) as u16
}

/// The cell of the stack page that the stack pointer names.
#[verifier::opaque]
pub open spec fn stack_address(sp: u8) -> u16 {
    (STACK_BASE + sp) as u16
}

/// Joins two bytes into a little-endian word.
pub fn make_word(lo: u8, hi: u8) -> (value: u16)
    ensures
        value == word(lo, hi),
{
    proof {
        reveal(word);
    }
    (hi as u16) * 256 + lo as u16
}

/// The low byte of a word.
pub fn low(value: u16) -> (byte: u8)
    ensures
        byte == low_byte(value),
{
    proof {
        reveal(low_byte);
    }
    (value % 256) as u8
}

/// The high byte of a word.
pub fn high(value: u16) -> (byte: u8)
    ensures
        byte == high_byte(value),
{
    proof {
        reveal(high_byte);
    }
    (value / 256) as u8
}

/// The address `distance` bytes after `addr`, wrapping at the end of the
/// address space.
pub fn advance(addr: u16, distance: u8) -> (next: u16)
    ensures
        next == following(addr, distance),
{
    proof {
        reveal(following);
    }
    addr.wrapping_add(distance as u16)
}

/// The address before `addr`, wrapping at the start of the address space.
pub fn retreat(addr: u16) -> (before: u16)
    ensures
        before == preceding(addr),
{
    proof {
        reveal(preceding);
    }
    addr.wrapping_sub(1)
}

/// Adds an index register to a 16-bit base and tells whether the sum left
/// the base's page.
pub fn index_address(base: u16, index: u8) -> (result: (u16, bool))
    ensures
        result.0 == indexed(base, index),
        result.1 == crosses_page(base, index),
{
    proof {
        reveal(following);
    }
    let addr = base.wrapping_add(index as u16);
    (addr, addr / 256 != base / 256)
}

/// Adds an index register to a zero-page base, wrapping within page 0.
pub fn index_zero_page(base: u8, index: u8) -> (addr: u8)
    ensures
        addr == zero_page_indexed(base, index),
{
    proof {
        reveal(zero_page_indexed);
    }
    base.wrapping_add(index)
}

/// The address after `addr` within the same page.
pub fn step_in_page(addr: u16) -> (next: u16)
    ensures
        next == next_in_page(addr),
{
    proof {
        reveal(next_in_page);
    }
    if addr % 256 == 255 {
        addr - 255
    } else {
        addr + 1
    }
}

/// The target of a taken branch.
pub fn branch_to(next: u16, displacement: u8) -> (target: u16)
    ensures
        target == branch_target(next, displacement),
{
    proof {
        reveal(branch_target);
    }
    if displacement < 0x80 {
        next.wrapping_add(displacement as u16)
    } else {
        next.wrapping_sub(0x100 - displacement as u16)
    }
}

/// The cell of the stack page that the stack pointer names.
pub fn stack_cell(sp: u8) -> (addr: u16)
    ensures
        addr == stack_address(sp),
{
    proof {
        reveal(stack_address);
    }
    STACK_BASE + sp as u16
}

/// Splitting a word and joining its bytes gives the word back, and the
/// other way round.
pub proof fn lemma_word_round_trip(value: u16, lo: u8, hi: u8)
    ensures
        word(low_byte(value), high_byte(value)) == value,
        low_byte(word(lo, hi)) == lo,
        high_byte(word(lo, hi)) == hi,
{
    reveal(word);
    reveal(low_byte);
    reveal(high_byte);
}

/// A zero-page address with an index added is still in page 0: the sum
/// wraps instead of carrying into page 1.
pub proof fn lemma_zero_page_indexed_stays_in_page_zero(base: u8, index: u8)
    ensures
        (zero_page_indexed(base, index) as u16) < 0x0100,
        base + index < 256 ==> zero_page_indexed(base, index) == base + index,
        base + index >= 256 ==> zero_page_indexed(base, index) == base + index - 256,
{
    reveal(zero_page_indexed);
}

/// An indexed address leaves the base's page exactly when the low byte of
/// the base plus the index does not fit in a byte, as long as the sum stays
/// inside the address space.
pub proof fn lemma_page_crossing(base: u16, index: u8)
    requires
        base + index < 0x10000,
    ensures
        crosses_page(base, index) <==> low_byte(base) + index > 255,
{
    reveal(following);
    reveal(low_byte);
}

/// The successor within a page has the page of its argument, and differs
/// from the plain successor only at the last byte of a page.
pub proof fn lemma_next_in_page(addr: u16)
    ensures
        page(next_in_page(addr)) == page(addr),
        low_byte(addr) != 255 ==> next_in_page(addr) == addr + 1,
        low_byte(addr) == 255 ==> next_in_page(addr) == addr - 255,
{
    reveal(next_in_page);
    reveal(low_byte);
}

/// Every stack pointer names a cell of page 1.
pub proof fn lemma_stack_stays_in_page_one(sp: u8)
    ensures
        page(stack_address(sp)) == 1,
        0x0100 <= stack_address(sp) <= 0x01FF,
{
    reveal(stack_address);
}

} // verus!
