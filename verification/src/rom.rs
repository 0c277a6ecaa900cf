//! The container that program images come in: a header of sixteen bytes,
//! then the program memory. Only the fixed mapping is taken: one or two
//! banks of program memory and mapper zero.

use vstd::prelude::*;
use vstd::slice::{slice_subrange, slice_to_vec};
use crate::system::BANK_SIZE;

verus! {

/// Length of the header.
pub const HEADER_SIZE: usize = 16;

/// The most banks of program memory that the fixed mapping takes.
pub const MAX_BANKS: u8 = 2;

/// Why a container was not taken.
#[derive(Copy, Clone, Debug, PartialEq, Eq, Structural)]
pub enum RomError {
    /// The header is short or does not start with the four magic bytes, or
    /// it announces no program memory or more than the container holds.
    Malformed,
    /// The container asks for a mapper other than the fixed mapping.
    UnsupportedMapper(u8),
    /// The container holds more banks of program memory than the fixed
    /// mapping takes.
    Oversized(u8),
}

/// Whether the container starts with a whole header: sixteen bytes, of
/// which the first four are `N`, `E`, `S` and `$1A`.
pub open spec fn has_header(bytes: Seq<u8>) -> bool {
    &&& bytes.len() >= HEADER_SIZE
    &&& bytes[0] == 0x4E
    &&& bytes[1] == 0x45
    &&& bytes[2] == 0x53
    &&& bytes[3] == 0x1A
}

/// The mapper that the header asks for: its low four bits are the high
/// four of byte 6, its high four those of byte 7.
pub open spec fn mapper_of(bytes: Seq<u8>) -> u8 {
    (bytes[7] & 0xF0) | (bytes[6] >> 4)
}

/// The banks of program memory that the header announces.
pub open spec fn banks_of(bytes: Seq<u8>) -> u8 {
    bytes[4]
}

/// Where the program memory ends in the container.
pub open spec fn program_end(bytes: Seq<u8>) -> int {
    HEADER_SIZE + banks_of(bytes) * BANK_SIZE
}

/// What a container yields: its program memory, or the first reason in
/// this order why it is not taken: a bad header, a mapper other than zero,
/// too many banks, no bank at all or fewer bytes than announced.
pub open spec fn program_of(bytes: Seq<u8>) -> Result<Seq<u8>, RomError> {
    if !has_header(bytes) {
        Err(RomError::Malformed)
    } else if mapper_of(bytes) != 0 {
        Err(RomError::UnsupportedMapper(mapper_of(bytes)))
    } else if banks_of(bytes) > MAX_BANKS {
        Err(RomError::Oversized(banks_of(bytes)))
    } else if banks_of(bytes) == 0 || bytes.len() < program_end(bytes) {
        Err(RomError::Malformed)
    } else {
        Ok(bytes.subrange(HEADER_SIZE as int, program_end(bytes)))
    }
}

/// Takes the program memory out of a container.
pub fn extract_program(bytes: &[u8]) -> (result: Result<Vec<u8>, RomError>)
    ensures
        match result {
            Ok(program) => program_of(bytes@) == Ok::<Seq<u8>, RomError>(program@),
            Err(error) => program_of(bytes@) == Err::<Seq<u8>, RomError>(error),
        },
{
    if bytes.len() < HEADER_SIZE || bytes[0] != 0x4E || bytes[1] != 0x45 || bytes[2] != 0x53
        || bytes[3] != 0x1A {
        return Err(RomError::Malformed);
    }
    let mapper = (bytes[7] & 0xF0) | (bytes[6] >> 4);
    if mapper != 0 {
        return Err(RomError::UnsupportedMapper(mapper));
    }
    let banks = bytes[4];
    if banks > MAX_BANKS {
        return Err(RomError::Oversized(banks));
    }
    let end = HEADER_SIZE + banks as usize * BANK_SIZE;
    if banks == 0 || bytes.len() < end {
        return Err(RomError::Malformed);
    }
    Ok(slice_to_vec(slice_subrange(bytes, HEADER_SIZE, end)))
}

/// A program image that was taken out of a container fits the fixed
/// mapping: it is one bank long or two.
pub proof fn lemma_program_fits_fixed_mapping(bytes: Seq<u8>)
    requires
        program_of(bytes) is Ok,
    ensures
        crate::system::fits_fixed_mapping(program_of(bytes)->Ok_0),
{
}

} // verus!
