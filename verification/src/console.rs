//! The console put together: a processor on the system bus, with the
//! program of a cartridge in place and the reset done.

use vstd::prelude::*;
use crate::apu::APU;
use crate::cpu::CPU;
use crate::flags::Flags;
use crate::machine;
use crate::machine::Machine;
use crate::ppu::PpuState;
use crate::rom::{extract_program, program_of, RomError};
use crate::system::{SystemBus, SystemState, RAM_SIZE};

verus! {

/// The console at power-on with a program image in place, before the
/// reset: every register zero, memory zeroed, both units at power-on.
pub open spec fn with_program(program: Seq<u8>) -> Machine<SystemState> {
    Machine {
        pc: 0,
        sp: 0,
        ac: 0,
        idx: 0,
        idy: 0,
        status: Flags::cleared(),
        halted: false,
        bus: SystemState {
            ram: Seq::new(RAM_SIZE as nat, |i: int| 0u8),
            ppu: PpuState::power_on(),
            apu: APU::power_on(),
            program,
            last: 0,
        },
    }
}

/// Builds the console around the program that a container holds and resets
/// it, so that the next step executes the first instruction of the program.
/// A container that is not taken leaves no console.
pub fn power_on(container: &[u8]) -> (result: Result<CPU<SystemBus>, RomError>)
    ensures
        match result {
            Ok(cpu) => {
                &&& cpu.wf()
                &&& program_of(container@) matches Ok(program)
                &&& cpu@ == machine::reset::<SystemBus>(with_program(program))
            },
            Err(error) => program_of(container@) == Err::<Seq<u8>, RomError>(error),
        },
{
    match extract_program(container) {
        Ok(program) => {
            let mut bus = SystemBus::new();
            bus.insert_cartridge(program);
            let mut cpu = CPU::with_bus(bus);
            let _ = cpu.reset();
            Ok(cpu)
        },
        Err(error) => Err(error),
    }
}

} // verus!
