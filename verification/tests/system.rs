use nes_core::bus::Bus;
use nes_core::console::power_on;
use nes_core::cpu::CPU;
use nes_core::rom::{extract_program, RomError};
use nes_core::system::{Region, SystemBus};

fn container(banks: u8, flags6: u8, flags7: u8, program: &[u8]) -> Vec<u8> {
    let mut bytes = vec![0x4E, 0x45, 0x53, 0x1A, banks, 0x01, flags6, flags7];
    bytes.extend_from_slice(&[0u8; 8]);
    bytes.extend_from_slice(program);
    bytes
}

/// One bank whose byte at offset `i` is `i` modulo 251, with the reset
/// vector pointing at `$8000`.
fn one_bank() -> Vec<u8> {
    let mut program: Vec<u8> = (0..0x4000usize).map(|i| (i % 251) as u8).collect();
    program[0x3FFC] = 0x00;
    program[0x3FFD] = 0x80;
    program
}

#[test]
fn addresses_resolve_to_their_regions() {
    let mut bus = SystemBus::new();
    assert_eq!(bus.region(0x0000), Region::Ram(0x0000));
    assert_eq!(bus.region(0x07FF), Region::Ram(0x07FF));
    assert_eq!(bus.region(0x0800), Region::Ram(0x0000));
    assert_eq!(bus.region(0x1FFF), Region::Ram(0x07FF));
    assert_eq!(bus.region(0x2000), Region::Video(0));
    assert_eq!(bus.region(0x2007), Region::Video(7));
    assert_eq!(bus.region(0x3FFA), Region::Video(2));
    assert_eq!(bus.region(0x4000), Region::Audio(0x4000));
    assert_eq!(bus.region(0x4017), Region::Audio(0x4017));
    assert_eq!(bus.region(0x4018), Region::Open);
    assert_eq!(bus.region(0x4020), Region::Open);
    assert_eq!(bus.region(0x7FFF), Region::Open);
    assert_eq!(bus.region(0x8000), Region::Open);
    assert_eq!(bus.region(0xFFFF), Region::Open);
    bus.insert_cartridge(one_bank());
    assert_eq!(bus.region(0x8000), Region::Program(0x0000));
    assert_eq!(bus.region(0xBFFF), Region::Program(0x3FFF));
    assert_eq!(bus.region(0xC000), Region::Program(0x0000));
    assert_eq!(bus.region(0xFFFF), Region::Program(0x3FFF));
    assert_eq!(bus.region(0x7FFF), Region::Open);
    let mut two = one_bank();
    two.extend(one_bank());
    bus.insert_cartridge(two);
    assert_eq!(bus.region(0xC000), Region::Program(0x4000));
    assert_eq!(bus.region(0xFFFF), Region::Program(0x7FFF));
}

#[test]
fn system_memory_shows_four_times() {
    let mut bus = SystemBus::new();
    bus.write(0x0001, 0xAB);
    assert_eq!(bus.read(0x0001), 0xAB);
    assert_eq!(bus.read(0x0801), 0xAB);
    assert_eq!(bus.read(0x1001), 0xAB);
    assert_eq!(bus.read(0x1801), 0xAB);
    assert_eq!(bus.read(0x0002), 0x00);
    bus.write(0x1FFF, 0xCD);
    assert_eq!(bus.read(0x07FF), 0xCD);
}

#[test]
fn one_bank_of_program_shows_twice() {
    let mut bus = SystemBus::new();
    bus.insert_cartridge(one_bank());
    assert_eq!(bus.read(0x8005), 5);
    assert_eq!(bus.read(0xC005), 5);
    assert_eq!(bus.read(0xBFFB), (0x3FFBusize % 251) as u8);
    assert_eq!(bus.read(0xFFFB), (0x3FFBusize % 251) as u8);
    bus.write(0x8005, 0xEE);
    assert_eq!(bus.read(0xC005), 0xEE);
}

#[test]
fn two_banks_of_program_fill_the_space() {
    let mut program = one_bank();
    program.extend(vec![0x77u8; 0x4000]);
    let mut bus = SystemBus::new();
    bus.insert_cartridge(program);
    assert_eq!(bus.read(0x8005), 5);
    assert_eq!(bus.read(0xC005), 0x77);
    assert_eq!(bus.read(0xFFFF), 0x77);
}

#[test]
fn open_bus_returns_the_last_byte() {
    let mut bus = SystemBus::new();
    assert_eq!(bus.read(0x5000), 0x00);
    bus.write(0x0010, 0x42);
    assert_eq!(bus.read(0x5000), 0x42);
    assert_eq!(bus.read(0x4018), 0x42);
    assert_eq!(bus.read(0x9000), 0x42);
    bus.write(0x0011, 0x17);
    bus.read(0x0010);
    assert_eq!(bus.read(0x6000), 0x42);
    bus.write(0x5000, 0x99);
    assert_eq!(bus.read(0x5001), 0x99);
    assert_eq!(bus.read(0x0010), 0x42);
}

#[test]
fn video_registers_repeat_through_their_window() {
    let mut bus = SystemBus::new();
    // address $0005 through a mirror of the address register, data through another
    bus.write(0x3FFE, 0x00);
    bus.write(0x2006, 0x05);
    bus.write(0x200F, 0xA5);
    bus.write(0x2006, 0x00);
    bus.write(0x2006, 0x05);
    assert_eq!(bus.read(0x2007), 0x00);
    assert_eq!(bus.read(0x3FFF), 0xA5);
}

#[test]
fn audio_registers_take_writes() {
    let mut bus = SystemBus::new();
    bus.write(0x4015, 0x1F);
    bus.write(0x4017, 0x40);
    bus.write(0x4000, 0xFF);
    assert_eq!(bus.read(0x4015), 0x1F);
    assert_eq!(bus.apu.frame_counter(), 0x40);
    assert_eq!(bus.read(0x4000), 0x00);
    assert_eq!(bus.read(0x4017), 0x00);
}

#[test]
fn poke_goes_around_the_peripherals() {
    let mut bus = SystemBus::new();
    bus.insert_cartridge(one_bank());
    bus.write(0x0000, 0x11);
    bus.poke(0x0801, 0x22);
    bus.poke(0x2006, 0x33);
    bus.poke(0x4015, 0x44);
    bus.poke(0x5000, 0x55);
    bus.poke(0xC010, 0x66);
    assert_eq!(bus.read(0x5000), 0x11);
    assert_eq!(bus.read(0x0001), 0x22);
    assert_eq!(bus.read(0x4015), 0x00);
    assert_eq!(bus.read(0x8010), 0x66);
    // the address register saw nothing: the pair below starts afresh
    bus.write(0x2006, 0x00);
    bus.write(0x2006, 0x00);
    bus.write(0x2007, 0x77);
    bus.write(0x2006, 0x00);
    bus.write(0x2006, 0x00);
    bus.read(0x2007);
    assert_eq!(bus.read(0x2007), 0x77);
}

#[test]
fn processor_runs_a_program_from_the_cartridge() {
    // LDA #$2A; STA $0002; STA $0802; LDA $1002; TAX; JAM
    let code = [0xA9, 0x2A, 0x8D, 0x02, 0x00, 0x8D, 0x03, 0x08, 0xAD, 0x02, 0x10, 0xAA, 0x02];
    let mut program = vec![0xEAu8; 0x4000];
    program[..code.len()].copy_from_slice(&code);
    program[0x3FFC] = 0x00;
    program[0x3FFD] = 0xC0;
    let mut bus = SystemBus::new();
    bus.insert_cartridge(program);
    let mut cpu = CPU::with_bus(bus);
    cpu.reset();
    assert_eq!(cpu.pc, 0xC000);
    let cycles = cpu.run(1_000);
    assert!(cpu.halted);
    assert_eq!(cycles, 2 + 4 + 4 + 4 + 2);
    assert_eq!(cpu.idx, 0x2A);
    assert_eq!(cpu.bus.read(0x1803), 0x2A);
    assert_eq!(cpu.pc, 0xC00C);
}

#[test]
fn load_on_the_console_fills_memory_only() {
    let mut bus = SystemBus::new();
    bus.insert_cartridge(vec![0u8; 0x8000]);
    let mut cpu = CPU::with_bus(bus);
    cpu.load(&[1, 2, 3, 4], 0x1FFE);
    assert_eq!(cpu.bus.read(0x07FE), 1);
    assert_eq!(cpu.bus.read(0x07FF), 2);
    cpu.load(&[9, 8], 0xFFFE);
    assert_eq!(cpu.bus.read(0xFFFE), 9);
    assert_eq!(cpu.bus.read(0xFFFF), 8);
    assert_eq!((cpu.pc, cpu.sp, cpu.ac), (0, 0, 0));
}

#[test]
fn container_yields_its_program() {
    let program = one_bank();
    let bytes = container(1, 0x00, 0x00, &program);
    assert_eq!(extract_program(&bytes), Ok(program.clone()));
    let mut two = program.clone();
    two.extend(vec![0x33u8; 0x4000]);
    let mut bytes = container(2, 0x01, 0x00, &two);
    bytes.extend_from_slice(&[0xFF; 100]);
    assert_eq!(extract_program(&bytes), Ok(two));
}

#[test]
fn container_with_a_bad_header_is_malformed() {
    assert_eq!(extract_program(&[]), Err(RomError::Malformed));
    assert_eq!(extract_program(&[0x4E, 0x45, 0x53, 0x1A, 1]), Err(RomError::Malformed));
    let mut bytes = container(1, 0, 0, &one_bank());
    bytes[3] = 0x1B;
    assert_eq!(extract_program(&bytes), Err(RomError::Malformed));
    let mut bytes = container(1, 0, 0, &one_bank());
    bytes[0] = 0x4F;
    assert_eq!(extract_program(&bytes), Err(RomError::Malformed));
}

#[test]
fn container_that_is_cut_short_is_malformed() {
    let bytes = container(1, 0, 0, &one_bank()[..0x3FFF]);
    assert_eq!(extract_program(&bytes), Err(RomError::Malformed));
    let bytes = container(2, 0, 0, &one_bank());
    assert_eq!(extract_program(&bytes), Err(RomError::Malformed));
    let bytes = container(0, 0, 0, &one_bank());
    assert_eq!(extract_program(&bytes), Err(RomError::Malformed));
}

#[test]
fn container_with_another_mapper_is_refused() {
    let bytes = container(1, 0x10, 0x00, &one_bank());
    assert_eq!(extract_program(&bytes), Err(RomError::UnsupportedMapper(1)));
    let bytes = container(1, 0x40, 0x20, &one_bank());
    assert_eq!(extract_program(&bytes), Err(RomError::UnsupportedMapper(0x24)));
    // the mapper is reported before the size
    let bytes = container(8, 0x1F, 0x0F, &one_bank());
    assert_eq!(extract_program(&bytes), Err(RomError::UnsupportedMapper(1)));
    // the low bits of byte 6 and of byte 7 are no part of the mapper
    let bytes = container(1, 0x0F, 0x0F, &one_bank());
    assert!(extract_program(&bytes).is_ok());
}

#[test]
fn container_with_too_many_banks_is_oversized() {
    let bytes = container(3, 0x00, 0x00, &one_bank());
    assert_eq!(extract_program(&bytes), Err(RomError::Oversized(3)));
    let bytes = container(255, 0x00, 0x00, &[]);
    assert_eq!(extract_program(&bytes), Err(RomError::Oversized(255)));
}

#[test]
fn console_powers_on_at_the_reset_vector() {
    let bytes = container(1, 0, 0, &one_bank());
    let mut cpu = match power_on(&bytes) {
        Ok(cpu) => cpu,
        Err(error) => panic!("not taken: {:?}", error),
    };
    assert_eq!(cpu.pc, 0x8000);
    assert_eq!(cpu.sp, 0xFD);
    assert_eq!(cpu.status.to_byte(), 0x24);
    assert!(!cpu.halted);
    assert_eq!(cpu.bus.read(0x8003), 3);
    assert!(matches!(power_on(&bytes[..20]), Err(RomError::Malformed)));
    let refused = container(1, 0xF0, 0x00, &one_bank());
    assert!(matches!(power_on(&refused), Err(RomError::UnsupportedMapper(15))));
}
