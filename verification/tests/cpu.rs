use nes_core::bus::{Bus, FlatMemory};
use nes_core::cpu::CPU;
use nes_core::flags::Flags;

/// A processor on flat memory with `program` at `$8000` and the program
/// counter on its first byte.
fn machine(program: &[u8]) -> CPU<FlatMemory> {
    let mut cpu = CPU::new();
    cpu.load(program, 0x8000);
    cpu.pc = 0x8000;
    cpu.sp = 0xFD;
    cpu
}

fn registers(cpu: &CPU<FlatMemory>) -> (u16, u8, u8, u8, u8, Flags, bool) {
    (cpu.pc, cpu.sp, cpu.ac, cpu.idx, cpu.idy, cpu.status, cpu.halted)
}

#[test]
fn power_on_state_is_all_zero() {
    let cpu = CPU::new();
    assert_eq!(registers(&cpu), (0, 0, 0, 0, 0, Flags::new(), false));
    assert_eq!(cpu.bus.peek(0x0000), 0);
    assert_eq!(cpu.bus.peek(0xFFFF), 0);
}

#[test]
fn load_places_the_image_and_nothing_else() {
    let mut cpu = CPU::new();
    cpu.load(&[1, 2, 3], 0xFFFD);
    assert_eq!(cpu.bus.peek(0xFFFC), 0);
    assert_eq!(cpu.bus.peek(0xFFFD), 1);
    assert_eq!(cpu.bus.peek(0xFFFE), 2);
    assert_eq!(cpu.bus.peek(0xFFFF), 3);
    assert_eq!(cpu.bus.peek(0x0000), 0);
    assert_eq!(registers(&cpu), (0, 0, 0, 0, 0, Flags::new(), false));
    cpu.load(&[], 0x1234);
    assert_eq!(cpu.bus.peek(0x1234), 0);
}

#[test]
fn reset_loads_the_program_counter_from_the_vector() {
    let mut cpu = CPU::new();
    cpu.load(&[0x00, 0x80], 0xFFFC);
    cpu.ac = 0x11;
    cpu.idx = 0x22;
    cpu.idy = 0x33;
    cpu.status.carry = true;
    cpu.halted = true;
    cpu.reset();
    assert_eq!(cpu.pc, 0x8000);
    assert_eq!(cpu.sp, 0xFD);
    assert_eq!(cpu.status.to_byte(), 0x24);
    assert!(!cpu.halted);
    assert_eq!((cpu.ac, cpu.idx, cpu.idy), (0x11, 0x22, 0x33));
}

#[test]
fn loads_set_negative_and_zero() {
    // LDA #$00; LDX #$80; LDY #$7F
    let mut cpu = machine(&[0xA9, 0x00, 0xA2, 0x80, 0xA0, 0x7F]);
    assert_eq!(cpu.step(), 2);
    assert!(cpu.status.zero && !cpu.status.negative);
    assert_eq!(cpu.step(), 2);
    assert_eq!(cpu.idx, 0x80);
    assert!(!cpu.status.zero && cpu.status.negative);
    assert_eq!(cpu.step(), 2);
    assert_eq!(cpu.idy, 0x7F);
    assert!(!cpu.status.zero && !cpu.status.negative);
    assert_eq!(cpu.pc, 0x8006);
}

#[test]
fn stores_change_no_flag() {
    // STA $0200; STX $10; STY $11,X
    let mut cpu = machine(&[0x8D, 0x00, 0x02, 0x86, 0x10, 0x94, 0x11]);
    cpu.ac = 0x00;
    cpu.idx = 0x05;
    cpu.idy = 0x80;
    let flags = cpu.status;
    assert_eq!(cpu.step(), 4);
    assert_eq!(cpu.step(), 3);
    assert_eq!(cpu.step(), 4);
    assert_eq!(cpu.status, flags);
    assert_eq!(cpu.bus.peek(0x0200), 0x00);
    assert_eq!(cpu.bus.peek(0x0010), 0x05);
    assert_eq!(cpu.bus.peek(0x0016), 0x80);
}

#[test]
fn zero_page_index_wraps_within_page_zero() {
    // LDA $FF,X with X = 2 reads $01, not $0101
    let mut cpu = machine(&[0xB5, 0xFF]);
    cpu.load(&[0x42], 0x0001);
    cpu.load(&[0x99], 0x0101);
    cpu.idx = 0x02;
    assert_eq!(cpu.step(), 4);
    assert_eq!(cpu.ac, 0x42);
    // LDX $F0,Y with Y = $20 reads $10
    let mut cpu = machine(&[0xB6, 0xF0]);
    cpu.load(&[0x77], 0x0010);
    cpu.idy = 0x20;
    assert_eq!(cpu.step(), 4);
    assert_eq!(cpu.idx, 0x77);
}

#[test]
fn indirect_jump_wraps_within_the_page_of_its_pointer() {
    // JMP ($30FF)
    let mut cpu = machine(&[0x6C, 0xFF, 0x30]);
    cpu.load(&[0x00], 0x30FF);
    cpu.load(&[0x80], 0x3000);
    cpu.load(&[0xFF], 0x3100);
    assert_eq!(cpu.step(), 5);
    assert_eq!(cpu.pc, 0x8000);
    // a pointer inside a page reads its two bytes in a row
    let mut cpu = machine(&[0x6C, 0x10, 0x30]);
    cpu.load(&[0x34, 0x12], 0x3010);
    assert_eq!(cpu.step(), 5);
    assert_eq!(cpu.pc, 0x1234);
}

#[test]
fn indexed_read_pays_for_crossing_a_page() {
    // LDA $20F0,X
    let mut cpu = machine(&[0xBD, 0xF0, 0x20]);
    cpu.load(&[0x5A], 0x2110);
    cpu.idx = 0x20;
    assert_eq!(cpu.step(), 5);
    assert_eq!(cpu.ac, 0x5A);
    let mut cpu = machine(&[0xBD, 0xF0, 0x20]);
    cpu.load(&[0x5B], 0x20FF);
    cpu.idx = 0x0F;
    assert_eq!(cpu.step(), 4);
    assert_eq!(cpu.ac, 0x5B);
    // LDA $20F0,Y and LDA ($10),Y
    let mut cpu = machine(&[0xB9, 0xF0, 0x20, 0xB1, 0x10]);
    cpu.load(&[0xF0, 0x20], 0x0010);
    cpu.idy = 0x10;
    assert_eq!(cpu.step(), 5);
    assert_eq!(cpu.step(), 6);
    cpu.pc = 0x8003;
    cpu.idy = 0x01;
    assert_eq!(cpu.step(), 5);
}

#[test]
fn indexed_store_and_modify_pay_no_penalty() {
    // STA $20F0,X; INC $20F0,X; STA ($10),Y
    let mut cpu = machine(&[0x9D, 0xF0, 0x20, 0xFE, 0xF0, 0x20, 0x91, 0x10]);
    cpu.load(&[0xF0, 0x20], 0x0010);
    cpu.idx = 0x20;
    cpu.idy = 0x20;
    cpu.ac = 0x07;
    assert_eq!(cpu.step(), 5);
    assert_eq!(cpu.bus.peek(0x2110), 0x07);
    assert_eq!(cpu.step(), 7);
    assert_eq!(cpu.bus.peek(0x2110), 0x08);
    assert_eq!(cpu.step(), 6);
    cpu.pc = 0x8000;
    cpu.idx = 0x01;
    assert_eq!(cpu.step(), 5);
    assert_eq!(cpu.step(), 7);
}

#[test]
fn indirect_modes_read_their_pointers_from_page_zero() {
    // LDA ($FE,X) with X = 1: pointer at $FF and $00
    let mut cpu = machine(&[0xA1, 0xFE]);
    cpu.load(&[0x34], 0x00FF);
    cpu.load(&[0x12], 0x0000);
    cpu.load(&[0xAB], 0x1234);
    cpu.idx = 0x01;
    assert_eq!(cpu.step(), 6);
    assert_eq!(cpu.ac, 0xAB);
    // LDA ($FF),Y: pointer at $FF and $00
    let mut cpu = machine(&[0xB1, 0xFF]);
    cpu.load(&[0x34], 0x00FF);
    cpu.load(&[0x12], 0x0000);
    cpu.load(&[0xCD], 0x1238);
    cpu.idy = 0x04;
    assert_eq!(cpu.step(), 5);
    assert_eq!(cpu.ac, 0xCD);
}

#[test]
fn branch_cycles_depend_on_taking_and_page() {
    // BNE +$10, not taken
    let mut cpu = machine(&[0xD0, 0x10]);
    cpu.status.zero = true;
    assert_eq!(cpu.step(), 2);
    assert_eq!(cpu.pc, 0x8002);
    // taken within the page
    let mut cpu = machine(&[0xD0, 0x10]);
    assert_eq!(cpu.step(), 3);
    assert_eq!(cpu.pc, 0x8012);
    // taken backwards across the page boundary
    let mut cpu = machine(&[0xD0, 0xF0]);
    assert_eq!(cpu.step(), 4);
    assert_eq!(cpu.pc, 0x7FF2);
    // taken forwards across the page boundary
    let mut cpu = CPU::new();
    cpu.load(&[0xF0, 0x7F], 0x80F0);
    cpu.pc = 0x80F0;
    cpu.status.zero = true;
    assert_eq!(cpu.step(), 4);
    assert_eq!(cpu.pc, 0x8171);
}

#[test]
fn every_branch_tests_its_flag() {
    // opcode, flag byte that takes it, flag byte that does not
    let cases = [
        (0x90u8, 0x00u8, 0x01u8),
        (0xB0, 0x01, 0x00),
        (0xD0, 0x00, 0x02),
        (0xF0, 0x02, 0x00),
        (0x10, 0x00, 0x80),
        (0x30, 0x80, 0x00),
        (0x50, 0x00, 0x40),
        (0x70, 0x40, 0x00),
    ];
    for (opcode, taking, leaving) in cases {
        let mut cpu = machine(&[opcode, 0x04]);
        cpu.status = Flags::from_byte(taking);
        assert_eq!(cpu.step(), 3);
        assert_eq!(cpu.pc, 0x8006);
        let mut cpu = machine(&[opcode, 0x04]);
        cpu.status = Flags::from_byte(leaving);
        assert_eq!(cpu.step(), 2);
        assert_eq!(cpu.pc, 0x8002);
    }
}

#[test]
fn add_with_carry_sets_four_flags() {
    // ADC #$50
    let mut cpu = machine(&[0x69, 0x50]);
    cpu.ac = 0x50;
    assert_eq!(cpu.step(), 2);
    assert_eq!(cpu.ac, 0xA0);
    assert!(cpu.status.overflow && cpu.status.negative);
    assert!(!cpu.status.carry && !cpu.status.zero);
}

#[test]
fn decimal_flag_does_not_change_arithmetic() {
    // SED; ADC #$09; SBC #$01
    let mut cpu = machine(&[0xF8, 0x69, 0x09, 0xE9, 0x01]);
    cpu.ac = 0x09;
    assert_eq!(cpu.step(), 2);
    assert!(cpu.status.decimal);
    cpu.step();
    assert_eq!(cpu.ac, 0x12);
    cpu.status.carry = true;
    cpu.step();
    assert_eq!(cpu.ac, 0x11);
}

#[test]
fn subtract_and_compare() {
    // SEC; SBC #$30; CMP #$20; CPX #$05; CPY #$FF
    let mut cpu = machine(&[0x38, 0xE9, 0x30, 0xC9, 0x20, 0xE0, 0x05, 0xC0, 0xFF]);
    cpu.ac = 0x50;
    cpu.idx = 0x04;
    cpu.idy = 0xFF;
    cpu.step();
    cpu.step();
    assert_eq!(cpu.ac, 0x20);
    assert!(cpu.status.carry && !cpu.status.zero && !cpu.status.negative);
    cpu.step();
    assert!(cpu.status.carry && cpu.status.zero);
    assert_eq!(cpu.ac, 0x20);
    cpu.step();
    assert!(!cpu.status.carry && !cpu.status.zero && cpu.status.negative);
    cpu.step();
    assert!(cpu.status.carry && cpu.status.zero && !cpu.status.negative);
}

#[test]
fn logical_operations_and_bit_test() {
    // AND #$0F; ORA #$80; EOR #$FF; BIT $10
    let mut cpu = machine(&[0x29, 0x0F, 0x09, 0x80, 0x49, 0xFF, 0x24, 0x10]);
    cpu.load(&[0xC0], 0x0010);
    cpu.ac = 0x3C;
    cpu.step();
    assert_eq!(cpu.ac, 0x0C);
    cpu.step();
    assert_eq!(cpu.ac, 0x8C);
    assert!(cpu.status.negative);
    cpu.step();
    assert_eq!(cpu.ac, 0x73);
    assert!(!cpu.status.negative && !cpu.status.zero);
    assert_eq!(cpu.step(), 3);
    assert_eq!(cpu.ac, 0x73);
    assert!(cpu.status.negative && cpu.status.overflow && !cpu.status.zero);
    // a bit test whose conjunction is zero
    let mut cpu = machine(&[0x2C, 0x00, 0x02]);
    cpu.load(&[0x0F], 0x0200);
    cpu.ac = 0xF0;
    assert_eq!(cpu.step(), 4);
    assert!(cpu.status.zero && !cpu.status.negative && !cpu.status.overflow);
}

#[test]
fn increments_and_decrements_wrap_and_leave_carry() {
    // INX; DEY; INC $10; DEC $11
    let mut cpu = machine(&[0xE8, 0x88, 0xE6, 0x10, 0xC6, 0x11]);
    cpu.load(&[0x7F, 0x01], 0x0010);
    cpu.idx = 0xFF;
    cpu.idy = 0x00;
    cpu.status.carry = true;
    assert_eq!(cpu.step(), 2);
    assert_eq!(cpu.idx, 0x00);
    assert!(cpu.status.zero && cpu.status.carry);
    assert_eq!(cpu.step(), 2);
    assert_eq!(cpu.idy, 0xFF);
    assert!(cpu.status.negative && cpu.status.carry);
    assert_eq!(cpu.step(), 5);
    assert_eq!(cpu.bus.peek(0x0010), 0x80);
    assert!(cpu.status.negative);
    assert_eq!(cpu.step(), 5);
    assert_eq!(cpu.bus.peek(0x0011), 0x00);
    assert!(cpu.status.zero && cpu.status.carry);
}

#[test]
fn shifts_and_rotates_on_accumulator_and_memory() {
    // ASL A; ROL A; LSR $10; ROR $10
    let mut cpu = machine(&[0x0A, 0x2A, 0x46, 0x10, 0x66, 0x10]);
    cpu.load(&[0x03], 0x0010);
    cpu.ac = 0x81;
    assert_eq!(cpu.step(), 2);
    assert_eq!(cpu.ac, 0x02);
    assert!(cpu.status.carry);
    assert_eq!(cpu.step(), 2);
    assert_eq!(cpu.ac, 0x05);
    assert!(!cpu.status.carry);
    assert_eq!(cpu.step(), 5);
    assert_eq!(cpu.bus.peek(0x0010), 0x01);
    assert!(cpu.status.carry);
    assert_eq!(cpu.step(), 5);
    assert_eq!(cpu.bus.peek(0x0010), 0x80);
    assert!(cpu.status.carry && cpu.status.negative);
}

#[test]
fn transfers_set_flags_except_into_the_stack_pointer() {
    // TAX; TXS; TSX; TYA; TAY; TXA
    let mut cpu = machine(&[0xAA, 0x9A, 0xBA, 0x98, 0xA8, 0x8A]);
    cpu.ac = 0x00;
    cpu.idy = 0x80;
    cpu.step();
    assert_eq!(cpu.idx, 0x00);
    assert!(cpu.status.zero);
    let flags = cpu.status;
    cpu.idx = 0x80;
    cpu.step();
    assert_eq!(cpu.sp, 0x80);
    assert_eq!(cpu.status, flags);
    cpu.idx = 0;
    cpu.step();
    assert_eq!(cpu.idx, 0x80);
    assert!(cpu.status.negative && !cpu.status.zero);
    cpu.step();
    assert_eq!(cpu.ac, 0x80);
    cpu.ac = 0x01;
    cpu.step();
    assert_eq!(cpu.idy, 0x01);
    assert!(!cpu.status.negative);
    cpu.step();
    assert_eq!(cpu.ac, 0x80);
}

#[test]
fn push_wraps_within_the_stack_page() {
    // PHA with the stack pointer at $00
    let mut cpu = machine(&[0x48]);
    cpu.sp = 0x00;
    cpu.ac = 0x5A;
    cpu.load(&[0x11], 0x00FF);
    cpu.load(&[0x22], 0x0200);
    assert_eq!(cpu.step(), 3);
    assert_eq!(cpu.bus.peek(0x0100), 0x5A);
    assert_eq!(cpu.sp, 0xFF);
    assert_eq!(cpu.bus.peek(0x00FF), 0x11);
    assert_eq!(cpu.bus.peek(0x0200), 0x22);
}

#[test]
fn pull_wraps_within_the_stack_page() {
    // PLA with the stack pointer at $FF reads $0100
    let mut cpu = machine(&[0x68]);
    cpu.sp = 0xFF;
    cpu.load(&[0x80], 0x0100);
    cpu.load(&[0x01], 0x0200);
    assert_eq!(cpu.step(), 4);
    assert_eq!(cpu.ac, 0x80);
    assert_eq!(cpu.sp, 0x00);
    assert!(cpu.status.negative);
}

#[test]
fn status_goes_over_the_stack_with_the_break_bit() {
    // PHP; PLA; PHA; PLP
    let mut cpu = machine(&[0x08, 0x68, 0x48, 0x28]);
    cpu.status = Flags::from_byte(0xC1);
    assert_eq!(cpu.step(), 3);
    assert_eq!(cpu.bus.peek(0x01FD), 0xF1);
    assert!(!cpu.status.brk);
    cpu.step();
    assert_eq!(cpu.ac, 0xF1);
    cpu.ac = 0x4B;
    cpu.step();
    assert_eq!(cpu.step(), 4);
    assert_eq!(cpu.status, Flags::from_byte(0x4B));
    assert_eq!(cpu.sp, 0xFD);
}

#[test]
fn call_pushes_the_return_address_less_one() {
    // JSR $9000 ... at $9000: RTS
    let mut cpu = machine(&[0x20, 0x00, 0x90, 0xEA]);
    cpu.load(&[0x60], 0x9000);
    assert_eq!(cpu.step(), 6);
    assert_eq!(cpu.pc, 0x9000);
    assert_eq!(cpu.sp, 0xFB);
    assert_eq!(cpu.bus.peek(0x01FD), 0x80);
    assert_eq!(cpu.bus.peek(0x01FC), 0x02);
    assert_eq!(cpu.step(), 6);
    assert_eq!(cpu.pc, 0x8003);
    assert_eq!(cpu.sp, 0xFD);
}

#[test]
fn jump_sets_the_program_counter() {
    let mut cpu = machine(&[0x4C, 0x34, 0x12]);
    assert_eq!(cpu.step(), 3);
    assert_eq!(cpu.pc, 0x1234);
}

#[test]
fn flag_changes_touch_one_flag() {
    // SEC; SED; SEI; CLC; CLD; CLI; CLV
    let mut cpu = machine(&[0x38, 0xF8, 0x78, 0x18, 0xD8, 0x58, 0xB8]);
    cpu.status = Flags::from_byte(0xC2);
    let expected = [0xE3u8, 0xEB, 0xEF, 0xEE, 0xE6, 0xE2, 0xA2];
    for byte in expected {
        assert_eq!(cpu.step(), 2);
        assert_eq!(cpu.status.to_byte(), byte);
    }
}

#[test]
fn break_pushes_and_jumps_through_its_vector() {
    let mut cpu = machine(&[0x00, 0xFF]);
    cpu.load(&[0x00, 0x90], 0xFFFE);
    cpu.load(&[0x40], 0x9000);
    cpu.status = Flags::from_byte(0x41);
    assert_eq!(cpu.step(), 7);
    assert_eq!(cpu.pc, 0x9000);
    assert_eq!(cpu.sp, 0xFA);
    assert_eq!(cpu.bus.peek(0x01FD), 0x80);
    assert_eq!(cpu.bus.peek(0x01FC), 0x02);
    assert_eq!(cpu.bus.peek(0x01FB), 0x71);
    assert!(cpu.status.interrupt_disable && cpu.status.carry && cpu.status.overflow);
    // RTI restores the flags and returns behind the break and its padding byte
    assert_eq!(cpu.step(), 6);
    assert_eq!(cpu.pc, 0x8002);
    assert_eq!(cpu.sp, 0xFD);
    assert_eq!(cpu.status, Flags::from_byte(0x71));
}

#[test]
fn interrupts_push_without_the_break_bit() {
    let mut cpu = machine(&[0xEA]);
    cpu.load(&[0x00, 0xA0, 0x00, 0x80, 0x00, 0xB0], 0xFFFA);
    cpu.status = Flags::from_byte(0x01);
    assert_eq!(cpu.nmi(), 7);
    assert_eq!(cpu.pc, 0xA000);
    assert_eq!(cpu.bus.peek(0x01FD), 0x80);
    assert_eq!(cpu.bus.peek(0x01FC), 0x00);
    assert_eq!(cpu.bus.peek(0x01FB), 0x21);
    assert!(cpu.status.interrupt_disable);
    // a maskable interrupt is not answered while interrupts are disabled
    let before = registers(&cpu);
    assert_eq!(cpu.irq(), 0);
    assert_eq!(registers(&cpu), before);
    cpu.status.interrupt_disable = false;
    assert_eq!(cpu.irq(), 7);
    assert_eq!(cpu.pc, 0xB000);
    assert_eq!(cpu.sp, 0xF7);
    // the non-maskable one is answered all the same
    assert_eq!(cpu.nmi(), 7);
    assert_eq!(cpu.pc, 0xA000);
}

#[test]
fn halt_is_for_good() {
    // LDA #$01; JAM; LDA #$02
    let mut cpu = machine(&[0xA9, 0x01, 0x02, 0xA9, 0x02]);
    assert_eq!(cpu.step(), 2);
    assert_eq!(cpu.step(), 0);
    assert!(cpu.halted);
    let halted = registers(&cpu);
    assert_eq!(halted, (0x8002, 0xFD, 0x01, 0, 0, Flags::new(), true));
    assert_eq!(cpu.step(), 0);
    assert_eq!(registers(&cpu), halted);
    assert_eq!(cpu.step(), 0);
    assert_eq!(registers(&cpu), halted);
    assert_eq!(cpu.nmi(), 0);
    assert_eq!(cpu.irq(), 0);
    assert_eq!(registers(&cpu), halted);
}

#[test]
fn every_halting_opcode_halts() {
    for opcode in [0x02u8, 0x12, 0x22, 0x32, 0x42, 0x52, 0x62, 0x72, 0x92, 0xB2, 0xD2, 0xF2] {
        let mut cpu = machine(&[opcode]);
        assert_eq!(cpu.step(), 0);
        assert!(cpu.halted);
        assert_eq!(cpu.pc, 0x8000);
    }
}

#[test]
fn no_ops_read_and_change_nothing() {
    // NOP; NOP $10; NOP $20F0,X; NOP #$FF
    let mut cpu = machine(&[0xEA, 0x04, 0x10, 0x1C, 0xF0, 0x20, 0x80, 0xFF]);
    cpu.idx = 0x20;
    let before = registers(&cpu);
    assert_eq!(cpu.step(), 2);
    assert_eq!(cpu.step(), 3);
    assert_eq!(cpu.step(), 5);
    assert_eq!(cpu.step(), 2);
    assert_eq!(cpu.pc, 0x8008);
    cpu.pc = before.0;
    assert_eq!(registers(&cpu), before);
}

#[test]
fn combined_operations_do_both_halves() {
    // SLO $10: shift left, then OR
    let mut cpu = machine(&[0x07, 0x10]);
    cpu.load(&[0x81], 0x0010);
    cpu.ac = 0x10;
    assert_eq!(cpu.step(), 5);
    assert_eq!(cpu.bus.peek(0x0010), 0x02);
    assert_eq!(cpu.ac, 0x12);
    assert!(cpu.status.carry && !cpu.status.negative && !cpu.status.zero);
    // RLA $10: rotate left, then AND
    let mut cpu = machine(&[0x27, 0x10]);
    cpu.load(&[0x41], 0x0010);
    cpu.ac = 0x0F;
    cpu.status.carry = true;
    cpu.step();
    assert_eq!(cpu.bus.peek(0x0010), 0x83);
    assert_eq!(cpu.ac, 0x03);
    assert!(!cpu.status.carry);
    // SRE $10: shift right, then XOR
    let mut cpu = machine(&[0x47, 0x10]);
    cpu.load(&[0x03], 0x0010);
    cpu.ac = 0xFF;
    cpu.step();
    assert_eq!(cpu.bus.peek(0x0010), 0x01);
    assert_eq!(cpu.ac, 0xFE);
    assert!(cpu.status.carry && cpu.status.negative);
    // RRA $10: rotate right, then add with the carry that came out
    let mut cpu = machine(&[0x67, 0x10]);
    cpu.load(&[0x03], 0x0010);
    cpu.ac = 0x10;
    cpu.step();
    assert_eq!(cpu.bus.peek(0x0010), 0x01);
    assert_eq!(cpu.ac, 0x12);
    assert!(!cpu.status.carry);
    // DCP $10: decrement, then compare
    let mut cpu = machine(&[0xC7, 0x10]);
    cpu.load(&[0x11], 0x0010);
    cpu.ac = 0x10;
    cpu.step();
    assert_eq!(cpu.bus.peek(0x0010), 0x10);
    assert_eq!(cpu.ac, 0x10);
    assert!(cpu.status.zero && cpu.status.carry);
    // ISC $10: increment, then subtract
    let mut cpu = machine(&[0xE7, 0x10]);
    cpu.load(&[0x0F], 0x0010);
    cpu.ac = 0x30;
    cpu.status.carry = true;
    cpu.step();
    assert_eq!(cpu.bus.peek(0x0010), 0x10);
    assert_eq!(cpu.ac, 0x20);
    assert!(cpu.status.carry);
}

#[test]
fn load_and_store_of_two_registers() {
    // LAX $10; SAX $11
    let mut cpu = machine(&[0xA7, 0x10, 0x87, 0x11]);
    cpu.load(&[0x8F], 0x0010);
    assert_eq!(cpu.step(), 3);
    assert_eq!((cpu.ac, cpu.idx), (0x8F, 0x8F));
    assert!(cpu.status.negative);
    cpu.ac = 0xF0;
    cpu.idx = 0x3C;
    let flags = cpu.status;
    assert_eq!(cpu.step(), 3);
    assert_eq!(cpu.bus.peek(0x0011), 0x30);
    assert_eq!(cpu.status, flags);
}

#[test]
fn unofficial_immediate_operations() {
    // ALR #$0F
    let mut cpu = machine(&[0x4B, 0x0F]);
    cpu.ac = 0x35;
    cpu.step();
    assert_eq!(cpu.ac, 0x02);
    assert!(cpu.status.carry);
    // ANC #$F0
    let mut cpu = machine(&[0x0B, 0xF0]);
    cpu.ac = 0x81;
    cpu.step();
    assert_eq!(cpu.ac, 0x80);
    assert!(cpu.status.carry && cpu.status.negative);
    // ARR #$FF
    let mut cpu = machine(&[0x6B, 0xFF]);
    cpu.ac = 0xC0;
    cpu.status.carry = true;
    cpu.step();
    assert_eq!(cpu.ac, 0xE0);
    assert!(cpu.status.carry && !cpu.status.overflow && cpu.status.negative);
    let mut cpu = machine(&[0x6B, 0xFF]);
    cpu.ac = 0x80;
    cpu.step();
    assert_eq!(cpu.ac, 0x40);
    assert!(cpu.status.carry && cpu.status.overflow);
    // AXS #$02
    let mut cpu = machine(&[0xCB, 0x02]);
    cpu.ac = 0x0F;
    cpu.idx = 0x03;
    cpu.step();
    assert_eq!(cpu.idx, 0x01);
    assert_eq!(cpu.ac, 0x0F);
    assert!(cpu.status.carry && !cpu.status.zero);
    // XAA #$0F
    let mut cpu = machine(&[0x8B, 0x0F]);
    cpu.idx = 0x3C;
    cpu.ac = 0xFF;
    cpu.step();
    assert_eq!(cpu.ac, 0x0C);
}

#[test]
fn unofficial_stores_and_stack_pointer_operations() {
    // LAS $0200,Y
    let mut cpu = machine(&[0xBB, 0x00, 0x02]);
    cpu.load(&[0xF3], 0x0200);
    cpu.sp = 0x3F;
    cpu.step();
    assert_eq!((cpu.ac, cpu.idx, cpu.sp), (0x33, 0x33, 0x33));
    // SHX $0200,Y stores X & (high byte + 1)
    let mut cpu = machine(&[0x9E, 0x00, 0x02]);
    cpu.idx = 0xFF;
    assert_eq!(cpu.step(), 5);
    assert_eq!(cpu.bus.peek(0x0200), 0x03);
    // SHY $0200,X
    let mut cpu = machine(&[0x9C, 0x00, 0x02]);
    cpu.idy = 0x01;
    cpu.step();
    assert_eq!(cpu.bus.peek(0x0200), 0x01);
    // AHX $0200,Y
    let mut cpu = machine(&[0x9F, 0x00, 0x02]);
    cpu.ac = 0x0F;
    cpu.idx = 0x0A;
    cpu.step();
    assert_eq!(cpu.bus.peek(0x0200), 0x02);
    // TAS $0200,Y
    let mut cpu = machine(&[0x9B, 0x00, 0x02]);
    cpu.ac = 0x0F;
    cpu.idx = 0x07;
    cpu.step();
    assert_eq!(cpu.sp, 0x07);
    assert_eq!(cpu.bus.peek(0x0200), 0x03);
}

#[test]
fn run_stops_at_a_halt() {
    // LDX #$05; loop: DEX; BNE loop; JAM
    let mut cpu = machine(&[0xA2, 0x05, 0xCA, 0xD0, 0xFD, 0x02]);
    let cycles = cpu.run(1_000);
    assert!(cpu.halted);
    assert_eq!(cpu.idx, 0);
    // 2 + 5 * 2 + 4 * 3 + 2
    assert_eq!(cycles, 26);
    assert_eq!(cpu.run(1_000), 0);
}

#[test]
fn run_stops_over_budget() {
    // loop: JMP loop
    let mut cpu = machine(&[0x4C, 0x00, 0x80]);
    let cycles = cpu.run(10);
    assert!(!cpu.halted);
    assert_eq!(cycles, 12);
    // with no budget one instruction is still executed
    assert_eq!(cpu.run(0), 3);
}

#[test]
fn program_sums_a_table() {
    // LDX #$00; LDA #$00; CLC; loop: ADC $9000,X; INX; CPX #$04; BNE loop; STA $0200; JAM
    let program = [
        0xA2, 0x00, 0xA9, 0x00, 0x18, 0x7D, 0x00, 0x90, 0xE8, 0xE0, 0x04, 0xD0, 0xF8, 0x8D, 0x00,
        0x02, 0x02,
    ];
    let mut cpu = machine(&program);
    cpu.load(&[10, 20, 30, 40], 0x9000);
    cpu.run(10_000);
    assert!(cpu.halted);
    assert_eq!(cpu.bus.peek(0x0200), 100);
    assert_eq!(cpu.pc, 0x8010);
}

#[test]
fn bus_of_flat_memory_reads_what_was_written() {
    let mut memory = FlatMemory::new();
    memory.write(0x1234, 0x56);
    assert_eq!(memory.read(0x1234), 0x56);
    assert_eq!(memory.read(0x1A34), 0x00);
    memory.poke(0xFFFF, 0x01);
    assert_eq!(memory.peek(0xFFFF), 0x01);
}
