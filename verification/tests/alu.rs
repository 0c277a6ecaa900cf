use nes_core::addressing::{
    advance, branch_to, high, index_address, index_zero_page, low, make_word, retreat, stack_cell,
    step_in_page,
};
use nes_core::alu::{
    adc, compare, decrement, increment, sbc, shift_left, shift_right, Comparison, Shifted, Sum,
};
use nes_core::flags::Flags;

#[test]
fn adc_of_two_positive_bytes_overflows() {
    assert_eq!(adc(0x50, 0x50, false), Sum { value: 0xA0, carry: false, overflow: true });
}

#[test]
fn adc_carries_and_wraps() {
    assert_eq!(adc(0xFF, 0x01, false), Sum { value: 0x00, carry: true, overflow: false });
    assert_eq!(adc(0xFF, 0xFF, true), Sum { value: 0xFF, carry: true, overflow: false });
    assert_eq!(adc(0x01, 0x01, true), Sum { value: 0x03, carry: false, overflow: false });
    assert_eq!(adc(0x80, 0x80, false), Sum { value: 0x00, carry: true, overflow: true });
    assert_eq!(adc(0x7F, 0x00, true), Sum { value: 0x80, carry: false, overflow: true });
}

#[test]
fn adc_agrees_with_the_integers() {
    for a in 0..=255u16 {
        for m in 0..=255u16 {
            for c in 0..=1u16 {
                let sum = adc(a as u8, m as u8, c == 1);
                assert_eq!(sum.value as u16, (a + m + c) % 256);
                assert_eq!(sum.carry, a + m + c > 255);
                let signed = (a as u8 as i8) as i16 + (m as u8 as i8) as i16 + c as i16;
                assert_eq!(sum.overflow, signed < -128 || signed > 127);
            }
        }
    }
}

#[test]
fn sbc_borrows() {
    assert_eq!(sbc(0x50, 0xF0, true), Sum { value: 0x60, carry: false, overflow: false });
    assert_eq!(sbc(0x50, 0xB0, true), Sum { value: 0xA0, carry: false, overflow: true });
    assert_eq!(sbc(0x50, 0x30, true), Sum { value: 0x20, carry: true, overflow: false });
    assert_eq!(sbc(0x50, 0x30, false), Sum { value: 0x1F, carry: true, overflow: false });
    assert_eq!(sbc(0x00, 0x01, true), Sum { value: 0xFF, carry: false, overflow: false });
    assert_eq!(sbc(0x80, 0x01, true), Sum { value: 0x7F, carry: true, overflow: true });
}

#[test]
fn sbc_agrees_with_the_integers() {
    for a in 0..=255i16 {
        for m in 0..=255i16 {
            for c in 0..=1i16 {
                let sum = sbc(a as u8, m as u8, c == 1);
                let difference = a - m - (1 - c);
                assert_eq!(sum.value as i16, difference.rem_euclid(256));
                assert_eq!(sum.carry, difference >= 0);
                let signed = (a as u8 as i8) as i16 - (m as u8 as i8) as i16 - (1 - c);
                assert_eq!(sum.overflow, signed < -128 || signed > 127);
            }
        }
    }
}

#[test]
fn compare_sets_carry_zero_and_negative() {
    assert_eq!(compare(0x40, 0x40), Comparison { negative: false, zero: true, carry: true });
    assert_eq!(compare(0x40, 0x41), Comparison { negative: true, zero: false, carry: false });
    assert_eq!(compare(0x41, 0x40), Comparison { negative: false, zero: false, carry: true });
    assert_eq!(compare(0xFF, 0x00), Comparison { negative: true, zero: false, carry: true });
    assert_eq!(compare(0x00, 0xFF), Comparison { negative: false, zero: false, carry: false });
}

#[test]
fn shifts_move_one_bit() {
    assert_eq!(shift_left(0x81, false), Shifted { value: 0x02, carry: true });
    assert_eq!(shift_left(0x81, true), Shifted { value: 0x03, carry: true });
    assert_eq!(shift_left(0x40, false), Shifted { value: 0x80, carry: false });
    assert_eq!(shift_right(0x81, false), Shifted { value: 0x40, carry: true });
    assert_eq!(shift_right(0x81, true), Shifted { value: 0xC0, carry: true });
    assert_eq!(shift_right(0x02, false), Shifted { value: 0x01, carry: false });
}

#[test]
fn rotate_left_then_right_gives_the_byte_back() {
    for value in 0..=255u8 {
        for carry in [false, true] {
            let left = shift_left(value, carry);
            let back = shift_right(left.value, left.carry);
            assert_eq!((back.value, back.carry), (value, carry));
        }
    }
}

#[test]
fn increment_and_decrement_wrap() {
    assert_eq!(increment(0xFF), 0x00);
    assert_eq!(increment(0x7F), 0x80);
    assert_eq!(decrement(0x00), 0xFF);
    assert_eq!(decrement(0x80), 0x7F);
}

#[test]
fn words_are_little_endian() {
    assert_eq!(make_word(0x34, 0x12), 0x1234);
    assert_eq!(low(0x1234), 0x34);
    assert_eq!(high(0x1234), 0x12);
    assert_eq!(make_word(0xFF, 0xFF), 0xFFFF);
}

#[test]
fn zero_page_index_wraps_in_page_zero() {
    assert_eq!(index_zero_page(0xFF, 0x02), 0x01);
    assert_eq!(index_zero_page(0x80, 0x7F), 0xFF);
    assert_eq!(index_zero_page(0x80, 0x80), 0x00);
}

#[test]
fn absolute_index_tells_page_crossing() {
    assert_eq!(index_address(0x20F0, 0x20), (0x2110, true));
    assert_eq!(index_address(0x20F0, 0x0F), (0x20FF, false));
    assert_eq!(index_address(0x20F0, 0x10), (0x2100, true));
    assert_eq!(index_address(0xFFFF, 0x01), (0x0000, true));
    assert_eq!(index_address(0x1234, 0x00), (0x1234, false));
}

#[test]
fn pointer_steps_within_its_page() {
    assert_eq!(step_in_page(0x30FF), 0x3000);
    assert_eq!(step_in_page(0x3000), 0x3001);
    assert_eq!(step_in_page(0xFFFF), 0xFF00);
    assert_eq!(step_in_page(0x00FE), 0x00FF);
}

#[test]
fn branch_displacement_is_signed() {
    assert_eq!(branch_to(0x8002, 0x10), 0x8012);
    assert_eq!(branch_to(0x8002, 0xFE), 0x8000);
    assert_eq!(branch_to(0x8002, 0x80), 0x7F82);
    assert_eq!(branch_to(0x0002, 0xF0), 0xFFF2);
    assert_eq!(branch_to(0xFFF0, 0x7F), 0x006F);
}

#[test]
fn addresses_wrap_at_the_ends() {
    assert_eq!(advance(0xFFFF, 1), 0x0000);
    assert_eq!(advance(0x8000, 3), 0x8003);
    assert_eq!(retreat(0x0000), 0xFFFF);
    assert_eq!(retreat(0x8003), 0x8002);
    assert_eq!(stack_cell(0x00), 0x0100);
    assert_eq!(stack_cell(0xFF), 0x01FF);
}

#[test]
fn flags_pack_into_a_byte() {
    let mut flags = Flags::new();
    assert_eq!(flags.to_byte(), 0x20);
    flags.carry = true;
    flags.negative = true;
    assert_eq!(flags.to_byte(), 0xA1);
    flags.zero = true;
    flags.interrupt_disable = true;
    flags.decimal = true;
    flags.brk = true;
    flags.overflow = true;
    assert_eq!(flags.to_byte(), 0xFF);
}

#[test]
fn flags_unpack_from_a_byte() {
    let flags = Flags::from_byte(0xC3);
    assert!(flags.negative && flags.overflow && flags.zero && flags.carry);
    assert!(!flags.brk && !flags.decimal && !flags.interrupt_disable);
    for byte in 0..=255u8 {
        assert_eq!(Flags::from_byte(byte).to_byte(), byte | 0x20);
    }
}

#[test]
fn flags_take_negative_and_zero_from_a_value() {
    let mut flags = Flags::new();
    flags.carry = true;
    flags.set_nz(0x00);
    assert!(flags.zero && !flags.negative && flags.carry);
    flags.set_nz(0x80);
    assert!(!flags.zero && flags.negative && flags.carry);
    flags.set_nz(0x7F);
    assert!(!flags.zero && !flags.negative);
}
