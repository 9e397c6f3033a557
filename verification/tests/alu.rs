use r6502::alu::{
    add_binary, add_decimal, displace16, high_byte, low_byte, make_word, minus16, minus8,
    offset16, offset8, subtract_binary, subtract_decimal, Outcome,
};

fn signed(b: u8) -> i32 {
    b as i8 as i32
}

#[test]
fn add_binary_plain() {
    assert_eq!(
        add_binary(0x05, 0x0A, false),
        Outcome { value: 0x0F, carry: false, overflow: false, binary: 0x0F }
    );
}

#[test]
fn add_binary_carry_in_and_out() {
    assert_eq!(
        add_binary(0xFF, 0x00, true),
        Outcome { value: 0x00, carry: true, overflow: false, binary: 0x00 }
    );
}

#[test]
fn add_binary_signed_overflow() {
    assert_eq!(
        add_binary(0x50, 0x50, false),
        Outcome { value: 0xA0, carry: false, overflow: true, binary: 0xA0 }
    );
    assert_eq!(
        add_binary(0x80, 0x80, false),
        Outcome { value: 0x00, carry: true, overflow: true, binary: 0x00 }
    );
}

#[test]
fn add_binary_is_twos_complement_addition_everywhere() {
    for a in 0..=255u8 {
        for m in 0..=255u8 {
            for carry in [false, true] {
                let out = add_binary(a, m, carry);
                let sum = a as u32 + m as u32 + carry as u32;
                let signed_sum = signed(a) + signed(m) + carry as i32;
                assert_eq!(out.value as u32, sum % 256);
                assert_eq!(out.binary, out.value);
                assert_eq!(out.carry, sum > 0xFF);
                assert_eq!(out.overflow, !(-128..128).contains(&signed_sum));
            }
        }
    }
}

#[test]
fn subtract_binary_plain() {
    assert_eq!(
        subtract_binary(0x50, 0x30, true),
        Outcome { value: 0x20, carry: true, overflow: false, binary: 0x20 }
    );
}

#[test]
fn subtract_binary_borrows() {
    assert_eq!(
        subtract_binary(0x10, 0x20, true),
        Outcome { value: 0xF0, carry: false, overflow: false, binary: 0xF0 }
    );
    assert_eq!(
        subtract_binary(0x10, 0x10, false),
        Outcome { value: 0xFF, carry: false, overflow: false, binary: 0xFF }
    );
}

#[test]
fn subtract_binary_signed_overflow() {
    assert_eq!(
        subtract_binary(0x80, 0x01, true),
        Outcome { value: 0x7F, carry: true, overflow: true, binary: 0x7F }
    );
}

#[test]
fn subtract_binary_is_twos_complement_subtraction_everywhere() {
    for a in 0..=255u8 {
        for m in 0..=255u8 {
            for carry in [false, true] {
                let out = subtract_binary(a, m, carry);
                let difference = a as i32 - m as i32 - (1 - carry as i32);
                let signed_difference = signed(a) - signed(m) - (1 - carry as i32);
                assert_eq!(out.value as i32, difference.rem_euclid(256));
                assert_eq!(out.carry, difference >= 0);
                assert_eq!(out.overflow, !(-128..128).contains(&signed_difference));
            }
        }
    }
}

#[test]
fn add_decimal_without_carry() {
    assert_eq!(
        add_decimal(0x05, 0x10, false),
        Outcome { value: 0x15, carry: false, overflow: false, binary: 0x15 }
    );
}

#[test]
fn add_decimal_low_digit_carries() {
    assert_eq!(
        add_decimal(0x09, 0x01, false),
        Outcome { value: 0x10, carry: false, overflow: false, binary: 0x0A }
    );
}

#[test]
fn add_decimal_carries_out() {
    assert_eq!(
        add_decimal(0x58, 0x46, true),
        Outcome { value: 0x05, carry: true, overflow: true, binary: 0x9F }
    );
    assert_eq!(
        add_decimal(0x99, 0x01, false),
        Outcome { value: 0x00, carry: true, overflow: false, binary: 0x9A }
    );
}

#[test]
fn add_decimal_flags_come_from_the_binary_sum() {
    let out = add_decimal(0x99, 0x01, false);
    assert_eq!(out.value, 0x00);
    assert_eq!(out.binary, 0x9A);
}

#[test]
fn add_decimal_agrees_with_decimal_arithmetic_on_valid_digits() {
    for a in 0..100u32 {
        for m in 0..100u32 {
            for carry in [false, true] {
                let out = add_decimal(bcd(a), bcd(m), carry);
                let sum = a + m + carry as u32;
                assert_eq!(out.value, bcd(sum % 100));
                assert_eq!(out.carry, sum > 99);
            }
        }
    }
}

fn bcd(n: u32) -> u8 {
    ((n / 10) * 16 + n % 10) as u8
}

#[test]
fn subtract_decimal_without_borrow() {
    assert_eq!(
        subtract_decimal(0x46, 0x12, true),
        Outcome { value: 0x34, carry: true, overflow: false, binary: 0x34 }
    );
}

#[test]
fn subtract_decimal_low_digit_borrows() {
    assert_eq!(
        subtract_decimal(0x40, 0x13, true),
        Outcome { value: 0x27, carry: true, overflow: false, binary: 0x2D }
    );
}

#[test]
fn subtract_decimal_borrows_out() {
    assert_eq!(
        subtract_decimal(0x12, 0x21, true),
        Outcome { value: 0x91, carry: false, overflow: false, binary: 0xF1 }
    );
    assert_eq!(
        subtract_decimal(0x00, 0x00, false),
        Outcome { value: 0x99, carry: false, overflow: false, binary: 0xFF }
    );
}

#[test]
fn subtract_decimal_agrees_with_decimal_arithmetic_on_valid_digits() {
    for a in 0..100i32 {
        for m in 0..100i32 {
            for carry in [false, true] {
                let out = subtract_decimal(bcd(a as u32), bcd(m as u32), carry);
                let difference = a - m - (1 - carry as i32);
                assert_eq!(out.value, bcd(difference.rem_euclid(100) as u32));
                assert_eq!(out.carry, difference >= 0);
            }
        }
    }
}

#[test]
fn words_and_bytes() {
    assert_eq!(make_word(0x34, 0x12), 0x1234);
    assert_eq!(low_byte(0x1234), 0x34);
    assert_eq!(high_byte(0x1234), 0x12);
}

#[test]
fn wrapping_offsets() {
    assert_eq!(offset8(0xFF, 0x02), 0x01);
    assert_eq!(offset16(0xFFFF, 0x02), 0x0001);
    assert_eq!(minus8(0x00, 0x01), 0xFF);
    assert_eq!(minus16(0x0000, 0x01), 0xFFFF);
    assert_eq!(displace16(0x8005, 0xFD), 0x8002);
    assert_eq!(displace16(0x8005, 0x7F), 0x8084);
    assert_eq!(displace16(0x0001, 0x80), 0xFF81);
}
