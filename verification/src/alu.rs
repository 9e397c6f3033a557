use crate::machine::{add16, add8, high, low, signed, word};
use vstd::prelude::*;

verus! {

/// Masks and shifts that pick bits or digits of a byte, read as arithmetic.
pub proof fn lemma_byte_bits(v: u8)
    by (bit_vector)
    ensures
        v & 0x80 != 0 <==> v >= 0x80,
        v & 0x01 != 0 <==> v % 2 == 1,
        v & 0x0F == v % 16,
        v >> 4 == v / 16,
        v ^ 0xFF == 0xFF - v,
{
}

/// A shift to the left doubles a byte and leaves bit 0 clear.
pub proof fn lemma_shift_left_bits(v: u8)
    by (bit_vector)
    ensures
        v << 1 == (v * 2) % 0x100,
        (v << 1) | 0x01 == (v * 2) % 0x100 + 1,
{
}

/// A shift to the right halves a byte and leaves bit 7 clear.
pub proof fn lemma_shift_right_bits(v: u8)
    by (bit_vector)
    ensures
        v >> 1 == v / 2,
        (v >> 1) | 0x80 == v / 2 + 0x80,
{
}

/// Shifts and masks on a word, read as arithmetic.
pub proof fn lemma_word_bits(w: u16, lo: u8, hi: u8)
    by (bit_vector)
    ensures
        ((hi as u16) << 8) | (lo as u16) == hi * 0x100 + lo,
        (w >> 8) == w / 0x100,
        (w & 0xFF) == w % 0x100,
        (w & 0xFF00) == (w / 0x100) * 0x100,
        (w & 0x00FF) == 0x00FF <==> w % 0x100 == 0xFF,
{
}

/// The word with low byte `lo` and high byte `hi`.
pub fn make_word(lo: u8, hi: u8) -> (w: u16)
    ensures
        w == word(lo, hi),
{
    proof {
        lemma_word_bits(0, lo, hi);
    }
    ((hi as u16) << 8) | (lo as u16)
}

/// The low byte of `w`.
pub fn low_byte(w: u16) -> (b: u8)
    ensures
        b == low(w),
{
    proof {
        lemma_word_bits(w, 0, 0);
    }
    (w & 0xFF) as u8
}

/// The high byte of `w`.
pub fn high_byte(w: u16) -> (b: u8)
    ensures
        b == high(w),
{
    proof {
        lemma_word_bits(w, 0, 0);
    }
    (w >> 8) as u8
}

/// `a + d`, wrapping within eight bits.
pub fn offset8(a: u8, d: u8) -> (r: u8)
    ensures
        r == add8(a, d as int),
{
    proof {
        reveal(add8);
    }
    a.wrapping_add(d)
}

/// `a + d`, wrapping within sixteen bits.
pub fn offset16(a: u16, d: u8) -> (r: u16)
    ensures
        r == add16(a, d as int),
{
    proof {
        reveal(add16);
    }
    a.wrapping_add(d as u16)
}

/// `a - d`, wrapping within eight bits.
pub fn minus8(a: u8, d: u8) -> (r: u8)
    ensures
        r == add8(a, -(d as int)),
{
    proof {
        reveal(add8);
    }
    a.wrapping_sub(d)
}

/// `a - d`, wrapping within sixteen bits.
pub fn minus16(a: u16, d: u8) -> (r: u16)
    ensures
        r == add16(a, -(d as int)),
{
    proof {
        reveal(add16);
    }
    a.wrapping_sub(d as u16)
}

/// `a` moved by the two's-complement displacement `d`, wrapping within sixteen bits.
pub fn displace16(a: u16, d: u8) -> (r: u16)
    ensures
        r == add16(a, signed(d)),
{
    proof {
        reveal(add16);
    }
    if d < 0x80 {
        a.wrapping_add(d as u16)
    } else {
        a.wrapping_sub(0x100 - d as u16)
    }
}

/// What an addition or subtraction hands to the register file.
#[derive(Debug, Clone, Copy, PartialEq, Eq, Structural)]
pub struct Outcome {
    /// The new accumulator.
    pub value: u8,
    /// The new carry flag.
    pub carry: bool,
    /// The new overflow flag.
    pub overflow: bool,
    /// The binary result, before any decimal adjustment: Z and N describe this byte.
    pub binary: u8,
}

/// Whether `r`, taken as the sum of `a` and `m`, has a sign that neither operand has.
pub open spec fn sign_mismatch(a: u8, m: u8, r: u8) -> bool {
    (a ^ r) & (m ^ r) & 0x80 != 0
}

/// A flag as the number it adds.
pub open spec fn bit(flag: bool) -> int {
    if flag {
        1
    } else {
        0
    }
}

/// Binary `a + m + carry`.
pub open spec fn spec_add_binary(a: u8, m: u8, carry: bool) -> Outcome {
    let sum = a + m + bit(carry);
    let r = (sum % 0x100) as u8;
    Outcome { value: r, carry: sum > 0xFF, overflow: sign_mismatch(a, m, r), binary: r }
}

/// Binary `a - m - (1 - carry)`: the sum of `a`, the complement of `m` and the carry, so
/// that the carry out means that nothing was borrowed.
pub open spec fn spec_subtract_binary(a: u8, m: u8, carry: bool) -> Outcome {
    spec_add_binary(a, m ^ 0xFF, carry)
}

/// Decimal `a + m + carry` on two binary-coded digits each. Each digit sum above 9 is
/// corrected by 6 and carries into the next digit. Overflow and the byte that Z and N
/// describe are those of the binary sum.
pub open spec fn spec_add_decimal(a: u8, m: u8, carry: bool) -> Outcome {
    let binary = spec_add_binary(a, m, carry);
    let lo = a % 16 + m % 16 + bit(carry);
    let lo_digit = if lo > 9 {
        lo + 6
    } else {
        lo
    };
    let hi = a / 16 + m / 16 + bit(lo > 9);
    let hi_digit = if hi > 9 {
        hi + 6
    } else {
        hi
    };
    Outcome {
        value: ((hi_digit % 16) * 16 + lo_digit % 16) as u8,
        carry: hi_digit > 0x0F,
        overflow: binary.overflow,
        binary: binary.value,
    }
}

/// Decimal `a - m - (1 - carry)` on two binary-coded digits each. Each digit difference
/// below 0 is corrected by 6 and borrows from the next digit. Carry, overflow and the
/// byte that Z and N describe are those of the binary difference.
pub open spec fn spec_subtract_decimal(a: u8, m: u8, carry: bool) -> Outcome {
    let binary = spec_subtract_binary(a, m, carry);
    let lo = a % 16 - m % 16 - bit(!carry);
    let lo_digit = if lo < 0 {
        lo - 6
    } else {
        lo
    };
    let hi = a / 16 - m / 16 - bit(lo < 0);
    let hi_digit = if hi < 0 {
        hi - 6
    } else {
        hi
    };
    Outcome {
        value: ((hi_digit % 16) * 16 + lo_digit % 16) as u8,
        carry: binary.carry,
        overflow: binary.overflow,
        binary: binary.value,
    }
}

/// The number that a byte of two binary-coded decimal digits stands for.
pub open spec fn decimal(b: u8) -> int {
    (b / 16) * 10 + b % 16
}

/// Whether both halves of a byte are decimal digits.
pub open spec fn is_decimal(b: u8) -> bool {
    b / 16 <= 9 && b % 16 <= 9
}

/// The sign bits of two operands and of a result, read as a comparison of signs.
proof fn lemma_sign_mismatch(a: u8, m: u8, r: u8)
    by (bit_vector)
    ensures
        sign_mismatch(a, m, r) <==> ((a >= 0x80) != (r >= 0x80)) && ((m >= 0x80) != (r >= 0x80)),
{
}

/// Binary addition with carry is two's-complement addition: the value is the sum
/// modulo 256, C says that the unsigned sum does not fit in a byte, and V that the
/// signed sum does not; where it fits, the value read as a signed byte is that sum.
pub proof fn lemma_add_binary(a: u8, m: u8, carry: bool)
    ensures
        ({
            let out = add_binary(a, m, carry);
            let signed_sum = signed(a) + signed(m) + bit(carry);
            &&& out.value == (a + m + bit(carry)) % 0x100
            &&& out.binary == out.value
            &&& out.carry <==> a + m + bit(carry) > 0xFF
            &&& out.overflow <==> !(-0x80 <= signed_sum < 0x80)
            &&& !out.overflow ==> signed(out.value) == signed_sum
        }),
{
    lemma_sign_mismatch(a, m, add_binary(a, m, carry).value);
}

/// Binary subtraction with borrow is two's-complement subtraction: the value is the
/// difference modulo 256, C says that nothing was borrowed, and V that the signed
/// difference does not fit in a byte; where it fits, the value read as a signed byte
/// is that difference.
pub proof fn lemma_subtract_binary(a: u8, m: u8, carry: bool)
    ensures
        ({
            let out = subtract_binary(a, m, carry);
            let signed_difference = signed(a) - signed(m) - bit(!carry);
            &&& out.value == (a - m - bit(!carry)) % 0x100
            &&& out.binary == out.value
            &&& out.carry <==> a - m - bit(!carry) >= 0
            &&& out.overflow <==> !(-0x80 <= signed_difference < 0x80)
            &&& !out.overflow ==> signed(out.value) == signed_difference
        }),
{
    lemma_byte_bits(m);
    lemma_add_binary(a, m ^ 0xFF, carry);
}

/// A byte made of two decimal digits has them as its halves.
proof fn lemma_digits(h: int, l: int)
    requires
        0 <= h <= 9,
        0 <= l <= 9,
    ensures
        (h * 16 + l) / 16 == h,
        (h * 16 + l) % 16 == l,
        is_decimal((h * 16 + l) as u8),
        decimal((h * 16 + l) as u8) == h * 10 + l,
        (h * 10 + l) % 100 == h * 10 + l,
{
}

/// On decimal digits, decimal addition is addition of the numbers they stand for,
/// modulo 100; C says that the sum is 100 or more.
pub proof fn lemma_add_decimal(a: u8, m: u8, carry: bool)
    requires
        is_decimal(a),
        is_decimal(m),
    ensures
        is_decimal(add_decimal(a, m, carry).value),
        decimal(add_decimal(a, m, carry).value) == (decimal(a) + decimal(m) + bit(carry)) % 100,
        add_decimal(a, m, carry).carry <==> decimal(a) + decimal(m) + bit(carry) >= 100,
        add_decimal(a, m, carry).binary == add_binary(a, m, carry).value,
        add_decimal(a, m, carry).overflow == add_binary(a, m, carry).overflow,
{
    let lo = a % 16 + m % 16 + bit(carry);
    let hi = a / 16 + m / 16 + bit(lo > 9);
    let l = if lo > 9 {
        lo - 10
    } else {
        lo
    };
    let h = if hi > 9 {
        hi - 10
    } else {
        hi
    };
    assert((if lo > 9 {
        lo + 6
    } else {
        lo
    }) % 16 == l);
    assert((if hi > 9 {
        hi + 6
    } else {
        hi
    }) % 16 == h);
    lemma_digits(h, l);
    assert(decimal(a) + decimal(m) + bit(carry) == hi * 10 + l);
}

/// On decimal digits, decimal subtraction is subtraction of the numbers they stand
/// for, modulo 100; C says that nothing was borrowed.
pub proof fn lemma_subtract_decimal(a: u8, m: u8, carry: bool)
    requires
        is_decimal(a),
        is_decimal(m),
    ensures
        is_decimal(subtract_decimal(a, m, carry).value),
        decimal(subtract_decimal(a, m, carry).value) == (decimal(a) - decimal(m) - bit(!carry))
            % 100,
        subtract_decimal(a, m, carry).carry <==> decimal(a) - decimal(m) - bit(!carry) >= 0,
        subtract_decimal(a, m, carry).binary == subtract_binary(a, m, carry).value,
        subtract_decimal(a, m, carry).overflow == subtract_binary(a, m, carry).overflow,
{
    lemma_subtract_binary(a, m, carry);
    let lo = a % 16 - m % 16 - bit(!carry);
    let hi = a / 16 - m / 16 - bit(lo < 0);
    let l = if lo < 0 {
        lo + 10
    } else {
        lo
    };
    let h = if hi < 0 {
        hi + 10
    } else {
        hi
    };
    assert((if lo < 0 {
        lo - 6
    } else {
        lo
    }) % 16 == l);
    assert((if hi < 0 {
        hi - 6
    } else {
        hi
    }) % 16 == h);
    lemma_digits(h, l);
    assert(decimal(a) - decimal(m) - bit(!carry) == hi * 10 + l);
    assert(a - m - bit(!carry) == (a / 16 - m / 16) * 16 + lo);
}

/// Two digits below 16 each, packed into a byte.
proof fn lemma_pack_digits(hi: u8, lo: u8)
    by (bit_vector)
    requires
        lo < 16,
    ensures
        (hi << 4) | lo == (hi % 16) * 16 + lo,
{
}

/// Binary `a + m + carry`.
#[verifier::when_used_as_spec(spec_add_binary)]
pub fn add_binary(a: u8, m: u8, carry: bool) -> (out: Outcome)
    ensures
        out == spec_add_binary(a, m, carry),
{
    let c: u16 = if carry { 1 } else { 0 };
    let sum: u16 = (a as u16) + (m as u16) + c;
    let result = low_byte(sum);
    Outcome {
        value: result,
        carry: sum > 0xFF,
        overflow: (a ^ result) & (m ^ result) & 0x80 != 0,
        binary: result,
    }
}

/// Binary `a - m - (1 - carry)`.
#[verifier::when_used_as_spec(spec_subtract_binary)]
pub fn subtract_binary(a: u8, m: u8, carry: bool) -> (out: Outcome)
    ensures
        out == spec_subtract_binary(a, m, carry),
{
    add_binary(a, m ^ 0xFF, carry)
}

/// Decimal `a + m + carry`.
#[verifier::when_used_as_spec(spec_add_decimal)]
pub fn add_decimal(a: u8, m: u8, carry: bool) -> (out: Outcome)
    ensures
        out == spec_add_decimal(a, m, carry),
{
    let binary = add_binary(a, m, carry);
    let c: u8 = if carry { 1 } else { 0 };
    proof {
        lemma_byte_bits(a);
        lemma_byte_bits(m);
    }
    let mut lo: u8 = (a & 0x0F) + (m & 0x0F) + c;
    let mut hi: u8 = (a >> 4) + (m >> 4) + if lo > 0x09 { 1 } else { 0 };
    if lo > 0x09 {
        proof {
            lemma_byte_bits((lo + 0x06) as u8);
        }
        lo = (lo + 0x06) & 0x0F;
    }
    if hi > 0x09 {
        hi += 0x06;
    }
    proof {
        lemma_pack_digits(hi, lo);
    }
    Outcome {
        value: (hi << 4) | lo,
        carry: hi > 0x0F,
        overflow: binary.overflow,
        binary: binary.value,
    }
}

/// One decimal digit of a subtraction: the digit of `a - m - borrow`, corrected by 6 if
/// the difference is below zero, and whether it was.
fn subtract_digit(a: u8, m: u8, borrow: u8) -> (out: (u8, bool))
    requires
        a < 16,
        m < 16,
        borrow <= 1,
    ensures
        out.1 == (a - m - borrow < 0),
        out.0 < 16,
        out.0 == (if a - m - borrow < 0 {
            a - m - borrow - 6
        } else {
            a - m - borrow
        }) % 16,
{
    let difference = a.wrapping_sub(m).wrapping_sub(borrow);
    if difference >= 0x80 {
        let corrected = difference.wrapping_sub(0x06);
        proof {
            lemma_byte_bits(corrected);
            assert(corrected == a - m - borrow - 6 + 0x100);
        }
        (corrected & 0x0F, true)
    } else {
        (difference, false)
    }
}

/// Decimal `a - m - (1 - carry)`.
#[verifier::when_used_as_spec(spec_subtract_decimal)]
pub fn subtract_decimal(a: u8, m: u8, carry: bool) -> (out: Outcome)
    ensures
        out == spec_subtract_decimal(a, m, carry),
{
    let binary = subtract_binary(a, m, carry);
    proof {
        lemma_byte_bits(a);
        lemma_byte_bits(m);
    }
    let (lo, lo_borrows) = subtract_digit(a & 0x0F, m & 0x0F, if carry { 0 } else { 1 });
    let (hi, _) = subtract_digit(a >> 4, m >> 4, if lo_borrows { 1 } else { 0 });
    proof {
        lemma_pack_digits(hi, lo);
        let lo_difference = a % 16 - m % 16 - bit(!carry);
        assert(lo_borrows == (lo_difference < 0));
        assert(lo == (if lo_difference < 0 {
            lo_difference - 6
        } else {
            lo_difference
        }) % 16);
        let hi_difference = a / 16 - m / 16 - bit(lo_difference < 0);
        assert(hi == (if hi_difference < 0 {
            hi_difference - 6
        } else {
            hi_difference
        }) % 16);
        assert(hi % 16 == hi);
    }
    Outcome {
        value: (hi << 4) | lo,
        carry: binary.carry,
        overflow: binary.overflow,
        binary: binary.value,
    }
}

} // verus!
