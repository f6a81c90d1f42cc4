//! Arithmetic of the processor, on plain numbers.
use vstd::prelude::*;

use crate::registers::bit_of;

verus! {

/// The result of an operation on bytes and its flags: zero, subtract, half carry, carry.
#[derive(Clone, Copy, Debug, PartialEq, Eq, Structural)]
pub struct AluResult {
    pub value: u8,
    pub z: bool,
    pub n: bool,
    pub h: bool,
    pub c: bool,
}

/// `a + v`, and one more with a carry. The half carry comes from the low four bits.
#[verifier::opaque]
pub open spec fn sum(a: u8, v: u8, carry: bool) -> AluResult {
    let total = a + v + bit_of(carry);
    AluResult {
        value: (total % 256) as u8,
        z: total % 256 == 0,
        n: false,
        h: a % 16 + v % 16 + bit_of(carry) > 15,
        c: total > 255,
    }
}

/// `a - v`, and one less with a carry. The carries are borrows.
#[verifier::opaque]
pub open spec fn difference(a: u8, v: u8, carry: bool) -> AluResult {
    let total = a - v - bit_of(carry);
    AluResult {
        value: (total % 256) as u8,
        z: total % 256 == 0,
        n: true,
        h: a % 16 < v % 16 + bit_of(carry),
        c: total < 0,
    }
}

/// Kinds of logical operations.
#[derive(Clone, Copy, Debug, PartialEq, Eq, Structural)]
pub enum LogicalOp {
    And,
    Or,
    Xor,
}

#[verifier::opaque]
pub open spec fn logical_of(a: u8, v: u8, op: LogicalOp) -> AluResult {
    let value = match op {
        LogicalOp::And => a & v,
        LogicalOp::Or => a | v,
        LogicalOp::Xor => a ^ v,
    };
    AluResult { value, z: value == 0, n: false, h: op == LogicalOp::And, c: false }
}

/// `v` rotated by one bit; through the carry, the old carry comes in at the end.
#[verifier::opaque]
pub open spec fn rotated(v: u8, left: bool, through: bool, carry: bool) -> AluResult {
    let out = if left { v >= 128 } else { v % 2 == 1 };
    let comes_in = bit_of(if through { carry } else { out });
    let value = if left { 2 * (v % 128) + comes_in } else { v / 2 + 128 * comes_in };
    AluResult { value: value as u8, z: value == 0, n: false, h: false, c: out }
}

/// `v` shifted by one bit; an arithmetic shift to the right keeps the sign.
#[verifier::opaque]
pub open spec fn shifted(v: u8, left: bool, arithmetic: bool) -> AluResult {
    let value = if left {
        2 * (v % 128)
    } else if arithmetic {
        v / 2 + 128 * (v / 128)
    } else {
        (v / 2) as int
    };
    AluResult {
        value: value as u8,
        z: value == 0,
        n: false,
        h: false,
        c: if left { v >= 128 } else { v % 2 == 1 },
    }
}

/// `v` with its halves exchanged.
#[verifier::opaque]
pub open spec fn swapped(v: u8) -> AluResult {
    AluResult {
        value: (16 * (v % 16) + v / 16) as u8,
        z: v == 0,
        n: false,
        h: false,
        c: false,
    }
}

/// The accumulator after a decimal adjustment, and the carry. After an addition, each digit
/// over nine, or that carried, moves up by six; after a subtraction, each that borrowed
/// moves down by six.
#[verifier::opaque]
pub open spec fn adjusted(a: u8, subtract: bool, half_carry: bool, carry: bool) -> (u8, bool) {
    if subtract {
        let low = if half_carry { a.wrapping_sub(0x06) } else { a };
        (if carry { low.wrapping_sub(0x60) } else { low }, carry)
    } else {
        let up = carry || a > 0x99;
        let high = if up { a.wrapping_add(0x60) } else { a };
        (if half_carry || high % 16 > 9 { high.wrapping_add(0x06) } else { high }, up)
    }
}

/// A byte of two decimal digits.
pub open spec fn is_decimal(v: u8) -> bool {
    v % 16 <= 9 && v / 16 <= 9
}

/// The number that two decimal digits stand for.
pub open spec fn decimal(v: u8) -> int {
    10 * (v / 16) + v % 16
}

/// Half carry of an addition of words: out of the low twelve bits.
pub open spec fn word_half_carry(a: u16, b: u16) -> bool {
    a % 4096 + b % 4096 > 4095
}

/// A signed byte as a word.
#[verifier::opaque]
pub open spec fn extended(offset: i8) -> u16 {
    if offset < 0 {
        (65536 + offset) as u16
    } else {
        offset as u16
    }
}

/// After an addition of decimal numbers the adjustment gives their decimal sum, and the
/// carry stands for a hundred.
pub proof fn law_adjusted_sum_is_decimal(a: u8, b: u8, carry: bool)
    requires
        is_decimal(a),
        is_decimal(b),
    ensures
        ({
            let s = sum(a, b, carry);
            let (value, c) = adjusted(s.value, s.n, s.h, s.c);
            &&& is_decimal(value)
            &&& decimal(value) + 100 * bit_of(c) == decimal(a) + decimal(b) + bit_of(carry)
        }),
{
    reveal(sum);
    let low = a % 16 + b % 16 + bit_of(carry);
    let high = a / 16 + b / 16;
    assert(a + b + bit_of(carry) == 16 * high + low);
    lemma_adjust_after_sum(high, low);
}

/// The adjustment on the sums of the digits.
proof fn lemma_adjust_after_sum(high: int, low: int)
    requires
        0 <= high <= 18,
        0 <= low <= 19,
    ensures
        ({
            let total = 16 * high + low;
            let (value, c) = adjusted((total % 256) as u8, false, low > 15, total > 255);
            &&& is_decimal(value)
            &&& decimal(value) + 100 * bit_of(c) == 10 * high + low
        }),
{
    reveal(adjusted);
    let v = ((16 * high + low) % 256) as u8;
    if low <= 9 {
        lemma_digits(if high <= 9 { high } else { high - 10 }, low);
        lemma_digits(if high < 16 { high } else { high - 16 }, low);
    } else if low <= 15 {
        lemma_digits(if high < 9 { high + 1 } else { high - 9 }, low - 10);
        lemma_digits(if high < 16 { high } else { high - 16 }, low);
        if high >= 9 {
            lemma_digits((high + 6) % 16, low);
        }
    } else {
        lemma_digits(if high < 9 { high + 1 } else { high - 9 }, low - 10);
        lemma_digits(if high < 15 { high + 1 } else { high - 15 }, low - 16);
    }
}

/// The halves of a byte.
proof fn lemma_digits(high: int, low: int)
    requires
        0 <= high < 16,
        0 <= low < 16,
    ensures
        (16 * high + low) / 16 == high,
        (16 * high + low) % 16 == low,
{
}

/// After a subtraction of decimal numbers the adjustment gives their decimal difference,
/// and the carry stands for a hundred that was borrowed.
pub proof fn law_adjusted_difference_is_decimal(a: u8, b: u8, carry: bool)
    requires
        is_decimal(a),
        is_decimal(b),
    ensures
        ({
            let s = difference(a, b, carry);
            let (value, c) = adjusted(s.value, s.n, s.h, s.c);
            &&& is_decimal(value)
            &&& decimal(value) - 100 * bit_of(c) == decimal(a) - decimal(b) - bit_of(carry)
        }),
{
    reveal(difference);
    let low = a % 16 - b % 16 - bit_of(carry);
    let high = a / 16 - b / 16;
    assert(a - b - bit_of(carry) == 16 * high + low);
    lemma_adjust_after_difference(high, low);
}

/// The adjustment on the differences of the digits.
proof fn lemma_adjust_after_difference(high: int, low: int)
    requires
        -9 <= high <= 9,
        -10 <= low <= 9,
    ensures
        ({
            let total = 16 * high + low;
            let (value, c) = adjusted((total % 256) as u8, true, low < 0, total < 0);
            &&& is_decimal(value)
            &&& decimal(value) - 100 * bit_of(c) == 10 * high + low
        }),
{
    reveal(adjusted);
    let digit_low = if low < 0 { low + 10 } else { low };
    let borrowed = if low < 0 { high - 1 } else { high };
    let digit_high = if borrowed < 0 { borrowed + 10 } else { borrowed };
    let total = 16 * high + low;
    let v = (total % 256) as u8;
    assert(v == if total < 0 { total + 256 } else { total });
    let stepped = if low < 0 { v.wrapping_sub(6) } else { v };
    assert(stepped == if total < 0 {
        16 * borrowed + digit_low + 256
    } else {
        16 * borrowed + digit_low
    });
    let value = adjusted(v, true, low < 0, total < 0).0;
    assert(value == 16 * digit_high + digit_low);
    lemma_digits(digit_high, digit_low);
}

/// Subtracting what was added gives back the first number.
pub proof fn law_difference_undoes_sum(a: u8, v: u8, carry: bool)
    ensures
        difference(sum(a, v, carry).value, v, carry).value == a,
        difference(sum(a, v, carry).value, v, carry).c == sum(a, v, carry).c,
{
    reveal(sum);
    reveal(difference);
}

/// A rotation is undone by the rotation the other way: through the carry if the carry that
/// came out goes in again.
pub proof fn law_rotation_is_undone(v: u8, through: bool, carry: bool, left: bool)
    ensures
        ({
            let r = rotated(v, left, through, carry);
            let back = rotated(r.value, !left, through, r.c);
            &&& back.value == v
            &&& through ==> back.c == carry
        }),
{
    reveal(rotated);
}

/// Exchanging the halves twice changes nothing.
pub proof fn law_swap_is_undone(v: u8)
    ensures
        swapped(swapped(v).value).value == v,
        swapped(v).z == (swapped(v).value == 0),
{
    reveal(swapped);
}

/// `a + v`, and one more with a carry.
pub fn add_bytes(a: u8, v: u8, carry: bool) -> (r: AluResult)
    ensures
        r == sum(a, v, carry),
{
    reveal(sum);
    let total: u16 = a as u16 + v as u16 + carry as u16;
    AluResult {
        value: (total % 256) as u8,
        z: total % 256 == 0,
        n: false,
        h: a % 16 + v % 16 + carry as u8 > 15,
        c: total > 255,
    }
}

/// `a - v`, and one less with a carry.
pub fn sub_bytes(a: u8, v: u8, carry: bool) -> (r: AluResult)
    ensures
        r == difference(a, v, carry),
{
    reveal(difference);
    let total: u16 = 256 + a as u16 - v as u16 - carry as u16;
    AluResult {
        value: (total % 256) as u8,
        z: total % 256 == 0,
        n: true,
        h: a % 16 < v % 16 + carry as u8,
        c: total < 256,
    }
}

pub fn logical_bytes(a: u8, v: u8, op: LogicalOp) -> (r: AluResult)
    ensures
        r == logical_of(a, v, op),
{
    reveal(logical_of);
    let value = match op {
        LogicalOp::And => a & v,
        LogicalOp::Or => a | v,
        LogicalOp::Xor => a ^ v,
    };
    AluResult { value, z: value == 0, n: false, h: matches!(op, LogicalOp::And), c: false }
}

/// `v` rotated by one bit.
pub fn rotate_byte(v: u8, left: bool, through: bool, carry: bool) -> (r: AluResult)
    ensures
        r == rotated(v, left, through, carry),
{
    reveal(rotated);
    let out = if left { v >= 128 } else { v % 2 == 1 };
    let comes_in: u8 = if through { carry as u8 } else { out as u8 };
    let value: u8 = if left { 2 * (v % 128) + comes_in } else { v / 2 + 128 * comes_in };
    AluResult { value, z: value == 0, n: false, h: false, c: out }
}

/// `v` shifted by one bit.
pub fn shift_byte(v: u8, left: bool, arithmetic: bool) -> (r: AluResult)
    ensures
        r == shifted(v, left, arithmetic),
{
    reveal(shifted);
    let value: u8 = if left {
        2 * (v % 128)
    } else if arithmetic {
        v / 2 + 128 * (v / 128)
    } else {
        v / 2
    };
    AluResult {
        value,
        z: value == 0,
        n: false,
        h: false,
        c: if left { v >= 128 } else { v % 2 == 1 },
    }
}

/// `v` with its halves exchanged.
pub fn swap_byte(v: u8) -> (r: AluResult)
    ensures
        r == swapped(v),
{
    reveal(swapped);
    AluResult { value: 16 * (v % 16) + v / 16, z: v == 0, n: false, h: false, c: false }
}

/// The accumulator after a decimal adjustment, and the carry.
pub fn adjust_byte(a: u8, subtract: bool, half_carry: bool, carry: bool) -> (r: (u8, bool))
    ensures
        r == adjusted(a, subtract, half_carry, carry),
{
    reveal(adjusted);
    let mut a = a;
    let mut carry = carry;
    if !subtract {
        if carry || a > 0x99 {
            a = a.wrapping_add(0x60);
            carry = true;
        }
        if half_carry || a % 16 > 9 {
            a = a.wrapping_add(0x06);
        }
    } else {
        if half_carry {
            a = a.wrapping_sub(0x06);
        }
        if carry {
            a = a.wrapping_sub(0x60);
        }
    }
    (a, carry)
}

/// A signed byte as a word.
pub fn extend_offset(offset: i8) -> (r: u16)
    ensures
        r == extended(offset),
{
    reveal(extended);
    if offset < 0 {
        (65536 + offset as i32) as u16
    } else {
        offset as u16
    }
}

} // verus!
