//! Reference computations: what each instruction under test has to produce,
//! worked out with ordinary arithmetic on the same operands.

use vstd::arithmetic::power2::{lemma2_to64, lemma_pow2_strictly_increases, pow2};
use vstd::bits::lemma_u64_shl_is_mul;
use vstd::prelude::*;

verus! {

/// Two to the power of 32: the number of values a 32-bit register can hold.
pub open spec fn word_range() -> int {
    0x1_0000_0000
}

/// Bit 0 of the flags word is the carry flag.
pub const CARRY_FLAG: u64 = 0x1;

/// Bit 6 of the flags word is the zero flag.
pub const ZERO_FLAG: u64 = 0x40;

/// The sum of two 32-bit words, wrapped to 32 bits.
pub open spec fn wrapped_sum(a: u32, b: u32) -> int {
    (a + b) % word_range()
}

/// The difference of two 32-bit words, wrapped to 32 bits.
pub open spec fn wrapped_difference(a: u32, b: u32) -> int {
    (a - b) % word_range()
}

/// The full product of two 32-bit words.
pub open spec fn wide_product(a: u32, b: u32) -> int {
    a * b
}

/// The low 32 bits of a 64-bit value.
pub open spec fn low_half(wide: int) -> int {
    wide % word_range()
}

/// The high 32 bits of a 64-bit value.
pub open spec fn high_half(wide: int) -> int {
    wide / word_range()
}

/// A 32-bit word shifted left by the low five bits of `count`: the word times
/// that power of two, wrapped to 32 bits.
pub open spec fn shifted_left(value: u32, count: u8) -> int {
    (value * pow2((count % 32) as nat)) % word_range()
}

/// Whether the zero flag is set in a flags word.
pub open spec fn zero_flag(flags: u64) -> bool {
    flags & ZERO_FLAG != 0
}

/// Whether the carry flag is set in a flags word.
pub open spec fn carry_flag(flags: u64) -> bool {
    flags & CARRY_FLAG != 0
}

/// What a 32-bit addition has to leave in its register: the sum, wrapped
/// around on overflow.
pub fn sum(a: u32, b: u32) -> (expected: u32)
    ensures
        expected == wrapped_sum(a, b),
{
    a.wrapping_add(b)
}

/// What a 32-bit subtraction has to leave in its register: the difference,
/// wrapped around on underflow.
pub fn difference(a: u32, b: u32) -> (expected: u32)
    ensures
        expected == wrapped_difference(a, b),
{
    a.wrapping_sub(b)
}

/// The 64-bit product of two 32-bit words. It always fits.
pub fn product(a: u32, b: u32) -> (expected: u64)
    ensures
        expected == wide_product(a, b),
{
    assert(a * b <= 0xFFFF_FFFF * 0xFFFF_FFFF) by (nonlinear_arith)
        requires
            a <= 0xFFFF_FFFF,
            b <= 0xFFFF_FFFF,
    ;
    (a as u64) * (b as u64)
}

/// The low 32 bits of a 64-bit value: what an unsigned multiplication leaves
/// in its low result register.
pub fn low_word(wide: u64) -> (low: u32)
    ensures
        low == low_half(wide as int),
{
    assert(wide & 0xFFFF_FFFF == wide % 0x1_0000_0000) by (bit_vector);
    (wide & 0xFFFF_FFFF) as u32
}

/// The high 32 bits of a 64-bit value: what an unsigned multiplication leaves
/// in its high result register.
pub fn high_word(wide: u64) -> (high: u32)
    ensures
        high == high_half(wide as int),
{
    assert(wide >> 32 == wide / 0x1_0000_0000) by (bit_vector);
    (wide >> 32) as u32
}

/// Quotient and remainder of an unsigned 32-bit division, or `None` for a zero
/// divisor, on which the instruction faults instead of giving a result.
pub fn quotient_and_remainder(dividend: u32, divisor: u32) -> (expected: Option<(u32, u32)>)
    ensures
        expected is Some <==> divisor != 0,
        expected matches Some((quotient, remainder)) ==> {
            &&& quotient == dividend as int / divisor as int
            &&& remainder == dividend as int % divisor as int
        },
{
    if divisor == 0 {
        None
    } else {
        Some((dividend / divisor, dividend % divisor))
    }
}

/// Bitwise AND of two words.
pub fn bit_and(a: u32, b: u32) -> (expected: u32)
    ensures
        expected == a & b,
{
    a & b
}

/// Bitwise OR of two words.
pub fn bit_or(a: u32, b: u32) -> (expected: u32)
    ensures
        expected == a | b,
{
    a | b
}

/// Bitwise XOR of two words.
pub fn bit_xor(a: u32, b: u32) -> (expected: u32)
    ensures
        expected == a ^ b,
{
    a ^ b
}

/// What a 32-bit left shift has to leave in its register. The machine uses
/// only the low five bits of the count, so counts of 32 and more wrap around.
pub fn shift_left(value: u32, count: u8) -> (expected: u32)
    ensures
        expected == shifted_left(value, count),
{
    let shift: u32 = (count % 32) as u32;
    proof {
        // The power of two, as a 64-bit word with one bit set.
        let factor: u64 = 1u64 << (shift as u64);
        assert(factor <= 0x8000_0000 && (value << shift) as u64 == ((value as u64) * factor)
            % 0x1_0000_0000) by (bit_vector)
            requires
                shift < 32,
                factor == 1u64 << (shift as u64),
        ;
        lemma2_to64();
        if shift < 31 {
            lemma_pow2_strictly_increases(shift as nat, 31);
        }
        lemma_u64_shl_is_mul(1, shift as u64);
        assert(factor == pow2(shift as nat));
    }
    value << shift
}

/// Whether a flags word has the zero flag set.
pub fn zero_flag_set(flags: u64) -> (set: bool)
    ensures
        set == zero_flag(flags),
{
    (flags & ZERO_FLAG) != 0
}

/// Whether a flags word has the carry flag set.
pub fn carry_flag_set(flags: u64) -> (set: bool)
    ensures
        set == carry_flag(flags),
{
    (flags & CARRY_FLAG) != 0
}

} // verus!
