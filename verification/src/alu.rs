//! The arithmetic unit: 8-bit addition and subtraction that wrap, and the
//! flags that each of them leaves behind.

use vstd::prelude::*;
use crate::flags::Flags;

verus! {

/// The sum of two bytes before it is cut to 8 bits: a 9-bit value.
pub open spec fn wide_sum(a: u8, b: u8) -> int {
    a + b
}

/// The difference of two bytes before it is cut to 8 bits, as the 9-bit
/// two's-complement value. It is 256 or more exactly when `a < b`.
pub open spec fn wide_difference(a: u8, b: u8) -> int {
    (a - b) % 512
}

/// The flags that follow an arithmetic operation whose 9-bit value is `wide`.
///
/// The result is `wide` cut to 8 bits. A result of zero sets Zero alone;
/// otherwise a 9-bit value of 256 or more sets Carry alone; otherwise both
/// flags are cleared.
pub open spec fn flags_after(wide: int) -> Flags {
    if wide % 256 == 0 {
        Flags::Zero
    } else if wide >= 256 {
        Flags::Carry
    } else {
        Flags::Clear
    }
}

/// What addition leaves in the accumulator and in the flags.
pub open spec fn add_spec(a: u8, b: u8) -> (u8, Flags) {
    ((wide_sum(a, b) % 256) as u8, flags_after(wide_sum(a, b)))
}

/// What subtraction leaves in the accumulator and in the flags.
pub open spec fn sub_spec(a: u8, b: u8) -> (u8, Flags) {
    ((wide_difference(a, b) % 256) as u8, flags_after(wide_difference(a, b)))
}

/// Adds `b` to `a` modulo 256 and derives the flags.
pub fn alu_add(a: u8, b: u8) -> (out: (u8, Flags))
    ensures
        out == add_spec(a, b),
        out.0 as int == (a + b) % 256,
{
    let wide: u16 = (a as u16).wrapping_add(b as u16);
    let result: u8 = a.wrapping_add(b);
    let flags = if result == 0 {
        Flags::Zero
    } else if wide >= 0x100 {
        Flags::Carry
    } else {
        Flags::Clear
    };
    (result, flags)
}

/// Subtracts `b` from `a` modulo 256 and derives the flags.
pub fn alu_sub(a: u8, b: u8) -> (out: (u8, Flags))
    ensures
        out == sub_spec(a, b),
        out.0 as int == (a - b) % 256,
{
    let wide: u16 = (a as u16).wrapping_sub(b as u16);
    let result: u8 = a.wrapping_sub(b);
    let flags = if result == 0 {
        Flags::Zero
    } else if wide >= 0x100 {
        Flags::Carry
    } else {
        Flags::Clear
    };
    (result, flags)
}

/// After an addition or a subtraction of any two bytes the flags are never
/// both set: Zero is set exactly when the result is zero, and Carry exactly
/// when the result is not zero and the 8-bit operation wrapped.
pub proof fn lemma_flags_exclusive(a: u8, b: u8)
    ensures
        !(add_spec(a, b).1.zero() && add_spec(a, b).1.carry()),
        !(sub_spec(a, b).1.zero() && sub_spec(a, b).1.carry()),
        add_spec(a, b).1.zero() <==> add_spec(a, b).0 == 0,
        sub_spec(a, b).1.zero() <==> sub_spec(a, b).0 == 0,
        add_spec(a, b).1.carry() <==> add_spec(a, b).0 != 0 && a + b >= 256,
        sub_spec(a, b).1.carry() <==> sub_spec(a, b).0 != 0 && a < b,
{
}

} // verus!
