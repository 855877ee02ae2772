//! Single-precision numbers as the 32-bit words of their IEEE-754 encoding.
//!
//! A word holds, from the top bit down, one sign bit, eight bits of biased
//! exponent and twenty-three bits of fraction. Two numbers are the same
//! reading exactly when their words are equal.

use vstd::prelude::*;

verus! {

/// The word of `0.0`.
pub const ZERO: u32 = 0x0000_0000;

/// The word of `1.0`.
pub const ONE: u32 = 0x3F80_0000;

/// The word of `-999.0`, which the simulator sends for a field without data.
pub const NO_DATA: u32 = 0xC479_C000;

/// Weight of the exponent field: the fraction lies below it.
pub const EXPONENT_UNIT: u32 = 0x80_0000;

/// The sign bit.
pub const SIGN: u32 = 0x8000_0000;

/// Biased exponent of a significand that already stands in `[2^23, 2^24)`.
pub const INTEGER_EXPONENT: u32 = 150;

/// The word of the positive number `significand * 2^(exponent - 150)`: the
/// significand is doubled, and the exponent lowered, until the significand's
/// leading one stands at bit 23, where the encoding leaves it out. A number too
/// small for that is subnormal: its exponent field is zero and its fraction is
/// the significand as it stands.
pub open spec fn normalized(significand: nat, exponent: nat) -> nat
    decreases exponent,
{
    if significand >= 0x80_0000 {
        (exponent * 0x80_0000 + (significand - 0x80_0000)) as nat
    } else if exponent <= 1 {
        significand
    } else {
        normalized(2 * significand, (exponent - 1) as nat)
    }
}

/// The word of the whole number `magnitude`, exact below `2^24`.
pub open spec fn word_of_nat(magnitude: nat) -> nat {
    if magnitude == 0 {
        0
    } else {
        normalized(magnitude, 150)
    }
}

/// The word of the integer `n`, exact for `-2^24 < n < 2^24`.
pub open spec fn word_of_int(n: int) -> nat {
    if n < 0 {
        0x8000_0000 + word_of_nat((-n) as nat)
    } else {
        word_of_nat(n as nat)
    }
}

/// A normalized significand keeps the word below the sign bit as long as the
/// exponent fits its eight bits.
pub proof fn lemma_normalized_bound(significand: nat, exponent: nat)
    requires
        0 < significand < 0x100_0000,
        exponent <= 254,
    ensures
        normalized(significand, exponent) < 0x7F80_0000,
    decreases exponent,
{
    if significand < 0x80_0000 && exponent > 1 {
        lemma_normalized_bound(2 * significand, (exponent - 1) as nat);
    }
}

fn encode_magnitude(magnitude: u32) -> (word: u32)
    requires
        0 < magnitude < 0x100_0000,
    ensures
        word == word_of_nat(magnitude as nat),
        word < 0x7F80_0000,
{
    let mut significand: u32 = magnitude;
    let mut exponent: u32 = INTEGER_EXPONENT;
    while significand < EXPONENT_UNIT && exponent > 1
        invariant
            0 < significand < 0x100_0000,
            exponent <= 150,
            normalized(significand as nat, exponent as nat) == normalized(magnitude as nat, 150),
        decreases exponent,
    {
        significand = 2 * significand;
        exponent = exponent - 1;
    }
    proof {
        lemma_normalized_bound(significand as nat, exponent as nat);
    }
    if significand >= EXPONENT_UNIT {
        exponent * 0x80_0000 + (significand - EXPONENT_UNIT)
    } else {
        significand
    }
}

/// The word of the single-precision number equal to `n`.
pub fn from_u8(n: u8) -> (word: u32)
    ensures
        word == word_of_int(n as int),
{
    if n == 0 {
        ZERO
    } else {
        encode_magnitude(n as u32)
    }
}

/// The word of the single-precision number equal to `n`.
pub fn from_i8(n: i8) -> (word: u32)
    ensures
        word == word_of_int(n as int),
{
    if n == 0 {
        ZERO
    } else if n > 0 {
        encode_magnitude(n as u32)
    } else {
        let magnitude: u32 = (-(n as i32)) as u32;
        SIGN + encode_magnitude(magnitude)
    }
}

/// The words of the numbers that the autopilot starts from.
pub proof fn lemma_known_words()
    ensures
        word_of_int(0) == 0,
        word_of_int(1) == 0x3F80_0000,
        word_of_int(10) == 0x4120_0000,
        word_of_int(180) == 0x4334_0000,
        word_of_int(250) == 0x437A_0000,
        word_of_int(15_000) == 0x466A_6000,
        word_of_int(-999) == 0xC479_C000,
{
    reveal_with_fuel(normalized, 25);
}

} // verus!
