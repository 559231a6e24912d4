//! Whole numbers as doubles. A document keeps a whole number exactly; a
//! consumer that reads every number as a double gets it from here, rounded as
//! IEEE 754 rounds: to the nearest double, and to the even one of two that
//! are equally near. Whole numbers up to 2^53 in magnitude survive unchanged.

use vstd::arithmetic::div_mod::lemma_div_denominator;
use vstd::arithmetic::div_mod::lemma_div_is_ordered;
use vstd::arithmetic::div_mod::lemma_div_multiples_vanish;
use vstd::arithmetic::div_mod::lemma_fundamental_div_mod;
use vstd::arithmetic::power2::lemma2_to64;
use vstd::arithmetic::power2::lemma2_to64_rest;
use vstd::arithmetic::power2::lemma_pow2_adds;
use vstd::arithmetic::power2::lemma_pow2_pos;
use vstd::arithmetic::power2::lemma_pow2_strictly_increases;
use vstd::arithmetic::power2::lemma_pow2_unfold;
use vstd::arithmetic::power2::pow2;
use vstd::prelude::*;
use crate::answer::json::Number;

verus! {

/// The exponent of the highest power of two that is not above `magnitude`.
pub open spec fn binary_exponent(magnitude: nat) -> nat
    decreases magnitude,
{
    if magnitude <= 1 {
        0
    } else {
        1 + binary_exponent(magnitude / 2)
    }
}

/// `magnitude` counted in units of `unit`, rounded to the nearest count and,
/// halfway between two counts, to the even one.
pub open spec fn rounded_to_even(magnitude: nat, unit: nat) -> nat {
    let count = magnitude / unit;
    let rest = magnitude % unit;
    if 2 * rest > unit || (2 * rest == unit && count % 2 == 1) {
        count + 1
    } else {
        count
    }
}

/// The 53 bits of a double's significand for a magnitude that is not zero:
/// the magnitude scaled to lie between 2^52 and 2^53, exactly where it has no
/// more than 53 bits, rounded where it has more.
pub open spec fn significand(magnitude: nat) -> nat {
    let exponent = binary_exponent(magnitude);
    if exponent <= 52 {
        magnitude * pow2((52 - exponent) as nat)
    } else {
        rounded_to_even(magnitude, pow2((exponent - 52) as nat))
    }
}

/// The bit pattern of the double nearest to a whole number: the sign in bit
/// 63, the exponent with its bias of 1023 from bit 52 up, and the significand
/// without its leading one below; a significand that rounding has carried to
/// 2^53 raises the exponent by one. Zero is all bits zero.
pub open spec fn double_bits_of(long: int) -> int {
    if long == 0 {
        0
    } else {
        let magnitude = (if long < 0 {
            -long
        } else {
            long
        }) as nat;
        let sign: int = if long < 0 {
            pow2(63) as int
        } else {
            0
        };
        sign + (1023 + binary_exponent(magnitude)) * pow2(52) + significand(magnitude) - pow2(52)
    }
}

proof fn lemma_halving_step(magnitude: nat, top: nat)
    requires
        top >= 1,
        2 * top <= magnitude,
    ensures
        magnitude / top >= 2,
        (magnitude / top) / 2 == magnitude / (2 * top),
{
    lemma_div_is_ordered((2 * top) as int, magnitude as int, top as int);
    lemma_div_multiples_vanish(2, top as int);
    lemma_div_denominator(magnitude as int, top as int, 2);
    assert(top * 2 == 2 * top);
}

proof fn lemma_last_step(magnitude: nat, top: nat)
    requires
        1 <= top <= magnitude < 2 * top,
    ensures
        magnitude / top == 1,
{
    lemma_fundamental_div_mod(magnitude as int, top as int);
    let q = magnitude as int / top as int;
    lemma_div_is_ordered(top as int, magnitude as int, top as int);
    lemma_div_multiples_vanish(1, top as int);
    assert(top * 1 == top);
    assert(q >= 1);
    if q >= 2 {
        assert(top * q >= top * 2) by (nonlinear_arith)
            requires
                q >= 2,
                top >= 1,
        ;
    }
}

proof fn lemma_count_in_range(magnitude: nat, exponent: nat)
    requires
        52 < exponent,
        pow2(exponent) <= magnitude < pow2(exponent + 1),
    ensures
        pow2(52) <= magnitude / pow2((exponent - 52) as nat) < pow2(53),
        pow2((exponent - 52) as nat) > 0,
{
    let unit = pow2((exponent - 52) as nat);
    lemma_pow2_pos((exponent - 52) as nat);
    lemma_pow2_adds(52, (exponent - 52) as nat);
    lemma_pow2_adds(53, (exponent - 52) as nat);
    assert(pow2(exponent) == pow2(52) * unit);
    assert(pow2(exponent + 1) == pow2(53) * unit);
    lemma_div_is_ordered((pow2(52) * unit) as int, magnitude as int, unit as int);
    lemma_div_multiples_vanish(pow2(52) as int, unit as int);
    assert(unit * pow2(52) == pow2(52) * unit) by (nonlinear_arith);
    let count = magnitude as int / unit as int;
    lemma_fundamental_div_mod(magnitude as int, unit as int);
    if count >= pow2(53) {
        assert(unit * count >= unit * pow2(53)) by (nonlinear_arith)
            requires
                count >= pow2(53),
                unit > 0,
        ;
        assert(unit * pow2(53) == pow2(53) * unit) by (nonlinear_arith);
    }
}

/// A power of two lies between a magnitude and its half: the highest power of
/// two that is not above a magnitude is above half of it.
pub proof fn lemma_binary_exponent_bounds(magnitude: nat)
    requires
        magnitude > 0,
    ensures
        pow2(binary_exponent(magnitude)) <= magnitude < pow2(binary_exponent(magnitude) + 1),
    decreases magnitude,
{
    lemma2_to64();
    if magnitude > 1 {
        lemma_binary_exponent_bounds(magnitude / 2);
        lemma_pow2_unfold(binary_exponent(magnitude));
        lemma_pow2_unfold(binary_exponent(magnitude) + 1);
    }
}

/// Rounding to even is rounding to the nearest: the rounded count of units
/// is at most half a unit away from the magnitude.
pub proof fn lemma_rounded_is_nearest(magnitude: nat, unit: nat)
    requires
        unit > 0,
    ensures
        2 * (rounded_to_even(magnitude, unit) * unit - magnitude) <= unit,
        2 * (magnitude - rounded_to_even(magnitude, unit) * unit) <= unit,
{
    let count = magnitude / unit;
    let rest = magnitude % unit;
    lemma_fundamental_div_mod(magnitude as int, unit as int);
    assert(unit * count == count * unit) by (nonlinear_arith);
    assert((count + 1) * unit == count * unit + unit) by (nonlinear_arith);
    assert(0 <= rest < unit);
}

/// The double of a whole number is the nearest double. Its significand,
/// scaled back by the power of two that it was scaled by, is the magnitude
/// itself where the magnitude has no more than 53 bits, so that every whole
/// number up to 2^53 in magnitude survives unchanged; and it is at most half
/// a unit of the last place away from the magnitude where it has more.
pub proof fn lemma_double_is_nearest(magnitude: nat)
    requires
        magnitude > 0,
    ensures
        binary_exponent(magnitude) <= 52 ==> significand(magnitude) == magnitude * pow2(
            (52 - binary_exponent(magnitude)) as nat,
        ),
        binary_exponent(magnitude) > 52 ==> {
            let unit = pow2((binary_exponent(magnitude) - 52) as nat);
            &&& 2 * (significand(magnitude) * unit - magnitude) <= unit
            &&& 2 * (magnitude - significand(magnitude) * unit) <= unit
        },
        magnitude <= pow2(53) && binary_exponent(magnitude) > 52 ==> significand(magnitude) * 2
            == magnitude,
        pow2(52) <= significand(magnitude) <= pow2(53),
{
    let exponent = binary_exponent(magnitude);
    lemma_binary_exponent_bounds(magnitude);
    lemma2_to64();
    lemma2_to64_rest();
    if exponent > 52 {
        let unit = pow2((exponent - 52) as nat);
        lemma_count_in_range(magnitude, exponent);
        lemma_rounded_is_nearest(magnitude, unit);
        if magnitude <= pow2(53) {
            if exponent > 53 {
                lemma_pow2_strictly_increases(53, exponent);
            }
            assert(exponent == 53);
            assert(magnitude == pow2(53));
            assert(unit == 2);
        }
    } else {
        lemma_pow2_adds(exponent, (52 - exponent) as nat);
        lemma_pow2_adds(exponent + 1, (52 - exponent) as nat);
        lemma_pow2_pos((52 - exponent) as nat);
        let scale = pow2((52 - exponent) as nat);
        assert(pow2(exponent) * scale <= magnitude * scale) by (nonlinear_arith)
            requires
                pow2(exponent) <= magnitude,
                scale > 0,
        ;
        assert(magnitude * scale < pow2(exponent + 1) * scale) by (nonlinear_arith)
            requires
                magnitude < pow2(exponent + 1),
                scale > 0,
        ;
    }
}

/// The bit pattern of the double nearest to `long`.
pub fn long_to_double_bits(long: i64) -> (bits: u64)
    ensures
        bits == double_bits_of(long as int),
{
    if long == 0 {
        return 0;
    }
    let magnitude: u64 = if long < 0 {
        ((-(long + 1)) as u64) + 1
    } else {
        long as u64
    };
    proof {
        lemma2_to64();
        lemma2_to64_rest();
    }
    let mut exponent: u64 = 0;
    let mut top: u64 = 1;
    while top <= magnitude / 2
        invariant
            1 <= top <= magnitude <= 0x8000_0000_0000_0000,
            top == pow2(exponent as nat),
            exponent <= 63,
            binary_exponent(magnitude as nat) == exponent + binary_exponent(
                (magnitude / top) as nat,
            ),
        decreases magnitude - top,
    {
        proof {
            lemma_halving_step(magnitude as nat, top as nat);
            lemma_pow2_unfold((exponent + 1) as nat);
            lemma2_to64_rest();
            if exponent + 1 > 63 {
                lemma_pow2_strictly_increases(63, (exponent + 1) as nat);
            }
        }
        top = top * 2;
        exponent = exponent + 1;
    }
    proof {
        lemma_last_step(magnitude as nat, top as nat);
        lemma_pow2_unfold((exponent + 1) as nat);
    }
    assert(binary_exponent(magnitude as nat) == exponent);
    assert(pow2(exponent as nat) <= magnitude < pow2((exponent + 1) as nat));
    let leading: u64 = if exponent <= 52 {
        let mut scaled: u64 = magnitude;
        let mut at: u64 = exponent;
        proof {
            lemma2_to64();
            assert(pow2((at - exponent) as nat) == 1);
            assert(magnitude * 1 == magnitude);
        }
        while at < 52
            invariant
                exponent <= at <= 52,
                scaled == magnitude * pow2((at - exponent) as nat),
                pow2(at as nat) <= scaled < pow2((at + 1) as nat),
            decreases 52 - at,
        {
            proof {
                lemma_pow2_unfold((at + 1 - exponent) as nat);
                lemma_pow2_unfold((at + 1) as nat);
                lemma_pow2_unfold((at + 2) as nat);
                lemma_pow2_strictly_increases((at + 2) as nat, 64);
                lemma2_to64();
                assert(magnitude * (2 * pow2((at - exponent) as nat)) == 2 * (magnitude * pow2(
                    (at - exponent) as nat,
                ))) by (nonlinear_arith);
            }
            scaled = scaled * 2;
            at = at + 1;
        }
        scaled
    } else {
        let mut unit: u64 = 1;
        let mut at: u64 = 52;
        while at < exponent
            invariant
                52 <= at <= exponent <= 63,
                unit == pow2((at - 52) as nat),
                unit <= 2048,
            decreases exponent - at,
        {
            proof {
                lemma_pow2_unfold((at + 1 - 52) as nat);
                lemma2_to64();
                if at + 1 - 52 < 11 {
                    lemma_pow2_strictly_increases((at + 1 - 52) as nat, 11);
                }
            }
            unit = unit * 2;
            at = at + 1;
        }
        proof {
            lemma_count_in_range(magnitude as nat, exponent as nat);
        }
        let count = magnitude / unit;
        let rest = magnitude % unit;
        if 2 * rest > unit || (2 * rest == unit && count % 2 == 1) {
            count + 1
        } else {
            count
        }
    };
    proof {
        lemma2_to64_rest();
    }
    assert(leading == significand(magnitude as nat));
    assert(0x10_0000_0000_0000 <= leading <= 0x20_0000_0000_0000);
    let sign: u64 = if long < 0 {
        0x8000_0000_0000_0000
    } else {
        0
    };
    assert((1023 + exponent) * 0x10_0000_0000_0000 <= 1086 * 0x10_0000_0000_0000) by (nonlinear_arith)
        requires
            exponent <= 63,
    ;
    sign + (1023 + exponent) * 0x10_0000_0000_0000 + (leading - 0x10_0000_0000_0000)
}

/// The bit pattern of a number read as a double.
pub open spec fn number_double_bits(number: Number) -> int {
    match number {
        Number::Integer(long) => double_bits_of(long as int),
        Number::Double(bits) => bits as int,
    }
}

impl Number {
    /// The bit pattern of this number read as a double: the nearest double
    /// for a whole number, the double itself for a double.
    pub fn as_double_bits(&self) -> (bits: u64)
        ensures
            bits == number_double_bits(*self),
    {
        match self {
            Number::Integer(long) => long_to_double_bits(*long),
            Number::Double(bits) => *bits,
        }
    }
}

} // verus!
