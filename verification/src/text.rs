//! Decimal digits as text: the building block of every number that the value
//! model writes out.

use vstd::prelude::*;

verus! {

/// The character that stands for one decimal digit.
pub open spec fn digit_char(digit: int) -> char
    recommends
        0 <= digit <= 9,
{
    if digit == 0 {
        '0'
    } else if digit == 1 {
        '1'
    } else if digit == 2 {
        '2'
    } else if digit == 3 {
        '3'
    } else if digit == 4 {
        '4'
    } else if digit == 5 {
        '5'
    } else if digit == 6 {
        '6'
    } else if digit == 7 {
        '7'
    } else if digit == 8 {
        '8'
    } else {
        '9'
    }
}

/// A width lowered by one place, and never below zero.
pub open spec fn narrower(width: nat) -> nat {
    if width == 0 {
        0
    } else {
        (width - 1) as nat
    }
}

/// The decimal digits of `number`, most significant first, with zeros in front
/// until there are at least `width` of them. There is always at least one digit.
pub open spec fn digits(number: nat, width: nat) -> Seq<char>
    decreases number, width,
{
    if number < 10 && width <= 1 {
        seq![digit_char(number as int)]
    } else {
        digits(number / 10, narrower(width)).push(digit_char((number % 10) as int))
    }
}

/// A whole number with its sign: a minus in front of the digits of a negative
/// one, nothing in front of the others.
pub open spec fn signed_digits(number: int) -> Seq<char> {
    if number < 0 {
        seq!['-'] + digits((-number) as nat, 1)
    } else {
        digits(number as nat, 1)
    }
}

/// The digits after a decimal point of `fraction` counted in units of
/// `10^-places`, without the zeros at the end; a fraction of zero is one `0`.
pub open spec fn fraction_digits(fraction: nat, places: nat) -> Seq<char>
    decreases places,
{
    if places > 1 && fraction % 10 == 0 {
        fraction_digits(fraction / 10, (places - 1) as nat)
    } else {
        digits(fraction, places)
    }
}

/// The text of one digit.
pub(crate) fn digit_text(digit: u64) -> (text: &'static str)
    requires
        digit <= 9,
    ensures
        text@ == seq![digit_char(digit as int)],
{
    proof {
        reveal_strlit("0");
        reveal_strlit("1");
        reveal_strlit("2");
        reveal_strlit("3");
        reveal_strlit("4");
        reveal_strlit("5");
        reveal_strlit("6");
        reveal_strlit("7");
        reveal_strlit("8");
        reveal_strlit("9");
    }
    let text = if digit == 0 {
        "0"
    } else if digit == 1 {
        "1"
    } else if digit == 2 {
        "2"
    } else if digit == 3 {
        "3"
    } else if digit == 4 {
        "4"
    } else if digit == 5 {
        "5"
    } else if digit == 6 {
        "6"
    } else if digit == 7 {
        "7"
    } else if digit == 8 {
        "8"
    } else {
        "9"
    };
    assert(text@ =~= seq![digit_char(digit as int)]);
    text
}

/// Writes `digits(number, width)` at the end of `out`.
pub(crate) fn append_digits(out: &mut String, number: u64, width: usize)
    ensures
        final(out)@ == old(out)@ + digits(number as nat, width as nat),
    decreases number, width,
{
    if number < 10 && width <= 1 {
        out.append(digit_text(number));
        assert(out@ =~= old(out)@ + digits(number as nat, width as nat));
    } else {
        let rest: usize = if width == 0 {
            0
        } else {
            width - 1
        };
        append_digits(out, number / 10, rest);
        out.append(digit_text(number % 10));
        assert(out@ =~= old(out)@ + digits(number as nat, width as nat));
    }
}

/// Writes `signed_digits(number)` at the end of `out`.
pub(crate) fn append_signed(out: &mut String, number: i64)
    ensures
        final(out)@ == old(out)@ + signed_digits(number as int),
{
    if number < 0 {
        proof {
            reveal_strlit("-");
        }
        out.append("-");
        let magnitude: u64 = ((-(number + 1)) as u64) + 1;
        append_digits(out, magnitude, 1);
        assert(out@ =~= old(out)@ + signed_digits(number as int));
    } else {
        append_digits(out, number as u64, 1);
    }
}

/// Writes `fraction_digits(fraction, places)` at the end of `out`.
pub(crate) fn append_fraction(out: &mut String, fraction: u64, places: usize)
    ensures
        final(out)@ == old(out)@ + fraction_digits(fraction as nat, places as nat),
{
    let mut rest: u64 = fraction;
    let mut left: usize = places;
    while left > 1 && rest % 10 == 0
        invariant
            fraction_digits(rest as nat, left as nat) == fraction_digits(fraction as nat, places as nat),
        decreases left,
    {
        rest = rest / 10;
        left = left - 1;
    }
    append_digits(out, rest, left);
}

} // verus!
