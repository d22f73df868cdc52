//! Numbers as the player reads them.

use vstd::prelude::*;
use vstd::string::StringExecFns;

verus! {

/// `String::push` puts one character at the end of the string.
pub assume_specification[ String::push ](s: &mut String, c: char)
    ensures
        final(s)@ == old(s)@.push(c),
;

/// The character of a digit.
pub open spec fn digit_char(digit: nat) -> char {
    if digit == 0 {
        '0'
    } else if digit == 1 {
        '1'
    } else if digit == 2 {
        '2'
    } else if digit == 3 {
        '3'
    } else if digit == 4 {
        '4'
    } else if digit == 5 {
        '5'
    } else if digit == 6 {
        '6'
    } else if digit == 7 {
        '7'
    } else if digit == 8 {
        '8'
    } else {
        '9'
    }
}

/// The decimal digits of a number, without leading zeros; one zero for
/// zero.
pub open spec fn decimal(n: nat) -> Seq<char>
    decreases n,
{
    if n < 10 {
        seq![digit_char(n)]
    } else {
        decimal(n / 10).push(digit_char(n % 10))
    }
}

/// A whole number with its sign where it is below zero.
pub open spec fn signed_decimal(n: int) -> Seq<char> {
    if n < 0 {
        seq!['-'] + decimal((-n) as nat)
    } else {
        decimal(n as nat)
    }
}

/// A number of hundredths as a decimal number of units: the digits behind
/// the point are written as far as they are not zero.
pub open spec fn hundredths(n: int) -> Seq<char> {
    let size: nat = if n < 0 {
        (-n) as nat
    } else {
        n as nat
    };
    let sign: Seq<char> = if n < 0 {
        seq!['-']
    } else {
        seq![]
    };
    let whole = decimal(size / 100);
    let rest = size % 100;
    if rest == 0 {
        sign + whole
    } else if rest % 10 == 0 {
        sign + whole + seq!['.', digit_char(rest / 10)]
    } else {
        sign + whole + seq!['.', digit_char(rest / 10), digit_char(rest % 10)]
    }
}

/// A number of hundredths as a decimal number of units with both digits
/// behind the point.
pub open spec fn fixed_hundredths(n: nat) -> Seq<char> {
    decimal(n / 100) + seq!['.', digit_char((n % 100) / 10), digit_char(n % 10)]
}

/// The sign of a modifier: a plus above zero, a minus otherwise.
pub open spec fn spec_sign(n: int) -> char {
    if n > 0 {
        '+'
    } else {
        '-'
    }
}

/// The sign of a modifier: a plus above zero, a minus otherwise.
pub fn sign(n: i32) -> (r: char)
    ensures
        r == spec_sign(n as int),
{
    if n > 0 {
        '+'
    } else {
        '-'
    }
}

/// The character of a digit.
pub fn digit(value: u64) -> (r: char)
    requires
        value < 10,
    ensures
        r == digit_char(value as nat),
{
    if value == 0 {
        '0'
    } else if value == 1 {
        '1'
    } else if value == 2 {
        '2'
    } else if value == 3 {
        '3'
    } else if value == 4 {
        '4'
    } else if value == 5 {
        '5'
    } else if value == 6 {
        '6'
    } else if value == 7 {
        '7'
    } else if value == 8 {
        '8'
    } else {
        '9'
    }
}

/// Writes the decimal digits of a number at the end of a string.
pub fn push_decimal(out: &mut String, n: u64)
    ensures
        final(out)@ == old(out)@ + decimal(n as nat),
    decreases n,
{
    if n < 10 {
        out.push(digit(n));
        assert(old(out)@.push(digit_char(n as nat)) =~= old(out)@ + decimal(n as nat));
    } else {
        push_decimal(out, n / 10);
        out.push(digit(n % 10));
        assert((old(out)@ + decimal((n / 10) as nat)).push(digit_char((n % 10) as nat)) =~= old(out)@ + decimal(n as nat));
    }
}

/// The size of a number: the number without its sign.
pub fn magnitude(n: i64) -> (r: u64)
    ensures
        r == if n < 0 {
            -n
        } else {
            n as int
        },
{
    if n < 0 {
        let below: u64 = (-(n + 1)) as u64;
        below + 1
    } else {
        n as u64
    }
}

/// Writes a whole number at the end of a string, with its sign where it is
/// below zero.
pub fn push_signed(out: &mut String, n: i64)
    ensures
        final(out)@ == old(out)@ + signed_decimal(n as int),
{
    if n < 0 {
        out.push('-');
    }
    push_decimal(out, magnitude(n));
    assert(final(out)@ =~= old(out)@ + signed_decimal(n as int));
}

/// Writes a number of hundredths at the end of a string, as a decimal
/// number of units.
pub fn push_hundredths(out: &mut String, n: i64)
    ensures
        final(out)@ == old(out)@ + hundredths(n as int),
{
    if n < 0 {
        out.push('-');
    }
    let size: u64 = magnitude(n);
    push_decimal(out, size / 100);
    let rest: u64 = size % 100;
    if rest != 0 {
        out.push('.');
        out.push(digit(rest / 10));
        if rest % 10 != 0 {
            out.push(digit(rest % 10));
        }
    }
    assert(final(out)@ =~= old(out)@ + hundredths(n as int));
}

/// Writes a number of hundredths at the end of a string, with both digits
/// behind the point.
pub fn push_fixed_hundredths(out: &mut String, n: u64)
    ensures
        final(out)@ == old(out)@ + fixed_hundredths(n as nat),
{
    push_decimal(out, n / 100);
    out.push('.');
    out.push(digit((n % 100) / 10));
    out.push(digit(n % 10));
    assert(final(out)@ =~= old(out)@ + fixed_hundredths(n as nat));
}

/// Writes a text at the end of a string.
pub fn push_text(out: &mut String, text: &str)
    ensures
        final(out)@ == old(out)@ + text@,
{
    out.append(text);
}

/// The digits behind the point of a number below one, given as `rest`
/// parts of ten times `scale`, as far as they are not zero.
pub open spec fn fraction_digits(rest: nat, scale: nat) -> Seq<char>
    decreases scale,
{
    if rest == 0 || scale == 0 {
        Seq::empty()
    } else {
        seq![digit_char(rest / scale)] + fraction_digits(rest % scale, scale / 10)
    }
}

/// A number of millionths as a decimal number of units: the digits behind
/// the point are written as far as they are not zero.
pub open spec fn millionths(n: nat) -> Seq<char> {
    if n % 1_000_000 == 0 {
        decimal(n / 1_000_000)
    } else {
        decimal(n / 1_000_000) + seq!['.'] + fraction_digits(n % 1_000_000, 100_000)
    }
}

/// A number of millionths in hundredths, rounded to the nearest, halves
/// upwards.
pub open spec fn rounded_hundredths(n: nat) -> nat {
    (n + 5_000) / 10_000
}

/// Writes the digits behind the point of a number below one at the end of
/// a string.
fn push_fraction_digits(out: &mut String, rest: u64, scale: u64)
    requires
        rest < 10 * scale || rest == 0,
        scale == 0 || scale == 1 || scale == 10 || scale == 100 || scale == 1_000 || scale
            == 10_000 || scale == 100_000,
    ensures
        final(out)@ == old(out)@ + fraction_digits(rest as nat, scale as nat),
    decreases scale,
{
    if rest == 0 || scale == 0 {
        assert(old(out)@ + fraction_digits(rest as nat, scale as nat) =~= old(out)@);
    } else {
        assert(rest / scale < 10 && rest % scale < scale) by (nonlinear_arith)
            requires
                rest < 10 * scale,
                0 < scale,
        ;
        out.push(digit(rest / scale));
        push_fraction_digits(out, rest % scale, scale / 10);
        assert(final(out)@ =~= old(out)@ + fraction_digits(rest as nat, scale as nat));
    }
}

/// Writes a number of millionths at the end of a string, as a decimal
/// number of units.
pub fn push_millionths(out: &mut String, n: u64)
    ensures
        final(out)@ == old(out)@ + millionths(n as nat),
{
    push_decimal(out, n / 1_000_000);
    let rest: u64 = n % 1_000_000;
    if rest != 0 {
        out.push('.');
        push_fraction_digits(out, rest, 100_000);
    }
    assert(final(out)@ =~= old(out)@ + millionths(n as nat));
}

/// A number of millionths in hundredths, rounded to the nearest.
pub fn round_to_hundredths(n: u64) -> (r: u64)
    ensures
        r == rounded_hundredths(n as nat),
{
    let whole: u64 = n / 10_000;
    if n % 10_000 >= 5_000 {
        whole + 1
    } else {
        whole
    }
}

} // verus!
