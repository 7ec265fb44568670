//! Decimal text for whole numbers and for fixed-point amounts.
//!
//! Amounts are held as whole numbers of a small unit (hundredths, or the
//! finer units the tax calculator produces).  Nothing is rounded before an
//! amount is printed; printing rounds half to even.

use vstd::prelude::*;

verus! {

/// The character of the decimal digit `d`.
pub open spec fn spec_digit(d: int) -> char
    recommends
        0 <= d <= 9,
{
    if d == 0 {
        '0'
    } else if d == 1 {
        '1'
    } else if d == 2 {
        '2'
    } else if d == 3 {
        '3'
    } else if d == 4 {
        '4'
    } else if d == 5 {
        '5'
    } else if d == 6 {
        '6'
    } else if d == 7 {
        '7'
    } else if d == 8 {
        '8'
    } else {
        '9'
    }
}

/// The decimal digits of `n`, without leading zeros (`"0"` for zero).
pub open spec fn spec_decimal(n: nat) -> Seq<char>
    decreases n,
{
    if n < 10 {
        seq![spec_digit(n as int)]
    } else {
        spec_decimal(n / 10).push(spec_digit((n % 10) as int))
    }
}

/// The last `width` decimal digits of `n`, with leading zeros where `n` is short.
pub open spec fn spec_padded(n: nat, width: nat) -> Seq<char>
    decreases width,
{
    if width == 0 {
        Seq::<char>::empty()
    } else {
        spec_padded(n / 10, (width - 1) as nat).push(spec_digit((n % 10) as int))
    }
}

/// `n` without its last `width` decimal digits.
pub open spec fn spec_drop_digits(n: nat, width: nat) -> nat
    decreases width,
{
    if width == 0 {
        n
    } else {
        spec_drop_digits(n / 10, (width - 1) as nat)
    }
}

/// `m / unit`, rounded to the nearest whole number, a tie going to the even one.
pub open spec fn spec_round_half_even(m: nat, unit: nat) -> nat
    recommends
        unit > 0,
{
    let q = m / unit;
    let r = m % unit;
    if 2 * r > unit || (2 * r == unit && q % 2 == 1) {
        q + 1
    } else {
        q
    }
}

/// The magnitude of `v`.
pub open spec fn spec_abs(v: int) -> nat {
    if v < 0 {
        (-v) as nat
    } else {
        v as nat
    }
}

/// `n` hundredths and the like as text: `n` counts steps of the last of
/// `decimals` fractional digits.
pub open spec fn spec_fixed(n: nat, decimals: nat) -> Seq<char> {
    if decimals == 0 {
        spec_decimal(n)
    } else {
        spec_decimal(spec_drop_digits(n, decimals)).push('.') + spec_padded(n, decimals)
    }
}

/// The text of `value / unit` rounded half to even to a whole number `n`,
/// and `n` written with `decimals` fractional digits.  A value below zero
/// keeps its sign even where it rounds to zero.
pub open spec fn spec_format_rounded(value: int, unit: nat, decimals: nat) -> Seq<char> {
    let n = spec_round_half_even(spec_abs(value), unit);
    if value < 0 {
        seq!['-'] + spec_fixed(n, decimals)
    } else {
        spec_fixed(n, decimals)
    }
}

/// The character of one decimal digit.
pub fn digit_char(d: u8) -> (c: char)
    requires
        d <= 9,
    ensures
        c == spec_digit(d as int),
{
    if d == 0 {
        '0'
    } else if d == 1 {
        '1'
    } else if d == 2 {
        '2'
    } else if d == 3 {
        '3'
    } else if d == 4 {
        '4'
    } else if d == 5 {
        '5'
    } else if d == 6 {
        '6'
    } else if d == 7 {
        '7'
    } else if d == 8 {
        '8'
    } else {
        '9'
    }
}

/// Appends the decimal digits of `n` to `out`.
pub fn push_decimal(out: &mut String, n: u128)
    ensures
        final(out)@ == old(out)@ + spec_decimal(n as nat),
    decreases n,
{
    if n >= 10 {
        push_decimal(out, n / 10);
    }
    let d: u8 = (n % 10) as u8;
    out.push(digit_char(d));
    assert(final(out)@ =~= old(out)@ + spec_decimal(n as nat));
}

/// Appends the last `width` decimal digits of `n` to `out`, zero-padded.
pub fn push_padded(out: &mut String, n: u128, width: u8)
    ensures
        final(out)@ == old(out)@ + spec_padded(n as nat, width as nat),
    decreases width,
{
    if width > 0 {
        push_padded(out, n / 10, width - 1);
        let d: u8 = (n % 10) as u8;
        out.push(digit_char(d));
    }
    assert(final(out)@ =~= old(out)@ + spec_padded(n as nat, width as nat));
}

/// `n` without its last `width` decimal digits.
pub fn drop_digits(n: u128, width: u8) -> (r: u128)
    ensures
        r == spec_drop_digits(n as nat, width as nat),
    decreases width,
{
    if width == 0 {
        n
    } else {
        drop_digits(n / 10, width - 1)
    }
}

/// The decimal digits of `n`.
pub fn decimal_string(n: u128) -> (s: String)
    ensures
        s@ == spec_decimal(n as nat),
{
    let mut s = String::new();
    push_decimal(&mut s, n);
    assert(s@ =~= spec_decimal(n as nat));
    s
}

/// The magnitude of `v`.
pub fn magnitude(v: i128) -> (m: u128)
    ensures
        m == spec_abs(v as int),
{
    if v >= 0 {
        v as u128
    } else if v == i128::MIN {
        0x8000_0000_0000_0000_0000_0000_0000_0000u128
    } else {
        (-v) as u128
    }
}

/// `m / unit` rounded half to even.
pub fn round_half_even(m: u128, unit: u128) -> (n: u128)
    requires
        unit > 0,
    ensures
        n == spec_round_half_even(m as nat, unit as nat),
{
    let q: u128 = m / unit;
    let r: u128 = m % unit;
    let rest: u128 = unit - r;
    if r > rest || (r == rest && q % 2 == 1) {
        assert(q <= m / 2) by (nonlinear_arith)
            requires
                unit >= 2,
                q == m / unit,
        ;
        q + 1
    } else {
        q
    }
}

/// Appends to `out` the text of `value / unit`, rounded half to even and
/// written with `decimals` fractional digits.
pub fn push_rounded(out: &mut String, value: i128, unit: u128, decimals: u8)
    requires
        unit > 0,
    ensures
        final(out)@ == old(out)@ + spec_format_rounded(value as int, unit as nat, decimals as nat),
{
    let n = round_half_even(magnitude(value), unit);
    if value < 0 {
        out.push('-');
    }
    if decimals == 0 {
        push_decimal(out, n);
    } else {
        push_decimal(out, drop_digits(n, decimals));
        out.push('.');
        push_padded(out, n, decimals);
    }
    assert(final(out)@ =~= old(out)@ + spec_format_rounded(
        value as int,
        unit as nat,
        decimals as nat,
    ));
}

/// The text of `value / unit`, rounded half to even and written with
/// `decimals` fractional digits.
pub fn format_rounded(value: i128, unit: u128, decimals: u8) -> (s: String)
    requires
        unit > 0,
    ensures
        s@ == spec_format_rounded(value as int, unit as nat, decimals as nat),
{
    let mut s = String::new();
    push_rounded(&mut s, value, unit, decimals);
    assert(s@ =~= spec_format_rounded(value as int, unit as nat, decimals as nat));
    s
}

/// `n` steps of the last of `digits` fractional digits, written with as
/// few fractional digits as it takes: zeros at the end are left out, and
/// with them the point where nothing follows it.
pub open spec fn spec_plain_nat(n: nat, digits: nat) -> Seq<char>
    decreases digits,
{
    if digits == 0 {
        spec_decimal(n)
    } else if n % 10 == 0 {
        spec_plain_nat(n / 10, (digits - 1) as nat)
    } else {
        spec_fixed(n, digits)
    }
}

/// A number of steps of the last of `digits` fractional digits, written
/// in full and without zeros at its end; a minus sign before a value below
/// zero.
pub open spec fn spec_plain(value: int, digits: nat) -> Seq<char> {
    if value < 0 {
        seq!['-'] + spec_plain_nat(spec_abs(value), digits)
    } else {
        spec_plain_nat(spec_abs(value), digits)
    }
}

/// Appends `value`, a number of steps of the last of `digits` fractional
/// digits, written in full and without zeros at its end.
pub fn push_plain(out: &mut String, value: i128, digits: u8)
    ensures
        final(out)@ == old(out)@ + spec_plain(value as int, digits as nat),
{
    let mut n = magnitude(value);
    let mut left = digits;
    if value < 0 {
        out.push('-');
    }
    let ghost start = out@;
    while left > 0 && n % 10 == 0
        invariant
            spec_plain_nat(n as nat, left as nat) == spec_plain_nat(
                spec_abs(value as int),
                digits as nat,
            ),
        decreases left,
    {
        n = n / 10;
        left = left - 1;
    }
    if left == 0 {
        push_decimal(out, n);
    } else {
        push_decimal(out, drop_digits(n, left));
        out.push('.');
        push_padded(out, n, left);
    }
    assert(final(out)@ =~= old(out)@ + spec_plain(value as int, digits as nat));
}

} // verus!
