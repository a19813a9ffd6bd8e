//! Sizes in words: a number of bytes written in the largest binary unit
//! that it reaches, with two decimals.

use crate::text::{decimal_digits, digit_char, push_decimal};
use vstd::prelude::*;

verus! {

/// The bytes in a kilobyte.
pub const KB: u64 = 1024;

/// The bytes in a megabyte.
pub const MB: u64 = 1_048_576;

/// The bytes in a gigabyte.
pub const GB: u64 = 1_073_741_824;

/// The least number that takes more than 53 binary digits.
pub const EXACT: u64 = 0x20_0000_0000_0000;

/// `num / den` rounded to the nearest whole number, a tie going to the
/// even one.
pub open spec fn nearest_even(num: nat, den: nat) -> nat {
    let q = num / den;
    let r = num % den;
    if 2 * r < den {
        q
    } else if 2 * r > den {
        q + 1
    } else if q % 2 == 0 {
        q
    } else {
        q + 1
    }
}

/// The distance between the numbers of 53 binary digits around `n`: 1 below
/// two to the 53rd, then doubling with each further binary digit of `n`.
pub open spec fn spacing(n: nat) -> nat
    decreases n,
{
    if n < EXACT {
        1
    } else {
        2 * spacing(n / 2)
    }
}

/// `n` as a double-precision number holds it: `n` itself where it has at
/// most 53 binary digits, else the nearest number of 53 digits, a tie
/// going to the even one.
pub open spec fn as_double(n: nat) -> nat {
    nearest_even(n, spacing(n)) * spacing(n)
}

/// The hundredths of `unit` in `bytes`, rounded to the nearest, a tie going
/// to the even one. The bytes count as a double-precision number holds
/// them.
pub open spec fn hundredths(bytes: nat, unit: nat) -> nat {
    nearest_even(as_double(bytes) * 100, unit)
}

/// A number of hundredths written with two decimals, and the unit's name.
pub open spec fn scaled_text(amount: nat, suffix: Seq<char>) -> Seq<char> {
    decimal_digits(amount / 100) + "."@ + seq![
        digit_char((amount % 100) / 10),
        digit_char((amount % 100) % 10),
    ] + " "@ + suffix
}

/// A number of bytes in words: below a kilobyte the bytes themselves, as
/// `512 B`; from there on the largest of KB, MB and GB that the number
/// reaches, with two decimals, as `1.50 KB`.
pub open spec fn size_text(bytes: u64) -> Seq<char> {
    if bytes >= GB {
        scaled_text(hundredths(bytes as nat, GB as nat), "GB"@)
    } else if bytes >= MB {
        scaled_text(hundredths(bytes as nat, MB as nat), "MB"@)
    } else if bytes >= KB {
        scaled_text(hundredths(bytes as nat, KB as nat), "KB"@)
    } else {
        decimal_digits(bytes as nat) + " B"@
    }
}

/// `num / den` rounded to the nearest whole number, a tie going to the
/// even one.
fn round_half_even(num: u128, den: u128) -> (rounded: u128)
    requires
        0 < den <= u64::MAX,
        num <= 0x1_0000_0000_0000_0000_0000,
    ensures
        rounded == nearest_even(num as nat, den as nat),
        rounded * den <= num + den,
{
    let q = num / den;
    let r = num % den;
    assert(q * den <= num) by (nonlinear_arith)
        requires
            q == num / den,
            den > 0,
    ;
    assert((q + 1) * den == q * den + den) by (nonlinear_arith);
    if 2 * r < den {
        q
    } else if 2 * r > den {
        q + 1
    } else if q % 2 == 0 {
        q
    } else {
        q + 1
    }
}

/// The distance between the numbers of 53 binary digits around `n`.
fn spacing_of(n: u64) -> (step: u64)
    ensures
        step == spacing(n as nat),
        1 <= step <= 4096,
{
    let mut rest = n;
    let mut step: u64 = 1;
    while rest >= EXACT
        invariant
            1 <= step <= 4096,
            rest * step <= n,
            spacing(n as nat) == step * spacing(rest as nat),
        decreases rest,
    {
        proof {
            let half: nat = (rest / 2) as nat;
            assert(spacing(rest as nat) == 2 * spacing(half));
            assert(step * (2 * spacing(half)) == (step * 2) * spacing(half))
                by (nonlinear_arith);
            assert((rest / 2) * (step * 2) <= rest * step) by (nonlinear_arith)
                requires
                    step >= 0,
                    rest >= 0,
            ;
            assert(step < 2048) by (nonlinear_arith)
                requires
                    rest >= 0x20_0000_0000_0000,
                    rest * step <= n,
                    n <= 0xffff_ffff_ffff_ffff,
                    step >= 1,
            ;
        }
        rest = rest / 2;
        step = step * 2;
    }
    assert(step * 1 == step) by (nonlinear_arith);
    step
}

/// `bytes` as a double-precision number holds it.
fn to_double(bytes: u64) -> (held: u128)
    ensures
        held == as_double(bytes as nat),
        held <= 0x1_0000_0000_0000_1000,
{
    let step = spacing_of(bytes) as u128;
    let rounded = round_half_even(bytes as u128, step);
    assert(rounded * step <= bytes + step);
    rounded * step
}

/// Writes a number of hundredths with two decimals, and the unit's name.
fn scaled(amount: u64, suffix: &str) -> (text: String)
    ensures
        text@ == scaled_text(amount as nat, suffix@),
{
    let mut text = String::new();
    push_decimal(&mut text, amount / 100);
    text.append(".");
    let cents = amount % 100;
    push_decimal(&mut text, cents / 10);
    push_decimal(&mut text, cents % 10);
    text.append(" ");
    text.append(suffix);
    proof {
        reveal_with_fuel(decimal_digits, 2);
        assert(text@ =~= scaled_text(amount as nat, suffix@));
    }
    text
}

/// Writes `bytes` in hundredths of `unit`, with the unit's name.
fn in_unit(bytes: u64, unit: u64, suffix: &str) -> (text: String)
    requires
        unit >= 1024,
    ensures
        text@ == scaled_text(hundredths(bytes as nat, unit as nat), suffix@),
{
    let held = to_double(bytes);
    let amount = round_half_even(held * 100, unit as u128);
    assert(amount <= u64::MAX) by (nonlinear_arith)
        requires
            amount * unit <= held * 100 + unit,
            unit >= 1024,
            held <= 0x1_0000_0000_0000_1000,
    ;
    scaled(amount as u64, suffix)
}

/// Writes a number of bytes in words: below a kilobyte the bytes
/// themselves, as `512 B`; from there on the largest of KB, MB and GB that
/// the number reaches, with two decimals, as `1.50 KB`. The quotient is the
/// one that double-precision arithmetic gives, rounded to the nearest
/// hundredth, a tie going to the even one.
pub fn format_size(bytes: u64) -> (text: String)
    ensures
        text@ == size_text(bytes),
{
    if bytes >= GB {
        in_unit(bytes, GB, "GB")
    } else if bytes >= MB {
        in_unit(bytes, MB, "MB")
    } else if bytes >= KB {
        in_unit(bytes, KB, "KB")
    } else {
        let mut text = String::new();
        push_decimal(&mut text, bytes);
        text.append(" B");
        assert(text@ =~= size_text(bytes));
        text
    }
}

/// Rounding goes to a nearest whole number: the rounded quotient, taken
/// back to the numerator's scale, is off by half the denominator at most.
pub proof fn rounding_is_nearest(num: nat, den: nat)
    requires
        den > 0,
    ensures
        2 * (nearest_even(num, den) * den - num) <= den,
        2 * (num - nearest_even(num, den) * den) <= den,
{
    let q = num / den;
    let r = num % den;
    assert(num == q * den + r && r < den) by (nonlinear_arith)
        requires
            q == num / den,
            r == num % den,
            den > 0,
    ;
    assert((q + 1) * den == q * den + den) by (nonlinear_arith);
}

/// A count of at most 53 binary digits is held as it is.
pub proof fn small_counts_are_exact(n: nat)
    requires
        n < EXACT,
    ensures
        as_double(n) == n,
{
    assert(spacing(n) == 1);
    assert(n / 1 == n && n % 1 == 0);
    assert(nearest_even(n, 1) == n);
    assert(n * 1 == n);
}

/// A count that is a whole number of hundredths of its unit is written
/// without rounding: `k` hundredths of `unit` come out as `k`.
pub proof fn whole_hundredths_are_exact(k: nat, unit: nat)
    requires
        unit > 0,
        unit % 100 == 0,
        k * (unit / 100) < EXACT,
    ensures
        hundredths(k * (unit / 100), unit) == k,
{
    let bytes = k * (unit / 100);
    small_counts_are_exact(bytes);
    assert(bytes * 100 == k * unit) by (nonlinear_arith)
        requires
            bytes == k * (unit / 100),
            unit % 100 == 0,
    ;
    assert((k * unit) / unit == k && (k * unit) % unit == 0) by (nonlinear_arith)
        requires
            unit > 0,
    ;
}

} // verus!
