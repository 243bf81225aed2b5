//! Byte counts and throughputs in words: `1536` is `1.50 KB`.
//!
//! A count is shown in the largest of the units B, KB, MB, GB, TB and PB in
//! which it is at least one, with two decimals. The digits are those of the
//! double-precision number nearest to the count, rounded half to even: this
//! is what printing that number with two decimals gives.

use crate::config::RandomDd;
use crate::text::{decimal_digits, digit_char, push_decimal, push_digit};
use vstd::prelude::*;
use vstd::string::*;

verus! {

/// 2^53: up to here every integer is a double-precision number.
pub open spec fn exact_limit() -> nat {
    0x20_0000_0000_0000
}

/// The quotient of `num` by `den`, rounded to the nearest integer, and to the
/// even one where two are equally near.
pub open spec fn round_half_even(num: nat, den: nat) -> nat
    recommends
        den > 0,
{
    let quotient = num / den;
    let rest = num % den;
    if 2 * rest < den {
        quotient
    } else if 2 * rest > den {
        quotient + 1
    } else if quotient % 2 == 0 {
        quotient
    } else {
        quotient + 1
    }
}

/// The distance between neighbouring double-precision numbers around `n`,
/// or one where `n` is below 2^53: the power of two by which `n` has to be
/// divided to fall below 2^53.
pub open spec fn double_step(n: nat) -> nat
    decreases n,
{
    if n < exact_limit() {
        1
    } else {
        2 * double_step(n / 2)
    }
}

/// The double-precision number nearest to `n`.
pub open spec fn nearest_double(n: nat) -> nat {
    round_half_even(n, double_step(n)) * double_step(n)
}

/// The unit in which a count is shown, as the power of 1024 that it is:
/// the largest one, up to the fifth, that the count reaches.
pub open spec fn unit_index(bytes: u64) -> nat {
    if bytes < 0x400 {
        0
    } else if bytes < 0x10_0000 {
        1
    } else if bytes < 0x4000_0000 {
        2
    } else if bytes < 0x100_0000_0000 {
        3
    } else if bytes < 0x4_0000_0000_0000 {
        4
    } else {
        5
    }
}

/// The bytes in the unit of the given index.
pub open spec fn unit_scale(index: nat) -> nat {
    if index == 0 {
        1
    } else if index == 1 {
        0x400
    } else if index == 2 {
        0x10_0000
    } else if index == 3 {
        0x4000_0000
    } else if index == 4 {
        0x100_0000_0000
    } else {
        0x4_0000_0000_0000
    }
}

/// The name of the unit of the given index.
pub open spec fn unit_name(index: nat) -> Seq<char> {
    if index == 0 {
        seq!['B']
    } else if index == 1 {
        seq!['K', 'B']
    } else if index == 2 {
        seq!['M', 'B']
    } else if index == 3 {
        seq!['G', 'B']
    } else if index == 4 {
        seq!['T', 'B']
    } else {
        seq!['P', 'B']
    }
}

/// A count in hundredths of its unit.
pub open spec fn size_hundredths(bytes: u64) -> nat {
    round_half_even(nearest_double(bytes as nat) * 100, unit_scale(unit_index(bytes)))
}

/// A count in words: the whole units, a point, two decimals, a space and
/// the unit's name.
pub open spec fn size_text(bytes: u64) -> Seq<char> {
    let hundredths = size_hundredths(bytes);
    decimal_digits(hundredths / 100) + seq!['.'] + seq![
        digit_char(hundredths % 100 / 10),
        digit_char(hundredths % 10),
    ] + seq![' '] + unit_name(unit_index(bytes))
}

/// A throughput in words: the count, then `/s`.
pub open spec fn speed_text(bytes_per_sec: u64) -> Seq<char> {
    size_text(bytes_per_sec) + seq!['/', 's']
}

/// The bytes copied per second, rounded down and held at the largest value
/// of 64 bits; zero where no time has passed.
pub open spec fn throughput_of(bytes: u64, elapsed_nanos: u128) -> u64 {
    if elapsed_nanos == 0 {
        0
    } else if bytes * 1_000_000_000 / (elapsed_nanos as int) > u64::MAX {
        u64::MAX
    } else {
        (bytes * 1_000_000_000 / (elapsed_nanos as int)) as u64
    }
}

/// Below 2^53 a count is its own nearest double-precision number.
pub proof fn lemma_nearest_double_exact(n: nat)
    requires
        n < exact_limit(),
    ensures
        nearest_double(n) == n,
{
    let step = double_step(n);
    assert(step == 1);
    assert(n / 1 == n && n % 1 == 0);
    assert(round_half_even(n, step) == round_half_even(n, 1));
    assert(round_half_even(n, 1) * 1 == n);
}

fn rounded_quotient(num: u128, den: u128) -> (rounded: u128)
    requires
        0 < den <= u64::MAX,
        num / den < u128::MAX,
    ensures
        rounded == round_half_even(num as nat, den as nat),
        rounded <= num / den + 1,
{
    let quotient = num / den;
    let rest = num % den;
    if 2 * rest < den {
        quotient
    } else if 2 * rest > den {
        quotient + 1
    } else if quotient % 2 == 0 {
        quotient
    } else {
        quotient + 1
    }
}

fn step_of(n: u64) -> (step: u64)
    ensures
        step == double_step(n as nat),
        step >= 1,
        step == 1 || 0x10_0000_0000_0000 * step <= n,
        (n as nat) / (step as nat) < exact_limit(),
    decreases n,
{
    if n < 0x20_0000_0000_0000 {
        1
    } else {
        let half = step_of(n / 2);
        assert((n as nat / 2) / (half as nat) == (n as nat) / (2 * half) as nat) by {
            vstd::arithmetic::div_mod::lemma_div_denominator(n as int, 2, half as int);
        }
        2 * half
    }
}

fn unit_of(bytes: u64) -> (unit: (u128, &'static str))
    ensures
        unit.0 == unit_scale(unit_index(bytes)),
        unit.1@ == unit_name(unit_index(bytes)),
        1 <= unit.0 <= 0x4_0000_0000_0000,
        bytes < 0x4_0000_0000_0000 ==> bytes < 0x400 * unit.0,
{
    proof {
        reveal_strlit("B");
        reveal_strlit("KB");
        reveal_strlit("MB");
        reveal_strlit("GB");
        reveal_strlit("TB");
        reveal_strlit("PB");
    }
    let unit = if bytes < 0x400 {
        (1u128, "B")
    } else if bytes < 0x10_0000 {
        (0x400u128, "KB")
    } else if bytes < 0x4000_0000 {
        (0x10_0000u128, "MB")
    } else if bytes < 0x100_0000_0000 {
        (0x4000_0000u128, "GB")
    } else if bytes < 0x4_0000_0000_0000 {
        (0x100_0000_0000u128, "TB")
    } else {
        (0x4_0000_0000_0000u128, "PB")
    };
    assert(unit.1@ =~= unit_name(unit_index(bytes)));
    unit
}

impl RandomDd {
    /// Puts a byte count into words, such as `1.50 KB`.
    pub fn format_size(bytes: u64) -> (text: String)
        ensures
            text@ == size_text(bytes),
    {
        let step = step_of(bytes);
        let steps = rounded_quotient(bytes as u128, step as u128);
        assert(steps * step <= 0x20_0000_0000_0000 * 4096) by (nonlinear_arith)
            requires
                steps <= 0x20_0000_0000_0000,
                step <= 4096,
        ;
        let nearest: u128 = steps * (step as u128);
        let (scale, name) = unit_of(bytes);
        assert(nearest * 100 / (scale as int) <= 0x40_0000_0000) by {
            if bytes >= 0x4_0000_0000_0000 {
                assert(nearest * 100 / (scale as int) <= 0x40_0000_0000) by (nonlinear_arith)
                    requires
                        0 <= nearest <= 0x20_0000_0000_0000 * 4096,
                        scale == 0x4_0000_0000_0000,
                ;
            } else {
                lemma_nearest_double_exact(bytes as nat);
                assert(nearest == bytes);
                assert(nearest * 100 / (scale as int) <= 0x400 * 100) by (nonlinear_arith)
                    requires
                        0 <= nearest < 0x400 * scale,
                        scale >= 1,
                ;
            }
        }
        let hundredths = rounded_quotient(nearest * 100, scale);
        let whole = (hundredths / 100) as u64;
        let cents = (hundredths % 100) as u64;
        let mut text = String::new();
        push_decimal(&mut text, whole);
        proof {
            reveal_strlit(".");
            reveal_strlit(" ");
        }
        text.append(".");
        push_digit(&mut text, cents / 10);
        push_digit(&mut text, cents % 10);
        text.append(" ");
        text.append(name);
        assert(text@ =~= size_text(bytes));
        text
    }

    /// Puts a throughput in bytes per second into words, such as
    /// `1.50 KB/s`.
    pub fn format_speed(bytes_per_sec: u64) -> (text: String)
        ensures
            text@ == speed_text(bytes_per_sec),
    {
        let mut text = RandomDd::format_size(bytes_per_sec);
        proof {
            reveal_strlit("/s");
        }
        text.append("/s");
        assert(text@ =~= speed_text(bytes_per_sec));
        text
    }

    /// The average throughput of `bytes` copied in `elapsed_nanos`
    /// nanoseconds, in bytes per second.
    pub fn throughput(bytes: u64, elapsed_nanos: u128) -> (bytes_per_sec: u64)
        ensures
            bytes_per_sec == throughput_of(bytes, elapsed_nanos),
    {
        if elapsed_nanos == 0 {
            return 0;
        }
        let per_sec = (bytes as u128) * 1_000_000_000 / elapsed_nanos;
        if per_sec > u64::MAX as u128 {
            u64::MAX
        } else {
            per_sec as u64
        }
    }
}

} // verus!
