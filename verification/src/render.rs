//! Numbers as text: decimal digits, byte counts with a unit, durations as
//! hours, minutes and seconds.

use vstd::prelude::*;
use vstd::string::*;

verus! {

/// The character of one decimal digit.
pub open spec fn digit_char(d: nat) -> char {
    if d == 0 {
        '0'
    } else if d == 1 {
        '1'
    } else if d == 2 {
        '2'
    } else if d == 3 {
        '3'
    } else if d == 4 {
        '4'
    } else if d == 5 {
        '5'
    } else if d == 6 {
        '6'
    } else if d == 7 {
        '7'
    } else if d == 8 {
        '8'
    } else {
        '9'
    }
}

/// `n` in decimal, without leading zeros.
pub open spec fn decimal(n: nat) -> Seq<char>
    decreases n,
{
    if n < 10 {
        seq![digit_char(n)]
    } else {
        decimal(n / 10).push(digit_char(n % 10))
    }
}

/// `n` in decimal, with a leading zero where it has one digit only.
pub open spec fn two_digits(n: nat) -> Seq<char> {
    if n < 10 {
        seq!['0'] + decimal(n)
    } else {
        decimal(n)
    }
}

/// `n` in decimal, with a minus sign where it is negative.
pub open spec fn signed_decimal(n: int) -> Seq<char> {
    if n < 0 {
        seq!['-'] + decimal((-n) as nat)
    } else {
        decimal(n as nat)
    }
}

/// A duration of `secs` seconds as `HH:MM:SS`; the hours take as many digits
/// as they need, and at least two.
pub open spec fn clock_text(secs: nat) -> Seq<char> {
    two_digits(secs / 3600) + seq![':'] + two_digits((secs % 3600) / 60) + seq![':'] + two_digits(
        secs % 60,
    )
}

/// The nearest integer to `num / den`; of two equally near, the even one.
pub open spec fn round_half_even(num: nat, den: nat) -> nat
    recommends
        den > 0,
{
    let q = num / den;
    let r = num % den;
    if 2 * r > den || (2 * r == den && q % 2 == 1) {
        q + 1
    } else {
        q
    }
}

/// The step between neighbouring values of a 64-bit float near `n`: 1 below
/// 2^53, then doubling with every further bit of `n`.
pub open spec fn float_step(n: nat) -> nat
    decreases n,
{
    if n < 0x20_0000_0000_0000 {
        1
    } else {
        2 * float_step(n / 2)
    }
}

/// The value that `n` takes as a 64-bit float: `n` itself while it has at most
/// 53 significant bits, else the nearest value with 53, ties to the even one.
pub open spec fn as_float(n: nat) -> nat {
    round_half_even(n, float_step(n)) * float_step(n)
}

/// How many times a byte count is divided by 1024 before it is shown: not at
/// all below 1 KB, and at most four times (TB).
pub open spec fn unit_index(bytes: nat) -> nat {
    if bytes < 0x400 {
        0
    } else if bytes < 0x10_0000 {
        1
    } else if bytes < 0x4000_0000 {
        2
    } else if bytes < 0x100_0000_0000 {
        3
    } else {
        4
    }
}

/// 1024 to the power `k`, for the five units.
pub open spec fn unit_size(k: nat) -> nat {
    if k == 0 {
        1
    } else if k == 1 {
        0x400
    } else if k == 2 {
        0x10_0000
    } else if k == 3 {
        0x4000_0000
    } else {
        0x100_0000_0000
    }
}

/// The name of the unit of 1024 to the power `k` bytes.
pub open spec fn unit_name(k: nat) -> Seq<char> {
    if k == 0 {
        seq!['B']
    } else if k == 1 {
        seq!['K', 'B']
    } else if k == 2 {
        seq!['M', 'B']
    } else if k == 3 {
        seq!['G', 'B']
    } else {
        seq!['T', 'B']
    }
}

/// The byte count in tenths of its unit, rounded to the nearest tenth (ties
/// to the even tenth) from the value that the count has as a 64-bit float.
pub open spec fn tenths_of_unit(bytes: nat) -> nat {
    round_half_even(10 * as_float(bytes), unit_size(unit_index(bytes)))
}

/// A byte count for people: whole bytes below 1 KB (`"512 B"`), else one
/// decimal place in the largest unit that fits, up to TB (`"1.5 KB"`).
pub open spec fn bytes_text(bytes: nat) -> Seq<char> {
    let k = unit_index(bytes);
    if k == 0 {
        decimal(bytes) + seq![' '] + unit_name(0)
    } else {
        let t = tenths_of_unit(bytes);
        decimal(t / 10) + seq!['.'] + decimal(t % 10) + seq![' '] + unit_name(k)
    }
}

fn digit_str(d: u64) -> (r: &'static str)
    requires
        d < 10,
    ensures
        r@ == seq![digit_char(d as nat)],
{
    proof {
        reveal_strlit("0");
        reveal_strlit("1");
        reveal_strlit("2");
        reveal_strlit("3");
        reveal_strlit("4");
        reveal_strlit("5");
        reveal_strlit("6");
        reveal_strlit("7");
        reveal_strlit("8");
        reveal_strlit("9");
    }
    let r = if d == 0 {
        "0"
    } else if d == 1 {
        "1"
    } else if d == 2 {
        "2"
    } else if d == 3 {
        "3"
    } else if d == 4 {
        "4"
    } else if d == 5 {
        "5"
    } else if d == 6 {
        "6"
    } else if d == 7 {
        "7"
    } else if d == 8 {
        "8"
    } else {
        "9"
    };
    r
}

/// Appends `n` in decimal to `out`.
pub fn push_decimal(out: &mut String, n: u64)
    ensures
        final(out)@ == old(out)@ + decimal(n as nat),
    decreases n,
{
    if n >= 10 {
        push_decimal(out, n / 10);
    }
    out.append(digit_str(n % 10));
}

/// Appends `n` in decimal to `out`, with a leading zero below ten.
pub fn push_two_digits(out: &mut String, n: u64)
    ensures
        final(out)@ == old(out)@ + two_digits(n as nat),
{
    if n < 10 {
        out.append("0");
        proof {
            reveal_strlit("0");
        }
    }
    push_decimal(out, n);
}

/// Appends `n` in decimal to `out`, with a minus sign where it is negative.
pub fn push_signed_decimal(out: &mut String, n: i32)
    ensures
        final(out)@ == old(out)@ + signed_decimal(n as int),
{
    if n < 0 {
        out.append("-");
        proof {
            reveal_strlit("-");
        }
        let m: i64 = -(n as i64);
        push_decimal(out, m as u64);
    } else {
        push_decimal(out, n as u64);
    }
}

/// A duration of `secs` seconds as `HH:MM:SS`.
pub fn format_elapsed(secs: u64) -> (r: String)
    ensures
        r@ == clock_text(secs as nat),
{
    proof {
        reveal_strlit("");
        reveal_strlit(":");
    }
    let mut out = String::from_str("");
    push_two_digits(&mut out, secs / 3600);
    out.append(":");
    push_two_digits(&mut out, (secs % 3600) / 60);
    out.append(":");
    push_two_digits(&mut out, secs % 60);
    out
}

fn rounded_quotient(num: u128, den: u128) -> (r: u128)
    requires
        den > 0,
        num < u128::MAX,
    ensures
        r == round_half_even(num as nat, den as nat),
        r <= num / den + 1,
{
    let q = num / den;
    let r = num % den;
    assert(q <= num) by (nonlinear_arith)
        requires
            q == num / den,
            den > 0,
    ;
    // 2 * r > den, written so that nothing overflows
    let half_up = r > den - r;
    let tie = r == den - r;
    if half_up || (tie && q % 2 == 1) {
        q + 1
    } else {
        q
    }
}

fn step_of(n: u64) -> (r: u64)
    ensures
        r == float_step(n as nat),
        1 <= r <= 4094,
{
    let mut m = n;
    let mut r: u64 = 1;
    while m >= 0x20_0000_0000_0000
        invariant
            1 <= r <= 4094,
            r * m <= n,
            float_step(n as nat) == r * float_step(m as nat),
        decreases m,
    {
        assert(r <= 2047) by (nonlinear_arith)
            requires
                r * m <= u64::MAX,
                m >= 0x20_0000_0000_0000,
        ;
        assert(r * (2 * float_step((m / 2) as nat)) == (2 * r) * float_step((m / 2) as nat))
            by (nonlinear_arith);
        assert((2 * r) * (m / 2) <= r * m) by (nonlinear_arith)
            requires
                r >= 1,
        ;
        r = 2 * r;
        m = m / 2;
    }
    assert(r * 1 == r) by (nonlinear_arith);
    r
}

fn unit_label(k: u8) -> (r: &'static str)
    ensures
        r@ == unit_name(k as nat),
{
    proof {
        reveal_strlit("B");
        reveal_strlit("KB");
        reveal_strlit("MB");
        reveal_strlit("GB");
        reveal_strlit("TB");
    }
    let r = if k == 0 {
        "B"
    } else if k == 1 {
        "KB"
    } else if k == 2 {
        "MB"
    } else if k == 3 {
        "GB"
    } else {
        "TB"
    };
    r
}

/// A byte count for people: `"0 B"`, `"1023 B"`, `"1.5 KB"`, `"2.0 GB"`.
pub fn format_bytes(bytes: u64) -> (r: String)
    ensures
        r@ == bytes_text(bytes as nat),
{
    proof {
        reveal_strlit("");
        reveal_strlit(" ");
        reveal_strlit(".");
    }
    let mut out = String::from_str("");
    if bytes < 0x400 {
        push_decimal(&mut out, bytes);
        out.append(" ");
        out.append(unit_label(0));
        return out;
    }
    let k: u8 = if bytes < 0x10_0000 {
        1
    } else if bytes < 0x4000_0000 {
        2
    } else if bytes < 0x100_0000_0000 {
        3
    } else {
        4
    };
    let size: u128 = if k == 1 {
        0x400
    } else if k == 2 {
        0x10_0000
    } else if k == 3 {
        0x4000_0000
    } else {
        0x100_0000_0000
    };
    let step = step_of(bytes);
    let mantissa = rounded_quotient(bytes as u128, step as u128);
    assert(mantissa * step <= bytes + step) by (nonlinear_arith)
        requires
            mantissa <= (bytes as u128) / (step as u128) + 1,
            step >= 1,
    ;
    let float: u128 = mantissa * (step as u128);
    let tenths = rounded_quotient(10 * float, size);
    assert((10 * float) / (size as int) <= (10 * float) / 0x400) by (nonlinear_arith)
        requires
            size >= 0x400,
    ;
    push_decimal(&mut out, (tenths / 10) as u64);
    out.append(".");
    push_decimal(&mut out, (tenths % 10) as u64);
    out.append(" ");
    out.append(unit_label(k));
    out
}

} // verus!
