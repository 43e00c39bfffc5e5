//! Human-readable rendering of byte counts.
//!
//! The sizes are shown the way a float computation `bytes as f64 / 2^20`
//! printed with two decimals shows them: the byte count is first rounded to
//! the nearest `f64` (ties to even), the division by a power of two is exact,
//! and the quotient is rounded to hundredths (ties to even). All of this is
//! done here in exact integer arithmetic.

use vstd::prelude::*;
use crate::text::{decimal, digit_char, digit_to_char, push_char, push_decimal};

verus! {

/// Bytes in a mebibyte, 2^20.
pub open spec fn mebibyte() -> nat {
    0x10_0000
}

/// Bytes in a gibibyte, 2^30.
pub open spec fn gibibyte() -> nat {
    0x4000_0000
}

/// `n / d` rounded to the nearest integer, ties to the even one.
pub open spec fn div_round_half_even(n: nat, d: nat) -> nat
    recommends
        d > 0,
{
    let q = n / d;
    let r = n % d;
    if 2 * r > d || (2 * r == d && q % 2 == 1) {
        q + 1
    } else {
        q
    }
}

/// The spacing of the `f64` values around the integer `b`: 1 below 2^53,
/// and doubling with each further bit of `b`.
pub open spec fn f64_spacing(b: nat) -> nat
    decreases b,
{
    if b < 0x20_0000_0000_0000 {
        1
    } else {
        2 * f64_spacing(b / 2)
    }
}

/// The value of the integer `b` converted to `f64`: `b` rounded to a multiple
/// of the spacing, to the nearest one, ties to even.
pub open spec fn as_f64(b: nat) -> nat {
    div_round_half_even(b, f64_spacing(b)) * f64_spacing(b)
}

/// `h` hundredths written with two decimals, such as `"12.05"`.
pub open spec fn two_decimals(h: nat) -> Seq<char> {
    decimal(h / 100) + seq!['.', digit_char((h / 10) % 10), digit_char(h % 10)]
}

/// What `bytes_to_human_readable` gives for `bytes`: gibibytes with unit `GB`
/// when the value reaches 1024 MB, mebibytes with unit `MB` otherwise.
pub open spec fn human_readable(bytes: nat) -> Seq<char> {
    let f = as_f64(bytes);
    if f >= gibibyte() {
        two_decimals(div_round_half_even(100 * f, gibibyte())) + seq!['G', 'B']
    } else {
        two_decimals(div_round_half_even(100 * f, mebibyte())) + seq!['M', 'B']
    }
}

/// `n / d` rounded to the nearest integer, ties to even.
fn round_half_even_div(n: u128, d: u128) -> (q: u128)
    requires
        0 < d <= 0x1_0000_0000_0000_0000,
        n < 0x1_0000_0000_0000_0000_0000_0000,
    ensures
        q == div_round_half_even(n as nat, d as nat),
        q * d <= n + d,
{
    let q = n / d;
    let r = n % d;
    proof {
        assert(q * d + r == n) by (nonlinear_arith)
            requires q == n / d, r == n % d, d > 0;
    }
    if 2 * r > d || (2 * r == d && q % 2 == 1) {
        proof {
            assert((q + 1) * d == q * d + d) by (nonlinear_arith);
        }
        q + 1
    } else {
        q
    }
}

/// The integer value of `bytes as f64`.
fn round_to_f64(bytes: u64) -> (f: u128)
    ensures
        f == as_f64(bytes as nat),
        f <= bytes + 0x1000,
{
    let mut x: u64 = bytes;
    let mut p: u128 = 1;
    while x >= 0x20_0000_0000_0000
        invariant
            f64_spacing(bytes as nat) == p * f64_spacing(x as nat),
            p * x <= bytes,
            1 <= p <= 0x1000,
        decreases x,
    {
        let ghost sx = f64_spacing(x as nat);
        let ghost sh = f64_spacing((x / 2) as nat);
        assert(sx == 2 * sh);
        assert(p * 0x20_0000_0000_0000 <= p * x) by (nonlinear_arith)
            requires x >= 0x20_0000_0000_0000, p >= 1;
        assert(p * (2 * (x / 2)) <= p * x) by (nonlinear_arith)
            requires 2 * (x / 2) <= x, p >= 1;
        assert(p * sx == (2 * p) * sh) by (nonlinear_arith)
            requires sx == 2 * sh;
        assert((2 * p) * (x / 2) == p * (2 * (x / 2))) by (nonlinear_arith);
        x = x / 2;
        p = p * 2;
    }
    let ghost sx = f64_spacing(x as nat);
    assert(sx == 1);
    assert(p * sx == p) by (nonlinear_arith)
        requires sx == 1;
    assert(f64_spacing(bytes as nat) == p);
    let q = round_half_even_div(bytes as u128, p);
    assert(q * p <= bytes + p);
    q * p
}

/// Appends `h` hundredths with two decimals to `out`.
fn push_two_decimals(out: &mut String, h: u128)
    ensures
        final(out)@ == old(out)@ + two_decimals(h as nat),
{
    push_decimal(out, h / 100);
    push_char(out, '.');
    let tens = digit_to_char((h / 10) % 10);
    push_char(out, tens);
    let ones = digit_to_char(h % 10);
    push_char(out, ones);
    assert(out@ =~= old(out)@ + two_decimals(h as nat));
}

/// Renders a byte count as mebibytes (`"512.00MB"`) or, from 1024 MB on, as
/// gibibytes (`"1.50GB"`), with two decimals.
pub fn bytes_to_human_readable(bytes: u64) -> (s: String)
    ensures
        s@ == human_readable(bytes as nat),
{
    let f = round_to_f64(bytes);
    let mut out = String::new();
    if f >= 0x4000_0000 {
        let h = round_half_even_div(f * 100, 0x4000_0000);
        push_two_decimals(&mut out, h);
        push_char(&mut out, 'G');
        push_char(&mut out, 'B');
    } else {
        let h = round_half_even_div(f * 100, 0x10_0000);
        push_two_decimals(&mut out, h);
        push_char(&mut out, 'M');
        push_char(&mut out, 'B');
    }
    assert(out@ =~= human_readable(bytes as nat));
    out
}

} // verus!
