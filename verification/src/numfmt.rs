//! Decimal rendering of the fixed-point quantities the node reports.
//!
//! Quantities are carried in thousandths.  Reports show them with one or
//! two decimal places, rounding the dropped digit half away from zero; a
//! negative quantity keeps its sign even when the shown digits are all
//! zero.  Everything here is plain integer arithmetic.

use vstd::prelude::*;

verus! {

/// The character for one decimal digit.
pub open spec fn spec_digit_char(d: int) -> char {
    if d == 0 {
        '0'
    } else if d == 1 {
        '1'
    } else if d == 2 {
        '2'
    } else if d == 3 {
        '3'
    } else if d == 4 {
        '4'
    } else if d == 5 {
        '5'
    } else if d == 6 {
        '6'
    } else if d == 7 {
        '7'
    } else if d == 8 {
        '8'
    } else {
        '9'
    }
}

/// The decimal digits of a natural number, most significant first.
pub open spec fn spec_dec_digits(n: nat) -> Seq<char>
    decreases n,
{
    if n < 10 {
        seq![spec_digit_char(n as int)]
    } else {
        spec_dec_digits(n / 10) + seq![spec_digit_char((n % 10) as int)]
    }
}

/// The magnitude of an integer.
pub open spec fn spec_abs(m: int) -> nat {
    if m < 0 {
        (-m) as nat
    } else {
        m as nat
    }
}

/// A leading minus sign, when the quantity is negative.
pub open spec fn spec_sign(neg: bool) -> Seq<char> {
    if neg {
        seq!['-']
    } else {
        Seq::empty()
    }
}

/// A magnitude in thousandths shown with two decimal places: the
/// hundredths count, rounded half up, split into whole and fractional
/// digits.
pub open spec fn spec_fmt2_mag(a: nat) -> Seq<char> {
    let h = (a + 5) / 10;
    spec_dec_digits(h / 100) + seq!['.', spec_digit_char(((h / 10) % 10) as int), spec_digit_char((h % 10) as int)]
}

/// A quantity in thousandths shown with two decimal places.
pub open spec fn spec_fmt_milli2(m: int) -> Seq<char> {
    spec_sign(m < 0) + spec_fmt2_mag(spec_abs(m))
}

/// A magnitude in thousandths shown with one decimal place: the tenths
/// count, rounded half up.
pub open spec fn spec_fmt1_mag(a: nat) -> Seq<char> {
    let t = (a + 50) / 100;
    spec_dec_digits(t / 10) + seq!['.', spec_digit_char((t % 10) as int)]
}

/// A quantity in thousandths shown with one decimal place.
pub open spec fn spec_fmt_milli1(m: int) -> Seq<char> {
    spec_sign(m < 0) + spec_fmt1_mag(spec_abs(m))
}

/// The one-character string for a decimal digit.
pub fn digit_str(d: u64) -> (s: &'static str)
    requires
        d < 10,
    ensures
        s@ == seq![spec_digit_char(d as int)],
{
    proof {
        reveal_strlit("0");
        reveal_strlit("1");
        reveal_strlit("2");
        reveal_strlit("3");
        reveal_strlit("4");
        reveal_strlit("5");
        reveal_strlit("6");
        reveal_strlit("7");
        reveal_strlit("8");
        reveal_strlit("9");
    }
    if d == 0 {
        "0"
    } else if d == 1 {
        "1"
    } else if d == 2 {
        "2"
    } else if d == 3 {
        "3"
    } else if d == 4 {
        "4"
    } else if d == 5 {
        "5"
    } else if d == 6 {
        "6"
    } else if d == 7 {
        "7"
    } else if d == 8 {
        "8"
    } else {
        "9"
    }
}

/// Renders a natural number in decimal.
pub fn u64_to_string(n: u64) -> (s: String)
    ensures
        s@ == spec_dec_digits(n as nat),
    decreases n,
{
    if n < 10 {
        String::from_str(digit_str(n))
    } else {
        let mut s = u64_to_string(n / 10);
        s.append(digit_str(n % 10));
        s
    }
}

/// Divides by ten, rounding half away from zero, without overflowing.
fn round_div10(a: u64) -> (h: u64)
    ensures
        h as int == (a as int + 5) / 10,
{
    a / 10 + if a % 10 >= 5 {
        1
    } else {
        0
    }
}

/// Divides by one hundred, rounding half away from zero.
fn round_div100(a: u64) -> (t: u64)
    ensures
        t as int == (a as int + 50) / 100,
{
    a / 100 + if a % 100 >= 50 {
        1
    } else {
        0
    }
}

/// Renders a magnitude in thousandths with two decimal places, with an
/// optional leading sign.
fn fmt2_mag(a: u64, neg: bool) -> (s: String)
    ensures
        s@ == spec_sign(neg) + spec_fmt2_mag(a as nat),
{
    let h = round_div10(a);
    let mut s = if neg {
        String::from_str("-")
    } else {
        String::new()
    };
    proof {
        reveal_strlit("-");
        assert("-"@ =~= seq!['-']);
        reveal_strlit(".");
        assert("."@ =~= seq!['.']);
    }
    let whole = u64_to_string(h / 100);
    s.append(whole.as_str());
    s.append(".");
    s.append(digit_str((h / 10) % 10));
    s.append(digit_str(h % 10));
    proof {
        assert(s@ =~= spec_sign(neg) + spec_fmt2_mag(a as nat));
    }
    s
}

/// Renders a magnitude in thousandths with one decimal place, with an
/// optional leading sign.
fn fmt1_mag(a: u64, neg: bool) -> (s: String)
    ensures
        s@ == spec_sign(neg) + spec_fmt1_mag(a as nat),
{
    let t = round_div100(a);
    let mut s = if neg {
        String::from_str("-")
    } else {
        String::new()
    };
    proof {
        reveal_strlit("-");
        assert("-"@ =~= seq!['-']);
        reveal_strlit(".");
        assert("."@ =~= seq!['.']);
    }
    let whole = u64_to_string(t / 10);
    s.append(whole.as_str());
    s.append(".");
    s.append(digit_str(t % 10));
    proof {
        assert(s@ =~= spec_sign(neg) + spec_fmt1_mag(a as nat));
    }
    s
}

/// Splits a signed quantity into magnitude and sign.
fn abs_parts(m: i64) -> (r: (u64, bool))
    ensures
        r.0 as nat == spec_abs(m as int),
        r.1 == (m < 0),
{
    if m < 0 {
        ((-(m as i128)) as u64, true)
    } else {
        (m as u64, false)
    }
}

/// Renders a signed quantity in thousandths with two decimal places.
pub fn fmt_milli2(m: i64) -> (s: String)
    ensures
        s@ == spec_fmt_milli2(m as int),
{
    let (a, neg) = abs_parts(m);
    fmt2_mag(a, neg)
}

/// Renders a non-negative quantity in thousandths with two decimal
/// places.
pub fn fmt_milli2_u64(m: u64) -> (s: String)
    ensures
        s@ == spec_fmt_milli2(m as int),
{
    fmt2_mag(m, false)
}

/// Renders a signed quantity in thousandths with one decimal place.
pub fn fmt_milli1(m: i64) -> (s: String)
    ensures
        s@ == spec_fmt_milli1(m as int),
{
    let (a, neg) = abs_parts(m);
    fmt1_mag(a, neg)
}

/// The integer square root: the largest `r` with `r * r <= n`.
pub open spec fn spec_isqrt(n: nat) -> nat
    decreases n,
{
    if n == 0 {
        0
    } else {
        let r = spec_isqrt((n - 1) as nat);
        if (r + 1) * (r + 1) <= n {
            r + 1
        } else {
            r
        }
    }
}

/// The integer square root is bracketed by the squares around it.
pub proof fn lemma_isqrt_bounds(n: nat)
    ensures
        spec_isqrt(n) * spec_isqrt(n) <= n,
        n < (spec_isqrt(n) + 1) * (spec_isqrt(n) + 1),
    decreases n,
{
    if n == 0 {
        assert(spec_isqrt(n) == 0);
        assert(n < (spec_isqrt(n) + 1) * (spec_isqrt(n) + 1)) by (nonlinear_arith)
            requires
                n == 0,
                spec_isqrt(n) == 0,
        ;
    } else {
        let r = spec_isqrt((n - 1) as nat);
        lemma_isqrt_bounds((n - 1) as nat);
        if (r + 1) * (r + 1) <= n {
            assert(spec_isqrt(n) == r + 1);
            assert(n == (r + 1) * (r + 1));
            assert(n < (r + 2) * (r + 2)) by (nonlinear_arith)
                requires
                    n == (r + 1) * (r + 1),
                    r >= 0,
            ;
            assert(spec_isqrt(n) * spec_isqrt(n) == (r + 1) * (r + 1));
            assert((spec_isqrt(n) + 1) * (spec_isqrt(n) + 1) == (r + 2) * (r + 2)) by (nonlinear_arith)
                requires
                    spec_isqrt(n) == r + 1,
            ;
            assert(n < (spec_isqrt(n) + 1) * (spec_isqrt(n) + 1));
        } else {
            assert(spec_isqrt(n) == r);
            assert(spec_isqrt(n) * spec_isqrt(n) == r * r);
            assert((spec_isqrt(n) + 1) * (spec_isqrt(n) + 1) == (r + 1) * (r + 1)) by (nonlinear_arith)
                requires
                    spec_isqrt(n) == r,
            ;
            assert(n < (spec_isqrt(n) + 1) * (spec_isqrt(n) + 1));
        }
    }
}

/// Any value bracketed that way is the integer square root.
pub proof fn lemma_isqrt_unique(n: nat, r: nat)
    requires
        r * r <= n,
        n < (r + 1) * (r + 1),
    ensures
        r == spec_isqrt(n),
{
    lemma_isqrt_bounds(n);
    let s = spec_isqrt(n);
    assert(r == s) by (nonlinear_arith)
        requires
            r * r <= n,
            n < (r + 1) * (r + 1),
            s * s <= n,
            n < (s + 1) * (s + 1),
            r >= 0,
            s >= 0,
    ;
}

/// Computes the integer square root by bisection.
pub fn isqrt_u128(n: u128) -> (r: u128)
    ensures
        r as nat == spec_isqrt(n as nat),
{
    let mut lo: u128 = 0;
    let mut hi: u128 = 0x1_0000_0000_0000_0000;
    proof {
        assert((hi as int) * (hi as int) > n as int) by (nonlinear_arith)
            requires
                hi == 0x1_0000_0000_0000_0000,
                n <= u128::MAX,
        ;
    }
    while lo + 1 < hi
        invariant
            lo < hi,
            hi <= 0x1_0000_0000_0000_0000,
            (lo as int) * (lo as int) <= n as int,
            (hi as int) * (hi as int) > n as int,
        decreases hi - lo,
    {
        let mid = lo + (hi - lo) / 2;
        proof {
            assert((mid as int) * (mid as int) <= u128::MAX as int) by (nonlinear_arith)
                requires
                    mid < 0x1_0000_0000_0000_0000,
            ;
        }
        if mid * mid <= n {
            lo = mid;
        } else {
            hi = mid;
        }
    }
    proof {
        lemma_isqrt_unique(n as nat, lo as nat);
    }
    lo
}

} // verus!
