//! Writing numbers as text: decimal integers, fixed-point milli values and
//! lower-case hexadecimal bytes.
use vstd::prelude::*;
use crate::decimal::{pow10, pow10_exec, lemma_pow10_positive};

verus! {

pub open spec fn digit_char(d: nat) -> char {
    (d + 48) as char
}

/// The decimal digits of `n`, most significant first, without leading zeros
/// (`"0"` for zero).
pub open spec fn decimal_digits(n: nat) -> Seq<char>
    decreases n,
{
    if n < 10 {
        seq![digit_char(n)]
    } else {
        decimal_digits(n / 10).push(digit_char(n % 10))
    }
}

/// The last `w` decimal digits of `n`, padded with zeros on the left.
pub open spec fn fixed_digits(n: nat, w: nat) -> Seq<char>
    decreases w,
{
    if w == 0 {
        Seq::empty()
    } else {
        fixed_digits(n / 10, (w - 1) as nat).push(digit_char(n % 10))
    }
}

pub open spec fn abs(v: int) -> nat {
    if v < 0 {
        (-v) as nat
    } else {
        v as nat
    }
}

pub open spec fn minus_sign(v: int) -> Seq<char> {
    if v < 0 {
        seq!['-']
    } else {
        Seq::empty()
    }
}

/// An integer in decimal, with a minus sign when it is negative.
pub open spec fn integer_text(v: int) -> Seq<char> {
    minus_sign(v) + decimal_digits(abs(v))
}

/// `n / d` rounded to the nearest integer, an exact half to the even one.
pub open spec fn round_half_even(n: nat, d: nat) -> nat
    recommends
        d > 0,
{
    let q = n / d;
    let r = n % d;
    if 2 * r > d || (2 * r == d && q % 2 == 1) {
        q + 1
    } else {
        q
    }
}

/// A milli value `m` (thousandths of a unit) written in the unit with `d`
/// decimals, the way `format!("{:.d$}", m as f64 / 1000.0)` writes a value
/// that is exactly `m` thousandths: the magnitude rounded to the nearest
/// multiple of `10^-d`, an exact half to the even digit, preceded by a minus
/// sign when `m` is negative (also when the magnitude rounds to zero).
pub open spec fn fixed_text(m: int, d: nat) -> Seq<char>
    recommends
        d <= 3,
{
    let q = round_half_even(abs(m), pow10((3 - d) as nat));
    if d == 0 {
        minus_sign(m) + decimal_digits(q)
    } else {
        minus_sign(m) + decimal_digits(q / pow10(d)) + seq!['.'] + fixed_digits(q, d)
    }
}

fn digit_char_exec(d: u128) -> (c: char)
    requires
        d < 10,
    ensures
        c == digit_char(d as nat),
{
    ((d as u8) + 48) as char
}

fn push_decimal(out: &mut String, n: u128)
    ensures
        final(out)@ == old(out)@ + decimal_digits(n as nat),
    decreases n,
{
    if n >= 10 {
        push_decimal(out, n / 10);
    }
    out.push(digit_char_exec(n % 10));
    assert(n < 10 ==> n % 10 == n);
}

fn push_fixed_digits(out: &mut String, n: u128, w: u32)
    ensures
        final(out)@ == old(out)@ + fixed_digits(n as nat, w as nat),
    decreases w,
{
    if w > 0 {
        push_fixed_digits(out, n / 10, w - 1);
        out.push(digit_char_exec(n % 10));
    }
}

/// The decimal text of `n`, as `n.to_string()` writes it.
pub fn decimal_string(n: u128) -> (s: String)
    ensures
        s@ == decimal_digits(n as nat),
{
    let mut s = String::new();
    push_decimal(&mut s, n);
    s
}

fn magnitude(v: i64) -> (r: u128)
    ensures
        r == abs(v as int),
{
    if v < 0 {
        (-(v as i128)) as u128
    } else {
        v as u128
    }
}

fn push_minus_sign(out: &mut String, v: i64)
    ensures
        final(out)@ == old(out)@ + minus_sign(v as int),
{
    if v < 0 {
        out.push('-');
    }
}

/// Appends `integer_text(v)`.
pub fn push_integer(out: &mut String, v: i64)
    ensures
        final(out)@ == old(out)@ + integer_text(v as int),
{
    push_minus_sign(out, v);
    push_decimal(out, magnitude(v));
}

/// Appends `fixed_text(m, d)`.
pub fn push_fixed(out: &mut String, m: i64, d: u32)
    requires
        d <= 3,
    ensures
        final(out)@ == old(out)@ + fixed_text(m as int, d as nat),
{
    let a = magnitude(m);
    let p = pow10_exec(3 - d);
    proof {
        lemma_pow10_positive((3 - d) as nat);
    }
    let whole = a / p;
    let rest = a % p;
    let q = if 2 * rest > p || (2 * rest == p && whole % 2 == 1) {
        whole + 1
    } else {
        whole
    };
    push_minus_sign(out, m);
    if d == 0 {
        push_decimal(out, q);
    } else {
        let pd = pow10_exec(d);
        proof {
            lemma_pow10_positive(d as nat);
        }
        push_decimal(out, q / pd);
        out.push('.');
        push_fixed_digits(out, q, d);
    }
}

/// `fixed_text(m, d)` as a new string.
pub fn fixed_string(m: i64, d: u32) -> (s: String)
    requires
        d <= 3,
    ensures
        s@ == fixed_text(m as int, d as nat),
{
    let mut s = String::new();
    push_fixed(&mut s, m, d);
    s
}

// ---------------------------------------------------------------------------
// Hexadecimal
// ---------------------------------------------------------------------------

pub open spec fn hex_digit(d: nat) -> char {
    if d < 10 {
        (d + 48) as char
    } else {
        (d + 87) as char
    }
}

/// Each byte as two lower-case hexadecimal digits, as `format!("{:02x}", byte)`
/// writes it, one byte after the other.
pub open spec fn hex_lower(bytes: Seq<u8>) -> Seq<char>
    decreases bytes.len(),
{
    if bytes.len() == 0 {
        Seq::empty()
    } else {
        hex_lower(bytes.drop_last()) + seq![
            hex_digit((bytes.last() / 16) as nat),
            hex_digit((bytes.last() % 16) as nat),
        ]
    }
}

fn hex_digit_exec(d: u8) -> (c: char)
    requires
        d < 16,
    ensures
        c == hex_digit(d as nat),
{
    if d < 10 {
        (d + 48) as char
    } else {
        (d + 87) as char
    }
}

/// The bytes in lower-case hexadecimal, two digits per byte.
pub fn to_hex_lower(bytes: &[u8]) -> (s: String)
    ensures
        s@ == hex_lower(bytes@),
        s@.len() == 2 * bytes@.len(),
{
    let mut s = String::new();
    let mut i: usize = 0;
    assert(bytes@.subrange(0, 0) =~= Seq::<u8>::empty());
    while i < bytes.len()
        invariant
            i <= bytes.len(),
            s@ == hex_lower(bytes@.subrange(0, i as int)),
            s@.len() == 2 * i,
        decreases bytes.len() - i,
    {
        let b = bytes[i];
        assert(bytes@.subrange(0, i + 1).drop_last() =~= bytes@.subrange(0, i as int));
        s.push(hex_digit_exec(b / 16));
        s.push(hex_digit_exec(b % 16));
        i += 1;
    }
    assert(bytes@.subrange(0, bytes.len() as int) =~= bytes@);
    s
}

} // verus!
