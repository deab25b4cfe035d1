//! Decimal text and fixed-point numbers.
//!
//! The cloud reports power in kilowatts and the state of charge in percent,
//! as decimal text. This module reads such text exactly into thousandths of
//! the reported unit ("milli" units: watts for power), rounding half away
//! from zero.
use vstd::prelude::*;
use vstd::string::StrSliceExecFns;
use vstd::arithmetic::div_mod::lemma_fundamental_div_mod_converse;

verus! {

// ---------------------------------------------------------------------------
// Digits and powers of ten
// ---------------------------------------------------------------------------

pub open spec fn is_digit(c: char) -> bool {
    '0' <= c && c <= '9'
}

pub open spec fn digit_value(c: char) -> nat {
    (c as int - '0' as int) as nat
}

pub open spec fn all_digits(ds: Seq<char>) -> bool {
    forall|i: int| 0 <= i < ds.len() ==> is_digit(#[trigger] ds[i])
}

/// The natural number that a sequence of decimal digits denotes (0 when empty).
pub open spec fn digits_value(ds: Seq<char>) -> nat
    decreases ds.len(),
{
    if ds.len() == 0 {
        0
    } else {
        digits_value(ds.drop_last()) * 10 + digit_value(ds.last())
    }
}

pub open spec fn pow10(n: nat) -> nat
    decreases n,
{
    if n == 0 {
        1
    } else {
        10 * pow10((n - 1) as nat)
    }
}

/// The number of consecutive decimal digits of `s` starting at position `i`.
pub open spec fn digit_run(s: Seq<char>, i: int) -> nat
    decreases s.len() - i,
{
    if 0 <= i < s.len() && is_digit(s[i]) {
        1 + digit_run(s, i + 1)
    } else {
        0
    }
}

pub(crate) proof fn lemma_pow10_positive(n: nat)
    ensures
        pow10(n) >= 1,
    decreases n,
{
    if n > 0 {
        lemma_pow10_positive((n - 1) as nat);
    }
}

proof fn lemma_pow10_monotone(a: nat, b: nat)
    requires
        a <= b,
    ensures
        pow10(a) <= pow10(b),
    decreases b,
{
    if a < b {
        lemma_pow10_monotone(a, (b - 1) as nat);
        lemma_pow10_positive((b - 1) as nat);
    }
}

proof fn lemma_digits_value_bound(ds: Seq<char>)
    requires
        all_digits(ds),
    ensures
        digits_value(ds) < pow10(ds.len()),
    decreases ds.len(),
{
    if ds.len() > 0 {
        let init = ds.drop_last();
        assert(all_digits(init)) by {
            assert forall|i: int| 0 <= i < init.len() implies is_digit(#[trigger] init[i]) by {
                assert(init[i] == ds[i]);
            }
        }
        lemma_digits_value_bound(init);
        assert(is_digit(ds[ds.len() - 1]));
        assert(digit_value(ds.last()) <= 9);
        assert(pow10(ds.len()) == 10 * pow10(init.len()));
    }
}

proof fn lemma_digits_value_concat(a: Seq<char>, b: Seq<char>)
    ensures
        digits_value(a + b) == digits_value(a) * pow10(b.len()) + digits_value(b),
    decreases b.len(),
{
    if b.len() == 0 {
        assert(a + b =~= a);
        assert(pow10(0) == 1);
        assert(digits_value(a) * 1 == digits_value(a));
    } else {
        let b0 = b.drop_last();
        lemma_digits_value_concat(a, b0);
        assert((a + b).drop_last() =~= a + b0);
        assert((a + b).last() == b.last());
        let x = digits_value(a);
        let p0 = pow10(b0.len());
        assert(pow10(b.len()) == 10 * p0);
        assert(digits_value(a + b) == digits_value(a + b0) * 10 + digit_value(b.last()));
        assert(digits_value(b) == digits_value(b0) * 10 + digit_value(b.last()));
        assert(x * (10 * p0) == 10 * (x * p0)) by (nonlinear_arith);
        assert((x * p0 + digits_value(b0)) * 10 == 10 * (x * p0) + digits_value(b0) * 10)
            by (nonlinear_arith);
    }
}

proof fn lemma_digits_value_single(c: char)
    ensures
        digits_value(seq![c]) == digit_value(c),
{
    assert(seq![c].drop_last() =~= Seq::<char>::empty());
    assert(digits_value(Seq::<char>::empty()) == 0);
}

proof fn lemma_digits_value_prefix_monotone(ds: Seq<char>, i: int, j: int)
    requires
        0 <= i <= j <= ds.len(),
    ensures
        digits_value(ds.subrange(0, i)) <= digits_value(ds.subrange(0, j)),
    decreases j - i,
{
    if i < j {
        lemma_digits_value_prefix_monotone(ds, i, j - 1);
        assert(ds.subrange(0, j).drop_last() =~= ds.subrange(0, j - 1));
    }
}

// ---------------------------------------------------------------------------
// The grammar of decimal numbers
// ---------------------------------------------------------------------------

/// A decimal number: its sign, its significant digits (the digits before the
/// point followed by those after it), how many of them follow the point, and
/// its decimal exponent.
pub struct DecimalParts {
    pub negative: bool,
    pub digits: Seq<char>,
    pub frac_len: nat,
    pub exponent: int,
}

pub open spec fn is_sign(c: char) -> bool {
    c == '+' || c == '-'
}

pub open spec fn sign_len(s: Seq<char>) -> int {
    if s.len() > 0 && is_sign(s[0]) {
        1
    } else {
        0
    }
}

/// Where the digits before the decimal point end.
pub open spec fn int_end(s: Seq<char>) -> int {
    sign_len(s) + digit_run(s, sign_len(s))
}

pub open spec fn has_point(s: Seq<char>) -> bool {
    int_end(s) < s.len() && s[int_end(s)] == '.'
}

/// Where the digits after the decimal point start.
pub open spec fn frac_start(s: Seq<char>) -> int {
    if has_point(s) {
        int_end(s) + 1
    } else {
        int_end(s)
    }
}

/// Where the digits after the decimal point end.
pub open spec fn frac_end(s: Seq<char>) -> int {
    if has_point(s) {
        frac_start(s) + digit_run(s, frac_start(s))
    } else {
        int_end(s)
    }
}

/// The exponent that the text from position `i` on denotes: 0 when there is
/// no text left, else `e` or `E`, an optional sign and digits up to the end.
pub open spec fn parse_exponent(s: Seq<char>, i: int) -> Option<int> {
    if i == s.len() {
        Some(0)
    } else if 0 <= i < s.len() && (s[i] == 'e' || s[i] == 'E') {
        let b = i + 1;
        let sa: int = if b < s.len() && is_sign(s[b]) {
            1
        } else {
            0
        };
        let e0 = b + sa;
        let e1 = e0 + digit_run(s, e0);
        if e1 > e0 && e1 == s.len() {
            let mag = digits_value(s.subrange(e0, e1)) as int;
            Some(
                if sa == 1 && s[b] == '-' {
                    -mag
                } else {
                    mag
                },
            )
        } else {
            None
        }
    } else {
        None
    }
}

/// Reads `s` as a decimal number: an optional sign, digits with an optional
/// decimal point (at least one digit in all), and an optional exponent made
/// of `e` or `E`, an optional sign and at least one digit. This is the syntax
/// of Rust's `f64::from_str` without `inf` and `NaN`, and it covers every
/// number a JSON document can hold.
pub open spec fn parse_decimal(s: Seq<char>) -> Option<DecimalParts> {
    let digits = s.subrange(sign_len(s), int_end(s)) + s.subrange(frac_start(s), frac_end(s));
    if digits.len() == 0 {
        None
    } else {
        match parse_exponent(s, frac_end(s)) {
            Some(exponent) => Some(
                DecimalParts {
                    negative: sign_len(s) == 1 && s[0] == '-',
                    digits,
                    frac_len: (frac_end(s) - frac_start(s)) as nat,
                    exponent,
                },
            ),
            None => None,
        }
    }
}

/// `n / d` rounded to the nearest integer, halves rounded up.
pub open spec fn round_half_up(n: nat, d: nat) -> nat
    recommends
        d > 0,
{
    ((2 * n + d) / (2 * d)) as nat
}

/// The magnitude of `digits * 10^k`, rounded to an integer (halves up).
pub open spec fn scaled_magnitude(digits: Seq<char>, k: int) -> nat {
    if k >= 0 {
        digits_value(digits) * pow10(k as nat)
    } else {
        round_half_up(digits_value(digits), pow10((-k) as nat))
    }
}

/// A decimal number times 1000, rounded to the nearest integer with halves
/// rounded away from zero.
pub open spec fn parts_milli(p: DecimalParts) -> int {
    let mag = scaled_magnitude(p.digits, p.exponent - p.frac_len + 3) as int;
    if p.negative {
        -mag
    } else {
        mag
    }
}

/// The value of the decimal text `s` in thousandths, when `s` is a decimal number.
pub open spec fn decimal_milli(s: Seq<char>) -> Option<int> {
    match parse_decimal(s) {
        Some(p) => Some(parts_milli(p)),
        None => None,
    }
}

pub open spec fn fits_i64(v: int) -> bool {
    i64::MIN <= v <= i64::MAX
}

/// What `parse_milli` returns for the text `s`.
pub open spec fn milli_of_text(s: Seq<char>) -> Option<i64> {
    match decimal_milli(s) {
        Some(v) => if fits_i64(v) {
            Some(v as i64)
        } else {
            None
        },
        None => None,
    }
}

// ---------------------------------------------------------------------------
// Scanning
// ---------------------------------------------------------------------------

/// The characters of `s`, one by one.
pub fn str_chars(s: &str) -> (cs: Vec<char>)
    ensures
        cs@ == s@,
{
    let n = s.unicode_len();
    let mut cs: Vec<char> = Vec::new();
    let mut i: usize = 0;
    while i < n
        invariant
            i <= n,
            n == s@.len(),
            cs@ == s@.subrange(0, i as int),
        decreases n - i,
    {
        cs.push(s.get_char(i));
        i += 1;
    }
    assert(cs@ =~= s@);
    cs
}

pub(crate) fn skip_digits(cs: &Vec<char>, start: usize) -> (end: usize)
    requires
        start <= cs.len(),
    ensures
        end == start + digit_run(cs@, start as int),
        end <= cs.len(),
        all_digits(cs@.subrange(start as int, end as int)),
{
    let mut j: usize = start;
    while j < cs.len() && '0' <= cs[j] && cs[j] <= '9'
        invariant
            start <= j <= cs.len(),
            start + digit_run(cs@, start as int) == j + digit_run(cs@, j as int),
            all_digits(cs@.subrange(start as int, j as int)),
        decreases cs.len() - j,
    {
        assert(cs@.subrange(start as int, j + 1) =~= cs@.subrange(start as int, j as int).push(
            cs@[j as int],
        ));
        j += 1;
    }
    j
}

proof fn lemma_all_digits_subrange(ds: Seq<char>, i: int, j: int)
    requires
        all_digits(ds),
        0 <= i <= j <= ds.len(),
    ensures
        all_digits(ds.subrange(i, j)),
{
    assert forall|k: int| 0 <= k < j - i implies is_digit(#[trigger] ds.subrange(i, j)[k]) by {
        assert(ds.subrange(i, j)[k] == ds[i + k]);
    }
}

/// Rounding `ds / 10^j`, where `j` counts the digits from position `p` on, keeps
/// the digits before `p` and adds one when the digit at `p` is 5 or more.
proof fn lemma_round_split(ds: Seq<char>, p: int)
    requires
        all_digits(ds),
        0 <= p < ds.len(),
    ensures
        round_half_up(digits_value(ds), pow10((ds.len() - p) as nat)) == digits_value(
            ds.subrange(0, p),
        ) + (if digit_value(ds[p]) >= 5 {
            1nat
        } else {
            0nat
        }),
{
    let len = ds.len() as int;
    let j = (len - p) as nat;
    let j1 = (j - 1) as nat;
    let hi = ds.subrange(0, p);
    let lo = ds.subrange(p, len);
    let rest = ds.subrange(p + 1, len);
    assert(ds =~= hi + lo);
    lemma_digits_value_concat(hi, lo);
    assert(lo =~= seq![ds[p]] + rest);
    lemma_digits_value_concat(seq![ds[p]], rest);
    lemma_digits_value_single(ds[p]);
    lemma_all_digits_subrange(ds, p + 1, len);
    lemma_digits_value_bound(rest);
    assert(is_digit(ds[p]));
    let n = digits_value(ds) as int;
    let q = digits_value(hi) as int;
    let r = digits_value(lo) as int;
    let c = digit_value(ds[p]) as int;
    let t = digits_value(rest) as int;
    let e = pow10(j1) as int;
    let d = pow10(j) as int;
    assert(d == 10 * e);
    lemma_pow10_positive(j1);
    assert(n == q * d + r);
    assert(r == c * e + t);
    assert(0 <= t < e);
    assert(0 <= c <= 9);
    if c >= 5 {
        assert(0 <= 2 * r - d < 2 * d) by (nonlinear_arith)
            requires
                r == c * e + t,
                0 <= t < e,
                5 <= c <= 9,
                d == 10 * e,
        ;
        assert(2 * n + d == (q + 1) * (2 * d) + (2 * r - d)) by (nonlinear_arith)
            requires
                n == q * d + r,
        ;
        lemma_fundamental_div_mod_converse(2 * n + d, 2 * d, q + 1, 2 * r - d);
    } else {
        assert(0 <= 2 * r + d < 2 * d) by (nonlinear_arith)
            requires
                r == c * e + t,
                0 <= t < e,
                0 <= c <= 4,
                d == 10 * e,
                e >= 1,
        ;
        assert(2 * n + d == q * (2 * d) + (2 * r + d)) by (nonlinear_arith)
            requires
                n == q * d + r,
        ;
        lemma_fundamental_div_mod_converse(2 * n + d, 2 * d, q, 2 * r + d);
    }
}

/// Dividing by a power of ten longer than the digits rounds to zero.
proof fn lemma_round_small(ds: Seq<char>, j: nat)
    requires
        all_digits(ds),
        j > ds.len(),
    ensures
        round_half_up(digits_value(ds), pow10(j)) == 0,
{
    lemma_digits_value_bound(ds);
    lemma_pow10_monotone(ds.len() + 1, j);
    let n = digits_value(ds) as int;
    let d = pow10(j) as int;
    assert(pow10(ds.len() + 1) == 10 * pow10(ds.len()));
    assert(2 * n < d);
    lemma_fundamental_div_mod_converse(2 * n + d, 2 * d, 0, 2 * n + d);
}

/// A nonzero number scaled up by at least 10^19 leaves the range of `i64`.
proof fn lemma_scaled_large(ds: Seq<char>, k: int)
    requires
        digits_value(ds) >= 1,
        k >= 19,
    ensures
        scaled_magnitude(ds, k) >= 10000000000000000000,
{
    reveal_with_fuel(pow10, 20);
    assert(pow10(19) == 10000000000000000000);
    lemma_pow10_monotone(19, k as nat);
    let n = digits_value(ds) as int;
    let pk = pow10(k as nat) as int;
    assert(n * pk >= pk) by (nonlinear_arith)
        requires
            n >= 1,
            pk >= 0,
    ;
}

/// The bound beyond which the exponent of a decimal number no longer matters:
/// 2^65, more than any number of digits a `usize` can count.
pub const EXP_CAP: u128 = 36893488147419103232;

pub(crate) fn push_range(out: &mut Vec<char>, cs: &Vec<char>, from: usize, to: usize)
    requires
        from <= to <= cs.len(),
    ensures
        final(out)@ == old(out)@ + cs@.subrange(from as int, to as int),
{
    let mut i: usize = from;
    while i < to
        invariant
            from <= i <= to <= cs.len(),
            out@ == old(out)@ + cs@.subrange(from as int, i as int),
        decreases to - i,
    {
        out.push(cs[i]);
        assert(cs@.subrange(from as int, i + 1) =~= cs@.subrange(from as int, i as int).push(
            cs@[i as int],
        ));
        i += 1;
    }
}

fn digit_of(c: char) -> (d: u128)
    requires
        is_digit(c),
    ensures
        d == digit_value(c),
        d <= 9,
{
    ((c as u32) - 48) as u128
}

/// The value of the digits `cs[from..to]`, or `EXP_CAP` when it is larger.
fn saturating_digits_value(cs: &Vec<char>, from: usize, to: usize) -> (r: u128)
    requires
        from <= to <= cs.len(),
        all_digits(cs@.subrange(from as int, to as int)),
    ensures
        r as int == if digits_value(cs@.subrange(from as int, to as int)) < EXP_CAP {
            digits_value(cs@.subrange(from as int, to as int)) as int
        } else {
            EXP_CAP as int
        },
{
    let mut acc: u128 = 0;
    let mut i: usize = from;
    assert(cs@.subrange(from as int, from as int) =~= Seq::<char>::empty());
    while i < to
        invariant
            from <= i <= to <= cs.len(),
            all_digits(cs@.subrange(from as int, to as int)),
            acc as int == if digits_value(cs@.subrange(from as int, i as int)) < EXP_CAP {
                digits_value(cs@.subrange(from as int, i as int)) as int
            } else {
                EXP_CAP as int
            },
        decreases to - i,
    {
        let ghost prev = cs@.subrange(from as int, i as int);
        let ghost next = cs@.subrange(from as int, i + 1);
        assert(next.drop_last() =~= prev);
        assert(cs@.subrange(from as int, to as int)[i - from] == cs@[i as int]);
        let d = digit_of(cs[i]);
        assert(digits_value(next) == digits_value(prev) * 10 + d);
        if acc < EXP_CAP {
            let v = acc * 10 + d;
            acc = if v < EXP_CAP { v } else { EXP_CAP };
        }
        i += 1;
    }
    acc
}

pub(crate) fn pow10_exec(k: u32) -> (r: u128)
    requires
        k <= 18,
    ensures
        r == pow10(k as nat),
        r <= 1000000000000000000,
{
    reveal_with_fuel(pow10, 19);
    assert(pow10(18) == 1000000000000000000);
    let mut r: u128 = 1;
    let mut i: u32 = 0;
    while i < k
        invariant
            i <= k <= 18,
            r == pow10(i as nat),
            pow10(18) == 1000000000000000000,
        decreases k - i,
    {
        proof {
            lemma_pow10_monotone((i + 1) as nat, 18);
        }
        r = r * 10;
        i += 1;
    }
    proof {
        lemma_pow10_monotone(k as nat, 18);
    }
    r
}

/// The value of the first `p` digits of `ds`, when it is at most `limit`.
pub(crate) fn prefix_value(ds: &Vec<char>, p: usize, limit: u128) -> (r: Option<u128>)
    requires
        p <= ds.len(),
        all_digits(ds@),
        limit <= u64::MAX,
    ensures
        r == (if digits_value(ds@.subrange(0, p as int)) <= limit {
            Some(digits_value(ds@.subrange(0, p as int)) as u128)
        } else {
            None::<u128>
        }),
{
    let mut acc: u128 = 0;
    let mut i: usize = 0;
    assert(ds@.subrange(0, 0) =~= Seq::<char>::empty());
    while i < p
        invariant
            i <= p <= ds.len(),
            all_digits(ds@),
            limit <= u64::MAX,
            acc == digits_value(ds@.subrange(0, i as int)),
            acc <= limit,
        decreases p - i,
    {
        assert(ds@.subrange(0, i + 1).drop_last() =~= ds@.subrange(0, i as int));
        assert(is_digit(ds@[i as int]));
        let d = digit_of(ds[i]);
        let v = acc * 10 + d;
        if v > limit {
            proof {
                lemma_digits_value_prefix_monotone(ds@, i + 1, p as int);
            }
            return None;
        }
        acc = v;
        i += 1;
    }
    Some(acc)
}

/// `scaled_magnitude(ds, kt)` when it is at most `limit`. The exponent `k`
/// handed in is `kt` itself, or lies with `kt` where neither matters: both so
/// large that any nonzero number overflows, or both so small that every
/// number rounds to zero.
fn milli_magnitude(ds: &Vec<char>, k: i128, Ghost(kt): Ghost<int>, limit: u128) -> (r: Option<
    u128,
>)
    requires
        all_digits(ds@),
        limit <= 9223372036854775808,
        k > i128::MIN,
        k == kt || (k >= 19 && kt >= 19) || (k < -(ds.len() as int) && kt < -(ds.len() as int)),
    ensures
        r == (if scaled_magnitude(ds@, kt) <= limit {
            Some(scaled_magnitude(ds@, kt) as u128)
        } else {
            None::<u128>
        }),
{
    let len = ds.len();
    assert(ds@.subrange(0, len as int) =~= ds@);
    if k >= 0 {
        match prefix_value(ds, len, limit) {
            None => {
                let ghost n = digits_value(ds@);
                proof {
                    lemma_pow10_positive(kt as nat);
                    let pk = pow10(kt as nat) as int;
                    assert(n * pk >= n) by (nonlinear_arith)
                        requires
                            pk >= 1,
                            n >= 0,
                    ;
                }
                None
            },
            Some(n) => {
                if n == 0 {
                    assert(0 * pow10(kt as nat) == 0);
                    Some(0)
                } else if k > 18 {
                    proof {
                        lemma_scaled_large(ds@, kt);
                    }
                    None
                } else {
                    let pk = pow10_exec(k as u32);
                    assert(n * pk <= 9223372036854775808 * 1000000000000000000) by (nonlinear_arith)
                        requires
                            n <= 9223372036854775808,
                            pk <= 1000000000000000000,
                    ;
                    let m = n * pk;
                    if m <= limit {
                        Some(m)
                    } else {
                        None
                    }
                }
            },
        }
    } else {
        let j: i128 = -k;
        if j > len as i128 {
            proof {
                lemma_round_small(ds@, (-kt) as nat);
            }
            Some(0)
        } else {
            let p = (len as i128 - j) as usize;
            proof {
                lemma_round_split(ds@, p as int);
            }
            match prefix_value(ds, p, limit) {
                None => None,
                Some(q) => {
                    assert(is_digit(ds@[p as int]));
                    let up = digit_of(ds[p]) >= 5;
                    let m = if up {
                        q + 1
                    } else {
                        q
                    };
                    if m <= limit {
                        Some(m)
                    } else {
                        None
                    }
                },
            }
        }
    }
}

/// The exponent from position `i` on (see `parse_exponent`), with its
/// magnitude capped at `EXP_CAP`.
fn read_exponent(cs: &Vec<char>, i: usize) -> (r: Option<i128>)
    requires
        i <= cs.len(),
    ensures
        r is Some <==> parse_exponent(cs@, i as int) is Some,
        r matches Some(v) ==> {
            let e = parse_exponent(cs@, i as int)->0;
            ||| v == e && -(EXP_CAP as int) < e < EXP_CAP as int
            ||| v == EXP_CAP as int && e >= EXP_CAP as int
            ||| v == -(EXP_CAP as int) && e <= -(EXP_CAP as int)
        },
{
    let n = cs.len();
    if i == n {
        return Some(0);
    }
    if !(cs[i] == 'e' || cs[i] == 'E') {
        return None;
    }
    let b = i + 1;
    let sa: usize = if b < n && (cs[b] == '+' || cs[b] == '-') {
        1
    } else {
        0
    };
    let e0 = b + sa;
    let e1 = skip_digits(&cs, e0);
    if !(e1 > e0 && e1 == n) {
        return None;
    }
    let mag = saturating_digits_value(&cs, e0, e1);
    if sa == 1 && cs[b] == '-' {
        Some(-(mag as i128))
    } else {
        Some(mag as i128)
    }
}

/// The sign and the significant digits of the text, as `parse_decimal` reads them.
fn read_mantissa(cs: &Vec<char>) -> (r: (bool, Vec<char>, usize, usize))
    ensures
        r.0 == (sign_len(cs@) == 1 && cs@[0] == '-'),
        r.1@ == cs@.subrange(sign_len(cs@), int_end(cs@)) + cs@.subrange(
            frac_start(cs@),
            frac_end(cs@),
        ),
        all_digits(r.1@),
        r.2 == frac_end(cs@) - frac_start(cs@),
        r.3 == frac_end(cs@),
        r.3 <= cs.len(),
{
    let n = cs.len();
    let a: usize = if n > 0 && (cs[0] == '+' || cs[0] == '-') {
        1
    } else {
        0
    };
    let negative = a == 1 && cs[0] == '-';
    let i1 = skip_digits(&cs, a);
    let has_dot = i1 < n && cs[i1] == '.';
    let f0 = if has_dot {
        i1 + 1
    } else {
        i1
    };
    let i2 = if has_dot {
        skip_digits(&cs, f0)
    } else {
        i1
    };
    let mut ds: Vec<char> = Vec::new();
    push_range(&mut ds, &cs, a, i1);
    push_range(&mut ds, &cs, f0, i2);
    let ghost left = cs@.subrange(a as int, i1 as int);
    let ghost right = cs@.subrange(f0 as int, i2 as int);
    assert(ds@ =~= left + right);
    assert forall|i: int| 0 <= i < ds@.len() implies is_digit(#[trigger] ds@[i]) by {
        if i < left.len() {
            assert(ds@[i] == left[i]);
        } else {
            assert(ds@[i] == right[i - left.len()]);
        }
    }
    (negative, ds, i2 - f0, i2)
}

/// Reads decimal text (such as `"1.234"`, `"-0.5"`, `"7"` or `"5e+02"`) as
/// thousandths of its value, rounded to the nearest integer with halves
/// rounded away from zero. `None` when the text is not a decimal number (see
/// `parse_decimal`) or the result does not fit an `i64`.
pub fn parse_milli(s: &str) -> (r: Option<i64>)
    ensures
        r == milli_of_text(s@),
{
    let cs = str_chars(s);
    let (negative, ds, frac_len, i2) = read_mantissa(&cs);
    if ds.len() == 0 {
        return None;
    }
    let exp_sat = match read_exponent(&cs, i2) {
        Some(e) => e,
        None => {
            return None;
        },
    };
    let ghost p = parse_decimal(s@)->0;
    assert(p.digits == ds@);
    assert(p.negative == negative);
    let k: i128 = exp_sat - frac_len as i128 + 3;
    let ghost kt: int = p.exponent - p.frac_len + 3;
    assert(ds.len() <= usize::MAX && frac_len <= ds.len());
    let limit: u128 = if negative {
        9223372036854775808
    } else {
        9223372036854775807
    };
    match milli_magnitude(&ds, k, Ghost(kt), limit) {
        None => None,
        Some(m) => {
            if negative {
                Some((-(m as i128)) as i64)
            } else {
                Some(m as i64)
            }
        },
    }
}

} // verus!
