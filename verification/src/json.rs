//! A JSON document as the library reads it.
//!
//! A number is held as decimal text that denotes its value (a parser's
//! canonical writing of it, such as `2.5` for a `2.50` in the document), so
//! that the library can read it exactly (see `decimal`). Object members keep
//! their order; a document read by a JSON parser has no key twice.
use vstd::prelude::*;
use crate::decimal::{
    decimal_milli, frac_end, frac_start, has_point, int_end, parse_decimal, parse_exponent, parts_milli, scaled_magnitude, sign_len, digit_run, digits_value, fits_i64, is_digit, pow10, str_chars,
    push_range, prefix_value,
};
use crate::text::str_eq;

verus! {

pub enum JsonValue {
    Null,
    Bool(bool),
    /// A number, by its decimal text.
    Number(String),
    Str(String),
    Array(Vec<JsonValue>),
    Object(Vec<(String, JsonValue)>),
}

/// The value of the first member named `key`, or `Null` when there is none.
pub open spec fn member_value(entries: Seq<(String, JsonValue)>, key: Seq<char>) -> JsonValue
    decreases entries.len(),
{
    if entries.len() == 0 {
        JsonValue::Null
    } else if entries[0].0@ == key {
        entries[0].1
    } else {
        member_value(entries.drop_first(), key)
    }
}

/// `v[key]`: the member `key` of an object, `Null` for anything else.
pub open spec fn json_field(v: JsonValue, key: Seq<char>) -> JsonValue {
    match v {
        JsonValue::Object(entries) => member_value(entries@, key),
        _ => JsonValue::Null,
    }
}

pub open spec fn json_text(v: JsonValue) -> Option<Seq<char>> {
    match v {
        JsonValue::Str(s) => Some(s@),
        _ => None,
    }
}

pub open spec fn json_items(v: JsonValue) -> Option<Seq<JsonValue>> {
    match v {
        JsonValue::Array(items) => Some(items@),
        _ => None,
    }
}

/// The first item of an array.
pub open spec fn json_first(v: JsonValue) -> Option<JsonValue> {
    match json_items(v) {
        Some(items) => if items.len() > 0 {
            Some(items[0])
        } else {
            None
        },
        None => None,
    }
}

/// The value of an integer literal: an optional minus sign and at least one
/// digit, nothing else (no point, no exponent).
pub open spec fn integer_literal_value(t: Seq<char>) -> Option<int> {
    let a: int = if t.len() > 0 && t[0] == '-' {
        1
    } else {
        0
    };
    if t.len() > a && digit_run(t, a) == t.len() - a {
        let mag = digits_value(t.subrange(a, t.len() as int)) as int;
        Some(
            if a == 1 {
                -mag
            } else {
                mag
            },
        )
    } else {
        None
    }
}

/// `v.as_i64()`: an integer number that fits an `i64`. A number written with
/// a point or an exponent is a floating-point number, not an integer.
pub open spec fn json_i64(v: JsonValue) -> Option<i64> {
    match v {
        JsonValue::Number(t) => match integer_literal_value(t@) {
            Some(x) => if fits_i64(x) {
                Some(x as i64)
            } else {
                None
            },
            None => None,
        },
        _ => None,
    }
}

proof fn lemma_member_value_skip(entries: Seq<(String, JsonValue)>, key: Seq<char>, i: int)
    requires
        0 <= i < entries.len(),
        entries[i].0@ != key,
    ensures
        member_value(entries.skip(i), key) == member_value(entries.skip(i + 1), key),
{
    assert(entries.skip(i).drop_first() =~= entries.skip(i + 1));
}

impl JsonValue {
    /// The member `key` of an object; `None` where `v[key]` is `Null` because
    /// there is no such member.
    pub fn get(&self, key: &str) -> (r: Option<&JsonValue>)
        ensures
            match r {
                Some(x) => *x == json_field(*self, key@),
                None => json_field(*self, key@) == JsonValue::Null,
            },
    {
        match self {
            JsonValue::Object(entries) => {
                let mut i: usize = 0;
                assert(entries@.skip(0) =~= entries@);
                while i < entries.len()
                    invariant
                        i <= entries.len(),
                        json_field(*self, key@) == member_value(entries@, key@),
                        member_value(entries@, key@) == member_value(entries@.skip(i as int), key@),
                    decreases entries.len() - i,
                {
                    if str_eq(entries[i].0.as_str(), key) {
                        assert(entries@.skip(i as int)[0] == entries@[i as int]);
                        return Some(&entries[i].1);
                    }
                    proof {
                        lemma_member_value_skip(entries@, key@, i as int);
                    }
                    i += 1;
                }
                None
            },
            _ => None,
        }
    }

    pub fn as_str(&self) -> (r: Option<&str>)
        ensures
            match r {
                Some(s) => json_text(*self) == Some(s@),
                None => json_text(*self) is None,
            },
    {
        match self {
            JsonValue::Str(s) => Some(s.as_str()),
            _ => None,
        }
    }

    pub fn as_array(&self) -> (r: Option<&Vec<JsonValue>>)
        ensures
            match r {
                Some(items) => json_items(*self) == Some(items@),
                None => json_items(*self) is None,
            },
    {
        match self {
            JsonValue::Array(items) => Some(items),
            _ => None,
        }
    }

    pub fn as_i64(&self) -> (r: Option<i64>)
        ensures
            r == json_i64(*self),
    {
        match self {
            JsonValue::Number(t) => integer_literal(t.as_str()),
            _ => None,
        }
    }
}

/// `integer_literal_value(t)`, when it fits an `i64`.
pub fn integer_literal(t: &str) -> (r: Option<i64>)
    ensures
        r == (match integer_literal_value(t@) {
            Some(x) => if fits_i64(x) {
                Some(x as i64)
            } else {
                None
            },
            None => None,
        }),
{
    let cs = str_chars(t);
    let n = cs.len();
    let a: usize = if n > 0 && cs[0] == '-' {
        1
    } else {
        0
    };
    if n <= a {
        return None;
    }
    let end = crate::decimal::skip_digits(&cs, a);
    if end != n {
        return None;
    }
    let mut ds: Vec<char> = Vec::new();
    push_range(&mut ds, &cs, a, n);
    assert(ds@ =~= cs@.subrange(a as int, n as int));
    assert(ds@.subrange(0, ds@.len() as int) =~= ds@);
    let limit: u128 = if a == 1 {
        9223372036854775808
    } else {
        9223372036854775807
    };
    match prefix_value(&ds, ds.len(), limit) {
        None => None,
        Some(m) => {
            if a == 1 {
                Some((-(m as i128)) as i64)
            } else {
                Some(m as i64)
            }
        },
    }
}

/// An integer number, read as a telemetry reading, is exactly that many
/// thousandths: reading the integer `n` in milli units gives `1000 * n`.
pub proof fn lemma_integer_reading(t: Seq<char>)
    requires
        integer_literal_value(t) is Some,
    ensures
        decimal_milli(t) == Some(1000 * integer_literal_value(t)->0),
{
    let a: int = if t.len() > 0 && t[0] == '-' {
        1
    } else {
        0
    };
    assert(digit_run(t, a) == t.len() - a);
    if a == 0 {
        assert(is_digit(t[0]));
    }
    reveal_with_fuel(pow10, 4);
    assert(pow10(3) == 1000);
    let len = t.len() as int;
    assert(sign_len(t) == a);
    assert(int_end(t) == len);
    assert(!has_point(t));
    assert(frac_start(t) == len && frac_end(t) == len);
    assert(parse_exponent(t, len) == Some(0int));
    let ds = t.subrange(a, len);
    assert(t.subrange(a, len) + t.subrange(len, len) =~= ds);
    let p = parse_decimal(t)->0;
    assert(parse_decimal(t) is Some);
    assert(p.digits == ds);
    assert(p.frac_len == 0);
    assert(p.exponent == 0);
    assert(p.negative == (a == 1));
    assert(scaled_magnitude(ds, 3) == digits_value(ds) * 1000);
    assert(parts_milli(p) == if a == 1 {
        -(digits_value(ds) * 1000)
    } else {
        (digits_value(ds) * 1000) as int
    });
}

} // verus!
