//! ISO-8601-like date-time literals.  Validation is purely lexical, field
//! by field at the character level, and the matched text is kept verbatim.

use vstd::prelude::*;

use crate::error::{CError, CErrorKind, PResult};
use crate::scan::{char_at, is_digit, run_end, scan_class, sub_string, CharClass};

verus! {

/// Four decimal digits: a year.
pub open spec fn year_at(s: Seq<char>, p: int) -> bool {
    &&& 0 <= p
    &&& p + 4 <= s.len()
    &&& forall|k: int| p <= k < p + 4 ==> is_digit(s[k])
}

/// A month: `0` or `1` followed by any digit.
pub open spec fn month_at(s: Seq<char>, p: int) -> bool {
    &&& 0 <= p
    &&& p + 2 <= s.len()
    &&& (s[p] == '0' || s[p] == '1')
    &&& is_digit(s[p + 1])
}

/// A day: `0`, `1` or `2` followed by any digit, or `3` followed by `0` or
/// `1`.
pub open spec fn day_at(s: Seq<char>, p: int) -> bool {
    &&& 0 <= p
    &&& p + 2 <= s.len()
    &&& ((s[p] == '0' || s[p] == '1' || s[p] == '2') && is_digit(s[p + 1]) || (s[p] == '3' && (s[p
        + 1] == '0' || s[p + 1] == '1')))
}

/// An hour: `0` or `1` followed by any digit, or `2` followed by `0`-`3`.
pub open spec fn hour_at(s: Seq<char>, p: int) -> bool {
    &&& 0 <= p
    &&& p + 2 <= s.len()
    &&& (((s[p] == '0' || s[p] == '1') && is_digit(s[p + 1])) || (s[p] == '2' && (s[p + 1] == '0'
        || s[p + 1] == '1' || s[p + 1] == '2' || s[p + 1] == '3')))
}

/// A minute or second: `0`-`5` followed by any digit.
pub open spec fn minsec_at(s: Seq<char>, p: int) -> bool {
    &&& 0 <= p
    &&& p + 2 <= s.len()
    &&& (s[p] == '0' || s[p] == '1' || s[p] == '2' || s[p] == '3' || s[p] == '4' || s[p] == '5')
    &&& is_digit(s[p + 1])
}

/// `YYYY-MM-DD`, ten characters wide.
pub open spec fn ymd_at(s: Seq<char>, p: int) -> bool {
    &&& year_at(s, p)
    &&& p + 10 <= s.len()
    &&& s[p + 4] == '-'
    &&& month_at(s, p + 5)
    &&& s[p + 7] == '-'
    &&& day_at(s, p + 8)
}

/// `HH:mm:ss`, eight characters wide.
pub open spec fn hms_at(s: Seq<char>, p: int) -> bool {
    &&& hour_at(s, p)
    &&& p + 8 <= s.len()
    &&& s[p + 2] == ':'
    &&& minsec_at(s, p + 3)
    &&& s[p + 5] == ':'
    &&& minsec_at(s, p + 6)
}

/// A `±HH:mm` zone offset, six characters wide.
pub open spec fn zone_pm_at(s: Seq<char>, z: int) -> bool {
    &&& 0 <= z
    &&& z < s.len()
    &&& (s[z] == '+' || s[z] == '-')
    &&& hour_at(s, z + 1)
    &&& z + 4 <= s.len() && s[z + 3] == ':'
    &&& minsec_at(s, z + 4)
}

/// A dot followed by exactly `n` fractional-second digits.
pub open spec fn frac_digits_at(s: Seq<char>, q: int, n: int) -> bool {
    &&& 0 <= q
    &&& q < s.len()
    &&& s[q] == '.'
    &&& q + 1 + n <= s.len()
    &&& forall|k: int| q + 1 <= k < q + 1 + n ==> is_digit(s[k])
}

/// What may follow the seconds of a date-time, tried most specific first:
/// fractional seconds with a `±HH:mm` zone, fractional seconds with `Z`, a
/// bare `±HH:mm` zone, or a bare `Z`.  `None` when none of these follows.
pub open spec fn dt_suffix_end(s: Seq<char>, q: int) -> Option<int> {
    if frac_digits_at(s, q, 3) && zone_pm_at(s, q + 4) {
        Some(q + 10)
    } else if frac_digits_at(s, q, 2) && zone_pm_at(s, q + 3) {
        Some(q + 9)
    } else if frac_digits_at(s, q, 1) && zone_pm_at(s, q + 2) {
        Some(q + 8)
    } else if frac_digits_at(s, q, 3) && q + 4 < s.len() && s[q + 4] == 'Z' {
        Some(q + 5)
    } else if frac_digits_at(s, q, 2) && q + 3 < s.len() && s[q + 3] == 'Z' {
        Some(q + 4)
    } else if frac_digits_at(s, q, 1) && q + 2 < s.len() && s[q + 2] == 'Z' {
        Some(q + 3)
    } else if zone_pm_at(s, q) {
        Some(q + 6)
    } else if q < s.len() && s[q] == 'Z' {
        Some(q + 1)
    } else {
        None
    }
}

/// End of a date-time literal at `pos`: a date, optionally followed by
/// `T`, a time, and a recognised zone suffix.  When the part after the
/// date does not form a complete time-and-zone, the bare date wins.
pub open spec fn datetime_end(s: Seq<char>, pos: int) -> Option<int> {
    if ymd_at(s, pos) {
        let p = pos + 10;
        if p < s.len() && s[p] == 'T' && hms_at(s, p + 1) {
            match dt_suffix_end(s, p + 9) {
                Some(e) => Some(e),
                None => Some(p),
            }
        } else {
            Some(p)
        }
    } else {
        None
    }
}

/// What `datetime_value` returns: the matched literal text, verbatim.
pub open spec fn spec_datetime_value(s: Seq<char>, pos: int) -> Option<(int, Seq<char>)> {
    match datetime_end(s, pos) {
        Some(e) => Some((e, s.subrange(pos, e))),
        None => None,
    }
}

/// Decides whether four digits stand at `p`.
fn year_check(input: &Vec<char>, p: usize) -> (b: bool)
    requires
        p <= input@.len(),
    ensures
        b == year_at(input@, p as int),
{
    let e = scan_class(input, p, CharClass::Digit);
    e - p >= 4
}

/// Decides whether a month stands at `p`.
fn month_check(input: &Vec<char>, p: usize) -> (b: bool)
    requires
        p <= input@.len(),
    ensures
        b == month_at(input@, p as int),
{
    let n = input.len();
    (char_at(input, p, '0') || char_at(input, p, '1')) && n - p >= 2 && char_in_digit(input, p + 1)
}

/// Decides whether a day stands at `p`.
fn day_check(input: &Vec<char>, p: usize) -> (b: bool)
    requires
        p <= input@.len(),
    ensures
        b == day_at(input@, p as int),
{
    let n = input.len();
    if char_at(input, p, '0') || char_at(input, p, '1') || char_at(input, p, '2') {
        n - p >= 2 && char_in_digit(input, p + 1)
    } else if char_at(input, p, '3') {
        n - p >= 2 && (char_at(input, p + 1, '0') || char_at(input, p + 1, '1'))
    } else {
        false
    }
}

/// Decides whether an hour stands at `p`.
fn hour_check(input: &Vec<char>, p: usize) -> (b: bool)
    requires
        p <= input@.len(),
    ensures
        b == hour_at(input@, p as int),
{
    let n = input.len();
    if char_at(input, p, '0') || char_at(input, p, '1') {
        n - p >= 2 && char_in_digit(input, p + 1)
    } else if char_at(input, p, '2') {
        n - p >= 2 && (char_at(input, p + 1, '0') || char_at(input, p + 1, '1')
            || char_at(input, p + 1, '2') || char_at(input, p + 1, '3'))
    } else {
        false
    }
}

/// Decides whether a minute or second stands at `p`.
fn minsec_check(input: &Vec<char>, p: usize) -> (b: bool)
    requires
        p <= input@.len(),
    ensures
        b == minsec_at(input@, p as int),
{
    let n = input.len();
    (char_at(input, p, '0') || char_at(input, p, '1') || char_at(input, p, '2') || char_at(
        input,
        p,
        '3',
    ) || char_at(input, p, '4') || char_at(input, p, '5')) && n - p >= 2
        && char_in_digit(input, p + 1)
}

/// Tests whether the character at `p` (in bounds) is a digit.
fn char_in_digit(input: &Vec<char>, p: usize) -> (b: bool)
    requires
        p < input@.len(),
    ensures
        b == is_digit(input@[p as int]),
{
    crate::scan::char_in_class(CharClass::Digit, input[p])
}

/// Decides whether `YYYY-MM-DD` stands at `p`.
fn ymd_check(input: &Vec<char>, p: usize) -> (b: bool)
    requires
        p <= input@.len(),
    ensures
        b == ymd_at(input@, p as int),
{
    let n = input.len();
    year_check(input, p) && char_at(input, p + 4, '-') && n - p >= 10 && month_check(
        input,
        p + 5,
    ) && char_at(input, p + 7, '-') && day_check(input, p + 8)
}

/// Decides whether `HH:mm:ss` stands at `p`.
fn hms_check(input: &Vec<char>, p: usize) -> (b: bool)
    requires
        p <= input@.len(),
    ensures
        b == hms_at(input@, p as int),
{
    let n = input.len();
    hour_check(input, p) && char_at(input, p + 2, ':') && n - p >= 8 && minsec_check(
        input,
        p + 3,
    ) && char_at(input, p + 5, ':') && minsec_check(input, p + 6)
}

/// Decides whether a `±HH:mm` zone offset stands at `z`.
fn zone_check(input: &Vec<char>, z: usize) -> (b: bool)
    requires
        z <= input@.len(),
    ensures
        b == zone_pm_at(input@, z as int),
{
    let n = input.len();
    (char_at(input, z, '+') || char_at(input, z, '-')) && hour_check(input, z + 1)
        && n - z >= 4 && char_at(input, z + 3, ':') && minsec_check(input, z + 4)
}

/// Decides whether a dot and exactly `n` fractional digits stand at `q`.
fn frac_digits_check(input: &Vec<char>, q: usize, n: usize) -> (b: bool)
    requires
        q <= input@.len(),
    ensures
        b == frac_digits_at(input@, q as int, n as int),
{
    if char_at(input, q, '.') {
        let e = scan_class(input, q + 1, CharClass::Digit);
        e - (q + 1) >= n
    } else {
        false
    }
}

/// Finds the zone suffix after the seconds, trying the alternatives in
/// the grammar's order.
fn dt_suffix(input: &Vec<char>, q: usize) -> (r: Option<usize>)
    requires
        q <= input@.len(),
    ensures
        r matches Some(e) ==> dt_suffix_end(input@, q as int) == Some(e as int) && q < e
            <= input@.len(),
        r is None ==> dt_suffix_end(input@, q as int) is None,
{
    let n = input.len();
    if frac_digits_check(input, q, 3) && zone_check(input, q + 4) {
        Some(q + 10)
    } else if frac_digits_check(input, q, 2) && zone_check(input, q + 3) {
        Some(q + 9)
    } else if frac_digits_check(input, q, 1) && zone_check(input, q + 2) {
        Some(q + 8)
    } else if frac_digits_check(input, q, 3) && char_at(input, q + 4, 'Z') {
        Some(q + 5)
    } else if frac_digits_check(input, q, 2) && char_at(input, q + 3, 'Z') {
        Some(q + 4)
    } else if frac_digits_check(input, q, 1) && char_at(input, q + 2, 'Z') {
        Some(q + 3)
    } else if zone_check(input, q) {
        Some(q + 6)
    } else if char_at(input, q, 'Z') {
        Some(q + 1)
    } else {
        None
    }
}

/// Parses a date-time literal, returning its text verbatim.
pub fn datetime_value(input: &Vec<char>, pos: usize) -> (r: PResult<String>)
    requires
        pos <= input@.len(),
    ensures
        r matches Ok((np, v)) ==> spec_datetime_value(input@, pos as int) == Some(
            (np as int, v@),
        ) && pos < np <= input@.len(),
        r is Err ==> spec_datetime_value(input@, pos as int) is None,
        r matches Err(e) ==> e.labels@.len() >= 1,
{
    let n = input.len();
    if !ymd_check(input, pos) {
        return Err(CError::new(CErrorKind::ExpectedLiteral, pos).label("DateTime"));
    }
    let p = pos + 10;
    let e = if char_at(input, p, 'T') && hms_check(input, p + 1) {
        match dt_suffix(input, p + 9) {
            Some(e2) => e2,
            None => p,
        }
    } else {
        p
    };
    let v = sub_string(input, pos, e);
    Ok((e, v))
}

} // verus!
