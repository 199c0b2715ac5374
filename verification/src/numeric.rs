//! Numeric lexical rules: signed decimals, width-checked integers, and the
//! lexical form of floating-point literals (whose text is kept verbatim).

use vstd::prelude::*;

use crate::error::{CError, CErrorKind, PResult};
use crate::scan::{
    accumulate_decimal, char_at, digits_val, run_end, scan_class, sub_string, tag_nocase,
    tag_nocase_at, CharClass,
};

verus! {

/// The value of the decimal numeral spanning `[pos, end)`: the digits'
/// value, negated after a leading `-`.
pub open spec fn decimal_span_val(s: Seq<char>, pos: int, end: int) -> int
    recommends
        0 <= pos < end <= s.len(),
{
    if s[pos] == '-' {
        -digits_val(s.subrange(pos + 1, end))
    } else if s[pos] == '+' {
        digits_val(s.subrange(pos + 1, end))
    } else {
        digits_val(s.subrange(pos, end))
    }
}

/// End of a decimal numeral at `pos`: an optional `+` or `-` sign followed
/// by at least one digit; `None` when no such numeral starts at `pos`.
pub open spec fn decimal_end(s: Seq<char>, pos: int) -> Option<int>
    recommends
        0 <= pos <= s.len(),
{
    let dstart = if pos < s.len() && (s[pos] == '-' || s[pos] == '+') {
        pos + 1
    } else {
        pos
    };
    let e = run_end(s, dstart, CharClass::Digit);
    if e > dstart {
        Some(e)
    } else {
        None
    }
}

/// What `decimal_value` returns: the matched span of text.
pub open spec fn spec_decimal_value(s: Seq<char>, pos: int) -> Option<(int, Seq<char>)> {
    match decimal_end(s, pos) {
        Some(e) => Some((e, s.subrange(pos, e))),
        None => None,
    }
}

/// What `integer_value` returns: the decimal's value when it fits in `i32`.
pub open spec fn spec_integer_value(s: Seq<char>, pos: int) -> Option<(int, i32)> {
    match decimal_end(s, pos) {
        Some(e) => {
            let v = decimal_span_val(s, pos, e);
            if -2147483648 <= v <= 2147483647 {
                Some((e, v as i32))
            } else {
                None
            }
        },
        None => None,
    }
}

/// What `long_value` returns: the decimal's value when it fits in `i64`.
pub open spec fn spec_long_value(s: Seq<char>, pos: int) -> Option<(int, i64)> {
    match decimal_end(s, pos) {
        Some(e) => {
            let v = decimal_span_val(s, pos, e);
            if -9223372036854775808 <= v <= 9223372036854775807 {
                Some((e, v as i64))
            } else {
                None
            }
        },
        None => None,
    }
}

/// What `positive_integer_value` returns: an unsigned run of digits whose
/// value fits in `i32`.  No sign is admitted.
pub open spec fn spec_positive_integer_value(s: Seq<char>, pos: int) -> Option<(int, i32)> {
    let e = run_end(s, pos, CharClass::Digit);
    if e > pos {
        let v = digits_val(s.subrange(pos, e));
        if v <= 2147483647 {
            Some((e, v as i32))
        } else {
            None
        }
    } else {
        None
    }
}

/// What `u128_value` returns: an unsigned run of digits whose value fits
/// in `u128`.  No sign is admitted.
pub open spec fn spec_u128_value(s: Seq<char>, pos: int) -> Option<(int, u128)> {
    let e = run_end(s, pos, CharClass::Digit);
    if e > pos {
        let v = digits_val(s.subrange(pos, e));
        if v <= u128::MAX {
            Some((e, v as u128))
        } else {
            None
        }
    } else {
        None
    }
}

/// Parses an optional sign followed by a run of digits, returning the
/// matched text verbatim.
pub fn decimal_value(input: &Vec<char>, pos: usize) -> (r: PResult<String>)
    requires
        pos <= input@.len(),
    ensures
        r matches Ok((np, v)) ==> spec_decimal_value(input@, pos as int) == Some(
            (np as int, v@),
        ) && pos <= np <= input@.len(),
        r is Err ==> spec_decimal_value(input@, pos as int) is None,
        r matches Err(e) ==> e.labels@.len() >= 1,
{
    match decimal_lex(input, pos) {
        Some(np) => {
            let v = sub_string(input, pos, np);
            Ok((np, v))
        },
        None => Err(CError::new(CErrorKind::ExpectedCharClass, pos).label("Decimal")),
    }
}

/// Matches the lexical shape of a decimal numeral.
pub(crate) fn decimal_lex(input: &Vec<char>, pos: usize) -> (r: Option<usize>)
    requires
        pos <= input@.len(),
    ensures
        r matches Some(np) ==> decimal_end(input@, pos as int) == Some(np as int) && pos <= np
            <= input@.len(),
        r is None ==> decimal_end(input@, pos as int) is None,
{
    let dstart = if char_at(input, pos, '-') || char_at(input, pos, '+') {
        pos + 1
    } else {
        pos
    };
    let e = scan_class(input, dstart, CharClass::Digit);
    if e > dstart {
        Some(e)
    } else {
        None
    }
}

/// Parses a decimal numeral into an `i32`; fails when the numeral is
/// missing or its value does not fit.
pub fn integer_value(input: &Vec<char>, pos: usize) -> (r: PResult<i32>)
    requires
        pos <= input@.len(),
    ensures
        r matches Ok((np, v)) ==> spec_integer_value(input@, pos as int) == Some((np as int, v))
            && pos <= np <= input@.len(),
        r is Err ==> spec_integer_value(input@, pos as int) is None,
        r matches Err(e) ==> e.labels@.len() >= 1,
{
    let neg = char_at(input, pos, '-');
    let signed = neg || char_at(input, pos, '+');
    let dstart = if signed {
        pos + 1
    } else {
        pos
    };
    let e = scan_class(input, dstart, CharClass::Digit);
    if e == dstart {
        return Err(CError::new(CErrorKind::ExpectedCharClass, dstart).label("Integer"));
    }
    let limit: u128 = if neg {
        2147483648
    } else {
        2147483647
    };
    match accumulate_decimal(input, dstart, e, limit) {
        Some(mag) => {
            let v: i32 = if neg {
                (-(mag as i64)) as i32
            } else {
                mag as i32
            };
            Ok((e, v))
        },
        None => Err(CError::new(CErrorKind::NumericConversion, pos).label("Integer")),
    }
}

/// Parses a decimal numeral into an `i64`; fails when the numeral is
/// missing or its value does not fit.
pub fn long_value(input: &Vec<char>, pos: usize) -> (r: PResult<i64>)
    requires
        pos <= input@.len(),
    ensures
        r matches Ok((np, v)) ==> spec_long_value(input@, pos as int) == Some((np as int, v))
            && pos <= np <= input@.len(),
        r is Err ==> spec_long_value(input@, pos as int) is None,
        r matches Err(e) ==> e.labels@.len() >= 1,
{
    let neg = char_at(input, pos, '-');
    let signed = neg || char_at(input, pos, '+');
    let dstart = if signed {
        pos + 1
    } else {
        pos
    };
    let e = scan_class(input, dstart, CharClass::Digit);
    if e == dstart {
        return Err(CError::new(CErrorKind::ExpectedCharClass, dstart).label("Long"));
    }
    let limit: u128 = if neg {
        9223372036854775808
    } else {
        9223372036854775807
    };
    match accumulate_decimal(input, dstart, e, limit) {
        Some(mag) => {
            let v: i64 = if neg {
                (-(mag as i128)) as i64
            } else {
                mag as i64
            };
            Ok((e, v))
        },
        None => Err(CError::new(CErrorKind::NumericConversion, pos).label("Long")),
    }
}

/// Parses an unsigned run of digits into an `i32`; used for length bounds,
/// which admit no sign at all.
pub fn positive_integer_value(input: &Vec<char>, pos: usize) -> (r: PResult<i32>)
    requires
        pos <= input@.len(),
    ensures
        r matches Ok((np, v)) ==> spec_positive_integer_value(input@, pos as int) == Some(
            (np as int, v),
        ) && pos <= np <= input@.len(),
        r is Err ==> spec_positive_integer_value(input@, pos as int) is None,
        r matches Err(e) ==> e.labels@.len() >= 1,
{
    let e = scan_class(input, pos, CharClass::Digit);
    if e == pos {
        return Err(CError::new(CErrorKind::ExpectedCharClass, pos).label("PositiveInteger"));
    }
    match accumulate_decimal(input, pos, e, 2147483647) {
        Some(mag) => Ok((e, mag as i32)),
        None => Err(CError::new(CErrorKind::NumericConversion, pos).label("PositiveInteger")),
    }
}

/// Parses an unsigned run of digits into a `u128`; fails when the numeral
/// is missing or its value does not fit.
pub fn u128_value(input: &Vec<char>, pos: usize) -> (r: PResult<u128>)
    requires
        pos <= input@.len(),
    ensures
        r matches Ok((np, v)) ==> spec_u128_value(input@, pos as int) == Some((np as int, v))
            && pos <= np <= input@.len(),
        r is Err ==> spec_u128_value(input@, pos as int) is None,
        r matches Err(e) ==> e.labels@.len() >= 1,
{
    let e = scan_class(input, pos, CharClass::Digit);
    if e == pos {
        return Err(CError::new(CErrorKind::ExpectedCharClass, pos).label("Decimal"));
    }
    match accumulate_decimal(input, pos, e, u128::MAX) {
        Some(mag) => Ok((e, mag)),
        None => Err(CError::new(CErrorKind::NumericConversion, pos).label("Decimal")),
    }
}

/// End of the first floating-point alternative: `.42` with an optional
/// exponent.
pub open spec fn float_frac_first_end(s: Seq<char>, pos: int) -> Option<int> {
    if pos < s.len() && s[pos] == '.' {
        let e = run_end(s, pos + 1, CharClass::Digit);
        if e > pos + 1 {
            if e < s.len() && (s[e] == 'e' || s[e] == 'E') {
                match decimal_end(s, e + 1) {
                    Some(e2) => Some(e2),
                    None => Some(e),
                }
            } else {
                Some(e)
            }
        } else {
            None
        }
    } else {
        None
    }
}

/// End of the second floating-point alternative: `42e42` or `42.42e42`,
/// with a mandatory exponent.
pub open spec fn float_exponent_end(s: Seq<char>, pos: int) -> Option<int> {
    match decimal_end(s, pos) {
        Some(d1) => {
            let after_frac = if d1 < s.len() && s[d1] == '.' {
                let f = run_end(s, d1 + 1, CharClass::Digit);
                if f > d1 + 1 {
                    f
                } else {
                    d1
                }
            } else {
                d1
            };
            if after_frac < s.len() && (s[after_frac] == 'e' || s[after_frac] == 'E') {
                match decimal_end(s, after_frac + 1) {
                    Some(e2) => Some(e2),
                    None => None,
                }
            } else {
                None
            }
        },
        None => None,
    }
}

/// End of the third floating-point alternative: `42.` or `42.42`, with no
/// exponent.
pub open spec fn float_dot_end(s: Seq<char>, pos: int) -> Option<int> {
    match decimal_end(s, pos) {
        Some(d1) => {
            if d1 < s.len() && s[d1] == '.' {
                Some(run_end(s, d1 + 1, CharClass::Digit))
            } else {
                None
            }
        },
        None => None,
    }
}

/// End of the infinity alternative: an optional sign, then `infinity` or
/// `inf`, compared ignoring ASCII case.
pub open spec fn float_inf_end(s: Seq<char>, pos: int) -> Option<int> {
    let p2 = if pos < s.len() && (s[pos] == '+' || s[pos] == '-') {
        pos + 1
    } else {
        pos
    };
    if tag_nocase_at(s, p2, "infinity"@) {
        Some(p2 + "infinity"@.len())
    } else if tag_nocase_at(s, p2, "inf"@) {
        Some(p2 + "inf"@.len())
    } else {
        None
    }
}

/// End of the not-a-number alternative: `nan`, ignoring ASCII case, with
/// no sign.
pub open spec fn float_nan_end(s: Seq<char>, pos: int) -> Option<int> {
    if tag_nocase_at(s, pos, "nan"@) {
        Some(pos + "nan"@.len())
    } else {
        None
    }
}

/// End of a floating-point literal at `pos`: the alternatives are tried in
/// a fixed order and the first to match wins.
pub open spec fn float_end(s: Seq<char>, pos: int) -> Option<int> {
    if float_frac_first_end(s, pos) is Some {
        float_frac_first_end(s, pos)
    } else if float_exponent_end(s, pos) is Some {
        float_exponent_end(s, pos)
    } else if float_dot_end(s, pos) is Some {
        float_dot_end(s, pos)
    } else if float_inf_end(s, pos) is Some {
        float_inf_end(s, pos)
    } else {
        float_nan_end(s, pos)
    }
}

/// What `double_value` returns: the matched floating-point literal text,
/// kept verbatim.
pub open spec fn spec_double_value(s: Seq<char>, pos: int) -> Option<(int, Seq<char>)> {
    match float_end(s, pos) {
        Some(e) => Some((e, s.subrange(pos, e))),
        None => None,
    }
}

/// Matches the lexical shape of a floating-point literal, returning the
/// position after it.
fn float_lex(input: &Vec<char>, pos: usize) -> (r: Option<usize>)
    requires
        pos <= input@.len(),
    ensures
        r matches Some(np) ==> float_end(input@, pos as int) == Some(np as int) && pos <= np
            <= input@.len(),
        r is None ==> float_end(input@, pos as int) is None,
{
    // `.42`, with an optional exponent
    if char_at(input, pos, '.') {
        let e = scan_class(input, pos + 1, CharClass::Digit);
        if e > pos + 1 {
            if char_at(input, e, 'e') || char_at(input, e, 'E') {
                match decimal_lex(input, e + 1) {
                    Some(e2) => {
                        return Some(e2);
                    },
                    None => {
                        return Some(e);
                    },
                }
            }
            return Some(e);
        }
    }
    assert(float_frac_first_end(input@, pos as int) is None);
    // `42e42` or `42.42e42`
    if let Some(d1) = decimal_lex(input, pos) {
        let after_frac = if char_at(input, d1, '.') {
            let f = scan_class(input, d1 + 1, CharClass::Digit);
            if f > d1 + 1 {
                f
            } else {
                d1
            }
        } else {
            d1
        };
        if char_at(input, after_frac, 'e') || char_at(input, after_frac, 'E') {
            if let Some(e2) = decimal_lex(input, after_frac + 1) {
                return Some(e2);
            }
        }
        assert(float_exponent_end(input@, pos as int) is None);
        // `42.` or `42.42`
        if char_at(input, d1, '.') {
            let e = scan_class(input, d1 + 1, CharClass::Digit);
            return Some(e);
        }
        assert(float_dot_end(input@, pos as int) is None);
    }
    // `inf` / `infinity`, with an optional sign
    let p2 = if char_at(input, pos, '+') || char_at(input, pos, '-') {
        pos + 1
    } else {
        pos
    };
    if let Some(np) = tag_nocase(input, p2, "infinity") {
        return Some(np);
    }
    if let Some(np) = tag_nocase(input, p2, "inf") {
        return Some(np);
    }
    // `nan`, with no sign
    if let Some(np) = tag_nocase(input, pos, "nan") {
        return Some(np);
    }
    None
}

/// Parses the text of a floating-point literal, returning it verbatim.
///
/// Every text this rule matches is a literal the platform's float parser
/// accepts, so keeping the text loses nothing; turning it into a binary
/// float is the consumer's concern.
pub fn double_value(input: &Vec<char>, pos: usize) -> (r: PResult<String>)
    requires
        pos <= input@.len(),
    ensures
        r matches Ok((np, v)) ==> spec_double_value(input@, pos as int) == Some((np as int, v@))
            && pos <= np <= input@.len(),
        r is Err ==> spec_double_value(input@, pos as int) is None,
        r matches Err(e) ==> e.labels@.len() >= 1,
{
    match float_lex(input, pos) {
        Some(np) => {
            let v = sub_string(input, pos, np);
            Ok((np, v))
        },
        None => Err(CError::new(CErrorKind::ExpectedCharClass, pos).label("FloatingPointValue")),
    }
}

} // verus!
