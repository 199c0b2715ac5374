//! The shared `keyword=[lower?,upper?]` grammar behind `length=` and
//! `range=` metaproperties, generic over the element grammar.  At least
//! one of the two bounds must be present.

use vstd::prelude::*;

use crate::error::{CError, CErrorKind, PResult};
use crate::numeric::{
    double_value, integer_value, long_value, positive_integer_value, spec_double_value,
    spec_integer_value, spec_long_value, spec_positive_integer_value,
};
use crate::scan::{char_at, run_end, scan_class, tag, tag_at, CharClass};

verus! {

/// The bracketed pair at `p`: both bounds, only the lower (terminated by
/// the comma), or only the upper (preceded by the comma), tried in that
/// order.
pub open spec fn spec_ranged_body<T>(
    s: Seq<char>,
    p: int,
    elem: spec_fn(Seq<char>, int) -> Option<(int, T)>,
) -> Option<(int, (Option<T>, Option<T>))> {
    match elem(s, p) {
        Some((e1, v1)) => {
            let c = run_end(s, e1, CharClass::Space);
            if c < s.len() && s[c] == ',' {
                let q = run_end(s, c + 1, CharClass::Space);
                match elem(s, q) {
                    Some((e2, v2)) => Some((e2, (Some(v1), Some(v2)))),
                    None => Some((q, (Some(v1), None))),
                }
            } else {
                None
            }
        },
        None => {
            let c = run_end(s, p, CharClass::Space);
            if c < s.len() && s[c] == ',' {
                let q = run_end(s, c + 1, CharClass::Space);
                match elem(s, q) {
                    Some((e2, v2)) => Some((e2, (None, Some(v2)))),
                    None => None,
                }
            } else {
                None
            }
        },
    }
}

/// What a ranged metaproperty denotes: the keyword, `=`, `[`, the pair of
/// optional bounds, and `]`, with whitespace allowed around each part.
pub open spec fn spec_ranged<T>(
    s: Seq<char>,
    pos: int,
    kw: Seq<char>,
    elem: spec_fn(Seq<char>, int) -> Option<(int, T)>,
) -> Option<(int, (Option<T>, Option<T>))> {
    if tag_at(s, pos, kw) {
        let p1 = run_end(s, pos + kw.len(), CharClass::Space);
        if p1 < s.len() && s[p1] == '=' {
            let p2 = run_end(s, p1 + 1, CharClass::Space);
            if p2 < s.len() && s[p2] == '[' {
                let p3 = run_end(s, p2 + 1, CharClass::Space);
                match spec_ranged_body(s, p3, elem) {
                    Some((p4, pair)) => {
                        let p5 = run_end(s, p4, CharClass::Space);
                        if p5 < s.len() && s[p5] == ']' {
                            Some((p5 + 1, pair))
                        } else {
                            None
                        }
                    },
                    None => None,
                }
            } else {
                None
            }
        } else {
            None
        }
    } else {
        None
    }
}

/// The element grammar of `length=` bounds: unsigned 32-bit numerals.
pub open spec fn positive_integer_elem() -> spec_fn(Seq<char>, int) -> Option<(int, i32)> {
    |s: Seq<char>, p: int| spec_positive_integer_value(s, p)
}

/// The element grammar of `Integer` ranges: signed 32-bit numerals.
pub open spec fn integer_elem() -> spec_fn(Seq<char>, int) -> Option<(int, i32)> {
    |s: Seq<char>, p: int| spec_integer_value(s, p)
}

/// The element grammar of `Long` ranges: signed 64-bit numerals.
pub open spec fn long_elem() -> spec_fn(Seq<char>, int) -> Option<(int, i64)> {
    |s: Seq<char>, p: int| spec_long_value(s, p)
}

/// The element grammar of `Double` ranges: floating-point literal texts.
pub open spec fn double_elem() -> spec_fn(Seq<char>, int) -> Option<(int, Seq<char>)> {
    |s: Seq<char>, p: int| spec_double_value(s, p)
}

/// Parses `kw=[lower?,upper?]` whose bounds are unsigned 32-bit numerals.
pub fn ranged_positive_integer(input: &Vec<char>, pos: usize, kw: &str) -> (r: PResult<
    (Option<i32>, Option<i32>),
>)
    requires
        pos <= input@.len(),
    ensures
        r matches Ok((np, v)) ==> spec_ranged(input@, pos as int, kw@, positive_integer_elem())
            == Some((np as int, v)) && pos < np <= input@.len(),
        r is Err ==> spec_ranged(input@, pos as int, kw@, positive_integer_elem()) is None,
        r matches Err(e) ==> e.labels@.len() >= 1,
{
    let p = match tag(input, pos, kw) {
        Some(p) => p,
        None => {
            return Err(CError::new(CErrorKind::ExpectedLiteral, pos).label("RangedMetaProperty"));
        },
    };
    let p1 = scan_class(input, p, CharClass::Space);
    if !char_at(input, p1, '=') {
        return Err(CError::new(CErrorKind::ExpectedLiteral, p1).label("RangedMetaProperty"));
    }
    let p2 = scan_class(input, p1 + 1, CharClass::Space);
    if !char_at(input, p2, '[') {
        return Err(CError::new(CErrorKind::ExpectedLiteral, p2).label("RangedMetaProperty"));
    }
    let p3 = scan_class(input, p2 + 1, CharClass::Space);
    let (p4, pair) = match positive_integer_value(input, p3) {
        Ok((e1, v1)) => {
            let c = scan_class(input, e1, CharClass::Space);
            if !char_at(input, c, ',') {
                return Err(CError::new(CErrorKind::ExpectedLiteral, c).label("RangedMetaProperty"));
            }
            let q = scan_class(input, c + 1, CharClass::Space);
            match positive_integer_value(input, q) {
                Ok((e2, v2)) => (e2, (Some(v1), Some(v2))),
                Err(_) => (q, (Some(v1), None)),
            }
        },
        Err(_) => {
            let c = scan_class(input, p3, CharClass::Space);
            if !char_at(input, c, ',') {
                return Err(CError::new(CErrorKind::ExpectedLiteral, c).label("RangedMetaProperty"));
            }
            let q = scan_class(input, c + 1, CharClass::Space);
            match positive_integer_value(input, q) {
                Ok((e2, v2)) => (e2, (None, Some(v2))),
                Err(e) => {
                    return Err(e.label("RangedMetaProperty"));
                },
            }
        },
    };
    let p5 = scan_class(input, p4, CharClass::Space);
    if !char_at(input, p5, ']') {
        return Err(CError::new(CErrorKind::ExpectedLiteral, p5).label("RangedMetaProperty"));
    }
    Ok((p5 + 1, pair))
}

/// Parses `kw=[lower?,upper?]` whose bounds are signed 32-bit numerals.
pub fn ranged_integer(input: &Vec<char>, pos: usize, kw: &str) -> (r: PResult<
    (Option<i32>, Option<i32>),
>)
    requires
        pos <= input@.len(),
    ensures
        r matches Ok((np, v)) ==> spec_ranged(input@, pos as int, kw@, integer_elem()) == Some(
            (np as int, v),
        ) && pos < np <= input@.len(),
        r is Err ==> spec_ranged(input@, pos as int, kw@, integer_elem()) is None,
        r matches Err(e) ==> e.labels@.len() >= 1,
{
    let p = match tag(input, pos, kw) {
        Some(p) => p,
        None => {
            return Err(CError::new(CErrorKind::ExpectedLiteral, pos).label("RangedMetaProperty"));
        },
    };
    let p1 = scan_class(input, p, CharClass::Space);
    if !char_at(input, p1, '=') {
        return Err(CError::new(CErrorKind::ExpectedLiteral, p1).label("RangedMetaProperty"));
    }
    let p2 = scan_class(input, p1 + 1, CharClass::Space);
    if !char_at(input, p2, '[') {
        return Err(CError::new(CErrorKind::ExpectedLiteral, p2).label("RangedMetaProperty"));
    }
    let p3 = scan_class(input, p2 + 1, CharClass::Space);
    let (p4, pair) = match integer_value(input, p3) {
        Ok((e1, v1)) => {
            let c = scan_class(input, e1, CharClass::Space);
            if !char_at(input, c, ',') {
                return Err(CError::new(CErrorKind::ExpectedLiteral, c).label("RangedMetaProperty"));
            }
            let q = scan_class(input, c + 1, CharClass::Space);
            match integer_value(input, q) {
                Ok((e2, v2)) => (e2, (Some(v1), Some(v2))),
                Err(_) => (q, (Some(v1), None)),
            }
        },
        Err(_) => {
            let c = scan_class(input, p3, CharClass::Space);
            if !char_at(input, c, ',') {
                return Err(CError::new(CErrorKind::ExpectedLiteral, c).label("RangedMetaProperty"));
            }
            let q = scan_class(input, c + 1, CharClass::Space);
            match integer_value(input, q) {
                Ok((e2, v2)) => (e2, (None, Some(v2))),
                Err(e) => {
                    return Err(e.label("RangedMetaProperty"));
                },
            }
        },
    };
    let p5 = scan_class(input, p4, CharClass::Space);
    if !char_at(input, p5, ']') {
        return Err(CError::new(CErrorKind::ExpectedLiteral, p5).label("RangedMetaProperty"));
    }
    Ok((p5 + 1, pair))
}

/// Parses `kw=[lower?,upper?]` whose bounds are signed 64-bit numerals.
pub fn ranged_long(input: &Vec<char>, pos: usize, kw: &str) -> (r: PResult<
    (Option<i64>, Option<i64>),
>)
    requires
        pos <= input@.len(),
    ensures
        r matches Ok((np, v)) ==> spec_ranged(input@, pos as int, kw@, long_elem()) == Some(
            (np as int, v),
        ) && pos < np <= input@.len(),
        r is Err ==> spec_ranged(input@, pos as int, kw@, long_elem()) is None,
        r matches Err(e) ==> e.labels@.len() >= 1,
{
    let p = match tag(input, pos, kw) {
        Some(p) => p,
        None => {
            return Err(CError::new(CErrorKind::ExpectedLiteral, pos).label("RangedMetaProperty"));
        },
    };
    let p1 = scan_class(input, p, CharClass::Space);
    if !char_at(input, p1, '=') {
        return Err(CError::new(CErrorKind::ExpectedLiteral, p1).label("RangedMetaProperty"));
    }
    let p2 = scan_class(input, p1 + 1, CharClass::Space);
    if !char_at(input, p2, '[') {
        return Err(CError::new(CErrorKind::ExpectedLiteral, p2).label("RangedMetaProperty"));
    }
    let p3 = scan_class(input, p2 + 1, CharClass::Space);
    let (p4, pair) = match long_value(input, p3) {
        Ok((e1, v1)) => {
            let c = scan_class(input, e1, CharClass::Space);
            if !char_at(input, c, ',') {
                return Err(CError::new(CErrorKind::ExpectedLiteral, c).label("RangedMetaProperty"));
            }
            let q = scan_class(input, c + 1, CharClass::Space);
            match long_value(input, q) {
                Ok((e2, v2)) => (e2, (Some(v1), Some(v2))),
                Err(_) => (q, (Some(v1), None)),
            }
        },
        Err(_) => {
            let c = scan_class(input, p3, CharClass::Space);
            if !char_at(input, c, ',') {
                return Err(CError::new(CErrorKind::ExpectedLiteral, c).label("RangedMetaProperty"));
            }
            let q = scan_class(input, c + 1, CharClass::Space);
            match long_value(input, q) {
                Ok((e2, v2)) => (e2, (None, Some(v2))),
                Err(e) => {
                    return Err(e.label("RangedMetaProperty"));
                },
            }
        },
    };
    let p5 = scan_class(input, p4, CharClass::Space);
    if !char_at(input, p5, ']') {
        return Err(CError::new(CErrorKind::ExpectedLiteral, p5).label("RangedMetaProperty"));
    }
    Ok((p5 + 1, pair))
}

/// Parses `kw=[lower?,upper?]` whose bounds are floating-point literal
/// texts, kept verbatim.
pub fn ranged_double(input: &Vec<char>, pos: usize, kw: &str) -> (r: PResult<
    (Option<String>, Option<String>),
>)
    requires
        pos <= input@.len(),
    ensures
        r matches Ok((np, v)) ==> spec_ranged(input@, pos as int, kw@, double_elem()) == Some(
            (np as int, v.deep_view()),
        ) && pos < np <= input@.len(),
        r is Err ==> spec_ranged(input@, pos as int, kw@, double_elem()) is None,
        r matches Err(e) ==> e.labels@.len() >= 1,
{
    let p = match tag(input, pos, kw) {
        Some(p) => p,
        None => {
            return Err(CError::new(CErrorKind::ExpectedLiteral, pos).label("RangedMetaProperty"));
        },
    };
    let p1 = scan_class(input, p, CharClass::Space);
    if !char_at(input, p1, '=') {
        return Err(CError::new(CErrorKind::ExpectedLiteral, p1).label("RangedMetaProperty"));
    }
    let p2 = scan_class(input, p1 + 1, CharClass::Space);
    if !char_at(input, p2, '[') {
        return Err(CError::new(CErrorKind::ExpectedLiteral, p2).label("RangedMetaProperty"));
    }
    let p3 = scan_class(input, p2 + 1, CharClass::Space);
    let (p4, pair) = match double_value(input, p3) {
        Ok((e1, v1)) => {
            let c = scan_class(input, e1, CharClass::Space);
            if !char_at(input, c, ',') {
                return Err(CError::new(CErrorKind::ExpectedLiteral, c).label("RangedMetaProperty"));
            }
            let q = scan_class(input, c + 1, CharClass::Space);
            match double_value(input, q) {
                Ok((e2, v2)) => (e2, (Some(v1), Some(v2))),
                Err(_) => (q, (Some(v1), None)),
            }
        },
        Err(_) => {
            let c = scan_class(input, p3, CharClass::Space);
            if !char_at(input, c, ',') {
                return Err(CError::new(CErrorKind::ExpectedLiteral, c).label("RangedMetaProperty"));
            }
            let q = scan_class(input, c + 1, CharClass::Space);
            match double_value(input, q) {
                Ok((e2, v2)) => (e2, (None, Some(v2))),
                Err(e) => {
                    return Err(e.label("RangedMetaProperty"));
                },
            }
        },
    };
    let p5 = scan_class(input, p4, CharClass::Space);
    if !char_at(input, p5, ']') {
        return Err(CError::new(CErrorKind::ExpectedLiteral, p5).label("RangedMetaProperty"));
    }
    Ok((p5 + 1, pair))
}

} // verus!
