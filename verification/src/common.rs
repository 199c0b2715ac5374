//! Shared lexical rules: name tokens and boolean literals.

use vstd::prelude::*;

use crate::error::{CError, CErrorKind, PResult};
use crate::scan::{char_in_class, run_end, scan_class, sub_string, tag, tag_at, CharClass};

verus! {

/// What `token` returns: a name starting with an ASCII letter, continued
/// by the maximal run of letters and digits.
pub open spec fn spec_token(s: Seq<char>, pos: int) -> Option<(int, Seq<char>)>
    recommends
        0 <= pos <= s.len(),
{
    if pos < s.len() && crate::scan::is_letter(s[pos]) {
        let e = run_end(s, pos + 1, CharClass::Alnum);
        Some((e, s.subrange(pos, e)))
    } else {
        None
    }
}

/// Parses a `token`: one letter followed by zero or more letters or digits.
pub fn token(input: &Vec<char>, pos: usize) -> (r: PResult<String>)
    requires
        pos <= input@.len(),
    ensures
        r matches Ok((np, t)) ==> spec_token(input@, pos as int) == Some((np as int, t@)) && pos
            < np <= input@.len(),
        r is Err ==> spec_token(input@, pos as int) is None,
        r matches Err(e) ==> e.labels@.len() >= 1,
{
    if pos < input.len() && char_in_class(CharClass::Letter, input[pos]) {
        let e = scan_class(input, pos + 1, CharClass::Alnum);
        let t = sub_string(input, pos, e);
        Ok((e, t))
    } else {
        Err(CError::new(CErrorKind::ExpectedCharClass, pos).label("Token"))
    }
}

/// Parses a `token`; same rule as [`token`], kept under the name the
/// library also exposes for it.
pub fn token_parser(input: &Vec<char>, pos: usize) -> (r: PResult<String>)
    requires
        pos <= input@.len(),
    ensures
        r matches Ok((np, t)) ==> spec_token(input@, pos as int) == Some((np as int, t@)) && pos
            < np <= input@.len(),
        r is Err ==> spec_token(input@, pos as int) is None,
        r matches Err(e) ==> e.labels@.len() >= 1,
{
    token(input, pos)
}

/// What `boolean_parser` returns: `true` for the literal `true`, `false`
/// for the literal `false`, trying `true` first.
pub open spec fn spec_boolean_value(s: Seq<char>, pos: int) -> Option<(int, bool)>
    recommends
        0 <= pos <= s.len(),
{
    if tag_at(s, pos, "true"@) {
        Some((pos + "true"@.len(), true))
    } else if tag_at(s, pos, "false"@) {
        Some((pos + "false"@.len(), false))
    } else {
        None
    }
}

/// Parses the literal `true` or `false` into the boolean it names.
pub fn boolean_parser(input: &Vec<char>, pos: usize) -> (r: PResult<bool>)
    requires
        pos <= input@.len(),
    ensures
        r matches Ok((np, b)) ==> spec_boolean_value(input@, pos as int) == Some((np as int, b))
            && pos <= np <= input@.len(),
        r is Err ==> spec_boolean_value(input@, pos as int) is None,
        r matches Err(e) ==> e.labels@.len() >= 1,
{
    if let Some(np) = tag(input, pos, "true") {
        Ok((np, true))
    } else if let Some(np) = tag(input, pos, "false") {
        Ok((np, false))
    } else {
        Err(CError::new(CErrorKind::ExpectedLiteral, pos).label("Boolean"))
    }
}

} // verus!
