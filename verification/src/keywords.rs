//! Keyword rules of the schema language, one parser per keyword.

use vstd::prelude::*;

use crate::error::{CError, CErrorKind, PResult};
use crate::scan::{tag, tag_at};

verus! {

/// Matches the literal `t` at `pos`, as a parser.
pub fn literal(input: &Vec<char>, pos: usize, t: &str) -> (r: PResult<()>)
    requires
        pos <= input@.len(),
    ensures
        r matches Ok((np, _)) ==> tag_at(input@, pos as int, t@) && np as int == pos + t@.len()
            && np <= input@.len(),
        r is Err ==> !tag_at(input@, pos as int, t@),
{
    match tag(input, pos, t) {
        Some(np) => Ok((np, ())),
        None => Err(CError::new(CErrorKind::ExpectedLiteral, pos)),
    }
}

/// Matches the keyword `default`.
pub fn default(input: &Vec<char>, pos: usize) -> (r: PResult<()>)
    requires
        pos <= input@.len(),
    ensures
        r matches Ok((np, _)) ==> tag_at(input@, pos as int, "default"@) && np as int == pos
            + "default"@.len() && np <= input@.len(),
        r is Err ==> !tag_at(input@, pos as int, "default"@),
        r matches Err(e) ==> e.labels@.len() >= 1,
{
    match literal(input, pos, "default") {
        Ok(x) => Ok(x),
        Err(e) => Err(e.label("DefaultKeyword")),
    }
}

/// Matches the keyword `length`.
pub fn length(input: &Vec<char>, pos: usize) -> (r: PResult<()>)
    requires
        pos <= input@.len(),
    ensures
        r matches Ok((np, _)) ==> tag_at(input@, pos as int, "length"@) && np as int == pos
            + "length"@.len() && np <= input@.len(),
        r is Err ==> !tag_at(input@, pos as int, "length"@),
        r matches Err(e) ==> e.labels@.len() >= 1,
{
    match literal(input, pos, "length") {
        Ok(x) => Ok(x),
        Err(e) => Err(e.label("LengthKeyword")),
    }
}

/// Matches the keyword `range`.
pub fn range(input: &Vec<char>, pos: usize) -> (r: PResult<()>)
    requires
        pos <= input@.len(),
    ensures
        r matches Ok((np, _)) ==> tag_at(input@, pos as int, "range"@) && np as int == pos
            + "range"@.len() && np <= input@.len(),
        r is Err ==> !tag_at(input@, pos as int, "range"@),
        r matches Err(e) ==> e.labels@.len() >= 1,
{
    match literal(input, pos, "range") {
        Ok(x) => Ok(x),
        Err(e) => Err(e.label("RangeKeyword")),
    }
}

/// Matches the keyword `regex`.
pub fn regex(input: &Vec<char>, pos: usize) -> (r: PResult<()>)
    requires
        pos <= input@.len(),
    ensures
        r matches Ok((np, _)) ==> tag_at(input@, pos as int, "regex"@) && np as int == pos
            + "regex"@.len() && np <= input@.len(),
        r is Err ==> !tag_at(input@, pos as int, "regex"@),
        r matches Err(e) ==> e.labels@.len() >= 1,
{
    match literal(input, pos, "regex") {
        Ok(x) => Ok(x),
        Err(e) => Err(e.label("RegexKeyword")),
    }
}

/// Matches the keyword `namespace`.
pub fn namespace(input: &Vec<char>, pos: usize) -> (r: PResult<()>)
    requires
        pos <= input@.len(),
    ensures
        r matches Ok((np, _)) ==> tag_at(input@, pos as int, "namespace"@) && np as int == pos
            + "namespace"@.len() && np <= input@.len(),
        r is Err ==> !tag_at(input@, pos as int, "namespace"@),
        r matches Err(e) ==> e.labels@.len() >= 1,
{
    match literal(input, pos, "namespace") {
        Ok(x) => Ok(x),
        Err(e) => Err(e.label("NamespaceKeyword")),
    }
}

/// Matches the keyword `optional`.
pub fn optional(input: &Vec<char>, pos: usize) -> (r: PResult<()>)
    requires
        pos <= input@.len(),
    ensures
        r matches Ok((np, _)) ==> tag_at(input@, pos as int, "optional"@) && np as int == pos
            + "optional"@.len() && np <= input@.len(),
        r is Err ==> !tag_at(input@, pos as int, "optional"@),
        r matches Err(e) ==> e.labels@.len() >= 1,
{
    match literal(input, pos, "optional") {
        Ok(x) => Ok(x),
        Err(e) => Err(e.label("OptionalKeyword")),
    }
}

/// Matches the keyword `concept`.
pub fn concept(input: &Vec<char>, pos: usize) -> (r: PResult<()>)
    requires
        pos <= input@.len(),
    ensures
        r matches Ok((np, _)) ==> tag_at(input@, pos as int, "concept"@) && np as int == pos
            + "concept"@.len() && np <= input@.len(),
        r is Err ==> !tag_at(input@, pos as int, "concept"@),
        r matches Err(e) ==> e.labels@.len() >= 1,
{
    match literal(input, pos, "concept") {
        Ok(x) => Ok(x),
        Err(e) => Err(e.label("ConceptKeyword")),
    }
}

/// Matches the keyword `abstract`.
pub fn abstrakt(input: &Vec<char>, pos: usize) -> (r: PResult<()>)
    requires
        pos <= input@.len(),
    ensures
        r matches Ok((np, _)) ==> tag_at(input@, pos as int, "abstract"@) && np as int == pos
            + "abstract"@.len() && np <= input@.len(),
        r is Err ==> !tag_at(input@, pos as int, "abstract"@),
        r matches Err(e) ==> e.labels@.len() >= 1,
{
    match literal(input, pos, "abstract") {
        Ok(x) => Ok(x),
        Err(e) => Err(e.label("AbstractKeyword")),
    }
}

} // verus!
