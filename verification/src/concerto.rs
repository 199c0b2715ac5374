//! The primitive-type tag words of the schema language, one parser each.

use vstd::prelude::*;

use crate::error::PResult;
use crate::keywords::literal;
use crate::scan::tag_at;

verus! {

/// Matches the type tag `String`.
pub fn string(input: &Vec<char>, pos: usize) -> (r: PResult<()>)
    requires
        pos <= input@.len(),
    ensures
        r matches Ok((np, _)) ==> tag_at(input@, pos as int, "String"@) && np as int == pos
            + "String"@.len() && np <= input@.len(),
        r is Err ==> !tag_at(input@, pos as int, "String"@),
        r matches Err(e) ==> e.labels@.len() >= 1,
{
    match literal(input, pos, "String") {
        Ok(x) => Ok(x),
        Err(e) => Err(e.label("StringToken")),
    }
}

/// Matches the type tag `Boolean`.
pub fn boolean(input: &Vec<char>, pos: usize) -> (r: PResult<()>)
    requires
        pos <= input@.len(),
    ensures
        r matches Ok((np, _)) ==> tag_at(input@, pos as int, "Boolean"@) && np as int == pos
            + "Boolean"@.len() && np <= input@.len(),
        r is Err ==> !tag_at(input@, pos as int, "Boolean"@),
        r matches Err(e) ==> e.labels@.len() >= 1,
{
    match literal(input, pos, "Boolean") {
        Ok(x) => Ok(x),
        Err(e) => Err(e.label("BooleanToken")),
    }
}

/// Matches the type tag `Long`.
pub fn long(input: &Vec<char>, pos: usize) -> (r: PResult<()>)
    requires
        pos <= input@.len(),
    ensures
        r matches Ok((np, _)) ==> tag_at(input@, pos as int, "Long"@) && np as int == pos
            + "Long"@.len() && np <= input@.len(),
        r is Err ==> !tag_at(input@, pos as int, "Long"@),
        r matches Err(e) ==> e.labels@.len() >= 1,
{
    match literal(input, pos, "Long") {
        Ok(x) => Ok(x),
        Err(e) => Err(e.label("LongToken")),
    }
}

/// Matches the type tag `Double`.
pub fn double(input: &Vec<char>, pos: usize) -> (r: PResult<()>)
    requires
        pos <= input@.len(),
    ensures
        r matches Ok((np, _)) ==> tag_at(input@, pos as int, "Double"@) && np as int == pos
            + "Double"@.len() && np <= input@.len(),
        r is Err ==> !tag_at(input@, pos as int, "Double"@),
        r matches Err(e) ==> e.labels@.len() >= 1,
{
    match literal(input, pos, "Double") {
        Ok(x) => Ok(x),
        Err(e) => Err(e.label("DoubleToken")),
    }
}

/// Matches the type tag `Integer`.
pub fn integer(input: &Vec<char>, pos: usize) -> (r: PResult<()>)
    requires
        pos <= input@.len(),
    ensures
        r matches Ok((np, _)) ==> tag_at(input@, pos as int, "Integer"@) && np as int == pos
            + "Integer"@.len() && np <= input@.len(),
        r is Err ==> !tag_at(input@, pos as int, "Integer"@),
        r matches Err(e) ==> e.labels@.len() >= 1,
{
    match literal(input, pos, "Integer") {
        Ok(x) => Ok(x),
        Err(e) => Err(e.label("IntegerToken")),
    }
}

/// Matches the type tag `DateTime`.
pub fn datetime(input: &Vec<char>, pos: usize) -> (r: PResult<()>)
    requires
        pos <= input@.len(),
    ensures
        r matches Ok((np, _)) ==> tag_at(input@, pos as int, "DateTime"@) && np as int == pos
            + "DateTime"@.len() && np <= input@.len(),
        r is Err ==> !tag_at(input@, pos as int, "DateTime"@),
        r matches Err(e) ==> e.labels@.len() >= 1,
{
    match literal(input, pos, "DateTime") {
        Ok(x) => Ok(x),
        Err(e) => Err(e.label("DateTimeToken")),
    }
}

} // verus!
