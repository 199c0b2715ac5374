//! The shared shape of property lines: `o <Type> [[]] <name>`, plus the
//! reference ("imported type") property, whose type word is an arbitrary
//! token instead of a primitive keyword.

use vstd::prelude::*;

use crate::common::{spec_token, token};
use crate::error::{CError, CErrorKind, PResult};
use crate::scan::{char_at, run_end, scan_class, tag, tag_at, CharClass};

verus! {

/// The primitive property types of the schema language.
#[derive(Debug, PartialEq, Eq, Structural, Clone, Copy)]
pub enum PrimitiveType {
    /// `String`.
    StringPropertyType,
    /// `Boolean`.
    BooleanPropertyType,
    /// `Long`.
    LongPropertyType,
    /// `Double`.
    DoublePropertyType,
    /// `Integer`.
    IntegerPropertyType,
    /// `DateTime`.
    DateTimePropertyType,
}

/// A property's type: today always a primitive.
#[derive(Debug, PartialEq, Eq, Structural, Clone, Copy)]
pub enum PropertyType {
    /// A primitive type.
    Primitive(PrimitiveType),
}

/// The tag word of a primitive type, as it appears in source.
pub open spec fn spec_type_tag(t: PrimitiveType) -> Seq<char> {
    match t {
        PrimitiveType::StringPropertyType => "String"@,
        PrimitiveType::BooleanPropertyType => "Boolean"@,
        PrimitiveType::LongPropertyType => "Long"@,
        PrimitiveType::DoublePropertyType => "Double"@,
        PrimitiveType::IntegerPropertyType => "Integer"@,
        PrimitiveType::DateTimePropertyType => "DateTime"@,
    }
}

/// The tag word of a primitive type, executably.
pub fn type_tag(t: PrimitiveType) -> (r: &'static str)
    ensures
        r@ == spec_type_tag(t),
{
    match t {
        PrimitiveType::StringPropertyType => "String",
        PrimitiveType::BooleanPropertyType => "Boolean",
        PrimitiveType::LongPropertyType => "Long",
        PrimitiveType::DoublePropertyType => "Double",
        PrimitiveType::IntegerPropertyType => "Integer",
        PrimitiveType::DateTimePropertyType => "DateTime",
    }
}

/// What `primitive_type` returns: the first primitive tag word matching at
/// `pos`, tried in the grammar's order.
pub open spec fn spec_primitive_type(s: Seq<char>, pos: int) -> Option<(int, PrimitiveType)> {
    if tag_at(s, pos, "String"@) {
        Some((pos + "String"@.len(), PrimitiveType::StringPropertyType))
    } else if tag_at(s, pos, "Boolean"@) {
        Some((pos + "Boolean"@.len(), PrimitiveType::BooleanPropertyType))
    } else if tag_at(s, pos, "Long"@) {
        Some((pos + "Long"@.len(), PrimitiveType::LongPropertyType))
    } else if tag_at(s, pos, "Double"@) {
        Some((pos + "Double"@.len(), PrimitiveType::DoublePropertyType))
    } else if tag_at(s, pos, "Integer"@) {
        Some((pos + "Integer"@.len(), PrimitiveType::IntegerPropertyType))
    } else if tag_at(s, pos, "DateTime"@) {
        Some((pos + "DateTime"@.len(), PrimitiveType::DateTimePropertyType))
    } else {
        None
    }
}

/// Parses a primitive type's tag word.
pub fn primitive_type(input: &Vec<char>, pos: usize) -> (r: PResult<PrimitiveType>)
    requires
        pos <= input@.len(),
    ensures
        r matches Ok((np, t)) ==> spec_primitive_type(input@, pos as int) == Some((np as int, t))
            && pos <= np <= input@.len(),
        r is Err ==> spec_primitive_type(input@, pos as int) is None,
        r matches Err(e) ==> e.labels@.len() >= 1,
{
    if let Some(np) = tag(input, pos, "String") {
        Ok((np, PrimitiveType::StringPropertyType))
    } else if let Some(np) = tag(input, pos, "Boolean") {
        Ok((np, PrimitiveType::BooleanPropertyType))
    } else if let Some(np) = tag(input, pos, "Long") {
        Ok((np, PrimitiveType::LongPropertyType))
    } else if let Some(np) = tag(input, pos, "Double") {
        Ok((np, PrimitiveType::DoublePropertyType))
    } else if let Some(np) = tag(input, pos, "Integer") {
        Ok((np, PrimitiveType::IntegerPropertyType))
    } else if let Some(np) = tag(input, pos, "DateTime") {
        Ok((np, PrimitiveType::DateTimePropertyType))
    } else {
        Err(CError::new(CErrorKind::ExpectedLiteral, pos).label("PrimitiveType"))
    }
}

/// Parses a property's type; every recognised type is a primitive.
pub fn property_type(input: &Vec<char>, pos: usize) -> (r: PResult<PropertyType>)
    requires
        pos <= input@.len(),
    ensures
        r matches Ok((np, t)) ==> spec_primitive_type(input@, pos as int) matches Some((e, pt))
            && np as int == e && t == PropertyType::Primitive(pt) && pos <= np <= input@.len(),
        r is Err ==> spec_primitive_type(input@, pos as int) is None,
        r matches Err(e) ==> e.labels@.len() >= 1,
{
    match primitive_type(input, pos) {
        Ok((np, t)) => Ok((np, PropertyType::Primitive(t))),
        Err(e) => Err(e.label("PropertyType")),
    }
}

/// Position after `o`, optional whitespace and the given tag word; the
/// line may begin with whitespace of its own.
pub open spec fn spec_property_prefix(s: Seq<char>, pos: int, tagseq: Seq<char>) -> Option<int> {
    let p0 = run_end(s, pos, CharClass::Space);
    if p0 < s.len() && s[p0] == 'o' {
        let p1 = run_end(s, p0 + 1, CharClass::Space);
        if tag_at(s, p1, tagseq) {
            Some(p1 + tagseq.len())
        } else {
            None
        }
    } else {
        None
    }
}

/// After the type word: an optional `[ ]` array marker, whitespace, and
/// the property-name token.
pub open spec fn spec_property_name(s: Seq<char>, p: int) -> Option<(int, (Seq<char>, bool))> {
    let p2 = run_end(s, p, CharClass::Space);
    if p2 < s.len() && s[p2] == '[' {
        let p3 = run_end(s, p2 + 1, CharClass::Space);
        if p3 < s.len() && s[p3] == ']' {
            let p4 = run_end(s, p3 + 1, CharClass::Space);
            match spec_token(s, p4) {
                Some((p5, name)) => Some((p5, (name, true))),
                None => None,
            }
        } else {
            None
        }
    } else {
        match spec_token(s, p2) {
            Some((p5, name)) => Some((p5, (name, false))),
            None => None,
        }
    }
}

/// What `primitive_property` returns: the property's name and whether it
/// is array-valued, for a line of the given primitive type.
pub open spec fn spec_primitive_property(s: Seq<char>, pos: int, t: PrimitiveType) -> Option<
    (int, (Seq<char>, bool)),
> {
    match spec_property_prefix(s, pos, spec_type_tag(t)) {
        Some(p) => spec_property_name(s, p),
        None => None,
    }
}

/// Scans `o`, surrounding whitespace and the literal tag word.
fn property_prefix(input: &Vec<char>, pos: usize, tagword: &str) -> (r: PResult<usize>)
    requires
        pos <= input@.len(),
    ensures
        r matches Ok((np, e)) ==> spec_property_prefix(input@, pos as int, tagword@) == Some(
            e as int,
        ) && np == e && pos <= np <= input@.len(),
        r is Err ==> spec_property_prefix(input@, pos as int, tagword@) is None,
{
    let p0 = scan_class(input, pos, CharClass::Space);
    if !char_at(input, p0, 'o') {
        return Err(CError::new(CErrorKind::ExpectedLiteral, p0));
    }
    let p1 = scan_class(input, p0 + 1, CharClass::Space);
    match tag(input, p1, tagword) {
        Some(np) => Ok((np, np)),
        None => Err(CError::new(CErrorKind::ExpectedLiteral, p1)),
    }
}

/// Scans the optional array marker and the property-name token.
fn property_name(input: &Vec<char>, p: usize) -> (r: PResult<(String, bool)>)
    requires
        p <= input@.len(),
    ensures
        r matches Ok((np, v)) ==> spec_property_name(input@, p as int) == Some(
            (np as int, (v.0@, v.1)),
        ) && p <= np <= input@.len(),
        r is Err ==> spec_property_name(input@, p as int) is None,
{
    let p2 = scan_class(input, p, CharClass::Space);
    if char_at(input, p2, '[') {
        let p3 = scan_class(input, p2 + 1, CharClass::Space);
        if !char_at(input, p3, ']') {
            return Err(CError::new(CErrorKind::ExpectedLiteral, p3));
        }
        let p4 = scan_class(input, p3 + 1, CharClass::Space);
        match token(input, p4) {
            Ok((p5, name)) => Ok((p5, (name, true))),
            Err(e) => Err(e),
        }
    } else {
        match token(input, p2) {
            Ok((p5, name)) => Ok((p5, (name, false))),
            Err(e) => Err(e),
        }
    }
}

/// Parses the head of a property line of the given primitive type,
/// returning the property's name and its array flag.
pub fn primitive_property(input: &Vec<char>, pos: usize, t: PrimitiveType) -> (r: PResult<
    (String, bool),
>)
    requires
        pos <= input@.len(),
    ensures
        r matches Ok((np, v)) ==> spec_primitive_property(input@, pos as int, t) == Some(
            (np as int, (v.0@, v.1)),
        ) && pos <= np <= input@.len(),
        r is Err ==> spec_primitive_property(input@, pos as int, t) is None,
        r matches Err(e) ==> e.labels@.len() >= 1,
{
    let (p, _) = match property_prefix(input, pos, type_tag(t)) {
        Ok(x) => x,
        Err(e) => {
            return Err(e.label("PrimitiveProperty"));
        },
    };
    match property_name(input, p) {
        Ok(x) => Ok(x),
        Err(e) => Err(e.label("PrimitiveProperty")),
    }
}

/// Position after the given keyword, optional whitespace, `=`, and
/// optional whitespace: the prefix every `key=value` metaproperty shares.
pub open spec fn spec_key_eq(s: Seq<char>, pos: int, kw: Seq<char>) -> Option<int> {
    if tag_at(s, pos, kw) {
        let p1 = run_end(s, pos + kw.len(), CharClass::Space);
        if p1 < s.len() && s[p1] == '=' {
            Some(run_end(s, p1 + 1, CharClass::Space))
        } else {
            None
        }
    } else {
        None
    }
}

/// Scans a `key=` metaproperty prefix: the keyword, `=`, and the
/// whitespace around it.
pub fn key_eq(input: &Vec<char>, pos: usize, kw: &str) -> (r: PResult<usize>)
    requires
        pos <= input@.len(),
    ensures
        r matches Ok((np, e)) ==> spec_key_eq(input@, pos as int, kw@) == Some(e as int) && np
            == e && pos < np <= input@.len(),
        r is Err ==> spec_key_eq(input@, pos as int, kw@) is None,
{
    let p = match tag(input, pos, kw) {
        Some(p) => p,
        None => {
            return Err(CError::new(CErrorKind::ExpectedLiteral, pos));
        },
    };
    let p1 = scan_class(input, p, CharClass::Space);
    if !char_at(input, p1, '=') {
        return Err(CError::new(CErrorKind::ExpectedLiteral, p1));
    }
    let p2 = scan_class(input, p1 + 1, CharClass::Space);
    Ok((p2, p2))
}

/// A property whose type is another declared or imported concept.
#[derive(Debug, PartialEq, Eq, Clone)]
pub struct Property {
    /// The referenced type's name.
    pub class: String,
    /// The property's name.
    pub name: String,
    /// Whether the property may be absent.
    pub is_optional: bool,
    /// Whether the property is array-valued.
    pub is_array: bool,
}

/// The mathematical value of a reference [`Property`].
pub ghost struct PropertyV {
    /// The referenced type's name.
    pub class: Seq<char>,
    /// The property's name.
    pub name: Seq<char>,
    /// Whether the property may be absent.
    pub is_optional: bool,
    /// Whether the property is array-valued.
    pub is_array: bool,
}

impl View for Property {
    type V = PropertyV;

    open spec fn view(&self) -> PropertyV {
        PropertyV {
            class: self.class@,
            name: self.name@,
            is_optional: self.is_optional,
            is_array: self.is_array,
        }
    }
}

/// The head of a reference property line: like a primitive property, but
/// the type word is an arbitrary token.
pub open spec fn spec_generic_property(s: Seq<char>, pos: int) -> Option<
    (int, (Seq<char>, Seq<char>, bool)),
> {
    let p0 = run_end(s, pos, CharClass::Space);
    if p0 < s.len() && s[p0] == 'o' {
        let p1 = run_end(s, p0 + 1, CharClass::Space);
        match spec_token(s, p1) {
            Some((pc, class)) => {
                match spec_property_name(s, pc) {
                    Some((p5, (name, is_array))) => Some((p5, (class, name, is_array))),
                    None => None,
                }
            },
            None => None,
        }
    } else {
        None
    }
}

/// Consumes `whitespace optional` keywords after a reference property,
/// each occurrence setting the optional flag.
pub open spec fn spec_optional_metas(s: Seq<char>, p: int, acc: bool) -> (int, bool)
    decreases s.len() - p,
{
    let w = run_end(s, p, CharClass::Space);
    if p < w && tag_at(s, w, "optional"@) {
        let e = w + "optional"@.len();
        if p < e <= s.len() {
            spec_optional_metas(s, e, true)
        } else {
            (p, acc)
        }
    } else {
        (p, acc)
    }
}

/// What `concept_property` returns: a reference property with its
/// optional flag.
pub open spec fn spec_concept_property(s: Seq<char>, pos: int) -> Option<(int, PropertyV)> {
    match spec_generic_property(s, pos) {
        Some((p, (class, name, is_array))) => {
            let m = spec_optional_metas(s, p, false);
            Some((m.0, PropertyV { class, name, is_optional: m.1, is_array }))
        },
        None => None,
    }
}

/// Parses a reference property: `o <Type> [[]] <name> [optional]`, where
/// `<Type>` names a declared or imported concept.
pub fn concept_property(input: &Vec<char>, pos: usize) -> (r: PResult<Property>)
    requires
        pos <= input@.len(),
    ensures
        r matches Ok((np, v)) ==> spec_concept_property(input@, pos as int) == Some(
            (np as int, v@),
        ) && pos <= np <= input@.len(),
        r is Err ==> spec_concept_property(input@, pos as int) is None,
        r matches Err(e) ==> e.labels@.len() >= 1,
{
    let ghost s = input@;
    let p0 = scan_class(input, pos, CharClass::Space);
    if !char_at(input, p0, 'o') {
        return Err(CError::new(CErrorKind::ExpectedLiteral, p0).label("Property"));
    }
    let p1 = scan_class(input, p0 + 1, CharClass::Space);
    let (pc, class) = match token(input, p1) {
        Ok(x) => x,
        Err(e) => {
            return Err(e.label("Property"));
        },
    };
    let (p, (name, is_array)) = match property_name(input, pc) {
        Ok(x) => x,
        Err(e) => {
            return Err(e.label("Property"));
        },
    };
    let mut is_optional = false;
    let mut i = p;
    loop
        invariant
            p <= i <= s.len(),
            s == input@,
            spec_optional_metas(s, p as int, false) == spec_optional_metas(
                s,
                i as int,
                is_optional,
            ),
        ensures
            spec_optional_metas(s, p as int, false) == (i as int, is_optional),
        decreases s.len() - i,
    {
        let w = scan_class(input, i, CharClass::Space);
        if w == i {
            break ;
        }
        match tag(input, w, "optional") {
            Some(e) => {
                proof {
                    reveal_strlit("optional");
                }
                is_optional = true;
                i = e;
            },
            None => {
                break ;
            },
        }
    }
    Ok((i, Property { class, name, is_optional, is_array }))
}

} // verus!
