//! Metaproperties as standalone values: a typed default, a regex, a
//! length limit or a numeric range, each parsed independently of the
//! property line it would belong to.

use vstd::prelude::*;

use crate::common::{boolean_parser, spec_boolean_value};
use crate::error::PResult;
use crate::numeric::{
    double_value, integer_value, long_value, spec_double_value, spec_integer_value,
    spec_long_value,
};
use crate::property::{key_eq, spec_key_eq};
use crate::ranged::{
    double_elem, integer_elem, long_elem, positive_integer_elem, ranged_double, ranged_integer,
    ranged_long, ranged_positive_integer, spec_ranged,
};
use crate::strings::{regex_value, spec_regex_value, spec_string_value, string_value};

verus! {

/// A property's default value, one case per primitive type.  `Double` and
/// `DateTime` defaults carry their literal text.
#[derive(Debug, PartialEq, Eq, Clone)]
pub enum DefaultValue {
    /// A string default.
    StringDefaultValue(String),
    /// A boolean default.
    BooleanDefaultValue(bool),
    /// A 64-bit integer default.
    LongDefaultValue(i64),
    /// A floating-point default, kept as its literal text.
    DoubleDefaultValue(String),
    /// A 32-bit integer default.
    IntegerDefaultValue(i32),
    /// A date-time default, kept as its literal text.
    DateTimeDefaultValue(String),
}

/// The mathematical value of a [`DefaultValue`].
pub ghost enum DefaultValueV {
    /// A string default.
    StringDefaultValue(Seq<char>),
    /// A boolean default.
    BooleanDefaultValue(bool),
    /// A 64-bit integer default.
    LongDefaultValue(i64),
    /// A floating-point default, kept as its literal text.
    DoubleDefaultValue(Seq<char>),
    /// A 32-bit integer default.
    IntegerDefaultValue(i32),
    /// A date-time default, kept as its literal text.
    DateTimeDefaultValue(Seq<char>),
}

impl View for DefaultValue {
    type V = DefaultValueV;

    open spec fn view(&self) -> DefaultValueV {
        match self {
            DefaultValue::StringDefaultValue(v) => DefaultValueV::StringDefaultValue(v@),
            DefaultValue::BooleanDefaultValue(v) => DefaultValueV::BooleanDefaultValue(*v),
            DefaultValue::LongDefaultValue(v) => DefaultValueV::LongDefaultValue(*v),
            DefaultValue::DoubleDefaultValue(v) => DefaultValueV::DoubleDefaultValue(v@),
            DefaultValue::IntegerDefaultValue(v) => DefaultValueV::IntegerDefaultValue(*v),
            DefaultValue::DateTimeDefaultValue(v) => DefaultValueV::DateTimeDefaultValue(v@),
        }
    }
}

/// Length limits on a string property.
#[derive(Debug, PartialEq, Eq, Clone, Copy)]
pub struct LengthLimits {
    /// Inclusive lower bound.
    pub start: Option<i32>,
    /// Inclusive upper bound.
    pub end: Option<i32>,
}

/// A 64-bit numeric range.
#[derive(Debug, PartialEq, Eq, Clone, Copy)]
pub struct LongRange {
    /// Inclusive lower bound.
    pub start: Option<i64>,
    /// Inclusive upper bound.
    pub end: Option<i64>,
}

/// A 32-bit numeric range.
#[derive(Debug, PartialEq, Eq, Clone, Copy)]
pub struct IntegerRange {
    /// Inclusive lower bound.
    pub start: Option<i32>,
    /// Inclusive upper bound.
    pub end: Option<i32>,
}

/// A floating-point range, each bound kept as its literal text.
#[derive(Debug, PartialEq, Eq, Clone)]
pub struct DoubleRange {
    /// Inclusive lower bound's literal text.
    pub start: Option<String>,
    /// Inclusive upper bound's literal text.
    pub end: Option<String>,
}

/// The mathematical value of a [`DoubleRange`].
pub ghost struct DoubleRangeV {
    /// Inclusive lower bound's literal text.
    pub start: Option<Seq<char>>,
    /// Inclusive upper bound's literal text.
    pub end: Option<Seq<char>>,
}

impl View for DoubleRange {
    type V = DoubleRangeV;

    open spec fn view(&self) -> DoubleRangeV {
        DoubleRangeV {
            start: match self.start {
                Some(v) => Some(v@),
                None => None,
            },
            end: match self.end {
                Some(v) => Some(v@),
                None => None,
            },
        }
    }
}

/// A numeric range of any width.
#[derive(Debug, PartialEq, Eq, Clone)]
pub enum NumberRange {
    /// A 64-bit range.
    Long(LongRange),
    /// A 32-bit range.
    Integer(IntegerRange),
    /// A floating-point range.
    Double(DoubleRange),
}

/// The mathematical value of a [`NumberRange`].
pub ghost enum NumberRangeV {
    /// A 64-bit range.
    Long(LongRange),
    /// A 32-bit range.
    Integer(IntegerRange),
    /// A floating-point range.
    Double(DoubleRangeV),
}

impl View for NumberRange {
    type V = NumberRangeV;

    open spec fn view(&self) -> NumberRangeV {
        match self {
            NumberRange::Long(r) => NumberRangeV::Long(*r),
            NumberRange::Integer(r) => NumberRangeV::Integer(*r),
            NumberRange::Double(r) => NumberRangeV::Double(r@),
        }
    }
}

/// One metaproperty, parsed on its own.
#[derive(Debug, PartialEq, Eq, Clone)]
pub enum MetaProperty {
    /// A `default=` value.
    Default(DefaultValue),
    /// A `regex=` pattern.
    Regex(String),
    /// A `length=` limit.
    Length(LengthLimits),
    /// A `range=` bound.
    Range(NumberRange),
}

/// The mathematical value of a [`MetaProperty`].
pub ghost enum MetaPropertyV {
    /// A `default=` value.
    Default(DefaultValueV),
    /// A `regex=` pattern.
    Regex(Seq<char>),
    /// A `length=` limit.
    Length(LengthLimits),
    /// A `range=` bound.
    Range(NumberRangeV),
}

impl View for MetaProperty {
    type V = MetaPropertyV;

    open spec fn view(&self) -> MetaPropertyV {
        match self {
            MetaProperty::Default(v) => MetaPropertyV::Default(v@),
            MetaProperty::Regex(v) => MetaPropertyV::Regex(v@),
            MetaProperty::Length(v) => MetaPropertyV::Length(*v),
            MetaProperty::Range(v) => MetaPropertyV::Range(v@),
        }
    }
}

/// What `string_default` returns: `default=` and a quoted string.
pub open spec fn spec_string_default(s: Seq<char>, pos: int) -> Option<(int, DefaultValueV)> {
    match spec_key_eq(s, pos, "default"@) {
        Some(p) => match spec_string_value(s, p) {
            Some((e, v)) => Some((e, DefaultValueV::StringDefaultValue(v))),
            None => None,
        },
        None => None,
    }
}

/// What `boolean_default` returns: `default=` and a boolean literal.
pub open spec fn spec_boolean_default(s: Seq<char>, pos: int) -> Option<(int, DefaultValueV)> {
    match spec_key_eq(s, pos, "default"@) {
        Some(p) => match spec_boolean_value(s, p) {
            Some((e, v)) => Some((e, DefaultValueV::BooleanDefaultValue(v))),
            None => None,
        },
        None => None,
    }
}

/// What `integer_default` returns: `default=` and a 32-bit numeral.
pub open spec fn spec_integer_default(s: Seq<char>, pos: int) -> Option<(int, DefaultValueV)> {
    match spec_key_eq(s, pos, "default"@) {
        Some(p) => match spec_integer_value(s, p) {
            Some((e, v)) => Some((e, DefaultValueV::IntegerDefaultValue(v))),
            None => None,
        },
        None => None,
    }
}

/// What `long_default` returns: `default=` and a 64-bit numeral.
pub open spec fn spec_long_default(s: Seq<char>, pos: int) -> Option<(int, DefaultValueV)> {
    match spec_key_eq(s, pos, "default"@) {
        Some(p) => match spec_long_value(s, p) {
            Some((e, v)) => Some((e, DefaultValueV::LongDefaultValue(v))),
            None => None,
        },
        None => None,
    }
}

/// What `double_default` returns: `default=` and a float literal.
pub open spec fn spec_double_default(s: Seq<char>, pos: int) -> Option<(int, DefaultValueV)> {
    match spec_key_eq(s, pos, "default"@) {
        Some(p) => match spec_double_value(s, p) {
            Some((e, v)) => Some((e, DefaultValueV::DoubleDefaultValue(v))),
            None => None,
        },
        None => None,
    }
}

/// What `length_meta_property` returns.
pub open spec fn spec_length_meta_property(s: Seq<char>, pos: int) -> Option<(int, MetaPropertyV)> {
    match spec_ranged(s, pos, "length"@, positive_integer_elem()) {
        Some((e, pair)) => Some(
            (e, MetaPropertyV::Length(LengthLimits { start: pair.0, end: pair.1 })),
        ),
        None => None,
    }
}

/// What `integer_range` returns.
pub open spec fn spec_integer_range(s: Seq<char>, pos: int) -> Option<(int, MetaPropertyV)> {
    match spec_ranged(s, pos, "range"@, integer_elem()) {
        Some((e, pair)) => Some(
            (
                e,
                MetaPropertyV::Range(
                    NumberRangeV::Integer(IntegerRange { start: pair.0, end: pair.1 }),
                ),
            ),
        ),
        None => None,
    }
}

/// What `long_range` returns.
pub open spec fn spec_long_range(s: Seq<char>, pos: int) -> Option<(int, MetaPropertyV)> {
    match spec_ranged(s, pos, "range"@, long_elem()) {
        Some((e, pair)) => Some(
            (e, MetaPropertyV::Range(NumberRangeV::Long(LongRange { start: pair.0, end: pair.1 }))),
        ),
        None => None,
    }
}

/// What `double_range` returns.
pub open spec fn spec_double_range(s: Seq<char>, pos: int) -> Option<(int, MetaPropertyV)> {
    match spec_ranged(s, pos, "range"@, double_elem()) {
        Some((e, pair)) => Some(
            (
                e,
                MetaPropertyV::Range(
                    NumberRangeV::Double(DoubleRangeV { start: pair.0, end: pair.1 }),
                ),
            ),
        ),
        None => None,
    }
}

/// What `regex_meta_property` returns.
pub open spec fn spec_regex_meta_property(s: Seq<char>, pos: int) -> Option<(int, MetaPropertyV)> {
    match spec_key_eq(s, pos, "regex"@) {
        Some(p) => match spec_regex_value(s, p) {
            Some((e, v)) => Some((e, MetaPropertyV::Regex(v))),
            None => None,
        },
        None => None,
    }
}

/// What `string_meta_property` returns: a string default, a regex or a
/// length limit, tried in that order.
pub open spec fn spec_string_meta_property(s: Seq<char>, pos: int) -> Option<(int, MetaPropertyV)> {
    if spec_string_default(s, pos) is Some {
        match spec_string_default(s, pos) {
            Some((e, v)) => Some((e, MetaPropertyV::Default(v))),
            None => None,
        }
    } else if spec_regex_meta_property(s, pos) is Some {
        spec_regex_meta_property(s, pos)
    } else {
        spec_length_meta_property(s, pos)
    }
}

/// What `boolean_meta_property` returns: a boolean default.
pub open spec fn spec_boolean_meta_property(s: Seq<char>, pos: int) -> Option<
    (int, MetaPropertyV),
> {
    match spec_boolean_default(s, pos) {
        Some((e, v)) => Some((e, MetaPropertyV::Default(v))),
        None => None,
    }
}

/// What `integer_meta_property` returns: an integer default or range.
pub open spec fn spec_integer_meta_property(s: Seq<char>, pos: int) -> Option<
    (int, MetaPropertyV),
> {
    match spec_integer_default(s, pos) {
        Some((e, v)) => Some((e, MetaPropertyV::Default(v))),
        None => spec_integer_range(s, pos),
    }
}

/// What `long_meta_property` returns: a long default or range.
pub open spec fn spec_long_meta_property(s: Seq<char>, pos: int) -> Option<(int, MetaPropertyV)> {
    match spec_long_default(s, pos) {
        Some((e, v)) => Some((e, MetaPropertyV::Default(v))),
        None => spec_long_range(s, pos),
    }
}

/// What `double_meta_property` returns: a double default or range.
pub open spec fn spec_double_meta_property(s: Seq<char>, pos: int) -> Option<(int, MetaPropertyV)> {
    match spec_double_default(s, pos) {
        Some((e, v)) => Some((e, MetaPropertyV::Default(v))),
        None => spec_double_range(s, pos),
    }
}

/// What `meta_property` returns: the per-type metaproperty grammars tried
/// in the order string, boolean, integer, long, double.
pub open spec fn spec_meta_property(s: Seq<char>, pos: int) -> Option<(int, MetaPropertyV)> {
    if spec_string_meta_property(s, pos) is Some {
        spec_string_meta_property(s, pos)
    } else if spec_boolean_meta_property(s, pos) is Some {
        spec_boolean_meta_property(s, pos)
    } else if spec_integer_meta_property(s, pos) is Some {
        spec_integer_meta_property(s, pos)
    } else if spec_long_meta_property(s, pos) is Some {
        spec_long_meta_property(s, pos)
    } else {
        spec_double_meta_property(s, pos)
    }
}

/// Parses `default=` with a quoted string value.
pub fn string_default(input: &Vec<char>, pos: usize) -> (r: PResult<DefaultValue>)
    requires
        pos <= input@.len(),
    ensures
        r matches Ok((np, v)) ==> spec_string_default(input@, pos as int) == Some((np as int, v@))
            && pos < np <= input@.len(),
        r is Err ==> spec_string_default(input@, pos as int) is None,
        r matches Err(e) ==> e.labels@.len() >= 1,
{
    let (p, _) = match key_eq(input, pos, "default") {
        Ok(x) => x,
        Err(e) => {
            return Err(e.label("StringDefault"));
        },
    };
    match string_value(input, p) {
        Ok((np, v)) => Ok((np, DefaultValue::StringDefaultValue(v))),
        Err(e) => Err(e.label("StringDefault")),
    }
}

/// Parses `default=` with a boolean value.
pub fn boolean_default(input: &Vec<char>, pos: usize) -> (r: PResult<DefaultValue>)
    requires
        pos <= input@.len(),
    ensures
        r matches Ok((np, v)) ==> spec_boolean_default(input@, pos as int) == Some(
            (np as int, v@),
        ) && pos < np <= input@.len(),
        r is Err ==> spec_boolean_default(input@, pos as int) is None,
        r matches Err(e) ==> e.labels@.len() >= 1,
{
    let (p, _) = match key_eq(input, pos, "default") {
        Ok(x) => x,
        Err(e) => {
            return Err(e.label("BooleanDefault"));
        },
    };
    match boolean_parser(input, p) {
        Ok((np, v)) => Ok((np, DefaultValue::BooleanDefaultValue(v))),
        Err(e) => Err(e.label("BooleanDefault")),
    }
}

/// Parses `default=` with a 32-bit integer value.
pub fn integer_default(input: &Vec<char>, pos: usize) -> (r: PResult<DefaultValue>)
    requires
        pos <= input@.len(),
    ensures
        r matches Ok((np, v)) ==> spec_integer_default(input@, pos as int) == Some(
            (np as int, v@),
        ) && pos < np <= input@.len(),
        r is Err ==> spec_integer_default(input@, pos as int) is None,
        r matches Err(e) ==> e.labels@.len() >= 1,
{
    let (p, _) = match key_eq(input, pos, "default") {
        Ok(x) => x,
        Err(e) => {
            return Err(e.label("IntegerDefault"));
        },
    };
    match integer_value(input, p) {
        Ok((np, v)) => Ok((np, DefaultValue::IntegerDefaultValue(v))),
        Err(e) => Err(e.label("IntegerDefault")),
    }
}

/// Parses `default=` with a 64-bit integer value.
pub fn long_default(input: &Vec<char>, pos: usize) -> (r: PResult<DefaultValue>)
    requires
        pos <= input@.len(),
    ensures
        r matches Ok((np, v)) ==> spec_long_default(input@, pos as int) == Some((np as int, v@))
            && pos < np <= input@.len(),
        r is Err ==> spec_long_default(input@, pos as int) is None,
        r matches Err(e) ==> e.labels@.len() >= 1,
{
    let (p, _) = match key_eq(input, pos, "default") {
        Ok(x) => x,
        Err(e) => {
            return Err(e.label("LongDefault"));
        },
    };
    match long_value(input, p) {
        Ok((np, v)) => Ok((np, DefaultValue::LongDefaultValue(v))),
        Err(e) => Err(e.label("LongDefault")),
    }
}

/// Parses `default=` with a float-literal value.
pub fn double_default(input: &Vec<char>, pos: usize) -> (r: PResult<DefaultValue>)
    requires
        pos <= input@.len(),
    ensures
        r matches Ok((np, v)) ==> spec_double_default(input@, pos as int) == Some((np as int, v@))
            && pos < np <= input@.len(),
        r is Err ==> spec_double_default(input@, pos as int) is None,
        r matches Err(e) ==> e.labels@.len() >= 1,
{
    let (p, _) = match key_eq(input, pos, "default") {
        Ok(x) => x,
        Err(e) => {
            return Err(e.label("DoubleDefault"));
        },
    };
    match double_value(input, p) {
        Ok((np, v)) => Ok((np, DefaultValue::DoubleDefaultValue(v))),
        Err(e) => Err(e.label("DoubleDefault")),
    }
}

/// Parses a `length=` metaproperty.
pub fn length_meta_property(input: &Vec<char>, pos: usize) -> (r: PResult<MetaProperty>)
    requires
        pos <= input@.len(),
    ensures
        r matches Ok((np, v)) ==> spec_length_meta_property(input@, pos as int) == Some(
            (np as int, v@),
        ) && pos < np <= input@.len(),
        r is Err ==> spec_length_meta_property(input@, pos as int) is None,
        r matches Err(e) ==> e.labels@.len() >= 1,
{
    match ranged_positive_integer(input, pos, "length") {
        Ok((np, pair)) => Ok(
            (np, MetaProperty::Length(LengthLimits { start: pair.0, end: pair.1 })),
        ),
        Err(e) => Err(e.label("LengthMetaProperty")),
    }
}

/// Parses a 32-bit `range=` metaproperty.
pub fn integer_range(input: &Vec<char>, pos: usize) -> (r: PResult<MetaProperty>)
    requires
        pos <= input@.len(),
    ensures
        r matches Ok((np, v)) ==> spec_integer_range(input@, pos as int) == Some((np as int, v@))
            && pos < np <= input@.len(),
        r is Err ==> spec_integer_range(input@, pos as int) is None,
        r matches Err(e) ==> e.labels@.len() >= 1,
{
    match ranged_integer(input, pos, "range") {
        Ok((np, pair)) => Ok(
            (
                np,
                MetaProperty::Range(
                    NumberRange::Integer(IntegerRange { start: pair.0, end: pair.1 }),
                ),
            ),
        ),
        Err(e) => Err(e.label("IntegerRange")),
    }
}

/// Parses a 64-bit `range=` metaproperty.
pub fn long_range(input: &Vec<char>, pos: usize) -> (r: PResult<MetaProperty>)
    requires
        pos <= input@.len(),
    ensures
        r matches Ok((np, v)) ==> spec_long_range(input@, pos as int) == Some((np as int, v@))
            && pos < np <= input@.len(),
        r is Err ==> spec_long_range(input@, pos as int) is None,
        r matches Err(e) ==> e.labels@.len() >= 1,
{
    match ranged_long(input, pos, "range") {
        Ok((np, pair)) => Ok(
            (np, MetaProperty::Range(NumberRange::Long(LongRange { start: pair.0, end: pair.1 }))),
        ),
        Err(e) => Err(e.label("LongRange")),
    }
}

/// Parses a float-literal `range=` metaproperty.
pub fn double_range(input: &Vec<char>, pos: usize) -> (r: PResult<MetaProperty>)
    requires
        pos <= input@.len(),
    ensures
        r matches Ok((np, v)) ==> spec_double_range(input@, pos as int) == Some((np as int, v@))
            && pos < np <= input@.len(),
        r is Err ==> spec_double_range(input@, pos as int) is None,
        r matches Err(e) ==> e.labels@.len() >= 1,
{
    match ranged_double(input, pos, "range") {
        Ok((np, pair)) => Ok(
            (
                np,
                MetaProperty::Range(NumberRange::Double(DoubleRange { start: pair.0, end: pair.1 })),
            ),
        ),
        Err(e) => Err(e.label("DoubleRange")),
    }
}

/// Parses a `regex=` metaproperty.
pub fn regex_meta_property(input: &Vec<char>, pos: usize) -> (r: PResult<MetaProperty>)
    requires
        pos <= input@.len(),
    ensures
        r matches Ok((np, v)) ==> spec_regex_meta_property(input@, pos as int) == Some(
            (np as int, v@),
        ) && pos < np <= input@.len(),
        r is Err ==> spec_regex_meta_property(input@, pos as int) is None,
        r matches Err(e) ==> e.labels@.len() >= 1,
{
    let (p, _) = match key_eq(input, pos, "regex") {
        Ok(x) => x,
        Err(e) => {
            return Err(e.label("RegexMetaProperty"));
        },
    };
    match regex_value(input, p) {
        Ok((np, v)) => Ok((np, MetaProperty::Regex(v))),
        Err(e) => Err(e.label("RegexMetaProperty")),
    }
}

/// Parses one metaproperty a string property admits.
pub fn string_meta_property(input: &Vec<char>, pos: usize) -> (r: PResult<MetaProperty>)
    requires
        pos <= input@.len(),
    ensures
        r matches Ok((np, v)) ==> spec_string_meta_property(input@, pos as int) == Some(
            (np as int, v@),
        ) && pos < np <= input@.len(),
        r is Err ==> spec_string_meta_property(input@, pos as int) is None,
        r matches Err(e) ==> e.labels@.len() >= 1,
{
    let e1 = match string_default(input, pos) {
        Ok((np, v)) => {
            return Ok((np, MetaProperty::Default(v)));
        },
        Err(e) => e,
    };
    let e1 = match regex_meta_property(input, pos) {
        Ok(x) => {
            return Ok(x);
        },
        Err(e) => e1.deeper(e),
    };
    match length_meta_property(input, pos) {
        Ok(x) => Ok(x),
        Err(e) => Err(e1.deeper(e).label("StringMetaProperty")),
    }
}

/// Parses one metaproperty a boolean property admits.
pub fn boolean_meta_property(input: &Vec<char>, pos: usize) -> (r: PResult<MetaProperty>)
    requires
        pos <= input@.len(),
    ensures
        r matches Ok((np, v)) ==> spec_boolean_meta_property(input@, pos as int) == Some(
            (np as int, v@),
        ) && pos < np <= input@.len(),
        r is Err ==> spec_boolean_meta_property(input@, pos as int) is None,
        r matches Err(e) ==> e.labels@.len() >= 1,
{
    match boolean_default(input, pos) {
        Ok((np, v)) => Ok((np, MetaProperty::Default(v))),
        Err(e) => Err(e.label("BooleanMetaProperty")),
    }
}

/// Parses one metaproperty an integer property admits.
pub fn integer_meta_property(input: &Vec<char>, pos: usize) -> (r: PResult<MetaProperty>)
    requires
        pos <= input@.len(),
    ensures
        r matches Ok((np, v)) ==> spec_integer_meta_property(input@, pos as int) == Some(
            (np as int, v@),
        ) && pos < np <= input@.len(),
        r is Err ==> spec_integer_meta_property(input@, pos as int) is None,
        r matches Err(e) ==> e.labels@.len() >= 1,
{
    match integer_default(input, pos) {
        Ok((np, v)) => Ok((np, MetaProperty::Default(v))),
        Err(e1) => match integer_range(input, pos) {
            Ok(x) => Ok(x),
            Err(e2) => Err(e1.deeper(e2).label("IntegerMetaProperty")),
        },
    }
}

/// Parses one metaproperty a long property admits.
pub fn long_meta_property(input: &Vec<char>, pos: usize) -> (r: PResult<MetaProperty>)
    requires
        pos <= input@.len(),
    ensures
        r matches Ok((np, v)) ==> spec_long_meta_property(input@, pos as int) == Some(
            (np as int, v@),
        ) && pos < np <= input@.len(),
        r is Err ==> spec_long_meta_property(input@, pos as int) is None,
        r matches Err(e) ==> e.labels@.len() >= 1,
{
    match long_default(input, pos) {
        Ok((np, v)) => Ok((np, MetaProperty::Default(v))),
        Err(e1) => match long_range(input, pos) {
            Ok(x) => Ok(x),
            Err(e2) => Err(e1.deeper(e2).label("LongMetaProperty")),
        },
    }
}

/// Parses one metaproperty a double property admits.
pub fn double_meta_property(input: &Vec<char>, pos: usize) -> (r: PResult<MetaProperty>)
    requires
        pos <= input@.len(),
    ensures
        r matches Ok((np, v)) ==> spec_double_meta_property(input@, pos as int) == Some(
            (np as int, v@),
        ) && pos < np <= input@.len(),
        r is Err ==> spec_double_meta_property(input@, pos as int) is None,
        r matches Err(e) ==> e.labels@.len() >= 1,
{
    match double_default(input, pos) {
        Ok((np, v)) => Ok((np, MetaProperty::Default(v))),
        Err(e1) => match double_range(input, pos) {
            Ok(x) => Ok(x),
            Err(e2) => Err(e1.deeper(e2).label("DoubleMetaProperty")),
        },
    }
}

/// Parses one metaproperty of any property type, trying the per-type
/// grammars in a fixed order.
pub fn meta_property(input: &Vec<char>, pos: usize) -> (r: PResult<MetaProperty>)
    requires
        pos <= input@.len(),
    ensures
        r matches Ok((np, v)) ==> spec_meta_property(input@, pos as int) == Some((np as int, v@))
            && pos < np <= input@.len(),
        r is Err ==> spec_meta_property(input@, pos as int) is None,
        r matches Err(e) ==> e.labels@.len() >= 1,
{
    let err = match string_meta_property(input, pos) {
        Ok(x) => {
            return Ok(x);
        },
        Err(e) => e,
    };
    let err = match boolean_meta_property(input, pos) {
        Ok(x) => {
            return Ok(x);
        },
        Err(e) => err.deeper(e),
    };
    let err = match integer_meta_property(input, pos) {
        Ok(x) => {
            return Ok(x);
        },
        Err(e) => err.deeper(e),
    };
    let err = match long_meta_property(input, pos) {
        Ok(x) => {
            return Ok(x);
        },
        Err(e) => err.deeper(e),
    };
    match double_meta_property(input, pos) {
        Ok(x) => Ok(x),
        Err(e) => Err(err.deeper(e).label("MetaProperty")),
    }
}

} // verus!
