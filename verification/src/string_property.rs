//! `String` properties: `o String [[]] <name>` with `default=`, `regex=`,
//! `length=` and `optional` metaproperties in any order; when one kind
//! repeats, the last occurrence wins.

use vstd::prelude::*;

use crate::error::{CError, CErrorKind, PResult};
use crate::property::{
    key_eq, primitive_property, spec_key_eq, spec_primitive_property, PrimitiveType,
};
use crate::ranged::{positive_integer_elem, ranged_positive_integer, spec_ranged};
use crate::scan::{scan_class, tag, CharClass};
use crate::strings::{regex_value, spec_regex_value, spec_string_value, string_value};

verus! {

/// A regex validator attached to a string property.
#[derive(Debug, PartialEq, Eq, Clone)]
pub struct StringRegexValidator {
    /// The pattern between the slashes.
    pub pattern: String,
    /// Pattern flags; the grammar has none, so this is always empty.
    pub flags: String,
}

/// The mathematical value of a [`StringRegexValidator`].
pub ghost struct StringRegexValidatorV {
    /// The pattern between the slashes.
    pub pattern: Seq<char>,
    /// Pattern flags.
    pub flags: Seq<char>,
}

impl View for StringRegexValidator {
    type V = StringRegexValidatorV;

    open spec fn view(&self) -> StringRegexValidatorV {
        StringRegexValidatorV { pattern: self.pattern@, flags: self.flags@ }
    }
}

/// A length validator attached to a string property; either bound may be
/// absent, but not both.
#[derive(Debug, PartialEq, Eq, Clone, Copy)]
pub struct StringLengthValidator {
    /// Inclusive lower bound on the length.
    pub min_length: Option<i32>,
    /// Inclusive upper bound on the length.
    pub max_length: Option<i32>,
}

/// A parsed `String` property.
#[derive(Debug, PartialEq, Eq, Clone)]
pub struct StringProperty {
    /// The property variant's discriminator.
    pub class: String,
    /// The property's name.
    pub name: String,
    /// Whether the property may be absent.
    pub is_optional: bool,
    /// Whether the property is array-valued.
    pub is_array: bool,
    /// The default value, when declared.
    pub default_value: Option<String>,
    /// The regex validator, when declared.
    pub regex_validator: Option<StringRegexValidator>,
    /// The length validator, when declared.
    pub length_validator: Option<StringLengthValidator>,
}

/// The mathematical value of a [`StringProperty`].
pub ghost struct StringPropertyV {
    /// The property variant's discriminator.
    pub class: Seq<char>,
    /// The property's name.
    pub name: Seq<char>,
    /// Whether the property may be absent.
    pub is_optional: bool,
    /// Whether the property is array-valued.
    pub is_array: bool,
    /// The default value, when declared.
    pub default_value: Option<Seq<char>>,
    /// The regex validator, when declared.
    pub regex_validator: Option<StringRegexValidatorV>,
    /// The length validator, when declared.
    pub length_validator: Option<StringLengthValidator>,
}

impl View for StringProperty {
    type V = StringPropertyV;

    open spec fn view(&self) -> StringPropertyV {
        StringPropertyV {
            class: self.class@,
            name: self.name@,
            is_optional: self.is_optional,
            is_array: self.is_array,
            default_value: match self.default_value {
                Some(d) => Some(d@),
                None => None,
            },
            regex_validator: match self.regex_validator {
                Some(rv) => Some(rv@),
                None => None,
            },
            length_validator: self.length_validator,
        }
    }
}

/// What `string_default_value` returns: `default=`, then a quoted string.
pub open spec fn spec_string_default_value(s: Seq<char>, pos: int) -> Option<(int, Seq<char>)> {
    match spec_key_eq(s, pos, "default"@) {
        Some(p) => spec_string_value(s, p),
        None => None,
    }
}

/// What `string_regex_validator` returns: `regex=`, then a regex literal.
pub open spec fn spec_string_regex_validator(s: Seq<char>, pos: int) -> Option<
    (int, StringRegexValidatorV),
> {
    match spec_key_eq(s, pos, "regex"@) {
        Some(p) => match spec_regex_value(s, p) {
            Some((np, pat)) => Some(
                (np, StringRegexValidatorV { pattern: pat, flags: Seq::empty() }),
            ),
            None => None,
        },
        None => None,
    }
}

/// What `string_length_validator` returns: `length=[lower?,upper?]` with
/// unsigned 32-bit bounds.
pub open spec fn spec_string_length_validator(s: Seq<char>, pos: int) -> Option<
    (int, StringLengthValidator),
> {
    match spec_ranged(s, pos, "length"@, positive_integer_elem()) {
        Some((np, pair)) => Some(
            (np, StringLengthValidator { min_length: pair.0, max_length: pair.1 }),
        ),
        None => None,
    }
}

/// Folds the string metaproperties following position `p` into `acc`:
/// each is preceded by whitespace, the kinds are tried in a fixed order,
/// and a repeated kind overwrites the earlier value.
pub open spec fn spec_string_metas(s: Seq<char>, p: int, acc: StringPropertyV) -> (
    int,
    StringPropertyV,
)
    decreases s.len() - p,
{
    let w = crate::scan::run_end(s, p, CharClass::Space);
    if p < w <= s.len() {
        match spec_string_length_validator(s, w) {
            Some((e, lv)) => if w < e <= s.len() {
                spec_string_metas(s, e, StringPropertyV { length_validator: Some(lv), ..acc })
            } else {
                (p, acc)
            },
            None => match spec_string_regex_validator(s, w) {
                Some((e, rv)) => if w < e <= s.len() {
                    spec_string_metas(s, e, StringPropertyV { regex_validator: Some(rv), ..acc })
                } else {
                    (p, acc)
                },
                None => match spec_string_default_value(s, w) {
                    Some((e, dv)) => if w < e <= s.len() {
                        spec_string_metas(s, e, StringPropertyV { default_value: Some(dv), ..acc })
                    } else {
                        (p, acc)
                    },
                    None => {
                        if crate::scan::tag_at(s, w, "optional"@) {
                            let e = w + "optional"@.len();
                            if w < e <= s.len() {
                                spec_string_metas(s, e, StringPropertyV { is_optional: true, ..acc })
                            } else {
                                (p, acc)
                            }
                        } else {
                            (p, acc)
                        }
                    },
                },
            },
        }
    } else {
        (p, acc)
    }
}

/// The initial record for a string property of the given name and array
/// flag: no metaproperties seen yet.
pub open spec fn string_property_init(name: Seq<char>, is_array: bool) -> StringPropertyV {
    StringPropertyV {
        class: "StringProperty"@,
        name,
        is_optional: false,
        is_array,
        default_value: None,
        regex_validator: None,
        length_validator: None,
    }
}

/// What `string_property` returns: the property head, then the folded
/// metaproperties.
pub open spec fn spec_string_property(s: Seq<char>, pos: int) -> Option<(int, StringPropertyV)> {
    match spec_primitive_property(s, pos, PrimitiveType::StringPropertyType) {
        Some((p, (name, is_array))) => {
            let m = spec_string_metas(s, p, string_property_init(name, is_array));
            Some((m.0, m.1))
        },
        None => None,
    }
}

/// One string metaproperty, abstracted from the text it was parsed from.
pub ghost enum StringMetaV {
    /// A `default=` value.
    Default(Seq<char>),
    /// A `regex=` validator.
    Regex(StringRegexValidatorV),
    /// A `length=` validator.
    Length(StringLengthValidator),
    /// The `optional` flag.
    Optional,
}

/// The metaproperties the fold at `p` consumes, in source order.
pub open spec fn string_metas_list(s: Seq<char>, p: int) -> Seq<StringMetaV>
    decreases s.len() - p,
{
    let w = crate::scan::run_end(s, p, CharClass::Space);
    if p < w <= s.len() {
        match spec_string_length_validator(s, w) {
            Some((e, lv)) => if w < e <= s.len() {
                seq![StringMetaV::Length(lv)] + string_metas_list(s, e)
            } else {
                Seq::empty()
            },
            None => match spec_string_regex_validator(s, w) {
                Some((e, rv)) => if w < e <= s.len() {
                    seq![StringMetaV::Regex(rv)] + string_metas_list(s, e)
                } else {
                    Seq::empty()
                },
                None => match spec_string_default_value(s, w) {
                    Some((e, dv)) => if w < e <= s.len() {
                        seq![StringMetaV::Default(dv)] + string_metas_list(s, e)
                    } else {
                        Seq::empty()
                    },
                    None => {
                        if crate::scan::tag_at(s, w, "optional"@) {
                            let e = w + "optional"@.len();
                            if w < e <= s.len() {
                                seq![StringMetaV::Optional] + string_metas_list(s, e)
                            } else {
                                Seq::empty()
                            }
                        } else {
                            Seq::empty()
                        }
                    },
                },
            },
        }
    } else {
        Seq::empty()
    }
}

/// One metaproperty applied to the record it decorates.
pub open spec fn apply_string_meta(acc: StringPropertyV, m: StringMetaV) -> StringPropertyV {
    match m {
        StringMetaV::Default(d) => StringPropertyV { default_value: Some(d), ..acc },
        StringMetaV::Regex(rv) => StringPropertyV { regex_validator: Some(rv), ..acc },
        StringMetaV::Length(lv) => StringPropertyV { length_validator: Some(lv), ..acc },
        StringMetaV::Optional => StringPropertyV { is_optional: true, ..acc },
    }
}

/// A metaproperty list applied left to right: a later occurrence of a
/// kind overwrites an earlier one.
pub open spec fn apply_string_metas(acc: StringPropertyV, l: Seq<StringMetaV>) -> StringPropertyV
    decreases l.len(),
{
    if l.len() == 0 {
        acc
    } else {
        apply_string_metas(apply_string_meta(acc, l[0]), l.drop_first())
    }
}

/// The metaproperty fold computes exactly the abstract metaproperty list
/// applied to the record, in source order.
pub proof fn lemma_string_metas_as_list(s: Seq<char>, p: int, acc: StringPropertyV)
    ensures
        spec_string_metas(s, p, acc).1 == apply_string_metas(acc, string_metas_list(s, p)),
    decreases s.len() - p,
{
    let w = crate::scan::run_end(s, p, CharClass::Space);
    if p < w <= s.len() {
        match spec_string_length_validator(s, w) {
            Some((e, lv)) => {
                if w < e <= s.len() {
                    let m = StringMetaV::Length(lv);
                    assert((seq![m] + string_metas_list(s, e)).drop_first() =~= string_metas_list(
                        s,
                        e,
                    ));
                    lemma_string_metas_as_list(s, e, apply_string_meta(acc, m));
                }
            },
            None => match spec_string_regex_validator(s, w) {
                Some((e, rv)) => {
                    if w < e <= s.len() {
                        let m = StringMetaV::Regex(rv);
                        assert((seq![m] + string_metas_list(s, e)).drop_first()
                            =~= string_metas_list(s, e));
                        lemma_string_metas_as_list(s, e, apply_string_meta(acc, m));
                    }
                },
                None => match spec_string_default_value(s, w) {
                    Some((e, dv)) => {
                        if w < e <= s.len() {
                            let m = StringMetaV::Default(dv);
                            assert((seq![m] + string_metas_list(s, e)).drop_first()
                                =~= string_metas_list(s, e));
                            lemma_string_metas_as_list(s, e, apply_string_meta(acc, m));
                        }
                    },
                    None => {
                        if crate::scan::tag_at(s, w, "optional"@) {
                            let e = w + "optional"@.len();
                            if w < e <= s.len() {
                                let m = StringMetaV::Optional;
                                assert((seq![m] + string_metas_list(s, e)).drop_first()
                                    =~= string_metas_list(s, e));
                                lemma_string_metas_as_list(s, e, apply_string_meta(acc, m));
                            }
                        }
                    },
                },
            },
        }
    }
}

/// The value of the last `default=` in a metaproperty list, if any.
pub open spec fn last_default(l: Seq<StringMetaV>) -> Option<Seq<char>>
    decreases l.len(),
{
    if l.len() == 0 {
        None
    } else {
        match last_default(l.drop_first()) {
            Some(d) => Some(d),
            None => match l[0] {
                StringMetaV::Default(d0) => Some(d0),
                _ => None,
            },
        }
    }
}

/// Applying a metaproperty list leaves as the record's default the list's
/// last `default=` value, or the record's own where none occurs.
pub proof fn lemma_apply_string_metas_last_default(acc: StringPropertyV, l: Seq<StringMetaV>)
    ensures
        apply_string_metas(acc, l).default_value == (match last_default(l) {
            Some(d) => Some(d),
            None => acc.default_value,
        }),
    decreases l.len(),
{
    if l.len() > 0 {
        lemma_apply_string_metas_last_default(apply_string_meta(acc, l[0]), l.drop_first());
    }
}

/// A list with no `default=` has no last default.
proof fn lemma_no_default(l: Seq<StringMetaV>)
    requires
        forall|k: int| 0 <= k < l.len() ==> !(l[k] is Default),
    ensures
        last_default(l) is None,
    decreases l.len(),
{
    if l.len() > 0 {
        assert(forall|k: int|
            0 <= k < l.drop_first().len() ==> l.drop_first()[k] == l[k + 1] && !(l.drop_first()[k]
                is Default));
        lemma_no_default(l.drop_first());
    }
}

/// A `default=` at position `j` with no later `default=` is the list's
/// last default.
pub proof fn lemma_last_default_at(l: Seq<StringMetaV>, j: int, d: Seq<char>)
    requires
        0 <= j < l.len(),
        l[j] == StringMetaV::Default(d),
        forall|k: int| j < k < l.len() ==> !(l[k] is Default),
    ensures
        last_default(l) == Some(d),
    decreases l.len(),
{
    let rest = l.drop_first();
    assert(forall|k: int| 0 <= k < rest.len() ==> rest[k] == l[k + 1]);
    if j == 0 {
        lemma_no_default(rest);
    } else {
        lemma_last_default_at(rest, j - 1, d);
    }
}

/// Law: when `default=` appears more than once among one property's
/// metaproperties — values `v1` at an earlier position, `v2` at the last
/// one — the line still parses (the fold is total), and the folded record
/// keeps only `v2`: the last occurrence wins and earlier ones are
/// silently discarded.  The same overwrite rule governs every repeated
/// kind, as [`apply_string_meta`] fixes.
pub proof fn lemma_string_metas_duplicate_default(
    s: Seq<char>,
    p: int,
    acc: StringPropertyV,
    i: int,
    j: int,
    v1: Seq<char>,
    v2: Seq<char>,
)
    requires
        0 <= i < j < string_metas_list(s, p).len(),
        string_metas_list(s, p)[i] == StringMetaV::Default(v1),
        string_metas_list(s, p)[j] == StringMetaV::Default(v2),
        forall|k: int| j < k < string_metas_list(s, p).len() ==> !(string_metas_list(s, p)[k]
            is Default),
    ensures
        spec_string_metas(s, p, acc).1.default_value == Some(v2),
{
    lemma_string_metas_as_list(s, p, acc);
    lemma_apply_string_metas_last_default(acc, string_metas_list(s, p));
    lemma_last_default_at(string_metas_list(s, p), j, v2);
}

/// Law: the fold's default is in general the last `default=` consumed, or
/// the accumulator's own where none occurs.
pub proof fn lemma_string_metas_default_is_last(s: Seq<char>, p: int, acc: StringPropertyV)
    ensures
        spec_string_metas(s, p, acc).1.default_value == (match last_default(
            string_metas_list(s, p),
        ) {
            Some(d) => Some(d),
            None => acc.default_value,
        }),
{
    lemma_string_metas_as_list(s, p, acc);
    lemma_apply_string_metas_last_default(acc, string_metas_list(s, p));
}

/// Parses `default=` followed by a quoted string.
pub fn string_default_value(input: &Vec<char>, pos: usize) -> (r: PResult<String>)
    requires
        pos <= input@.len(),
    ensures
        r matches Ok((np, v)) ==> spec_string_default_value(input@, pos as int) == Some(
            (np as int, v@),
        ) && pos < np <= input@.len(),
        r is Err ==> spec_string_default_value(input@, pos as int) is None,
        r matches Err(e) ==> e.labels@.len() >= 1,
{
    let (p, _) = match key_eq(input, pos, "default") {
        Ok(x) => x,
        Err(e) => {
            return Err(e.label("StringDefaultValue"));
        },
    };
    match string_value(input, p) {
        Ok(x) => Ok(x),
        Err(e) => Err(e.label("StringDefaultValue")),
    }
}

/// Parses `regex=` followed by a regex literal.
pub fn string_regex_validator(input: &Vec<char>, pos: usize) -> (r: PResult<StringRegexValidator>)
    requires
        pos <= input@.len(),
    ensures
        r matches Ok((np, v)) ==> spec_string_regex_validator(input@, pos as int) == Some(
            (np as int, v@),
        ) && pos < np <= input@.len(),
        r is Err ==> spec_string_regex_validator(input@, pos as int) is None,
        r matches Err(e) ==> e.labels@.len() >= 1,
{
    let (p, _) = match key_eq(input, pos, "regex") {
        Ok(x) => x,
        Err(e) => {
            return Err(e.label("StringRegexValidator"));
        },
    };
    match regex_value(input, p) {
        Ok((np, pattern)) => Ok((np, StringRegexValidator { pattern, flags: String::new() })),
        Err(e) => Err(e.label("StringRegexValidator")),
    }
}

/// Parses `length=[lower?,upper?]`.
pub fn string_length_validator(input: &Vec<char>, pos: usize) -> (r: PResult<
    StringLengthValidator,
>)
    requires
        pos <= input@.len(),
    ensures
        r matches Ok((np, v)) ==> spec_string_length_validator(input@, pos as int) == Some(
            (np as int, v),
        ) && pos < np <= input@.len(),
        r is Err ==> spec_string_length_validator(input@, pos as int) is None,
        r matches Err(e) ==> e.labels@.len() >= 1,
{
    match ranged_positive_integer(input, pos, "length") {
        Ok((np, pair)) => Ok((np, StringLengthValidator { min_length: pair.0, max_length: pair.1 })),
        Err(e) => Err(e.label("StringLengthValidator")),
    }
}

/// Parses a whole `String` property line: head, then metaproperties in any
/// order, the last occurrence of a kind winning.
pub fn string_property(input: &Vec<char>, pos: usize) -> (r: PResult<StringProperty>)
    requires
        pos <= input@.len(),
    ensures
        r matches Ok((np, v)) ==> spec_string_property(input@, pos as int) == Some(
            (np as int, v@),
        ) && pos <= np <= input@.len(),
        r is Err ==> spec_string_property(input@, pos as int) is None,
        r matches Err(e) ==> e.labels@.len() >= 1,
{
    let ghost s = input@;
    let (p, (name, is_array)) = match primitive_property(
        input,
        pos,
        PrimitiveType::StringPropertyType,
    ) {
        Ok(x) => x,
        Err(e) => {
            return Err(e.label("StringProperty"));
        },
    };
    let mut prop = StringProperty {
        class: String::from_str("StringProperty"),
        name,
        is_optional: false,
        is_array,
        default_value: None,
        regex_validator: None,
        length_validator: None,
    };
    let ghost init = string_property_init(prop.name@, is_array);
    proof {
        assert(prop@ == init);
    }
    let mut i = p;
    loop
        invariant
            p <= i <= s.len(),
            s == input@,
            spec_string_metas(s, p as int, init) == spec_string_metas(s, i as int, prop@),
        ensures
            spec_string_metas(s, p as int, init) == (i as int, prop@),
        decreases s.len() - i,
    {
        let w = scan_class(input, i, CharClass::Space);
        if w == i {
            break ;
        }
        match string_length_validator(input, w) {
            Ok((e, lv)) => {
                prop.length_validator = Some(lv);
                i = e;
            },
            Err(_) => {
                match string_regex_validator(input, w) {
                    Ok((e, rv)) => {
                        prop.regex_validator = Some(rv);
                        i = e;
                    },
                    Err(_) => {
                        match string_default_value(input, w) {
                            Ok((e, dv)) => {
                                prop.default_value = Some(dv);
                                i = e;
                            },
                            Err(_) => {
                                match tag(input, w, "optional") {
                                    Some(e) => {
                                        proof {
                                            reveal_strlit("optional");
                                        }
                                        prop.is_optional = true;
                                        i = e;
                                    },
                                    None => {
                                        break ;
                                    },
                                }
                            },
                        }
                    },
                }
            },
        }
    }
    Ok((i, prop))
}

} // verus!
