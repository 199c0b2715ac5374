//! `Double` properties: `o Double [[]] <name>` with `default=`, `range=`
//! and `optional` metaproperties; a repeated kind's last occurrence wins.
//! Floating-point values are carried as their literal text, which the
//! platform's float parser accepts unchanged.

use vstd::prelude::*;

use crate::error::PResult;
use crate::numeric::{double_value, spec_double_value};
use crate::property::{
    key_eq, primitive_property, spec_key_eq, spec_primitive_property, PrimitiveType,
};
use crate::ranged::{double_elem, ranged_double, spec_ranged};
use crate::scan::{scan_class, tag, CharClass};

verus! {

/// A numeric-domain validator for `Double` properties, each bound kept as
/// its literal text; either bound may be absent, but not both.
#[derive(Debug, PartialEq, Eq, Clone)]
pub struct DoubleDomainValidator {
    /// Inclusive lower bound's literal text.
    pub lower: Option<String>,
    /// Inclusive upper bound's literal text.
    pub upper: Option<String>,
}

/// The mathematical value of a [`DoubleDomainValidator`].
pub ghost struct DoubleDomainValidatorV {
    /// Inclusive lower bound's literal text.
    pub lower: Option<Seq<char>>,
    /// Inclusive upper bound's literal text.
    pub upper: Option<Seq<char>>,
}

impl View for DoubleDomainValidator {
    type V = DoubleDomainValidatorV;

    open spec fn view(&self) -> DoubleDomainValidatorV {
        DoubleDomainValidatorV {
            lower: match self.lower {
                Some(l) => Some(l@),
                None => None,
            },
            upper: match self.upper {
                Some(u) => Some(u@),
                None => None,
            },
        }
    }
}

/// A parsed `Double` property.
#[derive(Debug, PartialEq, Eq, Clone)]
pub struct DoubleProperty {
    /// The property variant's discriminator.
    pub class: String,
    /// The property's name.
    pub name: String,
    /// Whether the property may be absent.
    pub is_optional: bool,
    /// Whether the property is array-valued.
    pub is_array: bool,
    /// The default value's literal text, when declared.
    pub default_value: Option<String>,
    /// The range validator, when declared.
    pub domain_validator: Option<DoubleDomainValidator>,
}

/// The mathematical value of a [`DoubleProperty`].
pub ghost struct DoublePropertyV {
    /// The property variant's discriminator.
    pub class: Seq<char>,
    /// The property's name.
    pub name: Seq<char>,
    /// Whether the property may be absent.
    pub is_optional: bool,
    /// Whether the property is array-valued.
    pub is_array: bool,
    /// The default value's literal text, when declared.
    pub default_value: Option<Seq<char>>,
    /// The range validator, when declared.
    pub domain_validator: Option<DoubleDomainValidatorV>,
}

impl View for DoubleProperty {
    type V = DoublePropertyV;

    open spec fn view(&self) -> DoublePropertyV {
        DoublePropertyV {
            class: self.class@,
            name: self.name@,
            is_optional: self.is_optional,
            is_array: self.is_array,
            default_value: match self.default_value {
                Some(d) => Some(d@),
                None => None,
            },
            domain_validator: match self.domain_validator {
                Some(dv) => Some(dv@),
                None => None,
            },
        }
    }
}

/// What `double_default_value` returns: `default=`, then a float literal,
/// kept verbatim.
pub open spec fn spec_double_default_value(s: Seq<char>, pos: int) -> Option<(int, Seq<char>)> {
    match spec_key_eq(s, pos, "default"@) {
        Some(p) => spec_double_value(s, p),
        None => None,
    }
}

/// What `double_domain_validator` returns: `range=[lower?,upper?]` with
/// float-literal bounds.
pub open spec fn spec_double_domain_validator(s: Seq<char>, pos: int) -> Option<
    (int, DoubleDomainValidatorV),
> {
    match spec_ranged(s, pos, "range"@, double_elem()) {
        Some((np, pair)) => Some((np, DoubleDomainValidatorV { lower: pair.0, upper: pair.1 })),
        None => None,
    }
}

/// Folds the double metaproperties following `p` into `acc`.
pub open spec fn spec_double_metas(s: Seq<char>, p: int, acc: DoublePropertyV) -> (
    int,
    DoublePropertyV,
)
    decreases s.len() - p,
{
    let w = crate::scan::run_end(s, p, CharClass::Space);
    if p < w <= s.len() {
        match spec_double_domain_validator(s, w) {
            Some((e, dv)) => if w < e <= s.len() {
                spec_double_metas(s, e, DoublePropertyV { domain_validator: Some(dv), ..acc })
            } else {
                (p, acc)
            },
            None => match spec_double_default_value(s, w) {
                Some((e, d)) => if w < e <= s.len() {
                    spec_double_metas(s, e, DoublePropertyV { default_value: Some(d), ..acc })
                } else {
                    (p, acc)
                },
                None => {
                    if crate::scan::tag_at(s, w, "optional"@) {
                        let e = w + "optional"@.len();
                        if w < e <= s.len() {
                            spec_double_metas(s, e, DoublePropertyV { is_optional: true, ..acc })
                        } else {
                            (p, acc)
                        }
                    } else {
                        (p, acc)
                    }
                },
            },
        }
    } else {
        (p, acc)
    }
}

/// The initial record for a double property: no metaproperties yet.
pub open spec fn double_property_init(name: Seq<char>, is_array: bool) -> DoublePropertyV {
    DoublePropertyV {
        class: "DoubleProperty"@,
        name,
        is_optional: false,
        is_array,
        default_value: None,
        domain_validator: None,
    }
}

/// What `double_property` returns.
pub open spec fn spec_double_property(s: Seq<char>, pos: int) -> Option<(int, DoublePropertyV)> {
    match spec_primitive_property(s, pos, PrimitiveType::DoublePropertyType) {
        Some((p, (name, is_array))) => {
            let m = spec_double_metas(s, p, double_property_init(name, is_array));
            Some((m.0, m.1))
        },
        None => None,
    }
}

/// One double metaproperty, abstracted from the text it was parsed from.
pub ghost enum DoubleMetaV {
    /// A `default=` value (a float literal's text).
    Default(Seq<char>),
    /// A `range=` validator.
    Range(DoubleDomainValidatorV),
    /// The `optional` flag.
    Optional,
}

/// The metaproperties the fold at `p` consumes, in source order.
pub open spec fn double_metas_list(s: Seq<char>, p: int) -> Seq<DoubleMetaV>
    decreases s.len() - p,
{
    let w = crate::scan::run_end(s, p, CharClass::Space);
    if p < w <= s.len() {
        match spec_double_domain_validator(s, w) {
            Some((e, dv)) => if w < e <= s.len() {
                seq![DoubleMetaV::Range(dv)] + double_metas_list(s, e)
            } else {
                Seq::empty()
            },
            None => match spec_double_default_value(s, w) {
                Some((e, d)) => if w < e <= s.len() {
                    seq![DoubleMetaV::Default(d)] + double_metas_list(s, e)
                } else {
                    Seq::empty()
                },
                None => {
                    if crate::scan::tag_at(s, w, "optional"@) {
                        let e = w + "optional"@.len();
                        if w < e <= s.len() {
                            seq![DoubleMetaV::Optional] + double_metas_list(s, e)
                        } else {
                            Seq::empty()
                        }
                    } else {
                        Seq::empty()
                    }
                },
            },
        }
    } else {
        Seq::empty()
    }
}

/// One metaproperty applied to the record it decorates.
pub open spec fn apply_double_meta(acc: DoublePropertyV, m: DoubleMetaV) -> DoublePropertyV {
    match m {
        DoubleMetaV::Default(d) => DoublePropertyV { default_value: Some(d), ..acc },
        DoubleMetaV::Range(v) => DoublePropertyV { domain_validator: Some(v), ..acc },
        DoubleMetaV::Optional => DoublePropertyV { is_optional: true, ..acc },
    }
}

/// A metaproperty list applied left to right: a later occurrence of a
/// kind overwrites an earlier one.
pub open spec fn apply_double_metas(acc: DoublePropertyV, l: Seq<DoubleMetaV>) -> DoublePropertyV
    decreases l.len(),
{
    if l.len() == 0 {
        acc
    } else {
        apply_double_metas(apply_double_meta(acc, l[0]), l.drop_first())
    }
}

/// The metaproperty fold computes exactly the abstract metaproperty list
/// applied to the record, in source order.
pub proof fn lemma_double_metas_as_list(s: Seq<char>, p: int, acc: DoublePropertyV)
    ensures
        spec_double_metas(s, p, acc).1 == apply_double_metas(acc, double_metas_list(s, p)),
    decreases s.len() - p,
{
    let w = crate::scan::run_end(s, p, CharClass::Space);
    if p < w <= s.len() {
        match spec_double_domain_validator(s, w) {
            Some((e, dv)) => {
                if w < e <= s.len() {
                    let m = DoubleMetaV::Range(dv);
                    assert((seq![m] + double_metas_list(s, e)).drop_first() =~= double_metas_list(
                        s,
                        e,
                    ));
                    lemma_double_metas_as_list(s, e, apply_double_meta(acc, m));
                }
            },
            None => match spec_double_default_value(s, w) {
                Some((e, d)) => {
                    if w < e <= s.len() {
                        let m = DoubleMetaV::Default(d);
                        assert((seq![m] + double_metas_list(s, e)).drop_first()
                            =~= double_metas_list(s, e));
                        lemma_double_metas_as_list(s, e, apply_double_meta(acc, m));
                    }
                },
                None => {
                    if crate::scan::tag_at(s, w, "optional"@) {
                        let e = w + "optional"@.len();
                        if w < e <= s.len() {
                            let m = DoubleMetaV::Optional;
                            assert((seq![m] + double_metas_list(s, e)).drop_first()
                                =~= double_metas_list(s, e));
                            lemma_double_metas_as_list(s, e, apply_double_meta(acc, m));
                        }
                    }
                },
            },
        }
    }
}

/// Two metaproperties of the same kind (both defaults, both ranges, or
/// both optional flags).
pub open spec fn double_meta_same_kind(a: DoubleMetaV, b: DoubleMetaV) -> bool {
    match (a, b) {
        (DoubleMetaV::Default(_), DoubleMetaV::Default(_)) => true,
        (DoubleMetaV::Range(_), DoubleMetaV::Range(_)) => true,
        (DoubleMetaV::Optional, DoubleMetaV::Optional) => true,
        _ => false,
    }
}

/// No metaproperty kind occurs twice in the list.
pub open spec fn double_metas_dup_free(l: Seq<DoubleMetaV>) -> bool {
    forall|i: int, j: int|
        0 <= i < j < l.len() ==> !double_meta_same_kind(l[i], l[j])
}

/// The first `default=` value in the list, if any.
pub open spec fn find_double_default(l: Seq<DoubleMetaV>) -> Option<Seq<char>>
    decreases l.len(),
{
    if l.len() == 0 {
        None
    } else {
        match l[0] {
            DoubleMetaV::Default(d) => Some(d),
            _ => find_double_default(l.drop_first()),
        }
    }
}

/// The first `range=` validator in the list, if any.
pub open spec fn find_double_range(l: Seq<DoubleMetaV>) -> Option<DoubleDomainValidatorV>
    decreases l.len(),
{
    if l.len() == 0 {
        None
    } else {
        match l[0] {
            DoubleMetaV::Range(v) => Some(v),
            _ => find_double_range(l.drop_first()),
        }
    }
}

/// Whether the list holds the `optional` flag.
pub open spec fn has_double_optional(l: Seq<DoubleMetaV>) -> bool
    decreases l.len(),
{
    if l.len() == 0 {
        false
    } else {
        l[0] is Optional || has_double_optional(l.drop_first())
    }
}

/// Law: a duplicate-free metaproperty list determines the folded record by
/// membership alone — each field carries the value of its kind's one item
/// when present, and the accumulator's value otherwise.  Source order is
/// irrelevant.
pub proof fn lemma_apply_double_metas_fields(acc: DoublePropertyV, l: Seq<DoubleMetaV>)
    requires
        double_metas_dup_free(l),
    ensures
        ({
            let r = apply_double_metas(acc, l);
            &&& r.class == acc.class
            &&& r.name == acc.name
            &&& r.is_array == acc.is_array
            &&& r.default_value == (match find_double_default(l) {
                Some(d) => Some(d),
                None => acc.default_value,
            })
            &&& r.domain_validator == (match find_double_range(l) {
                Some(v) => Some(v),
                None => acc.domain_validator,
            })
            &&& r.is_optional == (acc.is_optional || has_double_optional(l))
        }),
    decreases l.len(),
{
    if l.len() > 0 {
        let rest = l.drop_first();
        assert(forall|k: int| 0 <= k < rest.len() ==> rest[k] == l[k + 1]);
        assert(double_metas_dup_free(rest)) by {
            assert(forall|i: int, j: int|
                0 <= i < j < rest.len() ==> rest[i] == l[i + 1] && rest[j] == l[j + 1]
                    && !double_meta_same_kind(l[i + 1], l[j + 1]));
        }
        lemma_apply_double_metas_fields(apply_double_meta(acc, l[0]), rest);
        match l[0] {
            DoubleMetaV::Default(_) => {
                assert forall|k: int| 0 <= k < rest.len() implies !(rest[k] is Default) by {
                    assert(rest[k] == l[k + 1]);
                    assert(!double_meta_same_kind(l[0], l[k + 1]));
                }
                lemma_find_double_default_none(rest);
            },
            DoubleMetaV::Range(_) => {
                assert forall|k: int| 0 <= k < rest.len() implies !(rest[k] is Range) by {
                    assert(rest[k] == l[k + 1]);
                    assert(!double_meta_same_kind(l[0], l[k + 1]));
                }
                lemma_find_double_range_none(rest);
            },
            DoubleMetaV::Optional => {
            },
        }
    }
}

/// A list with no `default=` selects none.
proof fn lemma_find_double_default_none(l: Seq<DoubleMetaV>)
    requires
        forall|k: int| 0 <= k < l.len() ==> !(l[k] is Default),
    ensures
        find_double_default(l) is None,
    decreases l.len(),
{
    if l.len() > 0 {
        assert(forall|k: int| 0 <= k < l.drop_first().len() ==> l.drop_first()[k] == l[k + 1]);
        lemma_find_double_default_none(l.drop_first());
    }
}

/// A list with no `range=` selects none.
proof fn lemma_find_double_range_none(l: Seq<DoubleMetaV>)
    requires
        forall|k: int| 0 <= k < l.len() ==> !(l[k] is Range),
    ensures
        find_double_range(l) is None,
    decreases l.len(),
{
    if l.len() > 0 {
        assert(forall|k: int| 0 <= k < l.drop_first().len() ==> l.drop_first()[k] == l[k + 1]);
        lemma_find_double_range_none(l.drop_first());
    }
}

/// In a duplicate-free list, containing `default=` with value `d` means
/// the selector finds exactly `d`.
proof fn lemma_find_double_default_contains(l: Seq<DoubleMetaV>, d: Seq<char>)
    requires
        double_metas_dup_free(l),
        l.contains(DoubleMetaV::Default(d)),
    ensures
        find_double_default(l) == Some(d),
    decreases l.len(),
{
    let i = choose|i: int| 0 <= i < l.len() && l[i] == DoubleMetaV::Default(d);
    let rest = l.drop_first();
    assert(forall|k: int| 0 <= k < rest.len() ==> rest[k] == l[k + 1]);
    assert(double_metas_dup_free(rest));
    if i == 0 {
    } else {
        assert(!double_meta_same_kind(l[0], l[i]));
        assert(!(l[0] is Default));
        assert(rest[i - 1] == DoubleMetaV::Default(d));
        assert(rest.contains(DoubleMetaV::Default(d)));
        lemma_find_double_default_contains(rest, d);
    }
}

/// In a duplicate-free list, containing `range=` with validator `v` means
/// the selector finds exactly `v`.
proof fn lemma_find_double_range_contains(l: Seq<DoubleMetaV>, v: DoubleDomainValidatorV)
    requires
        double_metas_dup_free(l),
        l.contains(DoubleMetaV::Range(v)),
    ensures
        find_double_range(l) == Some(v),
    decreases l.len(),
{
    let i = choose|i: int| 0 <= i < l.len() && l[i] == DoubleMetaV::Range(v);
    let rest = l.drop_first();
    assert(forall|k: int| 0 <= k < rest.len() ==> rest[k] == l[k + 1]);
    assert(double_metas_dup_free(rest));
    if i == 0 {
    } else {
        assert(!double_meta_same_kind(l[0], l[i]));
        assert(!(l[0] is Range));
        assert(rest[i - 1] == DoubleMetaV::Range(v));
        assert(rest.contains(DoubleMetaV::Range(v)));
        lemma_find_double_range_contains(rest, v);
    }
}

/// A selected `default=` is contained; a selected `range=` likewise; the
/// optional flag is held exactly when `Optional` is contained.
proof fn lemma_double_selectors_contained(l: Seq<DoubleMetaV>)
    ensures
        find_double_default(l) matches Some(d) ==> l.contains(DoubleMetaV::Default(d)),
        find_double_range(l) matches Some(v) ==> l.contains(DoubleMetaV::Range(v)),
        has_double_optional(l) <==> l.contains(DoubleMetaV::Optional),
    decreases l.len(),
{
    if l.len() > 0 {
        let rest = l.drop_first();
        assert(forall|k: int| 0 <= k < rest.len() ==> rest[k] == l[k + 1]);
        lemma_double_selectors_contained(rest);
        assert(forall|m: DoubleMetaV| rest.contains(m) ==> l.contains(m)) by {
            assert(forall|k: int| 0 <= k < rest.len() ==> rest[k] == l[k + 1]);
        }
        if l.contains(DoubleMetaV::Optional) && !(l[0] is Optional) {
            let i = choose|i: int| 0 <= i < l.len() && l[i] == DoubleMetaV::Optional;
            assert(rest[i - 1] == DoubleMetaV::Optional);
            assert(rest.contains(DoubleMetaV::Optional));
        }
    }
}

/// Law: metaproperty order is irrelevant when no kind repeats.  Two
/// positions — possibly in different inputs — whose consumed metaproperty
/// lists are duplicate-free and hold exactly the same items fold any one
/// record to identical results, whatever order the source wrote them in.
pub proof fn lemma_double_metas_order_irrelevant(
    s1: Seq<char>,
    p1: int,
    s2: Seq<char>,
    p2: int,
    acc: DoublePropertyV,
)
    requires
        double_metas_dup_free(double_metas_list(s1, p1)),
        double_metas_dup_free(double_metas_list(s2, p2)),
        forall|m: DoubleMetaV|
            double_metas_list(s1, p1).contains(m) <==> double_metas_list(s2, p2).contains(m),
    ensures
        spec_double_metas(s1, p1, acc).1 == spec_double_metas(s2, p2, acc).1,
{
    let l1 = double_metas_list(s1, p1);
    let l2 = double_metas_list(s2, p2);
    lemma_double_metas_as_list(s1, p1, acc);
    lemma_double_metas_as_list(s2, p2, acc);
    lemma_apply_double_metas_fields(acc, l1);
    lemma_apply_double_metas_fields(acc, l2);
    lemma_double_selectors_contained(l1);
    lemma_double_selectors_contained(l2);
    match find_double_default(l1) {
        Some(d) => {
            lemma_find_double_default_contains(l2, d);
        },
        None => {
            match find_double_default(l2) {
                Some(d) => {
                    lemma_find_double_default_contains(l1, d);
                },
                None => {},
            }
        },
    }
    match find_double_range(l1) {
        Some(v) => {
            lemma_find_double_range_contains(l2, v);
        },
        None => {
            match find_double_range(l2) {
                Some(v) => {
                    lemma_find_double_range_contains(l1, v);
                },
                None => {},
            }
        },
    }
}

/// Law: two `Double` property lines whose heads carry the same name and
/// array flag, and whose metaproperty lists are duplicate-free with the
/// same items in any order, parse to identical property values.
pub proof fn lemma_double_property_order_irrelevant(
    s1: Seq<char>,
    pos1: int,
    s2: Seq<char>,
    pos2: int,
)
    requires
        ({
            let h1 = spec_primitive_property(s1, pos1, PrimitiveType::DoublePropertyType);
            let h2 = spec_primitive_property(s2, pos2, PrimitiveType::DoublePropertyType);
            &&& h1 matches Some((p1, head1)) && h2 matches Some((p2, head2)) && head1 == head2
                && double_metas_dup_free(double_metas_list(s1, p1)) && double_metas_dup_free(
                double_metas_list(s2, p2),
            ) && (forall|m: DoubleMetaV|
                double_metas_list(s1, p1).contains(m) <==> double_metas_list(s2, p2).contains(m))
        }),
    ensures
        ({
            let r1 = spec_double_property(s1, pos1);
            let r2 = spec_double_property(s2, pos2);
            &&& r1 is Some
            &&& r2 is Some
            &&& (r1 matches Some((e1, v1)) && r2 matches Some((e2, v2)) ==> v1 == v2)
        }),
{
    let h1 = spec_primitive_property(s1, pos1, PrimitiveType::DoublePropertyType);
    let h2 = spec_primitive_property(s2, pos2, PrimitiveType::DoublePropertyType);
    match (h1, h2) {
        (Some((p1, head1)), Some((p2, head2))) => {
            lemma_double_metas_order_irrelevant(
                s1,
                p1,
                s2,
                p2,
                double_property_init(head1.0, head1.1),
            );
        },
        _ => {},
    }
}

/// Parses `default=` followed by a float literal.
pub fn double_default_value(input: &Vec<char>, pos: usize) -> (r: PResult<String>)
    requires
        pos <= input@.len(),
    ensures
        r matches Ok((np, v)) ==> spec_double_default_value(input@, pos as int) == Some(
            (np as int, v@),
        ) && pos < np <= input@.len(),
        r is Err ==> spec_double_default_value(input@, pos as int) is None,
        r matches Err(e) ==> e.labels@.len() >= 1,
{
    let (p, _) = match key_eq(input, pos, "default") {
        Ok(x) => x,
        Err(e) => {
            return Err(e.label("DoubleDefaultValue"));
        },
    };
    match double_value(input, p) {
        Ok(x) => Ok(x),
        Err(e) => Err(e.label("DoubleDefaultValue")),
    }
}

/// Parses `range=[lower?,upper?]` with float-literal bounds.
pub fn double_domain_validator(input: &Vec<char>, pos: usize) -> (r: PResult<
    DoubleDomainValidator,
>)
    requires
        pos <= input@.len(),
    ensures
        r matches Ok((np, v)) ==> spec_double_domain_validator(input@, pos as int) == Some(
            (np as int, v@),
        ) && pos < np <= input@.len(),
        r is Err ==> spec_double_domain_validator(input@, pos as int) is None,
        r matches Err(e) ==> e.labels@.len() >= 1,
{
    match ranged_double(input, pos, "range") {
        Ok((np, pair)) => Ok((np, DoubleDomainValidator { lower: pair.0, upper: pair.1 })),
        Err(e) => Err(e.label("DoubleDomainValidator")),
    }
}

/// Parses a whole `Double` property line.
pub fn double_property(input: &Vec<char>, pos: usize) -> (r: PResult<DoubleProperty>)
    requires
        pos <= input@.len(),
    ensures
        r matches Ok((np, v)) ==> spec_double_property(input@, pos as int) == Some(
            (np as int, v@),
        ) && pos <= np <= input@.len(),
        r is Err ==> spec_double_property(input@, pos as int) is None,
        r matches Err(e) ==> e.labels@.len() >= 1,
{
    let ghost s = input@;
    let (p, (name, is_array)) = match primitive_property(
        input,
        pos,
        PrimitiveType::DoublePropertyType,
    ) {
        Ok(x) => x,
        Err(e) => {
            return Err(e.label("DoubleProperty"));
        },
    };
    let mut prop = DoubleProperty {
        class: String::from_str("DoubleProperty"),
        name,
        is_optional: false,
        is_array,
        default_value: None,
        domain_validator: None,
    };
    let ghost init = double_property_init(prop.name@, is_array);
    proof {
        assert(prop@ == init);
    }
    let mut i = p;
    loop
        invariant
            p <= i <= s.len(),
            s == input@,
            spec_double_metas(s, p as int, init) == spec_double_metas(s, i as int, prop@),
        ensures
            spec_double_metas(s, p as int, init) == (i as int, prop@),
        decreases s.len() - i,
    {
        let w = scan_class(input, i, CharClass::Space);
        if w == i {
            break ;
        }
        match double_domain_validator(input, w) {
            Ok((e, dv)) => {
                prop.domain_validator = Some(dv);
                i = e;
            },
            Err(_) => {
                match double_default_value(input, w) {
                    Ok((e, d)) => {
                        prop.default_value = Some(d);
                        i = e;
                    },
                    Err(_) => {
                        match tag(input, w, "optional") {
                            Some(e) => {
                                proof {
                                    reveal_strlit("optional");
                                }
                                prop.is_optional = true;
                                i = e;
                            },
                            None => {
                                break ;
                            },
                        }
                    },
                }
            },
        }
    }
    Ok((i, prop))
}

} // verus!
