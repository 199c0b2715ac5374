//! `Long` properties: `o Long [[]] <name>` with `default=`, `range=` and
//! `optional` metaproperties; a repeated kind's last occurrence wins.

use vstd::prelude::*;

use crate::error::PResult;
use crate::numeric::{long_value, spec_long_value};
use crate::property::{
    key_eq, primitive_property, spec_key_eq, spec_primitive_property, PrimitiveType,
};
use crate::ranged::{long_elem, ranged_long, spec_ranged};
use crate::scan::{scan_class, tag, CharClass};

verus! {

/// A numeric-domain validator for `Long` properties; either bound may be
/// absent, but not both.
#[derive(Debug, PartialEq, Eq, Clone, Copy)]
pub struct LongDomainValidator {
    /// Inclusive lower bound.
    pub lower: Option<i64>,
    /// Inclusive upper bound.
    pub upper: Option<i64>,
}

/// A parsed `Long` property.
#[derive(Debug, PartialEq, Eq, Clone)]
pub struct LongProperty {
    /// The property's name.
    pub name: String,
    /// The default value, when declared.
    pub default_value: Option<i64>,
    /// The range validator, when declared.
    pub domain_validator: Option<LongDomainValidator>,
    /// Whether the property may be absent.
    pub is_optional: bool,
    /// Whether the property is array-valued.
    pub is_array: bool,
}

/// The mathematical value of a [`LongProperty`].
pub ghost struct LongPropertyV {
    /// The property's name.
    pub name: Seq<char>,
    /// The default value, when declared.
    pub default_value: Option<i64>,
    /// The range validator, when declared.
    pub domain_validator: Option<LongDomainValidator>,
    /// Whether the property may be absent.
    pub is_optional: bool,
    /// Whether the property is array-valued.
    pub is_array: bool,
}

impl View for LongProperty {
    type V = LongPropertyV;

    open spec fn view(&self) -> LongPropertyV {
        LongPropertyV {
            name: self.name@,
            default_value: self.default_value,
            domain_validator: self.domain_validator,
            is_optional: self.is_optional,
            is_array: self.is_array,
        }
    }
}

/// What `long_default_value` returns: `default=`, then a 64-bit numeral.
pub open spec fn spec_long_default_value(s: Seq<char>, pos: int) -> Option<(int, i64)> {
    match spec_key_eq(s, pos, "default"@) {
        Some(p) => spec_long_value(s, p),
        None => None,
    }
}

/// What `long_domain_validator` returns: `range=[lower?,upper?]` with
/// 64-bit bounds.
pub open spec fn spec_long_domain_validator(s: Seq<char>, pos: int) -> Option<
    (int, LongDomainValidator),
> {
    match spec_ranged(s, pos, "range"@, long_elem()) {
        Some((np, pair)) => Some((np, LongDomainValidator { lower: pair.0, upper: pair.1 })),
        None => None,
    }
}

/// Folds the long metaproperties following `p` into `acc`.
pub open spec fn spec_long_metas(s: Seq<char>, p: int, acc: LongPropertyV) -> (int, LongPropertyV)
    decreases s.len() - p,
{
    let w = crate::scan::run_end(s, p, CharClass::Space);
    if p < w <= s.len() {
        match spec_long_domain_validator(s, w) {
            Some((e, dv)) => if w < e <= s.len() {
                spec_long_metas(s, e, LongPropertyV { domain_validator: Some(dv), ..acc })
            } else {
                (p, acc)
            },
            None => match spec_long_default_value(s, w) {
                Some((e, d)) => if w < e <= s.len() {
                    spec_long_metas(s, e, LongPropertyV { default_value: Some(d), ..acc })
                } else {
                    (p, acc)
                },
                None => {
                    if crate::scan::tag_at(s, w, "optional"@) {
                        let e = w + "optional"@.len();
                        if w < e <= s.len() {
                            spec_long_metas(s, e, LongPropertyV { is_optional: true, ..acc })
                        } else {
                            (p, acc)
                        }
                    } else {
                        (p, acc)
                    }
                },
            },
        }
    } else {
        (p, acc)
    }
}

/// The initial record for a long property: no metaproperties yet.
pub open spec fn long_property_init(name: Seq<char>, is_array: bool) -> LongPropertyV {
    LongPropertyV {
        name,
        default_value: None,
        domain_validator: None,
        is_optional: false,
        is_array,
    }
}

/// What `long_property` returns.
pub open spec fn spec_long_property(s: Seq<char>, pos: int) -> Option<(int, LongPropertyV)> {
    match spec_primitive_property(s, pos, PrimitiveType::LongPropertyType) {
        Some((p, (name, is_array))) => {
            let m = spec_long_metas(s, p, long_property_init(name, is_array));
            Some((m.0, m.1))
        },
        None => None,
    }
}

/// Parses `default=` followed by a 64-bit numeral.
pub fn long_default_value(input: &Vec<char>, pos: usize) -> (r: PResult<i64>)
    requires
        pos <= input@.len(),
    ensures
        r matches Ok((np, v)) ==> spec_long_default_value(input@, pos as int) == Some(
            (np as int, v),
        ) && pos < np <= input@.len(),
        r is Err ==> spec_long_default_value(input@, pos as int) is None,
        r matches Err(e) ==> e.labels@.len() >= 1,
{
    let (p, _) = match key_eq(input, pos, "default") {
        Ok(x) => x,
        Err(e) => {
            return Err(e.label("LongDefaultValue"));
        },
    };
    match long_value(input, p) {
        Ok(x) => Ok(x),
        Err(e) => Err(e.label("LongDefaultValue")),
    }
}

/// Parses `range=[lower?,upper?]` with 64-bit bounds.
pub fn long_domain_validator(input: &Vec<char>, pos: usize) -> (r: PResult<LongDomainValidator>)
    requires
        pos <= input@.len(),
    ensures
        r matches Ok((np, v)) ==> spec_long_domain_validator(input@, pos as int) == Some(
            (np as int, v),
        ) && pos < np <= input@.len(),
        r is Err ==> spec_long_domain_validator(input@, pos as int) is None,
        r matches Err(e) ==> e.labels@.len() >= 1,
{
    match ranged_long(input, pos, "range") {
        Ok((np, pair)) => Ok((np, LongDomainValidator { lower: pair.0, upper: pair.1 })),
        Err(e) => Err(e.label("LongDomainValidator")),
    }
}

/// Parses a whole `Long` property line.
pub fn long_property(input: &Vec<char>, pos: usize) -> (r: PResult<LongProperty>)
    requires
        pos <= input@.len(),
    ensures
        r matches Ok((np, v)) ==> spec_long_property(input@, pos as int) == Some((np as int, v@))
            && pos <= np <= input@.len(),
        r is Err ==> spec_long_property(input@, pos as int) is None,
        r matches Err(e) ==> e.labels@.len() >= 1,
{
    let ghost s = input@;
    let (p, (name, is_array)) = match primitive_property(
        input,
        pos,
        PrimitiveType::LongPropertyType,
    ) {
        Ok(x) => x,
        Err(e) => {
            return Err(e.label("LongProperty"));
        },
    };
    let mut prop = LongProperty {
        name,
        default_value: None,
        domain_validator: None,
        is_optional: false,
        is_array,
    };
    let ghost init = long_property_init(prop.name@, is_array);
    proof {
        assert(prop@ == init);
    }
    let mut i = p;
    loop
        invariant
            p <= i <= s.len(),
            s == input@,
            spec_long_metas(s, p as int, init) == spec_long_metas(s, i as int, prop@),
        ensures
            spec_long_metas(s, p as int, init) == (i as int, prop@),
        decreases s.len() - i,
    {
        let w = scan_class(input, i, CharClass::Space);
        if w == i {
            break ;
        }
        match long_domain_validator(input, w) {
            Ok((e, dv)) => {
                prop.domain_validator = Some(dv);
                i = e;
            },
            Err(_) => {
                match long_default_value(input, w) {
                    Ok((e, d)) => {
                        prop.default_value = Some(d);
                        i = e;
                    },
                    Err(_) => {
                        match tag(input, w, "optional") {
                            Some(e) => {
                                proof {
                                    reveal_strlit("optional");
                                }
                                prop.is_optional = true;
                                i = e;
                            },
                            None => {
                                break ;
                            },
                        }
                    },
                }
            },
        }
    }
    Ok((i, prop))
}

} // verus!
