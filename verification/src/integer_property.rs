//! `Integer` properties: `o Integer [[]] <name>` with `default=`,
//! `range=` and `optional` metaproperties; a repeated kind's last
//! occurrence wins.

use vstd::prelude::*;

use crate::error::PResult;
use crate::numeric::{integer_value, spec_integer_value};
use crate::property::{
    key_eq, primitive_property, spec_key_eq, spec_primitive_property, PrimitiveType,
};
use crate::ranged::{integer_elem, ranged_integer, spec_ranged};
use crate::scan::{scan_class, tag, CharClass};

verus! {

/// A numeric-domain validator for `Integer` properties; either bound may
/// be absent, but not both.
#[derive(Debug, PartialEq, Eq, Clone, Copy)]
pub struct IntegerDomainValidator {
    /// Inclusive lower bound.
    pub lower: Option<i32>,
    /// Inclusive upper bound.
    pub upper: Option<i32>,
}

/// A parsed `Integer` property.
#[derive(Debug, PartialEq, Eq, Clone)]
pub struct IntegerProperty {
    /// The property's name.
    pub name: String,
    /// The default value, when declared.
    pub default_value: Option<i32>,
    /// The range validator, when declared.
    pub domain_validator: Option<IntegerDomainValidator>,
    /// Whether the property may be absent.
    pub is_optional: bool,
    /// Whether the property is array-valued.
    pub is_array: bool,
}

/// The mathematical value of an [`IntegerProperty`].
pub ghost struct IntegerPropertyV {
    /// The property's name.
    pub name: Seq<char>,
    /// The default value, when declared.
    pub default_value: Option<i32>,
    /// The range validator, when declared.
    pub domain_validator: Option<IntegerDomainValidator>,
    /// Whether the property may be absent.
    pub is_optional: bool,
    /// Whether the property is array-valued.
    pub is_array: bool,
}

impl View for IntegerProperty {
    type V = IntegerPropertyV;

    open spec fn view(&self) -> IntegerPropertyV {
        IntegerPropertyV {
            name: self.name@,
            default_value: self.default_value,
            domain_validator: self.domain_validator,
            is_optional: self.is_optional,
            is_array: self.is_array,
        }
    }
}

/// What `integer_default_value` returns: `default=`, then a 32-bit
/// numeral.
pub open spec fn spec_integer_default_value(s: Seq<char>, pos: int) -> Option<(int, i32)> {
    match spec_key_eq(s, pos, "default"@) {
        Some(p) => spec_integer_value(s, p),
        None => None,
    }
}

/// What `integer_domain_validator` returns: `range=[lower?,upper?]` with
/// 32-bit bounds.
pub open spec fn spec_integer_domain_validator(s: Seq<char>, pos: int) -> Option<
    (int, IntegerDomainValidator),
> {
    match spec_ranged(s, pos, "range"@, integer_elem()) {
        Some((np, pair)) => Some((np, IntegerDomainValidator { lower: pair.0, upper: pair.1 })),
        None => None,
    }
}

/// Folds the integer metaproperties following `p` into `acc`.
pub open spec fn spec_integer_metas(s: Seq<char>, p: int, acc: IntegerPropertyV) -> (
    int,
    IntegerPropertyV,
)
    decreases s.len() - p,
{
    let w = crate::scan::run_end(s, p, CharClass::Space);
    if p < w <= s.len() {
        match spec_integer_domain_validator(s, w) {
            Some((e, dv)) => if w < e <= s.len() {
                spec_integer_metas(s, e, IntegerPropertyV { domain_validator: Some(dv), ..acc })
            } else {
                (p, acc)
            },
            None => match spec_integer_default_value(s, w) {
                Some((e, d)) => if w < e <= s.len() {
                    spec_integer_metas(s, e, IntegerPropertyV { default_value: Some(d), ..acc })
                } else {
                    (p, acc)
                },
                None => {
                    if crate::scan::tag_at(s, w, "optional"@) {
                        let e = w + "optional"@.len();
                        if w < e <= s.len() {
                            spec_integer_metas(s, e, IntegerPropertyV { is_optional: true, ..acc })
                        } else {
                            (p, acc)
                        }
                    } else {
                        (p, acc)
                    }
                },
            },
        }
    } else {
        (p, acc)
    }
}

/// The initial record for an integer property: no metaproperties yet.
pub open spec fn integer_property_init(name: Seq<char>, is_array: bool) -> IntegerPropertyV {
    IntegerPropertyV {
        name,
        default_value: None,
        domain_validator: None,
        is_optional: false,
        is_array,
    }
}

/// What `integer_property` returns.
pub open spec fn spec_integer_property(s: Seq<char>, pos: int) -> Option<(int, IntegerPropertyV)> {
    match spec_primitive_property(s, pos, PrimitiveType::IntegerPropertyType) {
        Some((p, (name, is_array))) => {
            let m = spec_integer_metas(s, p, integer_property_init(name, is_array));
            Some((m.0, m.1))
        },
        None => None,
    }
}

/// Parses `default=` followed by a 32-bit numeral.
pub fn integer_default_value(input: &Vec<char>, pos: usize) -> (r: PResult<i32>)
    requires
        pos <= input@.len(),
    ensures
        r matches Ok((np, v)) ==> spec_integer_default_value(input@, pos as int) == Some(
            (np as int, v),
        ) && pos < np <= input@.len(),
        r is Err ==> spec_integer_default_value(input@, pos as int) is None,
        r matches Err(e) ==> e.labels@.len() >= 1,
{
    let (p, _) = match key_eq(input, pos, "default") {
        Ok(x) => x,
        Err(e) => {
            return Err(e.label("IntegerDefaultValue"));
        },
    };
    match integer_value(input, p) {
        Ok(x) => Ok(x),
        Err(e) => Err(e.label("IntegerDefaultValue")),
    }
}

/// Parses `range=[lower?,upper?]` with 32-bit bounds.
pub fn integer_domain_validator(input: &Vec<char>, pos: usize) -> (r: PResult<
    IntegerDomainValidator,
>)
    requires
        pos <= input@.len(),
    ensures
        r matches Ok((np, v)) ==> spec_integer_domain_validator(input@, pos as int) == Some(
            (np as int, v),
        ) && pos < np <= input@.len(),
        r is Err ==> spec_integer_domain_validator(input@, pos as int) is None,
        r matches Err(e) ==> e.labels@.len() >= 1,
{
    match ranged_integer(input, pos, "range") {
        Ok((np, pair)) => Ok((np, IntegerDomainValidator { lower: pair.0, upper: pair.1 })),
        Err(e) => Err(e.label("IntegerDomainValidator")),
    }
}

/// Parses a whole `Integer` property line.
pub fn integer_property(input: &Vec<char>, pos: usize) -> (r: PResult<IntegerProperty>)
    requires
        pos <= input@.len(),
    ensures
        r matches Ok((np, v)) ==> spec_integer_property(input@, pos as int) == Some(
            (np as int, v@),
        ) && pos <= np <= input@.len(),
        r is Err ==> spec_integer_property(input@, pos as int) is None,
        r matches Err(e) ==> e.labels@.len() >= 1,
{
    let ghost s = input@;
    let (p, (name, is_array)) = match primitive_property(
        input,
        pos,
        PrimitiveType::IntegerPropertyType,
    ) {
        Ok(x) => x,
        Err(e) => {
            return Err(e.label("IntegerProperty"));
        },
    };
    let mut prop = IntegerProperty {
        name,
        default_value: None,
        domain_validator: None,
        is_optional: false,
        is_array,
    };
    let ghost init = integer_property_init(prop.name@, is_array);
    proof {
        assert(prop@ == init);
    }
    let mut i = p;
    loop
        invariant
            p <= i <= s.len(),
            s == input@,
            spec_integer_metas(s, p as int, init) == spec_integer_metas(s, i as int, prop@),
        ensures
            spec_integer_metas(s, p as int, init) == (i as int, prop@),
        decreases s.len() - i,
    {
        let w = scan_class(input, i, CharClass::Space);
        if w == i {
            break ;
        }
        match integer_domain_validator(input, w) {
            Ok((e, dv)) => {
                prop.domain_validator = Some(dv);
                i = e;
            },
            Err(_) => {
                match integer_default_value(input, w) {
                    Ok((e, d)) => {
                        prop.default_value = Some(d);
                        i = e;
                    },
                    Err(_) => {
                        match tag(input, w, "optional") {
                            Some(e) => {
                                proof {
                                    reveal_strlit("optional");
                                }
                                prop.is_optional = true;
                                i = e;
                            },
                            None => {
                                break ;
                            },
                        }
                    },
                }
            },
        }
    }
    Ok((i, prop))
}

} // verus!
