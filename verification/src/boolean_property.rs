//! `Boolean` properties: `o Boolean [[]] <name>` with `default=` and
//! `optional` metaproperties; a repeated kind's last occurrence wins.

use vstd::prelude::*;

use crate::common::{boolean_parser, spec_boolean_value};
use crate::error::PResult;
use crate::property::{
    key_eq, primitive_property, spec_key_eq, spec_primitive_property, PrimitiveType,
};
use crate::scan::{scan_class, tag, CharClass};

verus! {

/// A parsed `Boolean` property.
#[derive(Debug, PartialEq, Eq, Clone)]
pub struct BooleanProperty {
    /// The property variant's discriminator.
    pub class: String,
    /// The property's name.
    pub name: String,
    /// Whether the property may be absent.
    pub is_optional: bool,
    /// Whether the property is array-valued.
    pub is_array: bool,
    /// The default value, when declared.
    pub default_value: Option<bool>,
}

/// The mathematical value of a [`BooleanProperty`].
pub ghost struct BooleanPropertyV {
    /// The property variant's discriminator.
    pub class: Seq<char>,
    /// The property's name.
    pub name: Seq<char>,
    /// Whether the property may be absent.
    pub is_optional: bool,
    /// Whether the property is array-valued.
    pub is_array: bool,
    /// The default value, when declared.
    pub default_value: Option<bool>,
}

impl View for BooleanProperty {
    type V = BooleanPropertyV;

    open spec fn view(&self) -> BooleanPropertyV {
        BooleanPropertyV {
            class: self.class@,
            name: self.name@,
            is_optional: self.is_optional,
            is_array: self.is_array,
            default_value: self.default_value,
        }
    }
}

/// What `boolean_default_value` returns: `default=`, then `true` or
/// `false`.
pub open spec fn spec_boolean_default_value(s: Seq<char>, pos: int) -> Option<(int, bool)> {
    match spec_key_eq(s, pos, "default"@) {
        Some(p) => spec_boolean_value(s, p),
        None => None,
    }
}

/// Folds the boolean metaproperties following `p` into `acc`.
pub open spec fn spec_boolean_metas(s: Seq<char>, p: int, acc: BooleanPropertyV) -> (
    int,
    BooleanPropertyV,
)
    decreases s.len() - p,
{
    let w = crate::scan::run_end(s, p, CharClass::Space);
    if p < w <= s.len() {
        match spec_boolean_default_value(s, w) {
            Some((e, dv)) => if w < e <= s.len() {
                spec_boolean_metas(s, e, BooleanPropertyV { default_value: Some(dv), ..acc })
            } else {
                (p, acc)
            },
            None => {
                if crate::scan::tag_at(s, w, "optional"@) {
                    let e = w + "optional"@.len();
                    if w < e <= s.len() {
                        spec_boolean_metas(s, e, BooleanPropertyV { is_optional: true, ..acc })
                    } else {
                        (p, acc)
                    }
                } else {
                    (p, acc)
                }
            },
        }
    } else {
        (p, acc)
    }
}

/// The initial record for a boolean property: no metaproperties seen yet.
pub open spec fn boolean_property_init(name: Seq<char>, is_array: bool) -> BooleanPropertyV {
    BooleanPropertyV {
        class: "BooleanProperty"@,
        name,
        is_optional: false,
        is_array,
        default_value: None,
    }
}

/// What `boolean_property` returns.
pub open spec fn spec_boolean_property(s: Seq<char>, pos: int) -> Option<(int, BooleanPropertyV)> {
    match spec_primitive_property(s, pos, PrimitiveType::BooleanPropertyType) {
        Some((p, (name, is_array))) => {
            let m = spec_boolean_metas(s, p, boolean_property_init(name, is_array));
            Some((m.0, m.1))
        },
        None => None,
    }
}

/// Parses `default=` followed by a boolean literal.
pub fn boolean_default_value(input: &Vec<char>, pos: usize) -> (r: PResult<bool>)
    requires
        pos <= input@.len(),
    ensures
        r matches Ok((np, v)) ==> spec_boolean_default_value(input@, pos as int) == Some(
            (np as int, v),
        ) && pos < np <= input@.len(),
        r is Err ==> spec_boolean_default_value(input@, pos as int) is None,
        r matches Err(e) ==> e.labels@.len() >= 1,
{
    let (p, _) = match key_eq(input, pos, "default") {
        Ok(x) => x,
        Err(e) => {
            return Err(e.label("BooleanDefaultValue"));
        },
    };
    match boolean_parser(input, p) {
        Ok(x) => Ok(x),
        Err(e) => Err(e.label("BooleanDefaultValue")),
    }
}

/// Parses a whole `Boolean` property line.
pub fn boolean_property(input: &Vec<char>, pos: usize) -> (r: PResult<BooleanProperty>)
    requires
        pos <= input@.len(),
    ensures
        r matches Ok((np, v)) ==> spec_boolean_property(input@, pos as int) == Some(
            (np as int, v@),
        ) && pos <= np <= input@.len(),
        r is Err ==> spec_boolean_property(input@, pos as int) is None,
        r matches Err(e) ==> e.labels@.len() >= 1,
{
    let ghost s = input@;
    let (p, (name, is_array)) = match primitive_property(
        input,
        pos,
        PrimitiveType::BooleanPropertyType,
    ) {
        Ok(x) => x,
        Err(e) => {
            return Err(e.label("BooleanProperty"));
        },
    };
    let mut prop = BooleanProperty {
        class: String::from_str("BooleanProperty"),
        name,
        is_optional: false,
        is_array,
        default_value: None,
    };
    let ghost init = boolean_property_init(prop.name@, is_array);
    proof {
        assert(prop@ == init);
    }
    let mut i = p;
    loop
        invariant
            p <= i <= s.len(),
            s == input@,
            spec_boolean_metas(s, p as int, init) == spec_boolean_metas(s, i as int, prop@),
        ensures
            spec_boolean_metas(s, p as int, init) == (i as int, prop@),
        decreases s.len() - i,
    {
        let w = scan_class(input, i, CharClass::Space);
        if w == i {
            break ;
        }
        match boolean_default_value(input, w) {
            Ok((e, dv)) => {
                prop.default_value = Some(dv);
                i = e;
            },
            Err(_) => {
                match tag(input, w, "optional") {
                    Some(e) => {
                        proof {
                            reveal_strlit("optional");
                        }
                        prop.is_optional = true;
                        i = e;
                    },
                    None => {
                        break ;
                    },
                }
            },
        }
    }
    Ok((i, prop))
}

} // verus!
