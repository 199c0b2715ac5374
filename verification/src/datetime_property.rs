//! `DateTime` properties: `o DateTime [[]] <name>` with `default=` and
//! `optional` metaproperties; the default is the date-time literal's text,
//! kept verbatim.

use vstd::prelude::*;

use crate::datetime::{datetime_value, spec_datetime_value};
use crate::error::PResult;
use crate::property::{
    key_eq, primitive_property, spec_key_eq, spec_primitive_property, PrimitiveType,
};
use crate::scan::{scan_class, tag, CharClass};

verus! {

/// A parsed `DateTime` property.
#[derive(Debug, PartialEq, Eq, Clone)]
pub struct DateTimeProperty {
    /// The property variant's discriminator.
    pub class: String,
    /// The property's name.
    pub name: String,
    /// Whether the property may be absent.
    pub is_optional: bool,
    /// Whether the property is array-valued.
    pub is_array: bool,
    /// The default value's literal text, when declared.
    pub default_value: Option<String>,
}

/// The mathematical value of a [`DateTimeProperty`].
pub ghost struct DateTimePropertyV {
    /// The property variant's discriminator.
    pub class: Seq<char>,
    /// The property's name.
    pub name: Seq<char>,
    /// Whether the property may be absent.
    pub is_optional: bool,
    /// Whether the property is array-valued.
    pub is_array: bool,
    /// The default value's literal text, when declared.
    pub default_value: Option<Seq<char>>,
}

impl View for DateTimeProperty {
    type V = DateTimePropertyV;

    open spec fn view(&self) -> DateTimePropertyV {
        DateTimePropertyV {
            class: self.class@,
            name: self.name@,
            is_optional: self.is_optional,
            is_array: self.is_array,
            default_value: match self.default_value {
                Some(d) => Some(d@),
                None => None,
            },
        }
    }
}

/// What `datetime_default_value` returns: `default=`, then a date-time
/// literal, kept verbatim.
pub open spec fn spec_datetime_default_value(s: Seq<char>, pos: int) -> Option<(int, Seq<char>)> {
    match spec_key_eq(s, pos, "default"@) {
        Some(p) => spec_datetime_value(s, p),
        None => None,
    }
}

/// Folds the date-time metaproperties following `p` into `acc`.
pub open spec fn spec_datetime_metas(s: Seq<char>, p: int, acc: DateTimePropertyV) -> (
    int,
    DateTimePropertyV,
)
    decreases s.len() - p,
{
    let w = crate::scan::run_end(s, p, CharClass::Space);
    if p < w <= s.len() {
        match spec_datetime_default_value(s, w) {
            Some((e, dv)) => if w < e <= s.len() {
                spec_datetime_metas(s, e, DateTimePropertyV { default_value: Some(dv), ..acc })
            } else {
                (p, acc)
            },
            None => {
                if crate::scan::tag_at(s, w, "optional"@) {
                    let e = w + "optional"@.len();
                    if w < e <= s.len() {
                        spec_datetime_metas(s, e, DateTimePropertyV { is_optional: true, ..acc })
                    } else {
                        (p, acc)
                    }
                } else {
                    (p, acc)
                }
            },
        }
    } else {
        (p, acc)
    }
}

/// The initial record for a date-time property: no metaproperties yet.
pub open spec fn datetime_property_init(name: Seq<char>, is_array: bool) -> DateTimePropertyV {
    DateTimePropertyV {
        class: "DateTimeProperty"@,
        name,
        is_optional: false,
        is_array,
        default_value: None,
    }
}

/// What `datetime_property` returns.
pub open spec fn spec_datetime_property(s: Seq<char>, pos: int) -> Option<
    (int, DateTimePropertyV),
> {
    match spec_primitive_property(s, pos, PrimitiveType::DateTimePropertyType) {
        Some((p, (name, is_array))) => {
            let m = spec_datetime_metas(s, p, datetime_property_init(name, is_array));
            Some((m.0, m.1))
        },
        None => None,
    }
}

/// Parses `default=` followed by a date-time literal.
pub fn datetime_default_value(input: &Vec<char>, pos: usize) -> (r: PResult<String>)
    requires
        pos <= input@.len(),
    ensures
        r matches Ok((np, v)) ==> spec_datetime_default_value(input@, pos as int) == Some(
            (np as int, v@),
        ) && pos < np <= input@.len(),
        r is Err ==> spec_datetime_default_value(input@, pos as int) is None,
        r matches Err(e) ==> e.labels@.len() >= 1,
{
    let (p, _) = match key_eq(input, pos, "default") {
        Ok(x) => x,
        Err(e) => {
            return Err(e.label("DateTimeDefaultValue"));
        },
    };
    match datetime_value(input, p) {
        Ok(x) => Ok(x),
        Err(e) => Err(e.label("DateTimeDefaultValue")),
    }
}

/// Parses a whole `DateTime` property line.
pub fn datetime_property(input: &Vec<char>, pos: usize) -> (r: PResult<DateTimeProperty>)
    requires
        pos <= input@.len(),
    ensures
        r matches Ok((np, v)) ==> spec_datetime_property(input@, pos as int) == Some(
            (np as int, v@),
        ) && pos <= np <= input@.len(),
        r is Err ==> spec_datetime_property(input@, pos as int) is None,
        r matches Err(e) ==> e.labels@.len() >= 1,
{
    let ghost s = input@;
    let (p, (name, is_array)) = match primitive_property(
        input,
        pos,
        PrimitiveType::DateTimePropertyType,
    ) {
        Ok(x) => x,
        Err(e) => {
            return Err(e.label("DateTimeProperty"));
        },
    };
    let mut prop = DateTimeProperty {
        class: String::from_str("DateTimeProperty"),
        name,
        is_optional: false,
        is_array,
        default_value: None,
    };
    let ghost init = datetime_property_init(prop.name@, is_array);
    proof {
        assert(prop@ == init);
    }
    let mut i = p;
    loop
        invariant
            p <= i <= s.len(),
            s == input@,
            spec_datetime_metas(s, p as int, init) == spec_datetime_metas(s, i as int, prop@),
        ensures
            spec_datetime_metas(s, p as int, init) == (i as int, prop@),
        decreases s.len() - i,
    {
        let w = scan_class(input, i, CharClass::Space);
        if w == i {
            break ;
        }
        match datetime_default_value(input, w) {
            Ok((e, dv)) => {
                prop.default_value = Some(dv);
                i = e;
            },
            Err(_) => {
                match tag(input, w, "optional") {
                    Some(e) => {
                        proof {
                            reveal_strlit("optional");
                        }
                        prop.is_optional = true;
                        i = e;
                    },
                    None => {
                        break ;
                    },
                }
            },
        }
    }
    Ok((i, prop))
}

} // verus!
