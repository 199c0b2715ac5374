//! Concept declarations: `concept <Name> { <property lines> }`, with the
//! property alternation tried in a fixed order and declaration order
//! preserved in the resulting list.

use vstd::prelude::*;

use crate::boolean_property::{boolean_property, spec_boolean_property, BooleanProperty,
    BooleanPropertyV};
use crate::common::{spec_token, token};
use crate::datetime_property::{datetime_property, spec_datetime_property, DateTimeProperty,
    DateTimePropertyV};
use crate::double_property::{double_property, spec_double_property, DoubleProperty,
    DoublePropertyV};
use crate::error::{CError, CErrorKind, PResult};
use crate::integer_property::{integer_property, spec_integer_property, IntegerProperty,
    IntegerPropertyV};
use crate::long_property::{long_property, spec_long_property, LongProperty, LongPropertyV};
use crate::property::{concept_property, spec_concept_property, PropertyV};
use crate::scan::{char_at, run_end, scan_class, tag, tag_at, CharClass};
use crate::string_property::{spec_string_property, string_property, StringProperty,
    StringPropertyV};

verus! {

/// One property of a declaration, one case per primitive type plus the
/// reference case.
#[derive(Debug, PartialEq, Clone)]
pub enum Property {
    /// A `Boolean` property.
    Boolean(BooleanProperty),
    /// An `Integer` property.
    Integer(IntegerProperty),
    /// A `Long` property.
    Long(LongProperty),
    /// A `Double` property.
    Double(DoubleProperty),
    /// A `DateTime` property.
    DateTime(DateTimeProperty),
    /// A `String` property.
    String(StringProperty),
    /// A property typed by another declared or imported concept.
    Imported(crate::property::Property),
}

/// The mathematical value of a declaration [`Property`].
pub ghost enum DeclPropertyV {
    /// A `Boolean` property.
    Boolean(BooleanPropertyV),
    /// An `Integer` property.
    Integer(IntegerPropertyV),
    /// A `Long` property.
    Long(LongPropertyV),
    /// A `Double` property.
    Double(DoublePropertyV),
    /// A `DateTime` property.
    DateTime(DateTimePropertyV),
    /// A `String` property.
    String(StringPropertyV),
    /// A reference property.
    Imported(PropertyV),
}

impl View for Property {
    type V = DeclPropertyV;

    open spec fn view(&self) -> DeclPropertyV {
        match self {
            Property::Boolean(p) => DeclPropertyV::Boolean(p@),
            Property::Integer(p) => DeclPropertyV::Integer(p@),
            Property::Long(p) => DeclPropertyV::Long(p@),
            Property::Double(p) => DeclPropertyV::Double(p@),
            Property::DateTime(p) => DeclPropertyV::DateTime(p@),
            Property::String(p) => DeclPropertyV::String(p@),
            Property::Imported(p) => DeclPropertyV::Imported(p@),
        }
    }
}

/// A concept declaration: its name and its properties, in source order.
#[derive(Debug, PartialEq, Clone)]
pub struct Declaration {
    /// The concept's name.
    pub name: String,
    /// The properties, in the order they were declared.
    pub properties: Vec<Property>,
}

/// The mathematical value of a [`Declaration`].
pub ghost struct DeclarationV {
    /// The concept's name.
    pub name: Seq<char>,
    /// The properties, in the order they were declared.
    pub properties: Seq<DeclPropertyV>,
}

/// The view of each property in a list.
pub open spec fn props_view(props: Seq<Property>) -> Seq<DeclPropertyV> {
    props.map_values(|p: Property| p@)
}

impl View for Declaration {
    type V = DeclarationV;

    open spec fn view(&self) -> DeclarationV {
        DeclarationV { name: self.name@, properties: props_view(self.properties@) }
    }
}

/// What a property line denotes: the alternatives are tried in the order
/// string, boolean, integer, long, date-time, double, then reference, and
/// the first to match wins.
pub open spec fn spec_property_alt(s: Seq<char>, pos: int) -> Option<(int, DeclPropertyV)> {
    if spec_string_property(s, pos) is Some {
        match spec_string_property(s, pos) {
            Some((e, p)) => Some((e, DeclPropertyV::String(p))),
            None => None,
        }
    } else if spec_boolean_property(s, pos) is Some {
        match spec_boolean_property(s, pos) {
            Some((e, p)) => Some((e, DeclPropertyV::Boolean(p))),
            None => None,
        }
    } else if spec_integer_property(s, pos) is Some {
        match spec_integer_property(s, pos) {
            Some((e, p)) => Some((e, DeclPropertyV::Integer(p))),
            None => None,
        }
    } else if spec_long_property(s, pos) is Some {
        match spec_long_property(s, pos) {
            Some((e, p)) => Some((e, DeclPropertyV::Long(p))),
            None => None,
        }
    } else if spec_datetime_property(s, pos) is Some {
        match spec_datetime_property(s, pos) {
            Some((e, p)) => Some((e, DeclPropertyV::DateTime(p))),
            None => None,
        }
    } else if spec_double_property(s, pos) is Some {
        match spec_double_property(s, pos) {
            Some((e, p)) => Some((e, DeclPropertyV::Double(p))),
            None => None,
        }
    } else {
        match spec_concept_property(s, pos) {
            Some((e, p)) => Some((e, DeclPropertyV::Imported(p))),
            None => None,
        }
    }
}

/// End of a line terminator at `p`: `\n` or `\r\n`.
pub open spec fn spec_line_ending(s: Seq<char>, p: int) -> Option<int> {
    if p < s.len() && s[p] == '\n' {
        Some(p + 1)
    } else if p + 1 < s.len() && s[p] == '\r' && s[p + 1] == '\n' {
        Some(p + 2)
    } else {
        None
    }
}

/// Folds property lines into `acc`: each line is optional whitespace, one
/// property, optional whitespace and a line terminator, repeated until a
/// line fails to parse.
pub open spec fn spec_properties(s: Seq<char>, p: int, acc: Seq<DeclPropertyV>) -> (
    int,
    Seq<DeclPropertyV>,
)
    decreases s.len() - p,
{
    let a = run_end(s, p, CharClass::Space);
    match spec_property_alt(s, a) {
        Some((pp, prop)) => {
            let t = run_end(s, pp, CharClass::Space);
            match spec_line_ending(s, t) {
                Some(le) => if p < le <= s.len() {
                    spec_properties(s, le, acc.push(prop))
                } else {
                    (p, acc)
                },
                None => (p, acc),
            }
        },
        None => (p, acc),
    }
}

/// Law: a declaration's properties keep their source order.  Folding
/// further property lines only extends the accumulated list on the right;
/// nothing already parsed is reordered or dropped.
pub proof fn lemma_properties_preserve_order(s: Seq<char>, p: int, acc: Seq<DeclPropertyV>)
    ensures
        ({
            let r = spec_properties(s, p, acc);
            &&& r.1.len() >= acc.len()
            &&& forall|k: int| 0 <= k < acc.len() ==> r.1[k] == acc[k]
        }),
    decreases s.len() - p,
{
    let a = run_end(s, p, CharClass::Space);
    match spec_property_alt(s, a) {
        Some((pp, prop)) => {
            let t = run_end(s, pp, CharClass::Space);
            match spec_line_ending(s, t) {
                Some(le) => {
                    if p < le <= s.len() {
                        lemma_properties_preserve_order(s, le, acc.push(prop));
                        let r = spec_properties(s, p, acc);
                        assert forall|k: int| 0 <= k < acc.len() implies r.1[k] == acc[k] by {
                            assert(acc.push(prop)[k] == acc[k]);
                        }
                    }
                },
                None => {},
            }
        },
        None => {},
    }
}

/// The body of a declaration without properties: `{`, any whitespace, `}`.
pub open spec fn spec_no_props_body(s: Seq<char>, b: int) -> Option<int> {
    let m = run_end(s, b + 1, CharClass::MultiSpace);
    if m < s.len() && s[m] == '}' {
        Some(m + 1)
    } else {
        None
    }
}

/// What `declaration` returns: the `concept` keyword, the name, and a
/// braced body that is either a newline-led list of property lines or
/// only whitespace.
pub open spec fn spec_declaration(s: Seq<char>, pos: int) -> Option<(int, DeclarationV)> {
    if tag_at(s, pos, "concept"@) {
        let k = pos + "concept"@.len();
        let w = run_end(s, k, CharClass::Space);
        if w > k {
            match spec_token(s, w) {
                Some((pn, name)) => {
                    let b = run_end(s, pn, CharClass::Space);
                    if b < s.len() && s[b] == '{' {
                        let a = run_end(s, b + 1, CharClass::Space);
                        match spec_line_ending(s, a) {
                            Some(le) => {
                                let r = spec_properties(s, le, Seq::empty());
                                let m = run_end(s, r.0, CharClass::MultiSpace);
                                if m < s.len() && s[m] == '}' {
                                    Some((m + 1, DeclarationV { name, properties: r.1 }))
                                } else {
                                    match spec_no_props_body(s, b) {
                                        Some(e) => Some(
                                            (e, DeclarationV { name, properties: Seq::empty() }),
                                        ),
                                        None => None,
                                    }
                                }
                            },
                            None => {
                                match spec_no_props_body(s, b) {
                                    Some(e) => Some(
                                        (e, DeclarationV { name, properties: Seq::empty() }),
                                    ),
                                    None => None,
                                }
                            },
                        }
                    } else {
                        None
                    }
                },
                None => None,
            }
        } else {
            None
        }
    } else {
        None
    }
}

/// Parses one property line's property, trying the alternatives in the
/// grammar's order.
fn property_alt(input: &Vec<char>, pos: usize) -> (r: PResult<Property>)
    requires
        pos <= input@.len(),
    ensures
        r matches Ok((np, v)) ==> spec_property_alt(input@, pos as int) == Some((np as int, v@))
            && pos <= np <= input@.len(),
        r is Err ==> spec_property_alt(input@, pos as int) is None,
        r matches Err(e) ==> e.labels@.len() >= 1,
{
    let err = match string_property(input, pos) {
        Ok((e, p)) => {
            return Ok((e, Property::String(p)));
        },
        Err(e) => e,
    };
    let err = match boolean_property(input, pos) {
        Ok((e, p)) => {
            return Ok((e, Property::Boolean(p)));
        },
        Err(e) => err.deeper(e),
    };
    let err = match integer_property(input, pos) {
        Ok((e, p)) => {
            return Ok((e, Property::Integer(p)));
        },
        Err(e) => err.deeper(e),
    };
    let err = match long_property(input, pos) {
        Ok((e, p)) => {
            return Ok((e, Property::Long(p)));
        },
        Err(e) => err.deeper(e),
    };
    let err = match datetime_property(input, pos) {
        Ok((e, p)) => {
            return Ok((e, Property::DateTime(p)));
        },
        Err(e) => err.deeper(e),
    };
    let err = match double_property(input, pos) {
        Ok((e, p)) => {
            return Ok((e, Property::Double(p)));
        },
        Err(e) => err.deeper(e),
    };
    match concept_property(input, pos) {
        Ok((e, p)) => Ok((e, Property::Imported(p))),
        Err(e) => Err(err.deeper(e)),
    }
}

/// Scans a line terminator.
fn line_ending(input: &Vec<char>, p: usize) -> (r: Option<usize>)
    requires
        p <= input@.len(),
    ensures
        r matches Some(np) ==> spec_line_ending(input@, p as int) == Some(np as int) && p < np
            <= input@.len(),
        r is None ==> spec_line_ending(input@, p as int) is None,
{
    if char_at(input, p, '\n') {
        Some(p + 1)
    } else if char_at(input, p, '\r') && char_at(input, p + 1, '\n') {
        Some(p + 2)
    } else {
        None
    }
}

/// Parses the whitespace-only declaration body from its opening brace.
fn no_props_body(input: &Vec<char>, b: usize) -> (r: Option<usize>)
    requires
        b < input@.len(),
    ensures
        r matches Some(np) ==> spec_no_props_body(input@, b as int) == Some(np as int) && b < np
            <= input@.len(),
        r is None ==> spec_no_props_body(input@, b as int) is None,
{
    let n = input.len();
    assert(b < n);
    let m = scan_class(input, b + 1, CharClass::MultiSpace);
    if char_at(input, m, '}') {
        Some(m + 1)
    } else {
        None
    }
}

/// Parses a concept declaration, preserving the order of its properties.
pub fn declaration(input: &Vec<char>, pos: usize) -> (r: PResult<Declaration>)
    requires
        pos <= input@.len(),
    ensures
        r matches Ok((np, v)) ==> spec_declaration(input@, pos as int) == Some((np as int, v@))
            && pos < np <= input@.len(),
        r is Err ==> spec_declaration(input@, pos as int) is None,
        r matches Err(e) ==> e.labels@.len() >= 1,
{
    let ghost s = input@;
    let k = match tag(input, pos, "concept") {
        Some(k) => k,
        None => {
            return Err(CError::new(CErrorKind::ExpectedLiteral, pos).label("Declaration"));
        },
    };
    let w = scan_class(input, k, CharClass::Space);
    if w == k {
        return Err(CError::new(CErrorKind::ExpectedCharClass, k).label("Declaration"));
    }
    let (pn, name) = match token(input, w) {
        Ok(x) => x,
        Err(e) => {
            return Err(e.label("Declaration"));
        },
    };
    let b = scan_class(input, pn, CharClass::Space);
    if !char_at(input, b, '{') {
        return Err(CError::new(CErrorKind::ExpectedLiteral, b).label("Declaration"));
    }
    let a = scan_class(input, b + 1, CharClass::Space);
    let le0 = match line_ending(input, a) {
        Some(le) => le,
        None => {
            match no_props_body(input, b) {
                Some(e) => {
                    proof {
                        assert(props_view(Seq::<Property>::empty()) =~= Seq::<
                            DeclPropertyV,
                        >::empty());
                    }
                    return Ok((e, Declaration { name, properties: Vec::new() }));
                },
                None => {
                    return Err(CError::new(CErrorKind::ExpectedLiteral, b).label("Declaration"));
                },
            }
        },
    };
    let mut properties: Vec<Property> = Vec::new();
    let mut i = le0;
    proof {
        assert(props_view(properties@) =~= Seq::<DeclPropertyV>::empty());
    }
    loop
        invariant
            le0 <= i <= s.len(),
            s == input@,
            spec_properties(s, le0 as int, Seq::empty()) == spec_properties(
                s,
                i as int,
                props_view(properties@),
            ),
        ensures
            spec_properties(s, le0 as int, Seq::empty()) == (i as int, props_view(properties@)),
        decreases s.len() - i,
    {
        let ghost acc0 = props_view(properties@);
        let a2 = scan_class(input, i, CharClass::Space);
        match property_alt(input, a2) {
            Ok((pp, prop)) => {
                let t = scan_class(input, pp, CharClass::Space);
                match line_ending(input, t) {
                    Some(le) => {
                        proof {
                            assert(props_view(properties@.push(prop)) =~= acc0.push(prop@));
                        }
                        properties.push(prop);
                        i = le;
                    },
                    None => {
                        break ;
                    },
                }
            },
            Err(_) => {
                break ;
            },
        }
    }
    let m = scan_class(input, i, CharClass::MultiSpace);
    if char_at(input, m, '}') {
        Ok((m + 1, Declaration { name, properties }))
    } else {
        match no_props_body(input, b) {
            Some(e) => {
                proof {
                    assert(props_view(Seq::<Property>::empty()) =~= Seq::<DeclPropertyV>::empty());
                }
                Ok((e, Declaration { name, properties: Vec::new() }))
            },
            None => Err(CError::new(CErrorKind::ExpectedLiteral, m).label("Declaration")),
        }
    }
}

} // verus!
