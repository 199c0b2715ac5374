use concerto::boolean_property::{boolean_property, BooleanProperty};
use concerto::datetime_property::{datetime_property, DateTimeProperty};
use concerto::double_property::{double_property, DoubleDomainValidator, DoubleProperty};
use concerto::integer_property::{integer_property, IntegerDomainValidator, IntegerProperty};
use concerto::long_property::{long_property, LongDomainValidator, LongProperty};
use concerto::property::concept_property;
use concerto::string_property::{string_property, StringLengthValidator, StringProperty,
    StringRegexValidator};

fn chars(s: &str) -> Vec<char> {
    s.chars().collect()
}

fn rest(v: &[char], np: usize) -> String {
    v[np..].iter().collect()
}

#[test]
fn test_string_property() {
    let v = chars("o String foo");
    assert_eq!(
        string_property(&v, 0),
        Ok((v.len(), StringProperty {
            class: String::from("StringProperty"),
            name: String::from("foo"),
            default_value: None,
            regex_validator: None,
            length_validator: None,
            is_optional: false,
            is_array: false,
        })),
        "Should parse string with no meta properties"
    );

    let v = chars("o String foo optional");
    assert_eq!(
        string_property(&v, 0),
        Ok((v.len(), StringProperty {
            class: String::from("StringProperty"),
            name: String::from("foo"),
            default_value: None,
            regex_validator: None,
            length_validator: None,
            is_optional: true,
            is_array: false,
        })),
        "Should parse string with optional flag"
    );

    let v = chars("o String baz default=\"Hello World\"");
    assert_eq!(
        string_property(&v, 0),
        Ok((v.len(), StringProperty {
            class: String::from("StringProperty"),
            name: String::from("baz"),
            default_value: Some(String::from("Hello World")),
            regex_validator: None,
            length_validator: None,
            is_optional: false,
            is_array: false,
        })),
        "Should parse string with default value only"
    );

    let v = chars("o String baz   regex = /abc.*/");
    assert_eq!(
        string_property(&v, 0),
        Ok((v.len(), StringProperty {
            class: String::from("StringProperty"),
            name: String::from("baz"),
            default_value: None,
            regex_validator: Some(StringRegexValidator { pattern: String::from("abc.*"), flags: String::from("") }),
            length_validator: None,
            is_optional: false,
            is_array: false,
        })),
        "Should parse string with regex value only"
    );

    let v = chars("o String []   baz   regex = /abc.*/");
    assert_eq!(
        string_property(&v, 0),
        Ok((v.len(), StringProperty {
            class: String::from("StringProperty"),
            name: String::from("baz"),
            default_value: None,
            regex_validator: Some(StringRegexValidator { pattern: String::from("abc.*"), flags: String::from("") }),
            length_validator: None,
            is_optional: false,
            is_array: true,
        })),
        "Should parse string with array flag"
    );

    let v = chars("o String baz    length   = [ 0 , 10  ]");
    assert_eq!(
        string_property(&v, 0),
        Ok((v.len(), StringProperty {
            class: String::from("StringProperty"),
            name: String::from("baz"),
            default_value: None,
            regex_validator: None,
            length_validator: Some(StringLengthValidator { min_length: Some(0), max_length: Some(10) }),
            is_optional: false,
            is_array: false,
        })),
        "Should parse string with length only"
    );

    let v = chars("o String baz regex  =\t/abc.*/ \tdefault  =   \"Hello World\"    length=[,100]");
    assert_eq!(
        string_property(&v, 0),
        Ok((v.len(), StringProperty {
            class: String::from("StringProperty"),
            name: String::from("baz"),
            default_value: Some(String::from("Hello World")),
            regex_validator: Some(StringRegexValidator { pattern: String::from("abc.*"), flags: String::from("") }),
            length_validator: Some(StringLengthValidator { min_length: None, max_length: Some(100) }),
            is_optional: false,
            is_array: false,
        })),
        "Should parse string with both default and regex and length"
    );

    let v = chars("o String baz regex  =\t/abc.*/ length=[,  100 ] \tdefault  =   \"Hello World\"");
    assert_eq!(
        string_property(&v, 0),
        Ok((v.len(), StringProperty {
            class: String::from("StringProperty"),
            name: String::from("baz"),
            default_value: Some(String::from("Hello World")),
            regex_validator: Some(StringRegexValidator { pattern: String::from("abc.*"), flags: String::from("") }),
            length_validator: Some(StringLengthValidator { min_length: None, max_length: Some(100) }),
            is_optional: false,
            is_array: false,
        })),
        "Should parse string with both default and regex and length in a different order"
    );
}

#[test]
fn test_string_property_length_bounds() {
    // a string property with only a length validator keeps both bounds
    let v = chars("o String baz length=[0, 10]");
    let (np, p) = string_property(&v, 0).unwrap();
    assert_eq!(np, v.len());
    assert_eq!(p.name, "baz");
    assert_eq!(p.default_value, None);
    assert_eq!(p.regex_validator, None);
    assert_eq!(p.length_validator, Some(StringLengthValidator { min_length: Some(0), max_length: Some(10) }));
}

#[test]
fn test_boolean_property() {
    let v = chars("o Boolean foo");
    assert_eq!(
        boolean_property(&v, 0),
        Ok((v.len(), BooleanProperty {
            name: String::from("foo"),
            class: String::from("BooleanProperty"),
            default_value: None,
            is_optional: false,
            is_array: false,
        })),
        "Should parse boolean with no meta properties"
    );

    let v = chars("o Boolean[] foo");
    assert_eq!(
        boolean_property(&v, 0),
        Ok((v.len(), BooleanProperty {
            name: String::from("foo"),
            class: String::from("BooleanProperty"),
            default_value: None,
            is_optional: false,
            is_array: true,
        })),
        "Should parse boolean with array flag"
    );

    let v = chars("o Boolean baz default=false");
    assert_eq!(
        boolean_property(&v, 0),
        Ok((v.len(), BooleanProperty {
            name: String::from("baz"),
            class: String::from("BooleanProperty"),
            default_value: Some(false),
            is_optional: false,
            is_array: false,
        })),
        "Should parse boolean with false default value"
    );

    let v = chars("o Boolean baz default=true");
    assert_eq!(
        boolean_property(&v, 0),
        Ok((v.len(), BooleanProperty {
            name: String::from("baz"),
            class: String::from("BooleanProperty"),
            default_value: Some(true),
            is_optional: false,
            is_array: false,
        })),
        "Should parse boolean with true default value"
    );

    let v = chars("o Boolean baz optional default=true");
    assert_eq!(
        boolean_property(&v, 0),
        Ok((v.len(), BooleanProperty {
            name: String::from("baz"),
            class: String::from("BooleanProperty"),
            default_value: Some(true),
            is_optional: true,
            is_array: false,
        })),
        "Should parse boolean with optional flag"
    );

    let v = chars("o Boolean baz default=42");
    let (np, p) = boolean_property(&v, 0).unwrap();
    assert_eq!(rest(&v, np), " default=42", "Should not parse boolean with wrong default value");
    assert_eq!(
        p,
        BooleanProperty {
            name: String::from("baz"),
            class: String::from("BooleanProperty"),
            default_value: None,
            is_optional: false,
            is_array: false,
        }
    );
}

#[test]
fn test_integer_property() {
    let v = chars("o Integer foo");
    assert_eq!(
        integer_property(&v, 0),
        Ok((v.len(), IntegerProperty {
            name: String::from("foo"),
            default_value: None,
            domain_validator: None,
            is_optional: false,
            is_array: false,
        })),
        "Should parse integer with no meta properties"
    );

    let v = chars("o Integer baz default=42");
    assert_eq!(
        integer_property(&v, 0),
        Ok((v.len(), IntegerProperty {
            name: String::from("baz"),
            default_value: Some(42),
            domain_validator: None,
            is_optional: false,
            is_array: false,
        })),
        "Should parse integer with default value only"
    );

    let v = chars("o Integer baz    range   = [ 0 , 10  ]");
    assert_eq!(
        integer_property(&v, 0),
        Ok((v.len(), IntegerProperty {
            name: String::from("baz"),
            default_value: None,
            domain_validator: Some(IntegerDomainValidator { lower: Some(0), upper: Some(10) }),
            is_optional: false,
            is_array: false,
        })),
        "Should parse integer with range only"
    );

    let v = chars("o Integer baz    range   = [ 0 , 10  ] optional");
    assert_eq!(
        integer_property(&v, 0),
        Ok((v.len(), IntegerProperty {
            name: String::from("baz"),
            default_value: None,
            domain_validator: Some(IntegerDomainValidator { lower: Some(0), upper: Some(10) }),
            is_optional: true,
            is_array: false,
        })),
        "Should parse integer with optional flag"
    );

    let v = chars("o Integer baz \tdefault  =   -42    range=[,100]");
    assert_eq!(
        integer_property(&v, 0),
        Ok((v.len(), IntegerProperty {
            name: String::from("baz"),
            default_value: Some(-42),
            domain_validator: Some(IntegerDomainValidator { lower: None, upper: Some(100) }),
            is_optional: false,
            is_array: false,
        })),
        "Should parse integer with both default and range"
    );

    let v = chars("o Integer baz \trange=[,  100 ] \tdefault  =   42");
    assert_eq!(
        integer_property(&v, 0),
        Ok((v.len(), IntegerProperty {
            name: String::from("baz"),
            default_value: Some(42),
            domain_validator: Some(IntegerDomainValidator { lower: None, upper: Some(100) }),
            is_optional: false,
            is_array: false,
        })),
        "Should parse integer with both default and range in a different order"
    );
}

#[test]
fn test_long_property() {
    let v = chars("o Long foo");
    assert_eq!(
        long_property(&v, 0),
        Ok((v.len(), LongProperty {
            name: String::from("foo"),
            default_value: None,
            domain_validator: None,
            is_optional: false,
            is_array: false,
        })),
        "Should parse long with no meta properties"
    );

    let v = chars("o Long baz default=42");
    assert_eq!(
        long_property(&v, 0),
        Ok((v.len(), LongProperty {
            name: String::from("baz"),
            default_value: Some(42),
            domain_validator: None,
            is_optional: false,
            is_array: false,
        })),
        "Should parse long with default value only"
    );

    let v = chars("o Long baz    range   = [ 0 , 10  ]");
    assert_eq!(
        long_property(&v, 0),
        Ok((v.len(), LongProperty {
            name: String::from("baz"),
            default_value: None,
            domain_validator: Some(LongDomainValidator { lower: Some(0), upper: Some(10) }),
            is_optional: false,
            is_array: false,
        })),
        "Should parse long with range only"
    );

    let v = chars("o Long baz \tdefault  =   -42    range=[,100]");
    assert_eq!(
        long_property(&v, 0),
        Ok((v.len(), LongProperty {
            name: String::from("baz"),
            default_value: Some(-42),
            domain_validator: Some(LongDomainValidator { lower: None, upper: Some(100) }),
            is_optional: false,
            is_array: false,
        })),
        "Should parse long with both default and range"
    );

    let v = chars("o Long baz \trange=[,  100 ] \tdefault  =   42");
    assert_eq!(
        long_property(&v, 0),
        Ok((v.len(), LongProperty {
            name: String::from("baz"),
            default_value: Some(42),
            domain_validator: Some(LongDomainValidator { lower: None, upper: Some(100) }),
            is_optional: false,
            is_array: false,
        })),
        "Should parse long with both default and range in a different order"
    );
}

fn parsed_double(lit: &Option<String>) -> Option<f64> {
    lit.as_ref().map(|s| s.parse::<f64>().unwrap())
}

fn parsed_range(dv: &Option<DoubleDomainValidator>) -> Option<(Option<f64>, Option<f64>)> {
    dv.as_ref().map(|r| (
        r.lower.as_ref().map(|s| s.parse::<f64>().unwrap()),
        r.upper.as_ref().map(|s| s.parse::<f64>().unwrap()),
    ))
}

#[test]
fn test_double_property() {
    let v = chars("o Double foo");
    let (np, p) = double_property(&v, 0).unwrap();
    assert_eq!(np, v.len(), "Should parse double with no meta properties");
    assert_eq!(p.class, "DoubleProperty");
    assert_eq!(p.name, "foo");
    assert_eq!(p.default_value, None);
    assert_eq!(p.domain_validator, None);
    assert!(!p.is_optional && !p.is_array);

    let v = chars("o Double foo optional");
    let (np, p) = double_property(&v, 0).unwrap();
    assert_eq!(np, v.len(), "Should parse double with optional flag");
    assert!(p.is_optional && !p.is_array);

    let v = chars("o Double baz default=42.0");
    let (np, p) = double_property(&v, 0).unwrap();
    assert_eq!(np, v.len(), "Should parse double with default value only");
    assert_eq!(parsed_double(&p.default_value), Some(42.0));
    assert_eq!(p.domain_validator, None);

    let v = chars("o Double baz    range   = [ 0.0 , 10.0  ]");
    let (np, p) = double_property(&v, 0).unwrap();
    assert_eq!(np, v.len(), "Should parse double with range only");
    assert_eq!(parsed_range(&p.domain_validator), Some((Some(0.0), Some(10.0))));

    let v = chars("o Double baz \tdefault  =   -42.0e3    range=[,100.4]");
    let (np, p) = double_property(&v, 0).unwrap();
    assert_eq!(np, v.len(), "Should parse double with both default and range");
    assert_eq!(parsed_double(&p.default_value), Some(-42.0e3));
    assert_eq!(parsed_range(&p.domain_validator), Some((None, Some(100.4))));

    let v = chars("o Double baz \tdefault  =   -42.0e3 optional\t\t  range=[,100.4]");
    let (np, p) = double_property(&v, 0).unwrap();
    assert_eq!(np, v.len(), "Should parse double with both default and range and with optional flag");
    assert_eq!(parsed_double(&p.default_value), Some(-42.0e3));
    assert_eq!(parsed_range(&p.domain_validator), Some((None, Some(100.4))));
    assert!(p.is_optional);

    let v = chars("o Double baz \trange=[,  100.0 ] \tdefault  =   42.5e-3");
    let (np, p) = double_property(&v, 0).unwrap();
    assert_eq!(np, v.len(), "Should parse double with both default and range in a different order");
    assert_eq!(parsed_double(&p.default_value), Some(42.5e-3));
    assert_eq!(parsed_range(&p.domain_validator), Some((None, Some(100.0))));

    let v = chars("o Double [  ] baz \trange=[,  100.0 ] \tdefault  =   42.5e-3");
    let (np, p) = double_property(&v, 0).unwrap();
    assert_eq!(np, v.len(), "Should parse double with array flag");
    assert!(p.is_array);
}

#[test]
fn test_double_property_metaproperty_order() {
    // the range-before-default order gives the same result as the reverse
    let v = chars("o Double baz range=[,100.4] default=-42.0e3");
    let (np, p) = double_property(&v, 0).unwrap();
    assert_eq!(np, v.len());
    assert_eq!(parsed_double(&p.default_value), Some(-42.0e3));
    assert_eq!(parsed_range(&p.domain_validator), Some((None, Some(100.4))));
    // all six orders of three distinct metaproperties agree
    let reference = double_property(&chars("o Double baz default=-42.0e3 range=[,100.4] optional"), 0).unwrap().1;
    for text in [
        "o Double baz default=-42.0e3 optional range=[,100.4]",
        "o Double baz range=[,100.4] default=-42.0e3 optional",
        "o Double baz range=[,100.4] optional default=-42.0e3",
        "o Double baz optional default=-42.0e3 range=[,100.4]",
        "o Double baz optional range=[,100.4] default=-42.0e3",
    ] {
        let w = chars(text);
        let (np2, q) = double_property(&w, 0).unwrap();
        assert_eq!(np2, w.len());
        assert_eq!(q, reference);
    }
}

#[test]
fn test_datetime_property() {
    let v = chars("o DateTime foo");
    assert_eq!(
        datetime_property(&v, 0),
        Ok((v.len(), DateTimeProperty {
            name: String::from("foo"),
            class: String::from("DateTimeProperty"),
            default_value: None,
            is_optional: false,
            is_array: false,
        })),
        "Should parse datetime with no meta properties"
    );

    let v = chars("o DateTime baz default=2024-01-04T18:39:55+02:30");
    assert_eq!(
        datetime_property(&v, 0),
        Ok((v.len(), DateTimeProperty {
            name: String::from("baz"),
            class: String::from("DateTimeProperty"),
            default_value: Some(String::from("2024-01-04T18:39:55+02:30")),
            is_optional: false,
            is_array: false,
        })),
        "Should parse datetime with default value"
    );

    let v = chars("o DateTime baz default=2024-01-04T18:39:55+02:30 optional");
    assert_eq!(
        datetime_property(&v, 0),
        Ok((v.len(), DateTimeProperty {
            name: String::from("baz"),
            class: String::from("DateTimeProperty"),
            default_value: Some(String::from("2024-01-04T18:39:55+02:30")),
            is_optional: true,
            is_array: false,
        })),
        "Should parse datetime with optional flag"
    );

    let v = chars("o DateTime[] baz default=2024-01-04T18:39:55+02:30 optional");
    assert_eq!(
        datetime_property(&v, 0),
        Ok((v.len(), DateTimeProperty {
            name: String::from("baz"),
            class: String::from("DateTimeProperty"),
            default_value: Some(String::from("2024-01-04T18:39:55+02:30")),
            is_optional: true,
            is_array: true,
        })),
        "Should parse datetime with array flag"
    );

    let v = chars("o DateTime baz default=42");
    let (np, p) = datetime_property(&v, 0).unwrap();
    assert_eq!(rest(&v, np), " default=42", "Should not parse datetime with wrong default value");
    assert_eq!(
        p,
        DateTimeProperty {
            name: String::from("baz"),
            class: String::from("DateTimeProperty"),
            default_value: None,
            is_optional: false,
            is_array: false,
        }
    );
}

#[test]
fn test_imported_property() {
    let v = chars("o MyType foo");
    let (np, p) = concept_property(&v, 0).unwrap();
    assert_eq!(np, v.len(), "Should parse imported type with no meta properties");
    assert_eq!(p.class, "MyType");
    assert_eq!(p.name, "foo");
    assert!(!p.is_optional && !p.is_array);

    let v = chars("o MyType[] foo");
    let (np, p) = concept_property(&v, 0).unwrap();
    assert_eq!(np, v.len(), "Should parse imported type with array flag");
    assert_eq!(p.class, "MyType");
    assert_eq!(p.name, "foo");
    assert!(!p.is_optional && p.is_array);

    let v = chars("o MyType baz optional");
    let (np, p) = concept_property(&v, 0).unwrap();
    assert_eq!(np, v.len(), "Should parse imported type with optional flag");
    assert_eq!(p.class, "MyType");
    assert_eq!(p.name, "baz");
    assert!(p.is_optional && !p.is_array);

    let v = chars("o MyType[] baz optional");
    let (np, p) = concept_property(&v, 0).unwrap();
    assert_eq!(np, v.len(), "Should parse imported type with optional and array flag");
    assert_eq!(p.class, "MyType");
    assert_eq!(p.name, "baz");
    assert!(p.is_optional && p.is_array);
}

#[test]
fn test_duplicate_metaproperties_last_wins() {
    // duplicate `default=` and duplicate `optional` parse and keep the
    // last occurrence's value
    let v = chars("o String baz default=\"first\" optional default=\"second\" optional");
    let (np, p) = string_property(&v, 0).unwrap();
    assert_eq!(np, v.len());
    assert_eq!(p.default_value, Some(String::from("second")));
    assert!(p.is_optional);

    let v = chars("o Boolean baz default=true default=false");
    let (np, p) = boolean_property(&v, 0).unwrap();
    assert_eq!(np, v.len());
    assert_eq!(p.default_value, Some(false));
}
