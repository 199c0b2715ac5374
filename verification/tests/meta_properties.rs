use concerto::meta_property::{
    boolean_default, double_default, double_meta_property, integer_default, length_meta_property,
    long_default, long_meta_property, string_default, string_meta_property, DefaultValue,
    DoubleRange, IntegerRange, LengthLimits, LongRange, MetaProperty, NumberRange,
};
use concerto::property::{primitive_type, property_type, PrimitiveType, PropertyType};

fn chars(s: &str) -> Vec<char> {
    s.chars().collect()
}

#[test]
fn meta_property_test_double_meta() {
    let v = chars("default = 3.14");
    let (np, m) = double_meta_property(&v, 0).unwrap();
    assert_eq!(np, v.len(), "Should parse a default meta property for Double");
    match m {
        MetaProperty::Default(DefaultValue::DoubleDefaultValue(lit)) => {
            assert_eq!(lit.parse::<f64>().unwrap(), 3.14);
        },
        other => panic!("expected a double default, got {:?}", other),
    }

    let v = chars("range = [0.0, 42.0]");
    let (np, m) = double_meta_property(&v, 0).unwrap();
    assert_eq!(np, v.len(), "Should parse a range meta property for Double");
    match m {
        MetaProperty::Range(NumberRange::Double(DoubleRange { start, end })) => {
            assert_eq!(start.unwrap().parse::<f64>().unwrap(), 0.0);
            assert_eq!(end.unwrap().parse::<f64>().unwrap(), 42.0);
        },
        other => panic!("expected a double range, got {:?}", other),
    }
}

#[test]
fn meta_property_test_long_meta() {
    let v = chars("default = 3147483647");
    assert_eq!(
        long_meta_property(&v, 0),
        Ok((v.len(), MetaProperty::Default(DefaultValue::LongDefaultValue(3147483647)))),
        "Should parse a default meta property for Long"
    );
    let v = chars("range = [0, 42]");
    assert_eq!(
        long_meta_property(&v, 0),
        Ok((v.len(), MetaProperty::Range(NumberRange::Long(LongRange { start: Some(0), end: Some(42) })))),
        "Should parse a range meta property for Long"
    );
}

#[test]
fn meta_property_test_string_meta() {
    let v = chars("default = 'abc.*'");
    assert_eq!(
        string_meta_property(&v, 0),
        Ok((v.len(), MetaProperty::Default(DefaultValue::StringDefaultValue("abc.*".to_string())))),
        "Should parse a default string meta property"
    );
    let v = chars("length = [0, 42]");
    assert_eq!(
        string_meta_property(&v, 0),
        Ok((v.len(), MetaProperty::Length(LengthLimits { start: Some(0), end: Some(42) }))),
        "Should parse a default string meta property"
    );
    let v = chars("regex=/abc.*/");
    assert_eq!(
        string_meta_property(&v, 0),
        Ok((v.len(), MetaProperty::Regex("abc.*".to_string()))),
        "Should parse a regex meta property"
    );
}

#[test]
fn meta_property_test_length_meta() {
    let v = chars("length = [ 100, ]");
    assert_eq!(
        length_meta_property(&v, 0),
        Ok((v.len(), MetaProperty::Length(LengthLimits { start: Some(100), end: None }))),
        "Should parse a length meta with start only"
    );
    let v = chars("length = [ , 100 ]");
    assert_eq!(
        length_meta_property(&v, 0),
        Ok((v.len(), MetaProperty::Length(LengthLimits { start: None, end: Some(100) }))),
        "Should parse a length meta with end only"
    );
    let v = chars("length = [ 1, 100 ]");
    assert_eq!(
        length_meta_property(&v, 0),
        Ok((v.len(), MetaProperty::Length(LengthLimits { start: Some(1), end: Some(100) }))),
        "Should parse a length meta with full range"
    );
    let v = chars("length = [ - 1, 100 ]");
    assert!(length_meta_property(&v, 0).is_err(), "Should not parse a length meta negative numbers");
    let v = chars("length = [ , -100 ]");
    assert!(length_meta_property(&v, 0).is_err(), "Should not parse a length meta negative numbers");
    let v = chars("length = [ ]");
    assert!(length_meta_property(&v, 0).is_err(), "Should not parse a length meta with empty definition");
}

#[test]
fn mod_test_double_meta() {
    let v = chars("default = 3.14");
    let (np, m) = double_meta_property(&v, 0).unwrap();
    assert_eq!(np, v.len());
    assert!(matches!(m, MetaProperty::Default(DefaultValue::DoubleDefaultValue(_))));
    let v = chars("range = [0.0, 42.0]");
    let (np, m) = double_meta_property(&v, 0).unwrap();
    assert_eq!(np, v.len());
    assert!(matches!(m, MetaProperty::Range(NumberRange::Double(_))));
}

#[test]
fn mod_test_long_meta() {
    let v = chars("default = 3147483647");
    assert_eq!(
        long_meta_property(&v, 0),
        Ok((v.len(), MetaProperty::Default(DefaultValue::LongDefaultValue(3147483647))))
    );
    let v = chars("range = [0, 42]");
    assert_eq!(
        long_meta_property(&v, 0),
        Ok((v.len(), MetaProperty::Range(NumberRange::Long(LongRange { start: Some(0), end: Some(42) }))))
    );
}

#[test]
fn mod_test_string_meta() {
    let v = chars("default = 'abc.*'");
    assert_eq!(
        string_meta_property(&v, 0),
        Ok((v.len(), MetaProperty::Default(DefaultValue::StringDefaultValue("abc.*".to_string()))))
    );
    let v = chars("length = [0, 42]");
    assert_eq!(
        string_meta_property(&v, 0),
        Ok((v.len(), MetaProperty::Length(LengthLimits { start: Some(0), end: Some(42) })))
    );
    let v = chars("regex=/abc.*/");
    assert_eq!(string_meta_property(&v, 0), Ok((v.len(), MetaProperty::Regex("abc.*".to_string()))));
}

#[test]
fn ranged_test_length_meta() {
    let v = chars("length = [ 100, ]");
    assert_eq!(
        length_meta_property(&v, 0),
        Ok((v.len(), MetaProperty::Length(LengthLimits { start: Some(100), end: None })))
    );
    let v = chars("length = [ , 100 ]");
    assert_eq!(
        length_meta_property(&v, 0),
        Ok((v.len(), MetaProperty::Length(LengthLimits { start: None, end: Some(100) })))
    );
    let v = chars("length = [ 1, 100 ]");
    assert_eq!(
        length_meta_property(&v, 0),
        Ok((v.len(), MetaProperty::Length(LengthLimits { start: Some(1), end: Some(100) })))
    );
    let v = chars("length = [ - 1, 100 ]");
    assert!(length_meta_property(&v, 0).is_err());
    let v = chars("length = [ , -100 ]");
    assert!(length_meta_property(&v, 0).is_err());
    let v = chars("length = [ ]");
    assert!(length_meta_property(&v, 0).is_err());
}

#[test]
fn test_string_default_value() {
    let v = chars("default=\"Hello World\"");
    assert_eq!(
        string_default(&v, 0),
        Ok((v.len(), DefaultValue::StringDefaultValue("Hello World".to_string()))),
        "Should parse default value of a String, delimited by double quotes"
    );
    let v = chars("default='Hello World'");
    assert_eq!(
        string_default(&v, 0),
        Ok((v.len(), DefaultValue::StringDefaultValue("Hello World".to_string()))),
        "Should parse default value of a String, delimited by single quotes"
    );
}

#[test]
fn test_double_default_value() {
    let v = chars("default=3.14e-2");
    let (np, d) = double_default(&v, 0).unwrap();
    assert_eq!(np, v.len(), "Should parse default value of a Double");
    match d {
        DefaultValue::DoubleDefaultValue(lit) => assert_eq!(lit.parse::<f64>().unwrap(), 3.14e-2),
        other => panic!("expected a double default, got {:?}", other),
    }
}

#[test]
fn test_boolean_default_value() {
    let v = chars("default=true");
    assert_eq!(
        boolean_default(&v, 0),
        Ok((v.len(), DefaultValue::BooleanDefaultValue(true))),
        "Should parse default value of a Boolean"
    );
}

#[test]
fn test_integer_default_value() {
    let v = chars("default=123");
    assert_eq!(
        integer_default(&v, 0),
        Ok((v.len(), DefaultValue::IntegerDefaultValue(123))),
        "Should parse default value of an Integer"
    );
}

#[test]
fn test_long_default_value() {
    let v = chars("default=3147483647");
    assert_eq!(
        long_default(&v, 0),
        Ok((v.len(), DefaultValue::LongDefaultValue(3147483647))),
        "Should parse default value of an Long"
    );
}

#[test]
fn property_type_test_primitive_type() {
    assert!(true);
}

#[test]
fn property_type_test_property_type() {
    assert!(true);
}

#[test]
fn mod_test_property_type() {
    assert!(true);
}

#[test]
fn primitive_type_test_primitive_type() {
    assert!(true);
}

#[test]
fn test_primitive_type_words() {
    let v = chars("Integer");
    assert_eq!(primitive_type(&v, 0), Ok((v.len(), PrimitiveType::IntegerPropertyType)));
    let v = chars("DateTime");
    assert_eq!(
        property_type(&v, 0),
        Ok((v.len(), PropertyType::Primitive(PrimitiveType::DateTimePropertyType)))
    );
    let v = chars("Custom");
    assert!(primitive_type(&v, 0).is_err());
}
