use concerto::boolean_property::BooleanProperty;
use concerto::declaration::{declaration, Declaration, Property};
use concerto::error::CErrorKind;
use concerto::model::{model, parse_model, Model, ModelBuilder};
use concerto::string_property::StringProperty;
use concerto::version::SemanticVersion;

fn chars(s: &str) -> Vec<char> {
    s.chars().collect()
}

#[test]
fn test_concept_with_no_props() {
    let v = chars("concept MyConcept {}");
    assert_eq!(
        declaration(&v, 0),
        Ok((v.len(), Declaration { name: String::from("MyConcept"), properties: Vec::new() })),
        "Should parse a declaration with no proeprties"
    );
}

#[test]
fn test_concept_with_one_prop() {
    let v = chars("concept MyConcept {\n          o String name\n        }");
    assert_eq!(
        declaration(&v, 0),
        Ok((v.len(), Declaration {
            name: String::from("MyConcept"),
            properties: vec![Property::String(StringProperty {
                class: String::from("StringProperty"),
                name: String::from("name"),
                is_array: false,
                is_optional: false,
                default_value: None,
                regex_validator: None,
                length_validator: None,
            })],
        })),
        "Should parse a declaration with one property"
    );
}

#[test]
fn test_concept_with_several_props() {
    let v = chars(
        "concept MyConcept {\n          o String name\n          o Boolean applied\n          o Address address\n        }",
    );
    assert_eq!(
        declaration(&v, 0),
        Ok((v.len(), Declaration {
            name: String::from("MyConcept"),
            properties: vec![
                Property::String(StringProperty {
                    class: String::from("StringProperty"),
                    name: String::from("name"),
                    is_array: false,
                    is_optional: false,
                    default_value: None,
                    regex_validator: None,
                    length_validator: None,
                }),
                Property::Boolean(BooleanProperty {
                    class: String::from("BooleanProperty"),
                    name: String::from("applied"),
                    is_array: false,
                    is_optional: false,
                    default_value: None,
                }),
                Property::Imported(concerto::property::Property {
                    class: String::from("Address"),
                    name: String::from("address"),
                    is_optional: false,
                    is_array: false,
                }),
            ],
        })),
        "Should parse a declaration with one property"
    );
}

#[test]
fn test_concept_with_duplicate_metas() {
    // a declaration whose property repeats `default=` and `optional`
    // parses, and only the last occurrence of each kind is kept
    let v = chars("concept C {\n o String s default=\"a\" default=\"b\" optional optional\n}");
    let (np, d) = declaration(&v, 0).unwrap();
    assert_eq!(np, v.len());
    assert_eq!(d.properties.len(), 1);
    match &d.properties[0] {
        Property::String(sp) => {
            assert_eq!(sp.default_value, Some(String::from("b")));
            assert!(sp.is_optional);
        },
        other => panic!("expected a string property, got {:?}", other),
    }
}

#[test]
fn test_model_parses_namespace_and_concepts() {
    let text = "\n    namespace com.example.foo@1.3.5-pre\n\n    concept Person {\n      o String name\n      o Integer age optional\n      o Address mainAddress\n    }\n\n    concept Address {\n      o String street\n      o Integer number optional\n      o String city default=\"Dublin\"\n    }\n\n    ";
    let m: Model = parse_model(text).unwrap();
    assert_eq!(m.namespace.name, "com.example.foo");
    match &m.namespace.version {
        SemanticVersion::VersionWithRelease(vn, label) => {
            assert_eq!((vn.major, vn.minor, vn.patch), (1, 3, 5));
            assert_eq!(label, "pre");
        },
        other => panic!("expected a pre-release version, got {:?}", other),
    }
    assert_eq!(m.declarations.len(), 2);
    assert_eq!(m.declarations[0].name, "Person");
    assert_eq!(m.declarations[0].properties.len(), 3);
    assert_eq!(m.declarations[1].name, "Address");
    assert_eq!(m.declarations[1].properties.len(), 3);
    match &m.declarations[1].properties[2] {
        Property::String(sp) => assert_eq!(sp.default_value, Some(String::from("Dublin"))),
        other => panic!("expected a string property, got {:?}", other),
    }
}

#[test]
fn test_model_namespace_without_prerelease_then_concepts() {
    // a namespace without a pre-release label may be followed by
    // declarations: the version ends at its number
    let text = "namespace a@1.0.0\nconcept C {}\n";
    let m = parse_model(text).unwrap();
    assert_eq!(m.namespace.name, "a");
    assert_eq!(m.namespace.version, SemanticVersion::Version(concerto::version::VersionNumber::new(1, 0, 0)));
    assert_eq!(m.declarations.len(), 1);
    assert_eq!(m.declarations[0].name, "C");
}

#[test]
fn test_model_without_namespace_is_rejected() {
    let v = chars("concept OnlyAConcept {}");
    let r = model(&v, 0);
    assert_eq!(r.unwrap_err().kind, CErrorKind::MissingNamespace);
}

#[test]
fn test_model_last_namespace_wins() {
    let text = "namespace first@1.0.0-a\nnamespace second@2.0.0-b\n";
    let m = parse_model(text).unwrap();
    assert_eq!(m.namespace.name, "second");
}

#[test]
fn test_model_builder_accumulates_in_order() {
    let mut b = ModelBuilder::new();
    b.with_namespace(concerto::namespace::Namespace {
        name: String::from("ns"),
        version: SemanticVersion::Version(concerto::version::VersionNumber::new(1, 0, 0)),
    });
    b.add_declaration(Declaration { name: String::from("A"), properties: Vec::new() });
    b.add_declaration(Declaration { name: String::from("B"), properties: Vec::new() });
    let m = b.build();
    assert_eq!(m.namespace.name, "ns");
    assert_eq!(m.declarations.len(), 2);
    assert_eq!(m.declarations[0].name, "A");
    assert_eq!(m.declarations[1].name, "B");
}

#[test]
fn test_declaration_missing_brace_fails() {
    let v = chars("concept Broken {\n o String s\n");
    let r = declaration(&v, 0);
    assert_eq!(r.unwrap_err().kind, CErrorKind::ExpectedLiteral);
}

#[test]
fn test_error_carries_context_path() {
    // the failure inside the version numeral propagates out through each
    // labelled rule, outermost first
    let v = chars("abc");
    let e = concerto::version::version_identifier(&v, 0).unwrap_err();
    assert_eq!(e.labels, vec!["VersionIdentifier", "Version", "Decimal"]);
    assert_eq!(e.pos, 0);
}

#[test]
fn test_error_reports_deepest_position() {
    // the single-quote alternative of a string literal reaches the end of
    // the input before failing; the double-quote alternative fails at the
    // start; the deeper failure is the one surfaced
    let v = chars("'abc");
    let e = concerto::strings::string_value(&v, 0).unwrap_err();
    assert_eq!(e.pos, 4);
    assert_eq!(e.labels, vec!["String"]);
}
