use concerto::common::token;
use concerto::namespace::{fqn, namespace_identifier, namespace_version, prerelease_dot_token,
    Namespace};
use concerto::version::{pre_release, version_identifier, SemanticVersion, VersionNumber};

fn chars(s: &str) -> Vec<char> {
    s.chars().collect()
}

fn ver(major: u128, minor: u128, patch: u128) -> VersionNumber {
    VersionNumber::new(major, minor, patch)
}

#[test]
fn parser_test_token() {
    let v = chars("a123");
    assert_eq!(token(&v, 0), Ok((4, String::from("a123"))));
}

#[test]
fn parser_test_pre_release() {
    let v = chars("pr123");
    assert!(pre_release(&v, 0).is_err(), "Should not parse if tag doesn't start with hyphen");
    let v = chars("-pr123");
    assert_eq!(pre_release(&v, 0), Ok((v.len(), String::from("pr123"))), "Should parse prerelease tag with letters and numbers");
    let v = chars("-0.1.pr123");
    assert_eq!(pre_release(&v, 0), Ok((v.len(), String::from("0.1.pr123"))), "Should parse prerelease tag with letters and numbers and dots");
    let v = chars("-alpha");
    assert_eq!(pre_release(&v, 0), Ok((v.len(), String::from("alpha"))), "Should parse prerelease tag with letters only");
    let v = chars("-alpha.1");
    assert_eq!(pre_release(&v, 0), Ok((v.len(), String::from("alpha.1"))), "Should parse prerelease tag with letters and numbers separated by dots");
    let v = chars("-001");
    assert!(pre_release(&v, 0).is_err());
    let v = chars("-0.3.7");
    assert_eq!(pre_release(&v, 0), Ok((v.len(), String::from("0.3.7"))), "Should parse prerelease tag with numbers and dots");
    let v = chars("-x.7.z.92");
    assert_eq!(pre_release(&v, 0), Ok((v.len(), String::from("x.7.z.92"))), "Should the example prerelease tag from semver.org");
    let v = chars("-x-y-z.--");
    assert_eq!(pre_release(&v, 0), Ok((v.len(), String::from("x-y-z.--"))), "Should the example prerelease tag from semver.org");
}

#[test]
fn parser_test_version() {
    let v = chars("12");
    assert_eq!(version_identifier(&v, 0), Ok((v.len(), SemanticVersion::Version(ver(12, 0, 0)))), "Should parse major only version");
    let v = chars("12-pre");
    assert_eq!(
        version_identifier(&v, 0),
        Ok((v.len(), SemanticVersion::VersionWithRelease(ver(12, 0, 0), "pre".to_string()))),
        "Should parse major only version with pre-release tag"
    );
    let v = chars("12.13");
    assert_eq!(version_identifier(&v, 0), Ok((v.len(), SemanticVersion::Version(ver(12, 13, 0)))), "Should parse major.minor version");
    let v = chars("12.13-pre");
    assert_eq!(
        version_identifier(&v, 0),
        Ok((v.len(), SemanticVersion::VersionWithRelease(ver(12, 13, 0), "pre".to_string()))),
        "Should parse major.minor version with pre-release tag"
    );
    let v = chars("12.13.14");
    assert_eq!(version_identifier(&v, 0), Ok((v.len(), SemanticVersion::Version(ver(12, 13, 14)))), "Should parse major.minor.patch version");
    let v = chars("12.13.14-0.1.pr123");
    assert_eq!(
        version_identifier(&v, 0),
        Ok((v.len(), SemanticVersion::VersionWithRelease(ver(12, 13, 14), "0.1.pr123".to_string()))),
        "Should parse major.minor.patch version with pre-release tag"
    );
    let v = chars("1.0.0-alpha");
    assert_eq!(
        version_identifier(&v, 0),
        Ok((v.len(), SemanticVersion::VersionWithRelease(ver(1, 0, 0), "alpha".to_string()))),
        "Should parse major.minor.patch version with pre-release tag when tag is all letters"
    );
    let v = chars("1.0.0-alpha.1");
    assert_eq!(
        version_identifier(&v, 0),
        Ok((v.len(), SemanticVersion::VersionWithRelease(ver(1, 0, 0), "alpha.1".to_string()))),
        "Should parse major.minor.patch version with pre-release tag when tag has dots"
    );
}

#[test]
fn parser_test_fqn() {
    let v = chars("test@12.13.14");
    assert_eq!(
        namespace_version(&v, 0),
        Ok((v.len(), ("test".to_string(), SemanticVersion::Version(ver(12, 13, 14)))))
    );
    let v = chars("test@12.13.14-pre");
    assert_eq!(
        namespace_version(&v, 0),
        Ok((v.len(), ("test".to_string(), SemanticVersion::VersionWithRelease(ver(12, 13, 14), "pre".to_string()))))
    );
}

#[test]
fn parser_test_namespace() {
    let v = chars("namespace  test@1.0.2");
    assert_eq!(
        namespace_identifier(&v, 0),
        Ok((v.len(), Namespace { name: "test".to_string(), version: SemanticVersion::Version(ver(1, 0, 2)) }))
    );
    let v = chars("namespace  test@1.0.2-beta");
    assert_eq!(
        namespace_identifier(&v, 0),
        Ok((v.len(), Namespace {
            name: "test".to_string(),
            version: SemanticVersion::VersionWithRelease(ver(1, 0, 2), "beta".to_string()),
        }))
    );
}

#[test]
fn version_test_pre_release() {
    let v = chars("pr123");
    assert!(pre_release(&v, 0).is_err(), "Should not parse if tag doesn't start with hyphen");
    let v = chars("-pr123");
    assert_eq!(pre_release(&v, 0), Ok((v.len(), String::from("pr123"))), "Should parse prerelease tag with letters and numbers");
    let v = chars("-0.1.pr123");
    assert_eq!(pre_release(&v, 0), Ok((v.len(), String::from("0.1.pr123"))), "Should parse prerelease tag with letters and numbers and dots");
    let v = chars("-alpha");
    assert_eq!(pre_release(&v, 0), Ok((v.len(), String::from("alpha"))), "Should parse prerelease tag with letters only");
    let v = chars("-alpha.1");
    assert_eq!(pre_release(&v, 0), Ok((v.len(), String::from("alpha.1"))), "Should parse prerelease tag with letters and numbers separated by dots");
    let v = chars("-001");
    assert!(pre_release(&v, 0).is_err());
    let v = chars("-0.3.7");
    assert_eq!(pre_release(&v, 0), Ok((v.len(), String::from("0.3.7"))), "Should parse prerelease tag with numbers and dots");
    let v = chars("-x.7.z.92");
    assert_eq!(pre_release(&v, 0), Ok((v.len(), String::from("x.7.z.92"))), "Should the example prerelease tag from semver.org");
    let v = chars("-x-y-z.--");
    assert_eq!(pre_release(&v, 0), Ok((v.len(), String::from("x-y-z.--"))), "Should the example prerelease tag from semver.org");
}

#[test]
fn version_test_version() {
    let v = chars("12");
    assert_eq!(version_identifier(&v, 0), Ok((v.len(), SemanticVersion::Version(ver(12, 0, 0)))), "Should parse major only version_identifier");
    let v = chars("12-pre");
    assert_eq!(
        version_identifier(&v, 0),
        Ok((v.len(), SemanticVersion::VersionWithRelease(ver(12, 0, 0), "pre".to_string()))),
        "Should parse major only version_identifier with pre-release tag"
    );
    let v = chars("12.13");
    assert_eq!(version_identifier(&v, 0), Ok((v.len(), SemanticVersion::Version(ver(12, 13, 0)))), "Should parse major.minor version_identifier");
    let v = chars("12.13-pre");
    assert_eq!(
        version_identifier(&v, 0),
        Ok((v.len(), SemanticVersion::VersionWithRelease(ver(12, 13, 0), "pre".to_string()))),
        "Should parse major.minor version_identifier with pre-release tag"
    );
    let v = chars("12.13.14");
    assert_eq!(version_identifier(&v, 0), Ok((v.len(), SemanticVersion::Version(ver(12, 13, 14)))), "Should parse major.minor.patch version_identifier");
    let v = chars("12.13.14-0.1.pr123");
    assert_eq!(
        version_identifier(&v, 0),
        Ok((v.len(), SemanticVersion::VersionWithRelease(ver(12, 13, 14), "0.1.pr123".to_string()))),
        "Should parse major.minor.patch version_identifier with pre-release tag"
    );
    let v = chars("1.0.0-alpha");
    assert_eq!(
        version_identifier(&v, 0),
        Ok((v.len(), SemanticVersion::VersionWithRelease(ver(1, 0, 0), "alpha".to_string()))),
        "Should parse major.minor.patch version_identifier with pre-release tag when tag is all letters"
    );
    let v = chars("1.0.0-alpha.1");
    assert_eq!(
        version_identifier(&v, 0),
        Ok((v.len(), SemanticVersion::VersionWithRelease(ver(1, 0, 0), "alpha.1".to_string()))),
        "Should parse major.minor.patch version_identifier with pre-release tag when tag has dots"
    );
}

#[test]
fn test_prerelease_and_token() {
    let v = chars("pre.bar123");
    assert_eq!(prerelease_dot_token(&v, 0), Ok((v.len(), ("pre".to_string(), "bar123".to_string()))));
}

#[test]
fn namespace_test_fqn() {
    let v = chars("test@12.13.14.Foo");
    let r = fqn(&v, 0).unwrap();
    assert_eq!(r.0, v.len(), "Should parse fully qualified name");
    assert_eq!(r.1.name, "test");
    assert_eq!(r.1.version, SemanticVersion::Version(ver(12, 13, 14)));
    assert_eq!(r.1.type_token, "Foo");

    let v = chars("test@12.13.14-pre.bar123");
    let r = fqn(&v, 0).unwrap();
    assert_eq!(r.0, v.len(), "Should parse fully qualified name with pre-release");
    assert_eq!(r.1.name, "test");
    assert_eq!(r.1.version, SemanticVersion::VersionWithRelease(ver(12, 13, 14), "pre".to_string()));
    assert_eq!(r.1.type_token, "bar123");

    let v = chars("test@12.13.14-pre.0.1.bar123");
    let r = fqn(&v, 0).unwrap();
    assert_eq!(r.0, v.len(), "Should parse fully qualified name with pre-release with dots");
    assert_eq!(r.1.name, "test");
    assert_eq!(r.1.version, SemanticVersion::VersionWithRelease(ver(12, 13, 14), "pre.0.1".to_string()));
    assert_eq!(r.1.type_token, "bar123");
}

#[test]
fn test_namespace_version() {
    let v = chars("test@12.13.14");
    assert_eq!(
        namespace_version(&v, 0),
        Ok((v.len(), ("test".to_string(), SemanticVersion::Version(ver(12, 13, 14)))))
    );
    let v = chars("test@12.13.14-pre");
    assert_eq!(
        namespace_version(&v, 0),
        Ok((v.len(), ("test".to_string(), SemanticVersion::VersionWithRelease(ver(12, 13, 14), "pre".to_string()))))
    );
}

#[test]
fn namespace_test_namespace() {
    let v = chars("namespace  test@1.0.2");
    assert_eq!(
        namespace_identifier(&v, 0),
        Ok((v.len(), Namespace { name: "test".to_string(), version: SemanticVersion::Version(ver(1, 0, 2)) }))
    );
    let v = chars("namespace  test@1.0.2-beta");
    assert_eq!(
        namespace_identifier(&v, 0),
        Ok((v.len(), Namespace {
            name: "test".to_string(),
            version: SemanticVersion::VersionWithRelease(ver(1, 0, 2), "beta".to_string()),
        }))
    );
}

#[test]
fn test_canonical_string_round_trip() {
    // parse, print canonically, and parse again: the value is unchanged,
    // with omitted components normalised to zero
    for (text, canonical) in [
        ("12", "12.0.0"),
        ("12.13", "12.13.0"),
        ("12.13.14", "12.13.14"),
        ("12-pre", "12.0.0-pre"),
        ("1.0.0-alpha.1", "1.0.0-alpha.1"),
        ("1.2.3-0.3.7", "1.2.3-0.3.7"),
        ("340282366920938463463374607431768211455", "340282366920938463463374607431768211455.0.0"),
    ] {
        let v = chars(text);
        let (np, parsed) = version_identifier(&v, 0).unwrap();
        assert_eq!(np, v.len());
        let printed = parsed.canonical_string();
        assert_eq!(printed, canonical);
        let v2 = chars(&printed);
        let (np2, reparsed) = version_identifier(&v2, 0).unwrap();
        assert_eq!(np2, v2.len());
        assert_eq!(reparsed, parsed);
    }
}

#[test]
fn test_version_number_overflow_fails() {
    // one more digit than the largest 128-bit value can carry
    let v = chars("3402823669209384634633746074317682114550");
    assert!(version_identifier(&v, 0).is_err());
}

#[test]
fn test_version_with_trailing_text_left_unconsumed() {
    // with no pre-release label the version ends where its number ends;
    // trailing non-version text stays unconsumed
    let v = chars("1.0.2 x");
    assert_eq!(version_identifier(&v, 0), Ok((5, SemanticVersion::Version(ver(1, 0, 2)))));
    // a dash that introduces no well-formed label is non-version text too
    let v = chars("1.0.2-00");
    assert_eq!(version_identifier(&v, 0), Ok((5, SemanticVersion::Version(ver(1, 0, 2)))));
}
