use concerto::concerto::{boolean, datetime, double, integer, long, string};
use concerto::keywords::{abstrakt, concept, length, namespace, optional, range, regex};
use concerto::version::pre_release;

fn chars(s: &str) -> Vec<char> {
    s.chars().collect()
}

#[test]
fn test_keywords_match_their_words() {
    assert_eq!(concerto::keywords::default(&chars("default="), 0), Ok((7, ())));
    assert_eq!(length(&chars("length"), 0), Ok((6, ())));
    assert_eq!(range(&chars("range"), 0), Ok((5, ())));
    assert_eq!(regex(&chars("regex"), 0), Ok((5, ())));
    assert_eq!(namespace(&chars("namespace x"), 0), Ok((9, ())));
    assert_eq!(optional(&chars("optional"), 0), Ok((8, ())));
    assert_eq!(concept(&chars("concept"), 0), Ok((7, ())));
    assert_eq!(abstrakt(&chars("abstract"), 0), Ok((8, ())));
    assert!(concept(&chars("Concept"), 0).is_err());
}

#[test]
fn test_type_tokens_match_their_words() {
    assert_eq!(string(&chars("String"), 0), Ok((6, ())));
    assert_eq!(boolean(&chars("Boolean"), 0), Ok((7, ())));
    assert_eq!(long(&chars("Long"), 0), Ok((4, ())));
    assert_eq!(double(&chars("Double"), 0), Ok((6, ())));
    assert_eq!(integer(&chars("Integer"), 0), Ok((7, ())));
    assert_eq!(datetime(&chars("DateTime"), 0), Ok((8, ())));
    assert!(string(&chars("string"), 0).is_err());
}

#[test]
fn test_pre_release_single_leading_zero_edge() {
    // `0` followed by a non-zero digit is accepted by the leading-zero
    // rule: only a second `0` directly after the first is rejected
    let v = chars("-01");
    assert_eq!(pre_release(&v, 0), Ok((3, String::from("01"))));
    let v = chars("-00");
    assert!(pre_release(&v, 0).is_err());
    let v = chars("-0");
    assert_eq!(pre_release(&v, 0), Ok((2, String::from("0"))));
}
