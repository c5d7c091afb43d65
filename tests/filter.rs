use jstern::filter::{canonical_text, passes};
use jstern::json::Json;
use jstern::render::{render, Rendered};

fn parse(text: &str) -> Json {
    Json::parse(text).expect("test input is JSON")
}

fn pred(path: &str, expected: &str) -> (String, String) {
    (path.to_string(), expected.to_string())
}

#[test]
fn no_predicates_always_pass() {
    assert!(passes(&parse(r#"{"a":1}"#), &Vec::new()));
    assert!(passes(&Json::Null, &Vec::new()));
}

#[test]
fn matching_string_predicate_passes() {
    let r = parse(r#"{"pod":"web-1","level":"info"}"#);
    assert!(passes(&r, &vec![pred("level", "info")]));
    assert!(passes(&r, &vec![pred("level", "info"), pred("pod", "web-1")]));
}

#[test]
fn mismatching_predicate_fails() {
    let r = parse(r#"{"pod":"web-1","level":"info"}"#);
    assert!(!passes(&r, &vec![pred("level", "error")]));
    assert!(!passes(&r, &vec![pred("level", "info"), pred("pod", "web-2")]));
}

#[test]
fn unresolvable_predicate_fails_whatever_the_rest() {
    let r = parse(r#"{"pod":"web-1","level":"info"}"#);
    assert!(!passes(&r, &vec![pred("missing", "x")]));
    assert!(!passes(&r, &vec![pred("level", "info"), pred("missing", "x")]));
    assert!(!passes(&r, &vec![pred("missing", "x"), pred("level", "info")]));
}

#[test]
fn numbers_and_literals_compare_by_text() {
    let r = parse(r#"{"code":200,"ok":true,"gone":false,"none":null,"ratio":0.5}"#);
    assert!(passes(&r, &vec![pred("code", "200")]));
    assert!(!passes(&r, &vec![pred("code", "201")]));
    assert!(passes(&r, &vec![pred("ok", "true")]));
    assert!(passes(&r, &vec![pred("gone", "false")]));
    assert!(passes(&r, &vec![pred("none", "null")]));
    assert!(passes(&r, &vec![pred("ratio", "0.5")]));
}

#[test]
fn nested_and_array_predicates() {
    let r = parse(r#"{"meta":{"tags":[{"k":"a"},{"k":"b"}]}}"#);
    assert!(passes(&r, &vec![pred("meta.tags.k", "a")]));
    assert!(!passes(&r, &vec![pred("meta.tags.k", "b")]));
}

#[test]
fn canonical_text_of_each_kind() {
    assert_eq!(canonical_text(&Json::Str("x y".to_string())), "x y");
    assert_eq!(canonical_text(&Json::Number("42".to_string())), "42");
    assert_eq!(canonical_text(&Json::Bool(true)), "true");
    assert_eq!(canonical_text(&Json::Bool(false)), "false");
    assert_eq!(canonical_text(&Json::Null), "null");
    assert_eq!(canonical_text(&parse(r#"[1, "a"]"#)), r#"[1,"a"]"#);
    assert_eq!(canonical_text(&parse(r#"{"b": 1, "a": {}}"#)), r#"{"a":{},"b":1}"#);
}

#[test]
fn compact_and_pretty_text() {
    let v = parse(r#"{"a": [1, 2]}"#);
    assert_eq!(canonical_text(&v), r#"{"a":[1,2]}"#);
    assert_eq!(
        render(&v),
        Rendered::StructuredText("{\n  \"a\": [\n    1,\n    2\n  ]\n}".to_string())
    );
}
