use jstern::json::Json;
use jstern::path::{resolve, split_path};

fn parse(text: &str) -> Json {
    Json::parse(text).expect("test input is JSON")
}

fn path(dotted: &str) -> Vec<String> {
    split_path(dotted)
}

#[test]
fn split_path_cuts_at_dots() {
    assert_eq!(split_path("meta.labels.app"), vec!["meta", "labels", "app"]);
    assert_eq!(split_path("level"), vec!["level"]);
    assert_eq!(split_path(""), vec![""]);
    assert_eq!(split_path("a..b"), vec!["a", "", "b"]);
}

#[test]
fn empty_path_gives_the_value_itself() {
    let v = parse(r#"{"a":1}"#);
    assert_eq!(resolve(&v, &Vec::new()), Some(&v));
}

#[test]
fn nested_object_path_resolves() {
    let v = parse(r#"{"meta":{"labels":{"app":"x"}}}"#);
    assert_eq!(
        resolve(&v, &path("meta.labels.app")),
        Some(&Json::Str("x".to_string()))
    );
}

#[test]
fn missing_key_does_not_resolve() {
    let v = parse(r#"{"meta":{"labels":{"app":"x"}}}"#);
    assert_eq!(resolve(&v, &path("meta.name")), None);
    assert_eq!(resolve(&v, &path("meta.labels.app.deeper")), None);
}

#[test]
fn array_search_takes_first_match() {
    let v = parse(r#"{"items":[{"id":1},{"id":2}]}"#);
    assert_eq!(
        resolve(&v, &path("items.id")),
        Some(&Json::Number("1".to_string()))
    );
}

#[test]
fn array_search_applies_whole_remaining_path() {
    let v = parse(r#"{"items":[{"id":{}},{"id":{"x":5}}]}"#);
    assert_eq!(
        resolve(&v, &path("items.id.x")),
        Some(&Json::Number("5".to_string()))
    );
}

#[test]
fn array_search_skips_elements_without_key() {
    let v = parse(r#"[{"a":1},{"b":2}]"#);
    assert_eq!(resolve(&v, &path("b")), Some(&Json::Number("2".to_string())));
    assert_eq!(resolve(&v, &path("c")), None);
}

#[test]
fn null_value_resolves_to_null() {
    let v = parse(r#"{"a":null}"#);
    assert_eq!(resolve(&v, &path("a")), Some(&Json::Null));
}

#[test]
fn scalar_with_remaining_path_does_not_resolve() {
    let v = parse(r#"{"a":"text"}"#);
    assert_eq!(resolve(&v, &path("a.b")), None);
}

#[test]
fn resolve_is_repeatable() {
    let v = parse(r#"{"items":[{"id":1},{"id":2}]}"#);
    let p = path("items.id");
    assert_eq!(resolve(&v, &p), resolve(&v, &p));
}

#[test]
fn parse_builds_the_tree() {
    let v = parse(r#"{"b":[true,null,"s",1.5],"a":-3}"#);
    assert_eq!(
        v,
        Json::Object(vec![
            ("a".to_string(), Json::Number("-3".to_string())),
            (
                "b".to_string(),
                Json::Array(vec![
                    Json::Bool(true),
                    Json::Null,
                    Json::Str("s".to_string()),
                    Json::Number("1.5".to_string()),
                ])
            ),
        ])
    );
    assert_eq!(Json::parse("not valid json"), None);
}

#[test]
fn duplicate_copies_the_tree() {
    let v = parse(r#"{"a":[1,{"b":null}]}"#);
    assert_eq!(v.duplicate(), v);
}
