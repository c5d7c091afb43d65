use jstern::json::Json;
use jstern::project::{project, Projection};
use jstern::render::{render, Rendered};

fn parse(text: &str) -> Json {
    Json::parse(text).expect("test input is JSON")
}

#[test]
fn full_projection_keeps_record() {
    let r = parse(r#"{"pod":"web-1","level":"info"}"#);
    assert_eq!(project(&r, &Projection::Full), r);
    let a = parse("[1,2]");
    assert_eq!(project(&a, &Projection::Full), a);
}

#[test]
fn empty_key_list_shows_nothing() {
    let r = parse(r#"{"pod":"web-1","level":"info"}"#);
    assert_eq!(project(&r, &Projection::KeyList(Vec::new())), Json::Null);
}

#[test]
fn selector_extracts_value() {
    let r = parse(r#"{"meta":{"labels":{"app":"x"}}}"#);
    assert_eq!(
        project(&r, &Projection::Selector("meta.labels.app".to_string())),
        Json::Str("x".to_string())
    );
    assert_eq!(
        project(&r, &Projection::Selector("meta.nothing".to_string())),
        Json::Null
    );
}

#[test]
fn key_list_builds_flat_object() {
    let r = parse(r#"{"pod":"web-1","meta":{"app":"x","n":null}}"#);
    let keys = vec![
        "meta.app".to_string(),
        "missing".to_string(),
        "pod".to_string(),
        "meta.app".to_string(),
        "meta.n".to_string(),
    ];
    assert_eq!(
        project(&r, &Projection::KeyList(keys)),
        Json::Object(vec![
            ("meta.app".to_string(), Json::Str("x".to_string())),
            ("pod".to_string(), Json::Str("web-1".to_string())),
            ("meta.n".to_string(), Json::Null),
        ])
    );
}

#[test]
fn key_list_with_no_present_key_shows_nothing() {
    let r = parse(r#"{"pod":"web-1"}"#);
    let keys = vec!["a".to_string(), "b.c".to_string()];
    assert_eq!(project(&r, &Projection::KeyList(keys)), Json::Null);
}

#[test]
fn render_each_shape() {
    assert_eq!(render(&Json::Null), Rendered::Suppressed);
    assert_eq!(
        render(&Json::Str("x".to_string())),
        Rendered::PlainString("x".to_string())
    );
    assert_eq!(
        render(&parse(r#"{"id":1}"#)),
        Rendered::StructuredText("{\n  \"id\": 1\n}".to_string())
    );
    assert_eq!(
        render(&Json::Number("7".to_string())),
        Rendered::StructuredText("7".to_string())
    );
}
