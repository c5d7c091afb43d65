use jstern::args::{Args, ArgsError};

fn argv(items: &[&str]) -> Vec<String> {
    items.iter().map(|s| s.to_string()).collect()
}

#[test]
fn help_when_asked_or_no_query() {
    assert_eq!(Args::new(argv(&["jstern"])), Err(ArgsError::Help));
    assert_eq!(Args::new(argv(&["jstern", "web", "-h"])), Err(ArgsError::Help));
    assert_eq!(Args::new(argv(&["jstern", "--help", "web"])), Err(ArgsError::Help));
}

#[test]
fn parses_all_options() {
    let a = Args::new(argv(&[
        "jstern", "web", "-n", "prod", "-k", "a", "b.c", "-f", "level", "info", "--separator",
        "--padding", "--filter", "pod", "x", "--other",
    ]))
    .unwrap();
    assert_eq!(a.pod_query, "web");
    assert_eq!(a.namespace, Some("prod".to_string()));
    assert_eq!(a.selector, None);
    assert_eq!(a.keys, vec!["a".to_string(), "b.c".to_string()]);
    assert_eq!(
        a.filters,
        vec![
            ("level".to_string(), "info".to_string()),
            ("pod".to_string(), "x".to_string())
        ]
    );
    assert!(a.separator);
    assert!(a.padding);
}

#[test]
fn selector_and_defaults() {
    let a = Args::new(argv(&["jstern", "web", "--selector", "meta.app"])).unwrap();
    assert_eq!(a.selector, Some("meta.app".to_string()));
    assert_eq!(a.namespace, None);
    assert!(a.keys.is_empty());
    assert!(a.filters.is_empty());
    assert!(!a.separator);
    assert!(!a.padding);
}

#[test]
fn missing_option_value() {
    assert_eq!(
        Args::new(argv(&["jstern", "web", "-n"])),
        Err(ArgsError::MissingValue("-n".to_string()))
    );
    assert_eq!(
        Args::new(argv(&["jstern", "web", "--selector"])),
        Err(ArgsError::MissingValue("--selector".to_string()))
    );
}

#[test]
fn keys_need_a_value() {
    assert_eq!(Args::new(argv(&["jstern", "web", "-k"])), Err(ArgsError::NoKeys));
    assert_eq!(
        Args::new(argv(&["jstern", "web", "-k", "--padding"])),
        Err(ArgsError::NoKeys)
    );
}

#[test]
fn filter_needs_key_and_value() {
    assert_eq!(
        Args::new(argv(&["jstern", "web", "-f", "level"])),
        Err(ArgsError::NoFilter)
    );
}
