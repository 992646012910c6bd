use remove_imports::config::ConfigError;
use remove_imports::config::JsonValue;
use remove_imports::matcher::Matcher;
use remove_imports::transform::Remove;
use remove_imports::transform::TransformVisitor;

fn obj(entries: Vec<(&str, JsonValue)>) -> JsonValue {
    JsonValue::Object(entries.into_iter().map(|(k, v)| (k.to_string(), v)).collect())
}

fn s(text: &str) -> JsonValue {
    JsonValue::Str(text.to_string())
}

#[test]
fn single_pattern_config() {
    let cfg = TransformVisitor::from_json(&obj(vec![("test", s("\\.(less|css)$"))])).unwrap();
    assert_eq!(cfg.remove, Remove::All);
    assert!(cfg.test.matches("./index.less"));
    assert!(cfg.test.matches("./index.main.css"));
    assert!(!cfg.test.matches("uiw"));
}

#[test]
fn pattern_list_config() {
    let cfg = TransformVisitor::from_json(&obj(vec![(
        "test",
        JsonValue::Array(vec![s("^foo$"), s("^bar$")]),
    )]))
    .unwrap();
    assert!(cfg.test.matches("foo"));
    assert!(cfg.test.matches("bar"));
    assert!(!cfg.test.matches("baz"));
}

#[test]
fn empty_pattern_list_matches_nothing() {
    let cfg = TransformVisitor::from_json(&obj(vec![("test", JsonValue::Array(vec![]))]))
        .unwrap();
    assert!(!cfg.test.matches(""));
    assert!(!cfg.test.matches("anything"));
}

#[test]
fn absent_test_matches_nothing() {
    let cfg = TransformVisitor::from_json(&obj(vec![])).unwrap();
    assert!(matches!(cfg.test, Matcher::Null));
    assert!(!cfg.test.matches("foo"));
    assert_eq!(cfg.remove, Remove::All);
}

#[test]
fn remove_effects_selected_by_word() {
    let cfg = TransformVisitor::from_json(&obj(vec![
        ("test", s("foo")),
        ("remove", s("effects")),
    ]))
    .unwrap();
    assert_eq!(cfg.remove, Remove::Effects);
}

#[test]
fn remove_other_word_selects_all() {
    let cfg = TransformVisitor::from_json(&obj(vec![
        ("test", s("foo")),
        ("remove", s("bindings")),
    ]))
    .unwrap();
    assert_eq!(cfg.remove, Remove::All);
}

#[test]
fn remove_non_string_selects_all() {
    let cfg = TransformVisitor::from_json(&obj(vec![
        ("test", s("foo")),
        ("remove", JsonValue::Number),
    ]))
    .unwrap();
    assert_eq!(cfg.remove, Remove::All);
}

#[test]
fn non_object_payload_is_decode_error() {
    assert_eq!(
        TransformVisitor::from_json(&s("foo")).unwrap_err(),
        ConfigError::Decode
    );
    assert_eq!(
        TransformVisitor::from_json(&JsonValue::Null).unwrap_err(),
        ConfigError::Decode
    );
}

#[test]
fn unknown_key_is_decode_error() {
    assert_eq!(
        TransformVisitor::from_json(&obj(vec![("tests", s("foo"))])).unwrap_err(),
        ConfigError::Decode
    );
}

#[test]
fn duplicate_key_is_decode_error() {
    assert_eq!(
        TransformVisitor::from_json(&obj(vec![("test", s("a")), ("test", s("b"))]))
            .unwrap_err(),
        ConfigError::Decode
    );
}

#[test]
fn mistyped_test_is_decode_error() {
    assert_eq!(
        TransformVisitor::from_json(&obj(vec![("test", JsonValue::Number)])).unwrap_err(),
        ConfigError::Decode
    );
    assert_eq!(
        TransformVisitor::from_json(&obj(vec![(
            "test",
            JsonValue::Array(vec![s("ok"), JsonValue::Bool(true)]),
        )]))
        .unwrap_err(),
        ConfigError::Decode
    );
}

#[test]
fn invalid_pattern_is_reported() {
    assert_eq!(
        TransformVisitor::from_json(&obj(vec![("test", s("("))])).unwrap_err(),
        ConfigError::InvalidPattern
    );
    assert_eq!(
        TransformVisitor::from_json(&obj(vec![(
            "test",
            JsonValue::Array(vec![s("fine"), s("[")]),
        )]))
        .unwrap_err(),
        ConfigError::InvalidPattern
    );
}

#[test]
fn shape_errors_win_over_pattern_errors() {
    // A mistyped element anywhere in the list is a decode error even when an
    // earlier element is an invalid pattern: the shape is checked first.
    assert_eq!(
        TransformVisitor::from_json(&obj(vec![(
            "test",
            JsonValue::Array(vec![s("("), JsonValue::Number]),
        )]))
        .unwrap_err(),
        ConfigError::Decode
    );
}

#[test]
fn matcher_new_rejects_bad_pattern() {
    assert_eq!(Matcher::new("(").unwrap_err(), ConfigError::InvalidPattern);
    assert!(Matcher::new("a|b").is_ok());
}
