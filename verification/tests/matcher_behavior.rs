use remove_imports::matcher::Matcher;

#[test]
fn null_matches_nothing() {
    let m = Matcher::Null;
    assert!(!m.matches(""));
    assert!(!m.matches("anything"));
}

#[test]
fn pattern_is_unanchored() {
    let m = Matcher::new("\\.(less|css)$").unwrap();
    assert!(m.matches("./index.less"));
    assert!(m.matches("deep/path/style.css"));
    assert!(!m.matches("style.css.map"));
    assert!(!m.matches("uiw"));
}

#[test]
fn empty_pattern_matches_everything() {
    let m = Matcher::new("").unwrap();
    assert!(m.matches(""));
    assert!(m.matches("uiw"));
    assert!(m.matches("./index.less"));
}

#[test]
fn any_of_none_matches_nothing() {
    let m = Matcher::Any(vec![]);
    assert!(!m.matches(""));
    assert!(!m.matches("foo"));
}

#[test]
fn any_of_one_behaves_like_its_child() {
    let child = Matcher::new("^foo$").unwrap();
    let m = Matcher::Any(vec![Matcher::new("^foo$").unwrap()]);
    for text in ["foo", "bar", "foof", ""] {
        assert_eq!(m.matches(text), child.matches(text));
    }
}

#[test]
fn any_result_is_order_independent() {
    let ab = Matcher::Any(vec![
        Matcher::new("^a$").unwrap(),
        Matcher::new("^b$").unwrap(),
    ]);
    let ba = Matcher::Any(vec![
        Matcher::new("^b$").unwrap(),
        Matcher::new("^a$").unwrap(),
    ]);
    for text in ["a", "b", "c", ""] {
        assert_eq!(ab.matches(text), ba.matches(text));
    }
}

#[test]
fn any_result_is_grouping_independent() {
    let flat = Matcher::Any(vec![
        Matcher::new("^a$").unwrap(),
        Matcher::new("^b$").unwrap(),
        Matcher::new("^c$").unwrap(),
    ]);
    let nested = Matcher::Any(vec![
        Matcher::Any(vec![Matcher::new("^a$").unwrap(), Matcher::new("^b$").unwrap()]),
        Matcher::new("^c$").unwrap(),
    ]);
    for text in ["a", "b", "c", "d", ""] {
        assert_eq!(flat.matches(text), nested.matches(text));
    }
}
