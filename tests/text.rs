use fylex::project::{haystack_of, Project, ProjectConfig};
use fylex::text::{is_white, join, split_words, trim};

#[test]
fn join_with_separator() {
    let parts = vec!["a".to_string(), "bc".to_string(), "".to_string()];
    assert_eq!(join(&parts, ", "), "a, bc, ");
    assert_eq!(join(&Vec::new(), ","), "");
    assert_eq!(join(&vec!["one".to_string()], ","), "one");
}

#[test]
fn trim_removes_outer_whitespace() {
    assert_eq!(trim("  foo bar \t\n"), "foo bar");
    assert_eq!(trim("   "), "");
    assert_eq!(trim("x"), "x");
}

#[test]
fn haystack_folds_name_and_tags() {
    let p = Project {
        path: "/r/x".to_string(),
        dir_name: "x".to_string(),
        config: Some(ProjectConfig {
            name: "MyApp".to_string(),
            description: String::new(),
            tags: vec!["Rust".to_string(), "CLI".to_string()],
            created_at: String::new(),
        }),
        vcs_state: None,
    };
    assert_eq!(p.haystack(), "myapp rust,cli");
    assert_eq!(p.display_name(), "MyApp");
    assert!(p.matches_folded("app rust"));
    assert!(!p.matches_folded("App"));
}

#[test]
fn haystack_without_record() {
    let p = Project {
        path: "/r/Dir".to_string(),
        dir_name: "Dir".to_string(),
        config: None,
        vcs_state: None,
    };
    assert_eq!(p.haystack(), "dir ");
    assert_eq!(p.display_name(), "Dir");
}

#[test]
fn whitespace_matches_std() {
    for c in ['\t', '\n', '\u{b}', '\u{c}', '\r', ' ', '\u{85}', '\u{a0}', '\u{1680}', '\u{2000}', '\u{200a}', '\u{2028}', '\u{2029}', '\u{202f}', '\u{205f}', '\u{3000}'] {
        assert!(is_white(c));
    }
    for c in ['a', '_', '\u{200b}', '\u{180e}', '\u{feff}', '\u{8}', '\u{e}'] {
        assert!(!is_white(c));
    }
    for code in 0u32..0x3100 {
        if let Some(c) = char::from_u32(code) {
            assert_eq!(is_white(c), c.is_whitespace());
        }
    }
}

#[test]
fn split_into_words() {
    assert_eq!(split_words("  one\ttwo  three\n"), vec!["one", "two", "three"]);
    assert!(split_words("").is_empty());
    assert!(split_words(" \t ").is_empty());
    assert_eq!(split_words("x"), vec!["x"]);
}

#[test]
fn haystack_from_folded_parts() {
    assert_eq!(haystack_of("alpha", &Vec::new()), "alpha ");
    assert_eq!(haystack_of("beta", &vec!["infra".to_string()]), "beta infra");
    assert_eq!(haystack_of("x", &vec!["a".to_string(), "b".to_string()]), "x a,b");
}
