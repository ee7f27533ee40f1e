use fylex::project::{Project, ProjectConfig, VcsState};
use fylex::render::{render, wrap_words};
use fylex::session::SessionState;

fn words(ws: &[&str]) -> Vec<String> {
    ws.iter().map(|w| w.to_string()).collect()
}

fn catalog() -> Vec<Project> {
    vec![
        Project {
            path: "/dev/alpha".to_string(),
            dir_name: "alpha".to_string(),
            config: Some(ProjectConfig {
                name: "Alpha App".to_string(),
                description: "one two three four five".to_string(),
                tags: vec!["web".to_string(), "rust".to_string()],
                created_at: String::new(),
            }),
            vcs_state: Some(VcsState::Clean),
        },
        Project {
            path: "/dev/beta".to_string(),
            dir_name: "beta".to_string(),
            config: None,
            vcs_state: Some(VcsState::Modified),
        },
        Project {
            path: "/dev/gamma".to_string(),
            dir_name: "gamma".to_string(),
            config: None,
            vcs_state: None,
        },
    ]
}

#[test]
fn wrap_greedy_without_splitting_words() {
    let r = wrap_words(&words(&["one", "two", "three", "four"]), 9, 10);
    assert_eq!(r, vec!["one two", "three", "four"]);
}

#[test]
fn wrap_long_word_stands_alone() {
    let r = wrap_words(&words(&["a", "verylongword", "b"]), 4, 10);
    assert_eq!(r, vec!["a", "verylongword", "b"]);
}

#[test]
fn wrap_drops_lines_beyond_height() {
    let r = wrap_words(&words(&["aa", "bb", "cc", "dd"]), 2, 2);
    assert_eq!(r, vec!["aa", "bb"]);
    assert!(wrap_words(&words(&["aa"]), 10, 0).is_empty());
    assert!(wrap_words(&Vec::new(), 10, 3).is_empty());
}

#[test]
fn render_lists_rows_with_markers() {
    let s = SessionState::new(catalog());
    let screen = render(&s, "/dev", 24, 80);
    assert_eq!(screen.filter, "");
    assert!(screen.header.contains("/dev"));
    assert_eq!(screen.list_width, 32);
    assert_eq!(screen.detail_left, 34);
    assert_eq!(screen.list.len(), 3);
    assert_eq!(screen.list[0].row, 3);
    assert_eq!(screen.list[0].label, "Alpha App");
    assert_eq!(screen.list[0].suffix, " | V");
    assert!(screen.list[0].selected);
    assert_eq!(screen.list[1].label, "beta");
    assert_eq!(screen.list[1].suffix, " | M");
    assert!(!screen.list[1].selected);
    assert_eq!(screen.list[2].suffix, "");
    let d = screen.details.unwrap();
    assert_eq!(d.name, "Alpha App");
    assert_eq!(d.path, "/dev/alpha");
    assert_eq!(d.tags, "web, rust");
    assert_eq!(d.description, vec!["one two three four five"]);
}

#[test]
fn render_truncates_list_and_description() {
    let mut s = SessionState::new(catalog());
    let screen = render(&s, "/dev", 5, 20);
    assert_eq!(screen.list.len(), 1);
    assert_eq!(screen.list_width, 8);
    assert!(screen.details.unwrap().description.is_empty());
    let screen = render(&s, "/dev", 9, 20);
    // width 20 - 8 - 4 = 8; one row for the description
    assert_eq!(screen.details.unwrap().description, vec!["one two"]);
    s.move_cursor(1);
    let screen = render(&s, "/dev", 24, 80);
    assert!(screen.list[1].selected);
    let d = screen.details.unwrap();
    assert_eq!(d.name, "(No config file set)");
    assert_eq!(d.tags, "");
    assert!(d.description.is_empty());
}

#[test]
fn render_tiny_terminal_does_not_fail() {
    let s = SessionState::new(catalog());
    let screen = render(&s, "/dev", 0, 0);
    assert!(screen.list.is_empty());
    assert_eq!(screen.list_width, 0);
}

#[test]
fn render_empty_list_has_no_details() {
    let mut s = SessionState::new(catalog());
    s.apply_filter("nomatch");
    let screen = render(&s, "/dev", 24, 80);
    assert!(screen.list.is_empty());
    assert!(screen.details.is_none());
    assert_eq!(screen.filter, "nomatch");
}
