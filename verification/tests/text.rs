use kanban_protocol::derived::default_board;
use kanban_protocol::text::{
    ascii_lower_str, chars_contains, chars_ends_with, chars_eq, chars_starts_with,
    has_surrounding_white_space_str, is_blank_str, push_decimal, push_quoted, push_str,
    str_chars,
};

fn text(chars: &[char]) -> String {
    chars.iter().collect()
}

#[test]
fn white_space_follows_unicode() {
    assert!(is_blank_str(" "));
    assert!(is_blank_str("\u{3000}"));
    assert!(is_blank_str("\u{85}"));
    assert!(!is_blank_str("x"));
    assert!(is_blank_str(" \t\u{a0}"));
    assert!(is_blank_str(""));
    assert!(!is_blank_str(" a "));
    assert!(has_surrounding_white_space_str(" a"));
    assert!(has_surrounding_white_space_str("a\n"));
    assert!(!has_surrounding_white_space_str("a b"));
    assert!(!has_surrounding_white_space_str(""));
}

#[test]
fn text_pieces_compare_and_search() {
    let s = str_chars("cli.task-step-add.output");
    assert!(chars_starts_with(&s, "cli.task-"));
    assert!(!chars_starts_with(&s, "api."));
    assert!(chars_ends_with(&s, ".output"));
    assert!(chars_contains(&s, "step"));
    assert!(!chars_contains(&s, "ontology"));
    assert!(chars_eq(&s, &str_chars("cli.task-step-add.output")));
    assert_eq!(default_board(), "default");
    assert_eq!(ascii_lower_str("Accept-Language"), str_chars("accept-language"));
}

#[test]
fn text_is_rendered() {
    let mut out = Vec::new();
    push_str(&mut out, "n=");
    push_decimal(&mut out, 4051);
    push_str(&mut out, " name=");
    push_quoted(&mut out, &str_chars("a\"b\\"));
    assert_eq!(text(&out), "n=4051 name=\"a\\\"b\\\\\"");
    let mut zero = Vec::new();
    push_decimal(&mut zero, 0);
    assert_eq!(text(&zero), "0");
}
