//! Text shaping for the terminal: array caps, wrapping, casing, control characters.

use astrid::render_text::{
    format_elapsed, max_array_items, sanitize_control_chars, to_pascal_case, word_wrap_line,
    wrapped_line_count,
};
use astrid::render_text::build_breadcrumb;

#[test]
fn array_cap_scales_with_terminal_height() {
    // Tall terminal (60 rows, 2 keys): 60/3 - 4 = 16
    assert_eq!(max_array_items(60, 2), 16);
    // Short terminal (18 rows, 2 keys): 18/3 - 4 = 2
    assert_eq!(max_array_items(18, 2), 2);
    // Very short terminal (9 rows, 2 keys): 9/3 - 4 = 0 -> clamped to 1
    assert_eq!(max_array_items(9, 2), 1);
    // Many keys (24 rows, 8 keys): 24/3 - 10 = 0 -> clamped to 1
    assert_eq!(max_array_items(24, 8), 1);
}

#[test]
fn pascal_case_of_snake_names() {
    assert_eq!(to_pascal_case("read_file"), "ReadFile");
    assert_eq!(to_pascal_case("a__b"), "AB");
    assert_eq!(to_pascal_case(""), "");
}

#[test]
fn elapsed_minutes_and_seconds() {
    assert_eq!(format_elapsed(59), None);
    assert_eq!(format_elapsed(60), Some("1m 00s".to_string()));
    assert_eq!(format_elapsed(125), Some("2m 05s".to_string()));
    assert_eq!(format_elapsed(3671), Some("61m 11s".to_string()));
}

#[test]
fn wrap_keeps_short_lines() {
    assert_eq!(word_wrap_line("short", 10), vec!["short".to_string()]);
    assert_eq!(word_wrap_line("anything goes", 0), vec!["anything goes".to_string()]);
}

#[test]
fn wrap_fills_greedily_and_keeps_indent() {
    assert_eq!(
        word_wrap_line("  - alpha beta gamma", 10),
        vec!["  - alpha".to_string(), "beta gamma".to_string()]
    );
    assert_eq!(
        word_wrap_line("aaa bbb ccc", 7),
        vec!["aaa bbb".to_string(), "ccc".to_string()]
    );
}

#[test]
fn line_count_of_wrapped_text() {
    assert_eq!(wrapped_line_count("", 10), 1);
    assert_eq!(wrapped_line_count("abc", 0), 1);
    assert_eq!(wrapped_line_count("aaa bbb ccc", 7), 2);
    assert_eq!(wrapped_line_count("aaa bbb ccc", 100), 1);
}

#[test]
fn control_characters_are_removed() {
    assert_eq!(sanitize_control_chars("a\u{1b}[31mb\nc\u{7f}"), "a[31mb\nc");
    assert_eq!(sanitize_control_chars("tab\there"), "tabhere");
}

#[test]
fn breadcrumb_shows_last_three_components_under_home() {
    assert_eq!(build_breadcrumb("/home/ann/src/astrid/crates", "/home/ann"), ["~", "src", "astrid", "crates"]);
    assert_eq!(build_breadcrumb("/home/ann/src", "/home/ann"), ["~", "src"]);
    assert_eq!(build_breadcrumb("/home/ann", "/home/ann"), ["~"]);
    assert_eq!(build_breadcrumb("/opt/a/b/c/d", "/home/ann"), ["~", "b", "c", "d"]);
    assert_eq!(build_breadcrumb("/opt/a", ""), ["opt", "a"]);
    assert_eq!(build_breadcrumb("/", "/home/ann"), ["/"]);
    assert_eq!(build_breadcrumb("", ""), [""]);
}
