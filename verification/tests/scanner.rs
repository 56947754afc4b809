//! Tests of the vulnerability scan over line-oriented listing text.

use evil::{line_is_weak, lines_of, scan_listing, split_tokens, weak_location_report};

#[test]
fn scan_reports_true_when_some_line_ends_with_weak() {
    let content = "Madrid,strong\nLas Vegas,weak\nNew York,strong";
    assert_eq!(weak_location_report(Some(content)), Some(true));
}

#[test]
fn scan_reports_false_when_no_line_ends_with_weak() {
    let content = "Madrid,strong\nOregon,strong\nNew York,strong";
    assert_eq!(weak_location_report(Some(content)), Some(false));
}

#[test]
fn scan_of_unreadable_listing_is_unknown() {
    assert_eq!(weak_location_report(None), None);
}

#[test]
fn scan_of_empty_listing_reports_false() {
    assert_eq!(weak_location_report(Some("")), Some(false));
}

#[test]
fn scan_matches_only_a_trailing_marker() {
    assert!(line_is_weak("Las Vegas,weak"));
    assert!(line_is_weak("weak"));
    assert!(!line_is_weak("wea"));
    assert!(!line_is_weak("weakly"));
    assert!(!line_is_weak("strong"));
    assert!(!line_is_weak(""));
}

#[test]
fn scan_stops_at_the_first_weak_line() {
    assert_eq!(scan_listing("a,weak\nb,weak"), true);
    assert_eq!(scan_listing("a,weak\n"), true);
}

#[test]
fn lines_split_at_line_breaks_and_drop_carriage_returns() {
    let lines = lines_of("one\r\ntwo\nthree\n");
    assert_eq!(lines, vec!["one", "two", "three"]);
    let empty: Vec<String> = Vec::new();
    assert_eq!(lines_of(""), empty);
    assert_eq!(lines_of("\n"), vec![""]);
}

#[test]
fn tokens_split_on_whitespace_runs() {
    let tokens = split_tokens("  Lex \t Luthor ");
    assert_eq!(tokens, vec!["Lex", "Luthor"]);
    let none: Vec<String> = Vec::new();
    assert_eq!(split_tokens("   "), none);
    assert_eq!(split_tokens(""), none);
    assert_eq!(split_tokens("A B C"), vec!["A", "B", "C"]);
}
