use ghostify_dpi::logger::log_line;
use ghostify_dpi::text::{chars_of, concat_text, contains, decimal_text, ends_with, join, replace, same_text};

#[test]
fn log_line_keeps_crlf_ending() {
    assert_eq!(log_line("done\r\n"), "done\r\n");
    assert_eq!(log_line("a\nb\r\n"), "a\nb\r\n");
}

#[test]
fn log_line_converts_every_lf_when_ending_in_lf() {
    assert_eq!(log_line("a\nb\n"), "a\r\nb\r\n");
    assert_eq!(log_line("x\r\ny\n"), "x\r\r\ny\r\n");
    assert_eq!(log_line("\n"), "\r\n");
}

#[test]
fn log_line_completes_cr_ending() {
    assert_eq!(log_line("line\r"), "line\r\n");
}

#[test]
fn log_line_appends_crlf_otherwise() {
    assert_eq!(log_line("plain"), "plain\r\n");
    assert_eq!(log_line(""), "\r\n");
    assert_eq!(log_line("a\nb"), "a\nb\r\n");
}

#[test]
fn log_line_is_idempotent() {
    for msg in ["x", "x\n", "x\r", "x\r\n", "a\nb\n", ""] {
        let once = log_line(msg);
        assert!(once.ends_with("\r\n"));
        assert_eq!(log_line(&once), once);
    }
}

#[test]
fn replace_all_occurrences_left_to_right() {
    assert_eq!(replace("aaa", "aa", "b"), "ba");
    assert_eq!(replace("fill=\"currentColor\"", "currentColor", "white"), "fill=\"white\"");
    assert_eq!(replace("none here", "xyz", "q"), "none here");
    assert_eq!(replace("", "a", "b"), "");
    assert_eq!(replace("ab", "ab", ""), "");
}

#[test]
fn contains_finds_substrings() {
    assert!(contains("GoodbyeDPI is now running", "now"));
    assert!(contains("abc", ""));
    assert!(!contains("abc", "abcd"));
    assert!(!contains("", "a"));
}

#[test]
fn ends_with_checks_suffix() {
    assert!(ends_with("abc", "bc"));
    assert!(ends_with("abc", ""));
    assert!(!ends_with("c", "bc"));
}

#[test]
fn join_puts_separator_between() {
    let parts = vec!["sc.exe".to_string(), "stop".to_string(), "windivert".to_string()];
    assert_eq!(join(&parts, " "), "sc.exe stop windivert");
    assert_eq!(join(&vec![], " "), "");
    assert_eq!(join(&vec!["one".to_string()], ", "), "one");
}

#[test]
fn decimal_text_formats_like_display() {
    assert_eq!(decimal_text(0), "0");
    assert_eq!(decimal_text(7), "7");
    assert_eq!(decimal_text(256), "256");
    assert_eq!(decimal_text(u32::MAX), u32::MAX.to_string());
}

#[test]
fn basic_text_helpers() {
    assert!(same_text("abc", "abc"));
    assert!(!same_text("abc", "abd"));
    assert!(!same_text("ab", "abc"));
    assert_eq!(concat_text("Ghostify", " DPI"), "Ghostify DPI");
    assert_eq!(chars_of("añb"), vec!['a', 'ñ', 'b']);
}
