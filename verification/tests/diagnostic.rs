use do_lang::diagnostic::Diagnostic;
use do_lang::lexer::Span;

const ERROR: &str = "\x1b[1m\x1b[31merror:\x1b[0m ";
const HINT: &str = "\x1b[33mhint:\x1b[0m ";

fn shown(message: &str, location: &str, number: &str, line: &str, marker: &str) -> String {
    format!(
        "{} \x1b[36m{}\x1b[0m\n {}|\t{}\n {}|\t\x1b[91m{}\x1b[0m",
        message,
        location,
        number,
        line,
        " ".repeat(number.len()),
        marker
    )
}

#[test]
fn report_error_has_no_hint() {
    let span = Span { offset: 3, length: 2 };
    let d = Diagnostic::report_error("broken".to_string(), span);
    assert_eq!(d.message, "broken");
    assert_eq!(d.span, span);
    assert!(d.hint.is_none());
}

#[test]
fn report_error_with_hint_keeps_the_hint() {
    let span = Span { offset: 3, length: 2 };
    let other = Span { offset: 0, length: 1 };
    let d = Diagnostic::report_error_with_hint("broken".to_string(), span, ("look".to_string(), other));
    assert_eq!(d.hint, Some(("look".to_string(), other)));
    assert_eq!(d.duplicate().hint, Some(("look".to_string(), other)));
}

#[test]
fn error_on_the_first_line() {
    let d = Diagnostic::report_error("Expected int but got bool".to_string(), Span { offset: 7, length: 1 });
    assert_eq!(
        d.display_diagnostic("test.do", "1 true +"),
        shown(&format!("{}Expected int but got bool", ERROR), "test.do:1:8", "1", "1 true +", "       ^")
    );
}

#[test]
fn error_on_a_later_line() {
    let source = "1 2\n3 four 5\n6";
    let d = Diagnostic::report_error("no".to_string(), Span { offset: 6, length: 4 });
    assert_eq!(
        d.display_diagnostic("a.do", source),
        shown(&format!("{}no", ERROR), "a.do:2:3", "2", "3 four 5", "  ^^^^")
    );
    let d = Diagnostic::report_error("no".to_string(), Span { offset: 13, length: 1 });
    assert_eq!(
        d.display_diagnostic("a.do", source),
        shown(&format!("{}no", ERROR), "a.do:3:1", "3", "6", "^")
    );
}

#[test]
fn line_numbers_with_more_digits() {
    let source = format!("{}x", "\n".repeat(11));
    let d = Diagnostic::report_error("no".to_string(), Span { offset: 11, length: 1 });
    assert_eq!(
        d.display_diagnostic("a.do", &source),
        shown(&format!("{}no", ERROR), "a.do:12:1", "12", "x", "^")
    );
}

#[test]
fn carriage_returns_are_not_shown() {
    let d = Diagnostic::report_error("no".to_string(), Span { offset: 5, length: 2 });
    assert_eq!(
        d.display_diagnostic("a.do", "1 2\r\nab cd\r\n"),
        shown(&format!("{}no", ERROR), "a.do:2:1", "2", "ab cd", "^^")
    );
}

#[test]
fn the_marker_has_at_least_one_caret_and_ends_with_the_line() {
    let d = Diagnostic::report_error("no".to_string(), Span { offset: 2, length: 0 });
    assert_eq!(
        d.display_diagnostic("a.do", "abcd"),
        shown(&format!("{}no", ERROR), "a.do:1:3", "1", "abcd", "  ^")
    );
    let d = Diagnostic::report_error("no".to_string(), Span { offset: 2, length: 10 });
    assert_eq!(
        d.display_diagnostic("a.do", "abcd\nefgh"),
        shown(&format!("{}no", ERROR), "a.do:1:3", "1", "abcd", "  ^^")
    );
    let d = Diagnostic::report_error("no".to_string(), Span { offset: 4, length: 1 });
    assert_eq!(
        d.display_diagnostic("a.do", "abcd"),
        shown(&format!("{}no", ERROR), "a.do:1:5", "1", "abcd", "    ^")
    );
}

#[test]
fn a_span_behind_the_source_shows_the_message_alone() {
    let d = Diagnostic::report_error("no".to_string(), Span { offset: 5, length: 1 });
    assert_eq!(d.display_diagnostic("a.do", "abcd"), format!("{}no", ERROR));
}

#[test]
fn the_hint_follows_the_error() {
    let d = Diagnostic::report_error_with_hint(
        "no".to_string(),
        Span { offset: 2, length: 1 },
        ("defined here".to_string(), Span { offset: 0, length: 1 }),
    );
    let expected = format!(
        "{}\n{}",
        shown(&format!("{}no", ERROR), "a.do:1:3", "1", "a b", "  ^"),
        shown(&format!("{}defined here", HINT), "a.do:1:1", "1", "a b", "^")
    );
    assert_eq!(d.display_diagnostic("a.do", "a b"), expected);
}
