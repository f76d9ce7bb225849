use latex_backend::diagnostic::{CompileError, Severity};
use latex_backend::extract::{
    classify_captures, classify_line, classify_log, extract_diagnostics, line_number_from,
    or_fallback, scan, LineKind, LineRules, ANCHOR_PATTERN, DEFAULT_MESSAGE, MESSAGE_PATTERN,
};

fn error(line: u32, message: &str) -> CompileError {
    CompileError { line, message: message.to_string(), severity: Severity::Error }
}

fn extract(log: &str) -> Vec<CompileError> {
    extract_diagnostics(log).unwrap()
}

#[test]
fn message_and_anchor_give_one_diagnostic() {
    let log = "error: Undefined control sequence.\nl.3 \\foo";
    assert_eq!(extract(log), vec![error(3, "Undefined control sequence.")]);
}

#[test]
fn message_and_anchor_need_not_be_adjacent() {
    let log = "error: Missing $ inserted.\n<inserted text>\n   $\nl.17 x^2\nsome more";
    assert_eq!(extract(log), vec![error(17, "Missing $ inserted.")]);
}

#[test]
fn each_pair_gives_a_diagnostic_in_log_order() {
    let log = "error: first\nl.9 a\nnoise\nerror: second\nmore noise\nl.2 b\n";
    assert_eq!(extract(log), vec![error(9, "first"), error(2, "second")]);
}

#[test]
fn anchor_without_message_gets_the_default_message() {
    assert_eq!(extract("l.5 \\bar"), vec![error(5, "Compilation error")]);
    assert_eq!(DEFAULT_MESSAGE, "Compilation error");
}

#[test]
fn second_anchor_after_one_message_gets_the_default_message() {
    let log = "error: only once\nl.1 a\nl.2 b";
    assert_eq!(extract(log), vec![error(1, "only once"), error(2, "Compilation error")]);
}

#[test]
fn later_message_replaces_the_one_that_waits() {
    let log = "error: lost\nerror: kept\nl.4 x";
    assert_eq!(extract(log), vec![error(4, "kept")]);
}

#[test]
fn messages_without_anchor_give_the_whole_log() {
    let log = "  error: something\nerror: something else\n\n";
    assert_eq!(extract(log), vec![error(0, "error: something\nerror: something else")]);
}

#[test]
fn message_after_the_last_anchor_is_dropped() {
    let log = "error: a\nl.1 x\nerror: dangling";
    assert_eq!(extract(log), vec![error(1, "a")]);
}

#[test]
fn log_without_any_pattern_gives_the_whole_log() {
    assert_eq!(extract("\n  plain failure text \n"), vec![error(0, "plain failure text")]);
}

#[test]
fn empty_log_gives_one_empty_diagnostic() {
    assert_eq!(extract(""), vec![error(0, "")]);
    assert_eq!(extract(" \n\t\n"), vec![error(0, "")]);
}

#[test]
fn extraction_never_gives_an_empty_list() {
    for log in ["", "x", "error: y", "l.1", "\n\n", "error:\nl.0"] {
        assert!(!extract(log).is_empty());
    }
}

#[test]
fn same_log_gives_same_diagnostics() {
    let log = "error: a\nnoise\nl.12 z\nl.13 z\nerror: b";
    let first = extract(log);
    let second = extract(&log.to_string());
    assert_eq!(first, second);
    assert_eq!(first, vec![error(12, "a"), error(13, "Compilation error")]);
}

#[test]
fn lines_are_trimmed_before_they_are_matched() {
    let log = "   error:    spaced out   \r\n\t l.8 text\r\n";
    assert_eq!(extract(log), vec![error(8, "spaced out")]);
}

#[test]
fn patterns_match_at_the_start_of_the_line_only() {
    let log = "note: error: not a message\nsee l.4\nxl.5";
    assert_eq!(extract(log), vec![error(0, "note: error: not a message\nsee l.4\nxl.5")]);
}

#[test]
fn message_may_be_empty() {
    assert_eq!(extract("error:\nl.2"), vec![error(2, "")]);
}

#[test]
fn anchor_needs_a_digit_after_the_dot() {
    assert_eq!(extract("l. 3"), vec![error(0, "l. 3")]);
    assert_eq!(extract("l.x"), vec![error(0, "l.x")]);
}

#[test]
fn anchor_number_ends_at_the_first_other_character() {
    assert_eq!(extract("l.12abc"), vec![error(12, "Compilation error")]);
    assert_eq!(extract("l.007"), vec![error(7, "Compilation error")]);
}

#[test]
fn anchor_number_too_large_gives_line_zero() {
    assert_eq!(extract("error: big\nl.4294967296 x"), vec![error(0, "big")]);
    assert_eq!(extract("l.4294967295"), vec![error(4294967295, "Compilation error")]);
}

#[test]
fn anchor_with_digits_of_another_script_gives_line_zero() {
    assert_eq!(extract("error: m\nl.٣ x"), vec![error(0, "m")]);
}

#[test]
fn message_line_wins_over_anchor_line() {
    assert_eq!(classify_line("error: l.5").unwrap(), LineKind::Message("l.5".to_string()));
}

#[test]
fn classify_line_tells_the_three_kinds_apart() {
    assert_eq!(classify_line("error: oops").unwrap(), LineKind::Message("oops".to_string()));
    assert_eq!(classify_line("l.42 \\x").unwrap(), LineKind::Anchor(42));
    assert_eq!(classify_line("warning: hm").unwrap(), LineKind::Other);
    assert_eq!(classify_line("").unwrap(), LineKind::Other);
    assert_eq!(classify_line("Error: capital").unwrap(), LineKind::Other);
}

#[test]
fn classify_line_does_not_hand_the_line_back() {
    assert_eq!(classify_line("error:   x").unwrap(), LineKind::Message("x".to_string()));
    assert_ne!(classify_line("error:   x").unwrap(), LineKind::Message("error:   x".to_string()));
}

#[test]
fn classify_captures_asks_the_message_first() {
    assert_eq!(
        classify_captures(Some(" m ".to_string()), Some("3".to_string())),
        LineKind::Message("m".to_string())
    );
    assert_eq!(classify_captures(None, Some("3".to_string())), LineKind::Anchor(3));
    assert_eq!(classify_captures(None, Some("x".to_string())), LineKind::Anchor(0));
    assert_eq!(classify_captures(None, None), LineKind::Other);
}

#[test]
fn classify_log_gives_one_kind_for_each_line() {
    let kinds = classify_log("error: a\n\n l.3 \nrest").unwrap();
    assert_eq!(
        kinds,
        vec![LineKind::Message("a".to_string()), LineKind::Other, LineKind::Anchor(3), LineKind::Other]
    );
    assert_eq!(classify_log("").unwrap(), Vec::<LineKind>::new());
}

#[test]
fn line_number_from_defaults_to_zero() {
    assert_eq!(line_number_from("15"), 15);
    assert_eq!(line_number_from(""), 0);
    assert_eq!(line_number_from("99999999999"), 0);
    assert_eq!(line_number_from("1x"), 0);
}

#[test]
fn scan_pairs_each_anchor_with_the_waiting_message() {
    let kinds = vec![
        LineKind::Anchor(1),
        LineKind::Message("a".to_string()),
        LineKind::Other,
        LineKind::Message("b".to_string()),
        LineKind::Anchor(2),
        LineKind::Anchor(3),
        LineKind::Message("c".to_string()),
    ];
    assert_eq!(
        scan(&kinds),
        vec![error(1, "Compilation error"), error(2, "b"), error(3, "Compilation error")]
    );
}

#[test]
fn scan_of_no_anchor_is_empty() {
    let kinds = vec![LineKind::Message("a".to_string()), LineKind::Other];
    assert_eq!(scan(&kinds), Vec::<CompileError>::new());
    assert_eq!(scan(&Vec::new()), Vec::<CompileError>::new());
}

#[test]
fn or_fallback_keeps_what_was_found() {
    let found = vec![error(3, "x")];
    assert_eq!(or_fallback(found, "whole log"), vec![error(3, "x")]);
}

#[test]
fn or_fallback_reports_the_trimmed_log_where_nothing_was_found() {
    assert_eq!(or_fallback(Vec::new(), "\n whole\nlog \n"), vec![error(0, "whole\nlog")]);
}

#[test]
fn patterns_are_those_of_the_compiler_log() {
    assert_eq!(MESSAGE_PATTERN, r"^error:\s*(.*)$");
    assert_eq!(ANCHOR_PATTERN, r"^l\.(\d+)");
}

#[test]
fn line_rules_compile() {
    assert!(LineRules::compile().is_ok());
}

#[test]
fn compiled_rules_classify_every_line_alike() {
    let rules = LineRules::compile().unwrap();
    for line in ["error: oops", "l.42 \\x", "warning: hm", "", "error:", "l.", "l.0"] {
        assert_eq!(rules.classify(line), classify_line(line).unwrap());
    }
    assert_eq!(rules.classify("error:  two  words "), LineKind::Message("two  words".to_string()));
    assert_eq!(rules.classify("l.31"), LineKind::Anchor(31));
}

#[test]
fn compiled_rules_classify_a_whole_log() {
    let rules = LineRules::compile().unwrap();
    let log = "error: a\r\n\n l.3 \nrest";
    assert_eq!(rules.classify_all(log), classify_log(log).unwrap());
    assert_eq!(
        rules.classify_all(log),
        vec![LineKind::Message("a".to_string()), LineKind::Other, LineKind::Anchor(3), LineKind::Other]
    );
}

#[test]
fn compiled_rules_serve_for_many_logs() {
    let rules = LineRules::compile().unwrap();
    assert_eq!(rules.extract("error: a\nl.1"), vec![error(1, "a")]);
    assert_eq!(rules.extract("l.2"), vec![error(2, "Compilation error")]);
    assert_eq!(rules.extract(" nothing "), vec![error(0, "nothing")]);
    assert_eq!(rules.extract(""), vec![error(0, "")]);
    for log in ["error: x\nerror: y\nl.9 z", "plain", "l.1\nl.2"] {
        assert_eq!(rules.extract(log), extract_diagnostics(log).unwrap());
    }
}
