use systers::classifier::{decide_severity, is_skipped_line, parse_datetime, replace_spaces, Classifier};
use systers::severity::Severity;

fn classifier() -> Classifier {
    Classifier::new().expect("patterns compile")
}

#[test]
fn benign_error_token_is_not_ingested() {
    let c = classifier();
    assert_eq!(c.classify("rsync finished error=0"), None);
    assert_eq!(c.classify("check complete: errors=0"), None);
    assert_eq!(c.classify("Completed with NO ERROR"), None);
    assert_eq!(c.classify("Finished without error"), None);
}

#[test]
fn benign_error_with_warning_is_warning() {
    let c = classifier();
    assert_eq!(c.classify("warning: retry done, error=0"), Some(Severity::Warning));
}

#[test]
fn critical_wins_over_error() {
    let c = classifier();
    assert_eq!(c.classify("fatal error: kernel panic"), Some(Severity::Critical));
    assert_eq!(c.classify("Out of memory: process failed"), Some(Severity::Critical));
    assert_eq!(c.classify("oom-killer failed to free memory"), Some(Severity::Critical));
}

#[test]
fn levels_are_case_insensitive() {
    let c = classifier();
    assert_eq!(c.classify("CRITICAL: disk"), Some(Severity::Critical));
    assert_eq!(c.classify("Cannot open socket"), Some(Severity::Error));
    assert_eq!(c.classify("API is DEPRECATED"), Some(Severity::Warning));
    assert_eq!(c.classify("all good"), None);
}

#[test]
fn blank_and_url_lines_are_skipped() {
    let c = classifier();
    assert_eq!(c.classify(""), None);
    assert_eq!(c.classify(" \t "), None);
    assert_eq!(c.classify("http://host/error"), None);
    assert_eq!(c.classify("https://host/critical"), None);
    assert_eq!(c.classify("see http://host/error"), Some(Severity::Error));
}

#[test]
fn timestamps_are_recovered() {
    let c = classifier();
    assert_eq!(c.extract_timestamp("at 2024-01-02T03:04:05Z boot"), Some(1_704_164_645));
    assert_eq!(c.extract_timestamp("2024-01-02 03:04:05+01:00 x"), Some(1_704_161_045));
    assert_eq!(c.extract_timestamp("2024-01-02T03:04:05 no zone"), None);
    assert_eq!(c.extract_timestamp("no time here"), None);
}

#[test]
fn datetime_text_parses_in_both_forms() {
    assert_eq!(parse_datetime("1970-01-01T00:01:00Z"), Some(60));
    assert_eq!(parse_datetime("1970-01-01 00:01:00+00:00"), Some(60));
    assert_eq!(parse_datetime("yesterday"), None);
    assert_eq!(replace_spaces("a b c"), "aTbTc");
}

#[test]
fn severity_names_round_trip() {
    for s in [Severity::Critical, Severity::Error, Severity::Warning] {
        assert_eq!(Severity::parse(s.as_str()), Some(s));
    }
    assert_eq!(Severity::parse("error"), None);
    assert_eq!(Severity::Error.as_str(), "ERROR");
}

#[test]
fn severity_rule_on_given_match_results() {
    assert_eq!(decide_severity(true, "kernel panic", true, true, true), None);
    assert_eq!(decide_severity(false, "x", true, true, true), Some(Severity::Critical));
    assert_eq!(decide_severity(false, "disk ok, error=0", false, true, false), None);
    assert_eq!(decide_severity(false, "disk ok, error=0", false, true, true), Some(Severity::Warning));
    assert_eq!(decide_severity(false, "read failed", false, true, true), Some(Severity::Error));
    assert_eq!(decide_severity(false, "fine", false, false, false), None);
    assert!(is_skipped_line("   ", ""));
    assert!(is_skipped_line("https://a", "https://a"));
    assert!(!is_skipped_line(" error", "error"));
}
