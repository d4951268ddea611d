use systers::classifier::Classifier;
use systers::scanner::{
    collect_log_entries, get_default_log_paths, scan_system_logs_with_paths, LogFile, LogRead,
    MAX_LOG_LINES_PER_FILE,
};
use systers::severity::Severity;

fn lines(v: &[&str]) -> Vec<String> {
    v.iter().map(|s| s.to_string()).collect()
}

fn classifier() -> Classifier {
    Classifier::new().expect("patterns compile")
}

const FALLBACK: i64 = 1_700_000_000;

#[test]
fn test_collect_log_entries_with_errors() {
    let c = classifier();
    let input = lines(&[
        "This is a normal log line",
        "This line contains an error message",
        "Another normal line",
        "WARNING: This is a warning",
        "CRITICAL: System failure detected",
        "Connection failed to database",
    ]);
    let entries = collect_log_entries(&c, &input, "test.log", FALLBACK, 100);
    assert!(entries.len() >= 4);
    assert!(entries.iter().any(|e| e.level == Severity::Error));
    assert!(entries.iter().any(|e| e.level == Severity::Warning));
    assert!(entries.iter().any(|e| e.level == Severity::Critical));
}

#[test]
fn test_collect_log_entries_filters_normal() {
    let c = classifier();
    let input = lines(&[
        "Application started successfully",
        "Processing user request",
        "Database connection established",
    ]);
    let entries = collect_log_entries(&c, &input, "test.log", FALLBACK, 100);
    assert_eq!(entries.len(), 0);
}

#[test]
fn test_collect_log_entries_respects_limit() {
    let c = classifier();
    let input: Vec<String> = (0..100).map(|i| format!("Error message {}", i)).collect();
    let entries = collect_log_entries(&c, &input, "test.log", FALLBACK, 10);
    assert_eq!(entries.len(), 10);
}

#[test]
fn test_collect_log_entries_source() {
    let c = classifier();
    let input = lines(&["Error: test error"]);
    let entries = collect_log_entries(&c, &input, "/tmp/logs/test.log", FALLBACK, 100);
    assert_eq!(entries.len(), 1);
    assert_eq!(entries[0].source, "/tmp/logs/test.log");
}

#[test]
fn test_collect_log_entries_case_insensitive() {
    let c = classifier();
    let input = lines(&[
        "ERROR in uppercase",
        "error in lowercase",
        "ErRoR in mixed case",
        "WARNING in uppercase",
        "warning in lowercase",
    ]);
    let entries = collect_log_entries(&c, &input, "test.log", FALLBACK, 100);
    assert_eq!(entries.len(), 5);
}

#[test]
fn test_collect_log_entries_empty_file() {
    let c = classifier();
    let entries = collect_log_entries(&c, &Vec::new(), "test.log", FALLBACK, 100);
    assert_eq!(entries.len(), 0);
}

#[test]
fn test_scan_system_logs_with_custom_paths() {
    let c = classifier();
    let files = vec![
        LogFile {
            path: "/tmp/app1.log".to_string(),
            read: LogRead::Lines(lines(&["ERROR: Database connection failed", "Normal log line"])),
        },
        LogFile {
            path: "/tmp/app2.log".to_string(),
            read: LogRead::Lines(lines(&["WARNING: Low memory", "CRITICAL: System panic"])),
        },
        LogFile {
            path: "/tmp/app3.log".to_string(),
            read: LogRead::Lines(lines(&["Normal operations"])),
        },
    ];
    let report = scan_system_logs_with_paths(&c, &files, FALLBACK, MAX_LOG_LINES_PER_FILE);
    let entries = report.entries;
    assert_eq!(entries.len(), 3);
    assert_eq!(entries.iter().filter(|e| e.level == Severity::Error).count(), 1);
    assert_eq!(entries.iter().filter(|e| e.level == Severity::Warning).count(), 1);
    assert_eq!(entries.iter().filter(|e| e.level == Severity::Critical).count(), 1);
    assert!(entries.iter().any(|e| e.source == "/tmp/app1.log"));
    assert!(entries.iter().any(|e| e.source == "/tmp/app2.log"));
}

#[test]
fn test_scan_system_logs_with_default_paths() {
    let c = classifier();
    let files: Vec<LogFile> = get_default_log_paths()
        .into_iter()
        .map(|p| LogFile { path: p, read: LogRead::PermissionDenied })
        .collect();
    let report = scan_system_logs_with_paths(&c, &files, FALLBACK, MAX_LOG_LINES_PER_FILE);
    assert_eq!(report.entries.len(), 0);
    assert_eq!(report.warnings.len(), 4);
    assert!(report.warnings.iter().all(|w| w.permission_denied));
}

#[test]
fn test_scan_system_logs_with_nonexistent_paths() {
    let c = classifier();
    let files = vec![LogFile {
        path: "/tmp/nonexistent_log_file_12345.log".to_string(),
        read: LogRead::Missing,
    }];
    let report = scan_system_logs_with_paths(&c, &files, FALLBACK, MAX_LOG_LINES_PER_FILE);
    assert_eq!(report.entries.len(), 0);
    assert_eq!(report.warnings.len(), 0);
}

#[test]
fn scan_three_lines_gives_error_error_warning() {
    let c = classifier();
    let files = vec![LogFile {
        path: "test.log".to_string(),
        read: LogRead::Lines(lines(&[
            "ERROR in uppercase",
            "error in lowercase",
            "WARNING in uppercase",
        ])),
    }];
    let report = scan_system_logs_with_paths(&c, &files, FALLBACK, MAX_LOG_LINES_PER_FILE);
    let levels: Vec<Severity> = report.entries.iter().map(|e| e.level).collect();
    assert_eq!(levels, vec![Severity::Error, Severity::Error, Severity::Warning]);
}

#[test]
fn scan_of_empty_or_benign_files_is_empty() {
    let c = classifier();
    let files = vec![
        LogFile { path: "empty.log".to_string(), read: LogRead::Lines(Vec::new()) },
        LogFile {
            path: "benign.log".to_string(),
            read: LogRead::Lines(lines(&[
                "job finished error=0",
                "sync done, errors=0",
                "completed with no error",
                "backup finished without error",
                "",
                "   ",
                "https://example.com/error/failed",
            ])),
        },
    ];
    let report = scan_system_logs_with_paths(&c, &files, FALLBACK, MAX_LOG_LINES_PER_FILE);
    assert_eq!(report.entries.len(), 0);
}

#[test]
fn unreadable_file_warns_and_scan_goes_on() {
    let c = classifier();
    let files = vec![
        LogFile { path: "a.log".to_string(), read: LogRead::Unreadable },
        LogFile { path: "b.log".to_string(), read: LogRead::Lines(lines(&["fatal: disk gone"])) },
    ];
    let report = scan_system_logs_with_paths(&c, &files, FALLBACK, MAX_LOG_LINES_PER_FILE);
    assert_eq!(report.entries.len(), 1);
    assert_eq!(report.warnings.len(), 1);
    assert_eq!(report.warnings[0].path, "a.log");
    assert!(!report.warnings[0].permission_denied);
}

#[test]
fn entry_keeps_trimmed_message_and_dates() {
    let c = classifier();
    let input = lines(&[
        "  2024-01-02T03:04:05Z kernel: segfault at 0  ",
        "warning: disk almost full",
    ]);
    let entries = collect_log_entries(&c, &input, "k.log", FALLBACK, 100);
    assert_eq!(entries.len(), 2);
    assert_eq!(entries[0].level, Severity::Critical);
    assert_eq!(entries[0].message, "2024-01-02T03:04:05Z kernel: segfault at 0");
    assert_eq!(entries[0].timestamp, 1_704_164_645);
    assert_eq!(entries[1].timestamp, FALLBACK);
}

#[test]
fn default_log_paths_are_the_four_system_logs() {
    assert_eq!(
        get_default_log_paths(),
        vec!["/var/log/syslog", "/var/log/messages", "/var/log/kern.log", "/var/log/auth.log"]
    );
}
