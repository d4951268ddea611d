//! Configuration values: store location, thresholds, collection limits,
//! display and retention.
use vstd::prelude::*;
use crate::report::{ThresholdsConfig, MAX_RECENT_ERRORS_DISPLAY};
use crate::scanner::{get_default_log_paths, MAX_LOG_LINES_PER_FILE};

verus! {

/// Default number of days data is kept.
pub const DEFAULT_RETENTION_DAYS: i64 = 30;

/// Default delay, in milliseconds, between the two CPU readings of a sample.
pub const CPU_MEASUREMENT_DELAY_MS: u64 = 200;

/// Where the store lives.
#[derive(Debug)]
pub struct DatabaseConfig {
    pub path: String,
}

/// What is collected, and how much of it.
#[derive(Debug)]
pub struct CollectionConfig {
    /// Log files to scan.
    pub log_paths: Vec<String>,
    /// Maximum number of lines read from each log file.
    pub max_log_lines_per_file: usize,
    /// Delay between the two CPU readings of a sample.
    pub cpu_measurement_delay_ms: u64,
}

/// How reports are shown.
#[derive(Debug, Clone, Copy, PartialEq, Eq, Structural)]
pub struct DisplayConfig {
    /// Maximum number of recent CRITICAL/ERROR events in a report.
    pub max_recent_errors: usize,
}

/// How long data is kept.
#[derive(Debug, Clone, Copy, PartialEq, Eq, Structural)]
pub struct RetentionConfig {
    pub days: i64,
}

/// The whole configuration.
#[derive(Debug)]
pub struct Config {
    pub database: DatabaseConfig,
    pub thresholds: ThresholdsConfig,
    pub collection: CollectionConfig,
    pub display: DisplayConfig,
    pub retention: RetentionConfig,
}

impl Config {
    /// The defaults, with the store at `db_path`: standard thresholds, the
    /// default log files, 1000 lines per file, a 200 ms CPU delay, ten recent
    /// errors and 30 days of retention.
    pub fn with_db_path(db_path: String) -> (r: Config)
        ensures
            r.database.path == db_path,
            r.thresholds.cpu_warning == 9000,
            r.thresholds.memory_warning == 9000,
            r.thresholds.disk_warning == 8500,
            r.thresholds.load_warning == 500,
            r.thresholds.error_count == 10,
            r.collection.log_paths@.map_values(|p: String| p@) == seq![
                "/var/log/syslog"@,
                "/var/log/messages"@,
                "/var/log/kern.log"@,
                "/var/log/auth.log"@,
            ],
            r.collection.max_log_lines_per_file == MAX_LOG_LINES_PER_FILE,
            r.collection.cpu_measurement_delay_ms == CPU_MEASUREMENT_DELAY_MS,
            r.display.max_recent_errors == MAX_RECENT_ERRORS_DISPLAY,
            r.retention.days == DEFAULT_RETENTION_DAYS,
    {
        Config {
            database: DatabaseConfig { path: db_path },
            thresholds: ThresholdsConfig::standard(),
            collection: CollectionConfig {
                log_paths: get_default_log_paths(),
                max_log_lines_per_file: MAX_LOG_LINES_PER_FILE,
                cpu_measurement_delay_ms: CPU_MEASUREMENT_DELAY_MS,
            },
            display: DisplayConfig { max_recent_errors: MAX_RECENT_ERRORS_DISPLAY },
            retention: RetentionConfig { days: DEFAULT_RETENTION_DAYS },
        }
    }
}

} // verus!
