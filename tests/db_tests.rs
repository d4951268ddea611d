use systers::metrics::SystemMetrics;
use systers::scanner::LogEntry;
use systers::severity::Severity;
use systers::store::{
    decode_metrics, encode_log_entry, encode_metrics, logs_from_rows, metrics_from_rows,
    retention_cutoff, schema_action, version_from_rows, SchemaAction, SqlRow, Store, StoreError,
    SCHEMA_VERSION,
};

fn now() -> i64 {
    chrono::Utc::now().timestamp()
}

fn sample(ts: i64, cpu: u32) -> SystemMetrics {
    SystemMetrics {
        timestamp: ts,
        cpu_usage: cpu,
        memory_total: 16_000_000_000,
        memory_used: 8_000_000_000,
        memory_available: 8_000_000_000,
        disk_total: 500_000_000_000,
        disk_used: 250_000_000_000,
        process_count: 150,
        load_avg_1min: 150,
        load_avg_5min: 120,
        load_avg_15min: 100,
    }
}

fn entry(ts: i64, level: Severity, message: &str) -> LogEntry {
    LogEntry {
        timestamp: ts,
        level,
        source: "test".to_string(),
        message: message.to_string(),
    }
}

/// Creates a file-backed database at `path` holding V1 tables with the given rows.
fn write_v1_store(path: &str, metrics: usize, logs: usize) {
    let conn = rusqlite::Connection::open(path).unwrap();
    conn.execute_batch(
        "DROP TABLE IF EXISTS system_metrics;
         DROP TABLE IF EXISTS log_entries;
         DROP TABLE IF EXISTS system_metrics_v2;
         DROP TABLE IF EXISTS log_entries_v2;
         DROP TABLE IF EXISTS schema_version;
         CREATE TABLE schema_version (version INTEGER PRIMARY KEY, app_version TEXT);
         INSERT INTO schema_version VALUES (1, '0.0.1');
         CREATE TABLE system_metrics (
            id INTEGER PRIMARY KEY AUTOINCREMENT, timestamp TEXT NOT NULL,
            cpu_usage REAL NOT NULL, memory_total INTEGER NOT NULL, memory_used INTEGER NOT NULL,
            memory_available INTEGER NOT NULL, disk_total INTEGER NOT NULL, disk_used INTEGER NOT NULL,
            process_count INTEGER NOT NULL, load_avg_1min REAL NOT NULL, load_avg_5min REAL NOT NULL,
            load_avg_15min REAL NOT NULL);
         CREATE TABLE log_entries (
            id INTEGER PRIMARY KEY AUTOINCREMENT, timestamp TEXT NOT NULL, level TEXT NOT NULL,
            source TEXT NOT NULL, message TEXT NOT NULL);",
    )
    .unwrap();
    for i in 0..metrics {
        let ts = if i == 0 {
            "not a time".to_string()
        } else {
            format!("2024-01-0{}T00:00:00+00:00", i)
        };
        conn.execute(
            "INSERT INTO system_metrics VALUES (NULL, ?1, 12.5, 100, 50, 50, 1000, 500, 7, 0.5, 0.25, 0.75)",
            [ts],
        )
        .unwrap();
    }
    for i in 0..logs {
        let ts = format!("2024-02-0{} 10:00:00.000+00:00", i + 1);
        conn.execute(
            "INSERT INTO log_entries VALUES (NULL, ?1, 'ERROR', 'v1', 'old message')",
            [ts],
        )
        .unwrap();
    }
}

fn table_names(path: &str) -> Vec<String> {
    let conn = rusqlite::Connection::open(path).unwrap();
    let mut stmt = conn.prepare("SELECT name FROM sqlite_master WHERE type='table'").unwrap();
    let names = stmt
        .query_map([], |row| row.get::<_, String>(0))
        .unwrap()
        .collect::<Result<Vec<_>, _>>()
        .unwrap();
    names
}

#[test]
fn test_init_database() {
    let path = "/tmp/systers_init_test.db";
    write_v1_store(path, 0, 0);
    let conn = rusqlite::Connection::open(path).unwrap();
    conn.execute_batch(
        "DROP TABLE system_metrics; DROP TABLE log_entries; DROP TABLE schema_version;",
    )
    .unwrap();
    drop(conn);
    let store = Store::open(path, now()).unwrap();
    let tables = table_names(path);
    assert!(tables.contains(&"schema_version".to_string()));
    assert!(tables.contains(&"system_metrics".to_string()));
    assert!(tables.contains(&"log_entries".to_string()));
    assert_eq!(store.schema_version().unwrap(), SCHEMA_VERSION);
    assert_eq!(store.app_version().unwrap(), systers::VERSION);
    assert_eq!(store.action(), SchemaAction::CreateFresh);
}

#[test]
fn test_metrics_insert_and_query() {
    let store = Store::open(":memory:", now()).unwrap();
    let t = now();
    let mut m = sample(t, 4550);
    m.process_count = 150;
    store.insert_metrics(&m).unwrap();
    let results = store.query_metrics(t - 3600, t + 3600).unwrap();
    assert_eq!(results.len(), 1);
    assert_eq!(results[0].cpu_usage, 4550);
    assert_eq!(results[0].process_count, 150);
}

#[test]
fn test_query_metrics_empty() {
    let store = Store::open(":memory:", now()).unwrap();
    let t = now();
    let results = store.query_metrics(t - 3600, t).unwrap();
    assert_eq!(results.len(), 0);
}

#[test]
fn test_logs_insert_and_query() {
    let store = Store::open(":memory:", now()).unwrap();
    let t = now();
    store.insert_log_entry(&entry(t, Severity::Error, "Test error message")).unwrap();
    store.insert_log_entry(&entry(t, Severity::Warning, "Test warning message")).unwrap();
    let all = store.query_logs(t - 3600, t + 3600, None).unwrap();
    assert_eq!(all.len(), 2);
    let errors = store.query_logs(t - 3600, t + 3600, Some(Severity::Error)).unwrap();
    assert_eq!(errors.len(), 1);
    assert_eq!(errors[0].level, Severity::Error);
    assert_eq!(errors[0].message, "Test error message");
    assert_eq!(errors[0].source, "test");
}

#[test]
fn test_query_metrics_time_range() {
    let store = Store::open(":memory:", now()).unwrap();
    let t = now();
    for i in 0..10 {
        store.insert_metrics(&sample(t - i * 3600, 1000)).unwrap();
    }
    let recent = store.query_metrics(t - 5 * 3600 + 1, t).unwrap();
    assert_eq!(recent.len(), 5);
    let all = store.query_metrics(t - 24 * 3600, t).unwrap();
    assert_eq!(all.len(), 10);
}

#[test]
fn test_indices_exist() {
    let path = "/tmp/systers_index_test.db";
    write_v1_store(path, 0, 0);
    let _store = Store::open(path, now()).unwrap();
    let conn = rusqlite::Connection::open(path).unwrap();
    let mut stmt = conn.prepare("SELECT name FROM sqlite_master WHERE type='index'").unwrap();
    let names = stmt
        .query_map([], |row| row.get::<_, String>(0))
        .unwrap()
        .collect::<Result<Vec<_>, _>>()
        .unwrap();
    assert!(names.contains(&"idx_metrics_timestamp".to_string()));
    assert!(names.contains(&"idx_logs_timestamp".to_string()));
    assert!(names.contains(&"idx_logs_level".to_string()));
}

#[test]
fn test_cleanup_old_data() {
    let store = Store::open(":memory:", now()).unwrap();
    let t = now();
    for i in 0..5 {
        store.insert_metrics(&sample(t - i * 86400, 3000)).unwrap();
    }
    for i in 31..35 {
        store.insert_metrics(&sample(t - i * 86400, 3000)).unwrap();
    }
    for i in 31..33 {
        store.insert_log_entry(&entry(t - i * 86400, Severity::Error, "Old error")).unwrap();
    }
    let (metrics_deleted, logs_deleted) = store.cleanup_old_data(30, t).unwrap();
    assert_eq!(metrics_deleted, 4);
    assert_eq!(logs_deleted, 2);
    let remaining = store.query_metrics(t - 100 * 86400, t + 86400).unwrap();
    assert_eq!(remaining.len(), 5);
}

#[test]
fn cleanup_twice_deletes_nothing_the_second_time() {
    let store = Store::open(":memory:", now()).unwrap();
    let t = now();
    store.insert_metrics(&sample(t - 40 * 86400, 100)).unwrap();
    store.insert_metrics(&sample(t, 100)).unwrap();
    store.insert_log_entry(&entry(t - 40 * 86400, Severity::Warning, "old")).unwrap();
    assert_eq!(store.cleanup_old_data(30, t).unwrap(), (1, 1));
    assert_eq!(store.cleanup_old_data(30, t).unwrap(), (0, 0));
}

#[test]
fn cleanup_with_unrepresentable_period_fails() {
    let store = Store::open(":memory:", now()).unwrap();
    assert!(matches!(store.cleanup_old_data(i64::MAX, 0), Err(StoreError::InvalidPeriod)));
    assert_eq!(retention_cutoff(1000, 0), Some(1000));
    assert_eq!(retention_cutoff(86400 * 2, 1), Some(86400));
    assert_eq!(retention_cutoff(i64::MIN, 1), None);
}

#[test]
fn sample_fields_survive_the_store() {
    let store = Store::open(":memory:", now()).unwrap();
    let cases = [
        (0u64, 0u64, 0u64),
        (16_000_000_000, 15_000_000_000, 1_000_000_000),
        (i64::MAX as u64, i64::MAX as u64 - 1, 1),
    ];
    let mut t = 1_000_000;
    for (total, used, avail) in cases {
        let m = SystemMetrics {
            timestamp: t,
            cpu_usage: 9999,
            memory_total: total,
            memory_used: used,
            memory_available: avail,
            disk_total: total,
            disk_used: used,
            process_count: 123,
            load_avg_1min: 1,
            load_avg_5min: 255,
            load_avg_15min: 100_000,
        };
        store.insert_metrics(&m).unwrap();
        let back = store.query_metrics(t, t).unwrap();
        assert_eq!(back, vec![m]);
        t += 10;
    }
}

#[test]
fn oversized_field_is_refused() {
    let store = Store::open(":memory:", now()).unwrap();
    let mut m = sample(5, 1);
    m.disk_total = u64::MAX;
    assert!(matches!(store.insert_metrics(&m), Err(StoreError::OutOfRange)));
    assert_eq!(encode_metrics(&m), None);
    assert_eq!(store.query_metrics(0, 10).unwrap().len(), 0);
}

#[test]
fn encoded_row_decodes_to_the_same_sample() {
    let m = sample(42, 777);
    let row = encode_metrics(&m).unwrap();
    assert_eq!(row, vec![42, 777, 16_000_000_000, 8_000_000_000, 8_000_000_000, 500_000_000_000, 250_000_000_000, 150, 150, 120, 100]);
    assert_eq!(decode_metrics(&row), Some(m));
    let mut bad = row.clone();
    bad[3] = -1;
    assert_eq!(decode_metrics(&bad), None);
}

#[test]
fn queries_come_newest_first() {
    let store = Store::open(":memory:", now()).unwrap();
    for ts in [100, 300, 200] {
        store.insert_metrics(&sample(ts, 1)).unwrap();
        store.insert_log_entry(&entry(ts, Severity::Critical, "x")).unwrap();
    }
    let ms: Vec<i64> = store.query_metrics(100, 300).unwrap().iter().map(|m| m.timestamp).collect();
    assert_eq!(ms, vec![300, 200, 100]);
    let ls: Vec<i64> = store.query_logs(150, 300, None).unwrap().iter().map(|e| e.timestamp).collect();
    assert_eq!(ls, vec![300, 200]);
}

#[test]
fn v1_store_is_migrated_on_open() {
    let path = "/tmp/systers_migration_test.db";
    write_v1_store(path, 3, 2);
    let t = now();
    let store = Store::open(path, t).unwrap();
    assert_eq!(store.found_version(), 1);
    assert_eq!(store.action(), SchemaAction::MigrateFromV1);
    assert_eq!(store.schema_version().unwrap(), SCHEMA_VERSION);
    let metrics = store.query_metrics(i64::MIN, i64::MAX).unwrap();
    assert_eq!(metrics.len(), 3);
    assert_eq!(metrics[0].timestamp, t);
    assert_eq!(metrics[1].timestamp, 1_704_153_600);
    assert_eq!(metrics[2].timestamp, 1_704_067_200);
    assert_eq!(metrics[0].cpu_usage, 1250);
    assert_eq!(metrics[0].load_avg_15min, 75);
    let logs = store.query_logs(i64::MIN, i64::MAX, None).unwrap();
    assert_eq!(logs.len(), 2);
    assert_eq!(logs[1].timestamp, 1_706_781_600);
    let tables = table_names(path);
    assert!(!tables.contains(&"system_metrics_v2".to_string()));
    assert!(!tables.contains(&"log_entries_v2".to_string()));
    drop(store);
    let again = Store::open(path, t).unwrap();
    assert_eq!(again.action(), SchemaAction::Current);
    assert_eq!(again.query_metrics(i64::MIN, i64::MAX).unwrap().len(), 3);
}

#[test]
fn schema_actions_follow_the_marker() {
    assert_eq!(schema_action(0), SchemaAction::CreateFresh);
    assert_eq!(schema_action(1), SchemaAction::MigrateFromV1);
    assert_eq!(schema_action(2), SchemaAction::Current);
    assert_eq!(schema_action(3), SchemaAction::NewerThanKnown);
}

#[test]
fn newer_store_keeps_its_marker() {
    let path = "/tmp/systers_newer_test.db";
    write_v1_store(path, 0, 0);
    let conn = rusqlite::Connection::open(path).unwrap();
    conn.execute_batch("DELETE FROM schema_version; INSERT INTO schema_version VALUES (7, 'x');")
        .unwrap();
    drop(conn);
    let store = Store::open(path, now()).unwrap();
    assert_eq!(store.action(), SchemaAction::NewerThanKnown);
    assert_eq!(store.schema_version().unwrap(), 7);
}

fn int_row(v: Vec<i64>) -> SqlRow {
    SqlRow { ints: v, texts: Vec::new() }
}

fn log_row(ts: i64, level: &str, source: &str, message: &str) -> SqlRow {
    SqlRow {
        ints: vec![ts],
        texts: vec![level.to_string(), source.to_string(), message.to_string()],
    }
}

#[test]
fn sample_rows_decode_in_order() {
    let a = encode_metrics(&sample(30, 100)).unwrap();
    let b = encode_metrics(&sample(20, 200)).unwrap();
    let got = metrics_from_rows(&vec![int_row(a.clone()), int_row(b.clone())], 10, 30).unwrap();
    assert_eq!(got, vec![sample(30, 100), sample(20, 200)]);
    assert!(matches!(
        metrics_from_rows(&vec![int_row(b.clone()), int_row(a.clone())], 10, 30),
        Err(StoreError::InvalidRow)
    ));
    assert!(matches!(metrics_from_rows(&vec![int_row(a.clone())], 31, 40), Err(StoreError::InvalidRow)));
    assert!(matches!(metrics_from_rows(&vec![int_row(vec![1, 2])], 0, 10), Err(StoreError::InvalidRow)));
    assert_eq!(metrics_from_rows(&Vec::new(), 0, 10).unwrap(), Vec::new());
}

#[test]
fn log_rows_decode_and_filter() {
    let rows = vec![
        log_row(30, "ERROR", "s", "e1"),
        log_row(25, "WARNING", "s", "w1"),
        log_row(20, "ERROR", "t", "e2"),
    ];
    let all = logs_from_rows(&rows, 0, 40, None).unwrap();
    assert_eq!(all.len(), 3);
    assert_eq!(all[1].level, Severity::Warning);
    let errors = logs_from_rows(&rows, 0, 40, Some(Severity::Error)).unwrap();
    let msgs: Vec<&str> = errors.iter().map(|e| e.message.as_str()).collect();
    assert_eq!(msgs, vec!["e1", "e2"]);
    assert_eq!(errors[1].source, "t");
    assert!(matches!(
        logs_from_rows(&vec![log_row(5, "INFO", "s", "m")], 0, 40, None),
        Err(StoreError::InvalidRow)
    ));
    assert!(matches!(logs_from_rows(&rows, 21, 40, None), Err(StoreError::InvalidRow)));
}

#[test]
fn version_and_log_encoding() {
    assert_eq!(version_from_rows(&vec![int_row(vec![2])]).unwrap(), 2);
    assert!(matches!(version_from_rows(&Vec::new()), Err(StoreError::InvalidRow)));
    assert!(matches!(
        version_from_rows(&vec![int_row(vec![1]), int_row(vec![2])]),
        Err(StoreError::InvalidRow)
    ));
    let (ints, texts) = encode_log_entry(&entry(7, Severity::Critical, "boom"));
    assert_eq!(ints, vec![7]);
    assert_eq!(texts, vec!["CRITICAL".to_string(), "test".to_string(), "boom".to_string()]);
}
