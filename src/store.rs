//! The persistent store: a SQLite file holding samples, log events and a
//! schema-version marker, migrated to the current layout when opened.
//!
//! The SQL engine is reached through `rusqlite`. Values cross into it as
//! integers and text only: fixed-point fields are scaled to and from their
//! `REAL` columns inside the SQL statements themselves.
use vstd::prelude::*;
use crate::classifier::{parse_rfc3339, rfc3339_seconds};
use crate::metrics::SystemMetrics;
use crate::scanner::{models, EntryModel, LogEntry};
use crate::severity::{severity_from_text, severity_text, Severity};

verus! {

#[verifier::external_type_specification]
#[verifier::external_body]
pub struct ExConnection(rusqlite::Connection);

#[verifier::external_type_specification]
#[verifier::external_body]
pub struct ExSqlError(rusqlite::Error);

/// Layout version this library writes: integer epoch-second timestamps.
pub const SCHEMA_VERSION: i64 = 2;

/// Why a store operation failed.
#[derive(Debug)]
pub enum StoreError {
    /// The SQL engine reported an error.
    Engine(rusqlite::Error),
    /// A field does not fit the engine's signed 64-bit integers.
    OutOfRange,
    /// A stored row does not decode to a record.
    InvalidRow,
    /// The retention period or report window reaches outside the representable time range.
    InvalidPeriod,
}

/// One row handed back by the engine: its integer columns, then its text columns.
pub struct SqlRow {
    pub ints: Vec<i64>,
    pub texts: Vec<String>,
}

/// Relies on `rusqlite::Connection::open`: opens or creates the database at `path`.
#[verifier::external_body]
fn open_connection(path: &str) -> (r: Result<rusqlite::Connection, rusqlite::Error>) {
    rusqlite::Connection::open(path)
}

/// Relies on `rusqlite::Connection::execute`: runs one statement whose numbered
/// parameters are `ints` followed by `texts`, giving the number of changed rows.
#[verifier::external_body]
fn execute(
    conn: &rusqlite::Connection,
    sql: &str,
    ints: &Vec<i64>,
    texts: &Vec<String>,
) -> (r: Result<usize, rusqlite::Error>) {
    let p: Vec<&dyn rusqlite::ToSql> = ints.iter().map(|i| i as &dyn rusqlite::ToSql).chain(
        texts.iter().map(|t| t as &dyn rusqlite::ToSql),
    ).collect();
    conn.execute(sql, p.as_slice())
}

/// Relies on `rusqlite::Statement::query_map`: runs a query whose first `n_ints`
/// columns are read as integers and the next `n_texts` as text.
#[verifier::external_body]
fn query(
    conn: &rusqlite::Connection,
    sql: &str,
    ints: &Vec<i64>,
    n_ints: usize,
    n_texts: usize,
) -> (r: Result<Vec<SqlRow>, rusqlite::Error>)
    requires
        n_ints + n_texts <= usize::MAX,
    ensures
        r matches Ok(rows) ==> forall|k: int|
            0 <= k < rows.len() ==> (#[trigger] rows[k]).ints.len() == n_ints
                && rows[k].texts.len() == n_texts,
{
    let mut stmt = conn.prepare(sql)?;
    let rows = stmt.query_map(rusqlite::params_from_iter(ints.iter()), |row| {
        let a = (0..n_ints).map(|c| row.get(c)).collect::<Result<Vec<i64>, _>>()?;
        let b = (n_ints..n_ints + n_texts).map(|c| row.get(c)).collect::<Result<Vec<String>, _>>()?;
        Ok(SqlRow { ints: a, texts: b })
    })?;
    rows.collect()
}

// ---------------------------------------------------------------------------
// Row encoding

/// A value that fits the engine's integers.
pub open spec fn fits_i64(v: u64) -> bool {
    v <= i64::MAX
}

/// Whether every unsigned field of `m` fits the engine's integers.
pub open spec fn encodable(m: SystemMetrics) -> bool {
    fits_i64(m.memory_total) && fits_i64(m.memory_used) && fits_i64(m.memory_available)
        && fits_i64(m.disk_total) && fits_i64(m.disk_used) && fits_i64(m.process_count)
}

/// The integer parameters a sample is written with, in column order.
pub open spec fn metrics_row(m: SystemMetrics) -> Seq<i64> {
    seq![
        m.timestamp,
        m.cpu_usage as i64,
        m.memory_total as i64,
        m.memory_used as i64,
        m.memory_available as i64,
        m.disk_total as i64,
        m.disk_used as i64,
        m.process_count as i64,
        m.load_avg_1min as i64,
        m.load_avg_5min as i64,
        m.load_avg_15min as i64,
    ]
}

/// Whether a row read back holds only values that a sample can carry.
pub open spec fn decodable(row: Seq<i64>) -> bool {
    &&& row.len() == 11
    &&& 0 <= row[1] <= u32::MAX
    &&& forall|k: int| 2 <= k < 8 ==> 0 <= #[trigger] row[k]
    &&& forall|k: int| 8 <= k < 11 ==> 0 <= #[trigger] row[k] <= u32::MAX
}

/// The sample a decodable row stands for.
pub open spec fn metrics_of_row(row: Seq<i64>) -> SystemMetrics {
    SystemMetrics {
        timestamp: row[0],
        cpu_usage: row[1] as u32,
        memory_total: row[2] as u64,
        memory_used: row[3] as u64,
        memory_available: row[4] as u64,
        disk_total: row[5] as u64,
        disk_used: row[6] as u64,
        process_count: row[7] as u64,
        load_avg_1min: row[8] as u32,
        load_avg_5min: row[9] as u32,
        load_avg_15min: row[10] as u32,
    }
}

fn to_i64(v: u64) -> (r: Option<i64>)
    ensures
        r == (if fits_i64(v) { Some(v as i64) } else { None::<i64> }),
{
    if v <= i64::MAX as u64 {
        Some(v as i64)
    } else {
        None
    }
}

/// The integer parameters of `m`, or `None` when a field exceeds the engine's range.
pub fn encode_metrics(m: &SystemMetrics) -> (r: Option<Vec<i64>>)
    ensures
        r is Some <==> encodable(*m),
        r matches Some(v) ==> v@ == metrics_row(*m),
{
    let mut v: Vec<i64> = Vec::new();
    v.push(m.timestamp);
    v.push(m.cpu_usage as i64);
    v.push(to_i64(m.memory_total)?);
    v.push(to_i64(m.memory_used)?);
    v.push(to_i64(m.memory_available)?);
    v.push(to_i64(m.disk_total)?);
    v.push(to_i64(m.disk_used)?);
    v.push(to_i64(m.process_count)?);
    v.push(m.load_avg_1min as i64);
    v.push(m.load_avg_5min as i64);
    v.push(m.load_avg_15min as i64);
    assert(v@ =~= metrics_row(*m));
    Some(v)
}

/// The sample a row read back stands for, or `None` when it holds a value no sample can carry.
pub fn decode_metrics(row: &Vec<i64>) -> (r: Option<SystemMetrics>)
    ensures
        r is Some <==> decodable(row@),
        r matches Some(m) ==> m == metrics_of_row(row@),
{
    if row.len() != 11 {
        return None;
    }
    if row[1] < 0 || row[1] > u32::MAX as i64 {
        return None;
    }
    let mut k: usize = 2;
    while k < 11
        invariant
            row.len() == 11,
            2 <= k <= 11,
            forall|j: int| 2 <= j < k ==> 0 <= #[trigger] row@[j] && (j >= 8 ==> row@[j] <= u32::MAX),
        decreases 11 - k,
    {
        if row[k] < 0 || (k >= 8 && row[k] > u32::MAX as i64) {
            return None;
        }
        k += 1;
    }
    Some(SystemMetrics {
        timestamp: row[0],
        cpu_usage: row[1] as u32,
        memory_total: row[2] as u64,
        memory_used: row[3] as u64,
        memory_available: row[4] as u64,
        disk_total: row[5] as u64,
        disk_used: row[6] as u64,
        process_count: row[7] as u64,
        load_avg_1min: row[8] as u32,
        load_avg_5min: row[9] as u32,
        load_avg_15min: row[10] as u32,
    })
}

/// Every sample whose fields fit the engine's integers is written as a row that
/// reads back as the same sample, field for field.
pub proof fn lemma_metrics_row_round_trip(m: SystemMetrics)
    requires
        encodable(m),
    ensures
        decodable(metrics_row(m)),
        metrics_of_row(metrics_row(m)) == m,
{
    let row = metrics_row(m);
    assert forall|k: int| 2 <= k < 8 implies 0 <= #[trigger] row[k] by {}
    assert forall|k: int| 8 <= k < 11 implies 0 <= #[trigger] row[k] <= u32::MAX by {}
}

// ---------------------------------------------------------------------------
// Schema versions

/// What opening a store does, given the version marker it finds.
#[derive(Debug, Clone, Copy, PartialEq, Eq, Structural)]
pub enum SchemaAction {
    /// No marker: create the tables at the current layout.
    CreateFresh,
    /// Text timestamps: convert every row to the current layout.
    MigrateFromV1,
    /// Already at the current layout.
    Current,
    /// Written by a later program: warn, and open it all the same.
    NewerThanKnown,
}

/// The action for a found version marker (0 when there is none).
pub open spec fn action_spec(version: i64) -> SchemaAction {
    if version == 1 {
        SchemaAction::MigrateFromV1
    } else if version > SCHEMA_VERSION {
        SchemaAction::NewerThanKnown
    } else if version == SCHEMA_VERSION {
        SchemaAction::Current
    } else {
        SchemaAction::CreateFresh
    }
}

/// The marker written back: it never goes down.
pub open spec fn marker_after(version: i64) -> i64 {
    if version > SCHEMA_VERSION {
        version
    } else {
        SCHEMA_VERSION
    }
}

/// Decides what opening a store with version marker `version` does.
pub fn schema_action(version: i64) -> (r: SchemaAction)
    ensures
        r == action_spec(version),
{
    if version == 1 {
        SchemaAction::MigrateFromV1
    } else if version > SCHEMA_VERSION {
        SchemaAction::NewerThanKnown
    } else if version == SCHEMA_VERSION {
        SchemaAction::Current
    } else {
        SchemaAction::CreateFresh
    }
}

/// The version marker to write after opening a store found at `version`.
pub fn marker_version(version: i64) -> (r: i64)
    ensures
        r == marker_after(version),
        r >= version,
        r >= SCHEMA_VERSION,
{
    if version > SCHEMA_VERSION {
        version
    } else {
        SCHEMA_VERSION
    }
}

/// A row's new timestamp: its old text read as an RFC 3339 date-time, or `now`.
pub open spec fn migrated_seconds(text: Seq<char>, now: i64) -> i64 {
    match rfc3339_seconds(text) {
        Some(t) => t,
        None => now,
    }
}

/// Converts the (id, text timestamp) pairs of a V1 table into (id, epoch
/// seconds) pairs: one per row, in order, ids kept; a timestamp that does not
/// parse becomes `now`.
pub fn migrate_timestamps(rows: &Vec<SqlRow>, now: i64) -> (r: Option<Vec<(i64, i64)>>)
    ensures
        r is Some <==> (forall|k: int| 0 <= k < rows@.len() ==> (#[trigger] rows@[k]).ints@.len() >= 1
            && rows@[k].texts@.len() >= 1),
        r matches Some(v) ==> v@.len() == rows@.len() && forall|k: int|
            0 <= k < v@.len() ==> (#[trigger] v@[k]).0 == rows@[k].ints@[0] && v@[k].1
                == migrated_seconds(rows@[k].texts@[0]@, now),
{
    let mut out: Vec<(i64, i64)> = Vec::new();
    let mut i: usize = 0;
    while i < rows.len()
        invariant
            i <= rows.len(),
            out@.len() == i,
            forall|k: int| 0 <= k < i ==> (#[trigger] rows@[k]).ints@.len() >= 1
                && rows@[k].texts@.len() >= 1,
            forall|k: int|
                0 <= k < i ==> (#[trigger] out@[k]).0 == rows@[k].ints@[0] && out@[k].1
                    == migrated_seconds(rows@[k].texts@[0]@, now),
        decreases rows.len() - i,
    {
        let row = &rows[i];
        if row.ints.len() < 1 || row.texts.len() < 1 {
            return None;
        }
        let t = match parse_rfc3339(row.texts[0].as_str()) {
            Some(t) => t,
            None => now,
        };
        out.push((row.ints[0], t));
        i += 1;
    }
    Some(out)
}

// ---------------------------------------------------------------------------
// Statements

const CREATE_SCHEMA_VERSION: &'static str =
    "CREATE TABLE IF NOT EXISTS schema_version (version INTEGER PRIMARY KEY, app_version TEXT)";

const READ_VERSION: &'static str = "SELECT COALESCE(MAX(version), 0) FROM schema_version";

const READ_APP_VERSION: &'static str = "SELECT app_version FROM schema_version";

const CLEAR_VERSION: &'static str = "DELETE FROM schema_version";

const WRITE_VERSION: &'static str =
    "INSERT INTO schema_version (version, app_version) VALUES (?1, ?2)";

const CREATE_METRICS: &'static str = "CREATE TABLE IF NOT EXISTS system_metrics (
    id INTEGER PRIMARY KEY AUTOINCREMENT,
    timestamp INTEGER NOT NULL,
    cpu_usage REAL NOT NULL,
    memory_total INTEGER NOT NULL,
    memory_used INTEGER NOT NULL,
    memory_available INTEGER NOT NULL,
    disk_total INTEGER NOT NULL,
    disk_used INTEGER NOT NULL,
    process_count INTEGER NOT NULL,
    load_avg_1min REAL NOT NULL,
    load_avg_5min REAL NOT NULL,
    load_avg_15min REAL NOT NULL)";

const CREATE_LOGS: &'static str = "CREATE TABLE IF NOT EXISTS log_entries (
    id INTEGER PRIMARY KEY AUTOINCREMENT,
    timestamp INTEGER NOT NULL,
    level TEXT NOT NULL,
    source TEXT NOT NULL,
    message TEXT NOT NULL)";

const CREATE_METRICS_SHADOW: &'static str = "CREATE TABLE system_metrics_v2 (
    id INTEGER PRIMARY KEY AUTOINCREMENT,
    timestamp INTEGER NOT NULL,
    cpu_usage REAL NOT NULL,
    memory_total INTEGER NOT NULL,
    memory_used INTEGER NOT NULL,
    memory_available INTEGER NOT NULL,
    disk_total INTEGER NOT NULL,
    disk_used INTEGER NOT NULL,
    process_count INTEGER NOT NULL,
    load_avg_1min REAL NOT NULL,
    load_avg_5min REAL NOT NULL,
    load_avg_15min REAL NOT NULL)";

const CREATE_LOGS_SHADOW: &'static str = "CREATE TABLE log_entries_v2 (
    id INTEGER PRIMARY KEY AUTOINCREMENT,
    timestamp INTEGER NOT NULL,
    level TEXT NOT NULL,
    source TEXT NOT NULL,
    message TEXT NOT NULL)";

const READ_OLD_METRICS: &'static str = "SELECT id, timestamp FROM system_metrics ORDER BY id";

const READ_OLD_LOGS: &'static str = "SELECT id, timestamp FROM log_entries ORDER BY id";

const COPY_METRICS_ROW: &'static str = "INSERT INTO system_metrics_v2
    (id, timestamp, cpu_usage, memory_total, memory_used, memory_available,
     disk_total, disk_used, process_count, load_avg_1min, load_avg_5min, load_avg_15min)
    SELECT id, ?2, cpu_usage, memory_total, memory_used, memory_available,
     disk_total, disk_used, process_count, load_avg_1min, load_avg_5min, load_avg_15min
    FROM system_metrics WHERE id = ?1";

const COPY_LOG_ROW: &'static str = "INSERT INTO log_entries_v2 (id, timestamp, level, source, message)
    SELECT id, ?2, level, source, message FROM log_entries WHERE id = ?1";

const DROP_OLD_METRICS: &'static str = "DROP TABLE system_metrics";

const DROP_OLD_LOGS: &'static str = "DROP TABLE log_entries";

const RENAME_METRICS: &'static str = "ALTER TABLE system_metrics_v2 RENAME TO system_metrics";

const RENAME_LOGS: &'static str = "ALTER TABLE log_entries_v2 RENAME TO log_entries";

const INDEX_METRICS_TIME: &'static str =
    "CREATE INDEX IF NOT EXISTS idx_metrics_timestamp ON system_metrics(timestamp)";

const INDEX_LOGS_TIME: &'static str =
    "CREATE INDEX IF NOT EXISTS idx_logs_timestamp ON log_entries(timestamp)";

const INDEX_LOGS_LEVEL: &'static str =
    "CREATE INDEX IF NOT EXISTS idx_logs_level ON log_entries(level)";

const INSERT_METRICS: &'static str = "INSERT INTO system_metrics (
    timestamp, cpu_usage, memory_total, memory_used, memory_available,
    disk_total, disk_used, process_count, load_avg_1min, load_avg_5min, load_avg_15min)
    VALUES (?1, ?2 / 100.0, ?3, ?4, ?5, ?6, ?7, ?8, ?9 / 100.0, ?10 / 100.0, ?11 / 100.0)";

const INSERT_LOG: &'static str =
    "INSERT INTO log_entries (timestamp, level, source, message) VALUES (?1, ?2, ?3, ?4)";

const SELECT_METRICS: &'static str = "SELECT timestamp, CAST(ROUND(cpu_usage * 100) AS INTEGER),
    memory_total, memory_used, memory_available, disk_total, disk_used, process_count,
    CAST(ROUND(load_avg_1min * 100) AS INTEGER), CAST(ROUND(load_avg_5min * 100) AS INTEGER),
    CAST(ROUND(load_avg_15min * 100) AS INTEGER)
    FROM system_metrics WHERE timestamp >= ?1 AND timestamp <= ?2 ORDER BY timestamp DESC";

const SELECT_LOGS: &'static str = "SELECT timestamp, level, source, message FROM log_entries
    WHERE timestamp >= ?1 AND timestamp <= ?2 ORDER BY timestamp DESC";

const DELETE_OLD_METRICS: &'static str = "DELETE FROM system_metrics WHERE timestamp < ?1";

const DELETE_OLD_LOGS: &'static str = "DELETE FROM log_entries WHERE timestamp < ?1";

const BEGIN: &'static str = "BEGIN";

const COMMIT: &'static str = "COMMIT";

const ROLLBACK: &'static str = "ROLLBACK";

const VACUUM: &'static str = "VACUUM";

/// Seconds in a day.
pub const SECONDS_PER_DAY: i64 = 86400;

// ---------------------------------------------------------------------------
// Time arithmetic

/// `now` minus `days` days, when that is a representable instant.
pub open spec fn cutoff_spec(now: i64, days: i64) -> Option<i64> {
    let c = now - days * SECONDS_PER_DAY;
    if i64::MIN <= c <= i64::MAX {
        Some(c as i64)
    } else {
        None
    }
}

/// Computes `cutoff_spec` without overflow.
pub fn retention_cutoff(now: i64, days: i64) -> (r: Option<i64>)
    ensures
        r == cutoff_spec(now, days),
{
    assert(-0x10000_0000_0000_0000_0000 < days as int * 86400 < 0x10000_0000_0000_0000_0000)
        by (nonlinear_arith)
        requires
            i64::MIN <= days <= i64::MAX,
    {}
    let span: i128 = days as i128 * 86400i128;
    let c: i128 = now as i128 - span;
    if c < i64::MIN as i128 || c > i64::MAX as i128 {
        None
    } else {
        Some(c as i64)
    }
}

/// Whether every timestamp of `ts` lies in `[start, end]` and `ts` is ordered newest first.
pub open spec fn window_sorted(ts: Seq<i64>, start: i64, end: i64) -> bool {
    &&& forall|k: int| 0 <= k < ts.len() ==> start <= #[trigger] ts[k] <= end
    &&& forall|k: int, l: int| 0 <= k < l < ts.len() ==> ts[k] >= ts[l]
}

/// The timestamps of a sequence of samples.
pub open spec fn metrics_times(v: Seq<SystemMetrics>) -> Seq<i64> {
    v.map_values(|m: SystemMetrics| m.timestamp)
}

/// The timestamps of a sequence of log entries.
pub open spec fn entry_times(v: Seq<LogEntry>) -> Seq<i64> {
    v.map_values(|e: LogEntry| e.timestamp)
}

fn engine<T>(r: Result<T, rusqlite::Error>) -> (out: Result<T, StoreError>)
    ensures
        r is Ok ==> out == Ok::<T, StoreError>(r->Ok_0),
        r is Err ==> out matches Err(StoreError::Engine(_)),
{
    match r {
        Ok(v) => Ok(v),
        Err(e) => Err(StoreError::Engine(e)),
    }
}

/// The first integer column of each row.
pub open spec fn row_times(rows: Seq<SqlRow>) -> Seq<i64> {
    rows.map_values(|row: SqlRow| row.ints@[0])
}

/// The samples that sample rows stand for.
pub open spec fn rows_metrics(rows: Seq<SqlRow>) -> Seq<SystemMetrics> {
    rows.map_values(|row: SqlRow| metrics_of_row(row.ints@))
}

/// Whether every row decodes to a sample and the rows lie in `[start, end]`, newest first.
pub open spec fn metrics_rows_ok(rows: Seq<SqlRow>, start: i64, end: i64) -> bool {
    &&& forall|k: int| 0 <= k < rows.len() ==> decodable(#[trigger] rows[k].ints@)
    &&& window_sorted(row_times(rows), start, end)
}

/// Decodes the sample rows the engine returned for the window `[start, end]`:
/// `InvalidRow` unless every row decodes and the rows lie in the window, newest first.
pub fn metrics_from_rows(rows: &Vec<SqlRow>, start: i64, end: i64) -> (r: Result<Vec<SystemMetrics>, StoreError>)
    ensures
        r is Ok <==> metrics_rows_ok(rows@, start, end),
        r matches Ok(v) ==> v@ == rows_metrics(rows@),
        r is Err ==> r matches Err(StoreError::InvalidRow),
{
    let mut out: Vec<SystemMetrics> = Vec::new();
    let mut i: usize = 0;
    while i < rows.len()
        invariant
            i <= rows.len(),
            forall|k: int| 0 <= k < i ==> decodable(#[trigger] rows@[k].ints@),
            window_sorted(row_times(rows@.subrange(0, i as int)), start, end),
            out@ == rows_metrics(rows@.subrange(0, i as int)),
        decreases rows.len() - i,
    {
        let ghost times = row_times(rows@);
        let m = match decode_metrics(&rows[i].ints) {
            Some(m) => m,
            None => return Err(StoreError::InvalidRow),
        };
        assert(m.timestamp == times[i as int]);
        if m.timestamp < start || m.timestamp > end {
            return Err(StoreError::InvalidRow);
        }
        if i > 0 && m.timestamp > out[i - 1].timestamp {
            proof {
                assert(out@[i - 1] == rows_metrics(rows@.subrange(0, i as int))[i - 1]);
                assert(times[i - 1] < times[i as int]);
            }
            return Err(StoreError::InvalidRow);
        }
        let ghost before = out@;
        out.push(m);
        proof {
            let prev = rows@.subrange(0, i as int);
            let next = rows@.subrange(0, i + 1);
            assert(next =~= prev.push(rows@[i as int]));
            assert(rows_metrics(next) =~= rows_metrics(prev).push(m));
            assert(row_times(next) =~= row_times(prev).push(m.timestamp));
            if i > 0 {
                assert(before[i - 1].timestamp == row_times(prev)[i - 1]);
            }
        }
        i += 1;
    }
    proof {
        assert(rows@.subrange(0, rows.len() as int) =~= rows@);
    }
    Ok(out)
}

/// Whether a log row holds a timestamp, a known severity name, a source and a message.
pub open spec fn log_row_ok(row: SqlRow) -> bool {
    row.ints@.len() >= 1 && row.texts@.len() >= 3 && severity_from_text(row.texts@[0]@) is Some
}

/// The log entry a well-formed log row stands for.
pub open spec fn log_row_model(row: SqlRow) -> EntryModel {
    EntryModel {
        timestamp: row.ints@[0],
        level: severity_from_text(row.texts@[0]@)->0,
        source: row.texts@[1]@,
        message: row.texts@[2]@,
    }
}

/// Whether an entry passes the severity filter.
pub open spec fn passes(level: Option<Severity>, e: EntryModel) -> bool {
    match level {
        Some(l) => e.level == l,
        None => true,
    }
}

/// The entries of `rows` that pass the severity filter, in order.
pub open spec fn logs_of_rows(rows: Seq<SqlRow>, level: Option<Severity>) -> Seq<EntryModel>
    decreases rows.len(),
{
    if rows.len() == 0 {
        Seq::empty()
    } else if passes(level, log_row_model(rows.last())) {
        logs_of_rows(rows.drop_last(), level).push(log_row_model(rows.last()))
    } else {
        logs_of_rows(rows.drop_last(), level)
    }
}

/// Whether every row is a well-formed log row and the rows lie in `[start, end]`, newest first.
pub open spec fn log_rows_ok(rows: Seq<SqlRow>, start: i64, end: i64) -> bool {
    &&& forall|k: int| 0 <= k < rows.len() ==> log_row_ok(#[trigger] rows[k])
    &&& window_sorted(row_times(rows), start, end)
}

/// Decodes the log rows the engine returned for the window `[start, end]` and
/// keeps those of severity `level`, when one is given: `InvalidRow` unless every
/// row is well formed and the rows lie in the window, newest first.
pub fn logs_from_rows(
    rows: &Vec<SqlRow>,
    start: i64,
    end: i64,
    level: Option<Severity>,
) -> (r: Result<Vec<LogEntry>, StoreError>)
    ensures
        r is Ok <==> log_rows_ok(rows@, start, end),
        r matches Ok(v) ==> models(v@) == logs_of_rows(rows@, level),
        r matches Ok(v) ==> window_sorted(entry_times(v@), start, end),
        r matches Ok(v) ==> level matches Some(l) ==> forall|k: int|
            0 <= k < v@.len() ==> (#[trigger] v@[k]).level == l,
        r is Err ==> r matches Err(StoreError::InvalidRow),
{
    let mut out: Vec<LogEntry> = Vec::new();
    let mut last: i64 = end;
    let mut i: usize = 0;
    while i < rows.len()
        invariant
            i <= rows.len(),
            forall|k: int| 0 <= k < i ==> log_row_ok(#[trigger] rows@[k]),
            window_sorted(row_times(rows@.subrange(0, i as int)), start, end),
            i > 0 ==> last == rows@[i - 1].ints@[0],
            models(out@) == logs_of_rows(rows@.subrange(0, i as int), level),
            window_sorted(entry_times(out@), start, end),
            forall|k: int| 0 <= k < out@.len() ==> (#[trigger] out@[k]).timestamp >= last,
            level matches Some(l) ==> forall|k: int| 0 <= k < out@.len() ==> (#[trigger] out@[k]).level == l,
        decreases rows.len() - i,
    {
        let row = &rows[i];
        let ghost prev = rows@.subrange(0, i as int);
        let ghost next = rows@.subrange(0, i + 1);
        proof {
            assert(next.drop_last() =~= prev);
            assert(next.last() == *row);
        }
        if row.ints.len() < 1 || row.texts.len() < 3 {
            return Err(StoreError::InvalidRow);
        }
        let ts = row.ints[0];
        let sev = match Severity::parse(row.texts[0].as_str()) {
            Some(s) => s,
            None => return Err(StoreError::InvalidRow),
        };
        if ts < start || ts > end {
            assert(row_times(rows@)[i as int] == ts);
            return Err(StoreError::InvalidRow);
        }
        if i > 0 && ts > last {
            assert(row_times(rows@)[i as int] == ts);
            assert(row_times(rows@)[i - 1] == last);
            return Err(StoreError::InvalidRow);
        }
        let keep = match level {
            Some(l) => l == sev,
            None => true,
        };
        if keep {
            let e = LogEntry {
                timestamp: ts,
                level: sev,
                source: row.texts[1].clone(),
                message: row.texts[2].clone(),
            };
            let ghost before = out@;
            assert(e@ == log_row_model(*row));
            out.push(e);
            proof {
                assert(models(out@) =~= models(before).push(e@));
                assert(entry_times(out@) =~= entry_times(before).push(ts));
                assert forall|k: int, l: int| 0 <= k < l < out@.len() implies entry_times(out@)[k]
                    >= entry_times(out@)[l] by {
                    if l == out@.len() - 1 {
                        if k < before.len() {
                            assert(before[k] == out@[k]);
                        }
                    } else {
                        assert(entry_times(before)[k] >= entry_times(before)[l]);
                    }
                }
                assert forall|k: int| 0 <= k < out@.len() implies (#[trigger] out@[k]).timestamp >= ts by {
                    if k < before.len() {
                        assert(before[k] == out@[k]);
                    }
                }
            }
        }
        proof {
            let rp = row_times(prev);
            let rt = row_times(next);
            assert(rt =~= rp.push(ts));
            assert forall|k: int, l: int| 0 <= k < l < rt.len() implies rt[k] >= rt[l] by {
                if l == i {
                    if k < i - 1 {
                        assert(rp[k] >= rp[i - 1]);
                    }
                    assert(rp[i - 1] == last);
                } else {
                    assert(rp[k] >= rp[l]);
                }
            }
            assert forall|k: int| 0 <= k < rt.len() implies start <= #[trigger] rt[k] <= end by {
                if k < i {
                    assert(rp[k] == rt[k]);
                }
            }
        }
        last = ts;
        i += 1;
    }
    proof {
        assert(rows@.subrange(0, rows.len() as int) =~= rows@);
    }
    Ok(out)
}

/// Reads the version marker from the rows of its query: `InvalidRow` unless there
/// is exactly one row with an integer column.
pub fn version_from_rows(rows: &Vec<SqlRow>) -> (r: Result<i64, StoreError>)
    ensures
        r is Ok <==> (rows@.len() == 1 && rows@[0].ints@.len() >= 1),
        r matches Ok(v) ==> v == rows@[0].ints@[0],
        r is Err ==> r matches Err(StoreError::InvalidRow),
{
    if rows.len() != 1 || rows[0].ints.len() < 1 {
        return Err(StoreError::InvalidRow);
    }
    Ok(rows[0].ints[0])
}

/// The integer and text parameters a log entry is written with, in column order.
pub fn encode_log_entry(e: &LogEntry) -> (r: (Vec<i64>, Vec<String>))
    ensures
        r.0@ == seq![e.timestamp],
        r.1@.map_values(|t: String| t@) == seq![severity_text(e.level), e.source@, e.message@],
{
    let mut ints: Vec<i64> = Vec::new();
    ints.push(e.timestamp);
    let mut texts: Vec<String> = Vec::new();
    texts.push(String::from_str(e.level.as_str()));
    texts.push(e.source.clone());
    texts.push(e.message.clone());
    assert(ints@ =~= seq![e.timestamp]);
    assert(texts@.map_values(|t: String| t@) =~= seq![severity_text(e.level), e.source@, e.message@]);
    (ints, texts)
}

/// An open store.
pub struct Store {
    conn: rusqlite::Connection,
    found_version: i64,
}

impl Store {
    /// The version marker found when the store was opened.
    pub closed spec fn version_found(&self) -> i64 {
        self.found_version
    }

    /// The version marker found when the store was opened (0 for none).
    pub fn found_version(&self) -> (r: i64)
        ensures
            r == self.version_found(),
    {
        self.found_version
    }

    /// What opening the store did.
    pub fn action(&self) -> (r: SchemaAction)
        ensures
            r == action_spec(self.version_found()),
    {
        schema_action(self.found_version)
    }

    fn exec(&self, sql: &str) -> (r: Result<usize, StoreError>)
        ensures
            r is Err ==> r matches Err(StoreError::Engine(_)),
    {
        engine(execute(&self.conn, sql, &Vec::new(), &Vec::new()))
    }

    fn exec_ints(&self, sql: &str, ints: &Vec<i64>) -> (r: Result<usize, StoreError>)
        ensures
            r is Err ==> r matches Err(StoreError::Engine(_)),
    {
        engine(execute(&self.conn, sql, ints, &Vec::new()))
    }

    /// The version marker currently stored (0 for none).
    pub fn schema_version(&self) -> (r: Result<i64, StoreError>)
        ensures
            r is Err ==> (r matches Err(StoreError::Engine(_)) || r matches Err(StoreError::InvalidRow)),
    {
        let rows = engine(query(&self.conn, READ_VERSION, &Vec::new(), 1, 0))?;
        version_from_rows(&rows)
    }

    /// The program version recorded with the marker.
    pub fn app_version(&self) -> (r: Result<String, StoreError>)
        ensures
            r is Err ==> (r matches Err(StoreError::Engine(_)) || r matches Err(StoreError::InvalidRow)),
    {
        let mut rows = engine(query(&self.conn, READ_APP_VERSION, &Vec::new(), 0, 1))?;
        if rows.len() != 1 {
            return Err(StoreError::InvalidRow);
        }
        let mut row = rows.pop().unwrap();
        Ok(row.texts.pop().unwrap())
    }

    fn write_marker(&self, version: i64) -> (r: Result<(), StoreError>)
        ensures
            r is Err ==> r matches Err(StoreError::Engine(_)),
    {
        self.exec(CLEAR_VERSION)?;
        let mut texts: Vec<String> = Vec::new();
        texts.push(String::from_str(crate::VERSION));
        let mut ints: Vec<i64> = Vec::new();
        ints.push(version);
        engine(execute(&self.conn, WRITE_VERSION, &ints, &texts))?;
        Ok(())
    }

    fn copy_rows(&self, sql: &str, pairs: &Vec<(i64, i64)>) -> (r: Result<(), StoreError>)
        ensures
            r is Err ==> r matches Err(StoreError::Engine(_)),
    {
        let mut i: usize = 0;
        while i < pairs.len()
            invariant
                i <= pairs.len(),
            decreases pairs.len() - i,
        {
            let mut ints: Vec<i64> = Vec::new();
            ints.push(pairs[i].0);
            ints.push(pairs[i].1);
            self.exec_ints(sql, &ints)?;
            i += 1;
        }
        Ok(())
    }

    fn migrate_tables(&self, now: i64) -> (r: Result<(), StoreError>)
        ensures
            r is Err ==> (r matches Err(StoreError::Engine(_)) || r matches Err(StoreError::InvalidRow)),
    {
        self.exec(CREATE_METRICS_SHADOW)?;
        self.exec(CREATE_LOGS_SHADOW)?;
        let old_metrics = engine(query(&self.conn, READ_OLD_METRICS, &Vec::new(), 1, 1))?;
        let metrics_pairs = match migrate_timestamps(&old_metrics, now) {
            Some(p) => p,
            None => return Err(StoreError::InvalidRow),
        };
        self.copy_rows(COPY_METRICS_ROW, &metrics_pairs)?;
        let old_logs = engine(query(&self.conn, READ_OLD_LOGS, &Vec::new(), 1, 1))?;
        let log_pairs = match migrate_timestamps(&old_logs, now) {
            Some(p) => p,
            None => return Err(StoreError::InvalidRow),
        };
        self.copy_rows(COPY_LOG_ROW, &log_pairs)?;
        self.exec(DROP_OLD_METRICS)?;
        self.exec(DROP_OLD_LOGS)?;
        self.exec(RENAME_METRICS)?;
        self.exec(RENAME_LOGS)?;
        Ok(())
    }

    /// Converts V1 tables to the current layout inside one transaction: every
    /// row is copied under its id, dated as `migrate_timestamps` says, and the
    /// old tables are replaced; on failure the transaction is rolled back.
    fn migrate_v1(&self, now: i64) -> (r: Result<(), StoreError>)
        ensures
            r is Err ==> (r matches Err(StoreError::Engine(_)) || r matches Err(StoreError::InvalidRow)),
    {
        self.exec(BEGIN)?;
        match self.migrate_tables(now) {
            Ok(()) => {
                self.exec(COMMIT)?;
                Ok(())
            },
            Err(e) => {
                let _ = self.exec(ROLLBACK);
                Err(e)
            },
        }
    }

    /// Opens or creates the store at `path` and brings it to the current
    /// layout: a fresh store gets the tables directly, a V1 store is migrated
    /// (rows whose timestamp does not parse are dated `now`), a newer store is
    /// opened as it is. The version marker is then set to `marker_version` of
    /// the found version. Only the engine, or a marker or V1 row it cannot
    /// read, makes this fail.
    pub fn open(path: &str, now: i64) -> (r: Result<Store, StoreError>)
        ensures
            r is Err ==> (r matches Err(StoreError::Engine(_)) || r matches Err(StoreError::InvalidRow)),
    {
        let conn = engine(open_connection(path))?;
        let store = Store { conn, found_version: 0 };
        store.exec(CREATE_SCHEMA_VERSION)?;
        let version = store.schema_version()?;
        if schema_action(version) == SchemaAction::MigrateFromV1 {
            store.migrate_v1(now)?;
        }
        store.exec(CREATE_METRICS)?;
        store.exec(CREATE_LOGS)?;
        store.exec(INDEX_METRICS_TIME)?;
        store.exec(INDEX_LOGS_TIME)?;
        store.exec(INDEX_LOGS_LEVEL)?;
        store.write_marker(marker_version(version))?;
        Ok(Store { conn: store.conn, found_version: version })
    }

    /// Appends one sample, written with the parameters `encode_metrics` gives.
    /// Fails with `OutOfRange`, writing nothing, exactly when a field exceeds
    /// the engine's integers; otherwise only the engine can fail.
    pub fn insert_metrics(&self, m: &SystemMetrics) -> (r: Result<(), StoreError>)
        ensures
            !encodable(*m) <==> r matches Err(StoreError::OutOfRange),
            r is Err ==> (r matches Err(StoreError::OutOfRange) || r matches Err(StoreError::Engine(_))),
    {
        let row = match encode_metrics(m) {
            Some(v) => v,
            None => return Err(StoreError::OutOfRange),
        };
        self.exec_ints(INSERT_METRICS, &row)?;
        Ok(())
    }

    /// Appends one log event, written with the parameters `encode_log_entry`
    /// gives; only the engine can fail.
    pub fn insert_log_entry(&self, e: &LogEntry) -> (r: Result<(), StoreError>)
        ensures
            r is Err ==> r matches Err(StoreError::Engine(_)),
    {
        let (ints, texts) = encode_log_entry(e);
        engine(execute(&self.conn, INSERT_LOG, &ints, &texts))?;
        Ok(())
    }

    /// The samples with timestamp in `[start, end]`, newest first, decoded from
    /// the engine's rows by `metrics_from_rows`.
    pub fn query_metrics(&self, start: i64, end: i64) -> (r: Result<Vec<SystemMetrics>, StoreError>)
        ensures
            r matches Ok(v) ==> window_sorted(metrics_times(v@), start, end),
            r is Err ==> (r matches Err(StoreError::Engine(_)) || r matches Err(StoreError::InvalidRow)),
    {
        let mut ints: Vec<i64> = Vec::new();
        ints.push(start);
        ints.push(end);
        let rows = engine(query(&self.conn, SELECT_METRICS, &ints, 11, 0))?;
        let r = metrics_from_rows(&rows, start, end);
        proof {
            if r is Ok {
                let v = r->Ok_0;
                assert(metrics_times(v@) =~= row_times(rows@));
            }
        }
        r
    }

    /// The log events with timestamp in `[start, end]`, newest first, restricted
    /// to severity `level` when one is given, decoded from the engine's rows by
    /// `logs_from_rows`.
    pub fn query_logs(&self, start: i64, end: i64, level: Option<Severity>) -> (r: Result<Vec<LogEntry>, StoreError>)
        ensures
            r matches Ok(v) ==> window_sorted(entry_times(v@), start, end),
            r matches Ok(v) ==> level matches Some(l) ==> forall|k: int|
                0 <= k < v@.len() ==> (#[trigger] v@[k]).level == l,
            r is Err ==> (r matches Err(StoreError::Engine(_)) || r matches Err(StoreError::InvalidRow)),
    {
        let mut ints: Vec<i64> = Vec::new();
        ints.push(start);
        ints.push(end);
        let rows = engine(query(&self.conn, SELECT_LOGS, &ints, 1, 3))?;
        logs_from_rows(&rows, start, end, level)
    }

    /// Deletes the samples and events older than `now` minus `retention_days`
    /// days, then reclaims the freed space; returns how many of each went.
    /// Fails with `InvalidPeriod`, deleting nothing, exactly when that instant is
    /// not representable.
    pub fn cleanup_old_data(&self, retention_days: i64, now: i64) -> (r: Result<(usize, usize), StoreError>)
        ensures
            cutoff_spec(now, retention_days) is None <==> r matches Err(StoreError::InvalidPeriod),
            r is Err ==> (r matches Err(StoreError::InvalidPeriod) || r matches Err(StoreError::Engine(_))),
    {
        let cutoff = match retention_cutoff(now, retention_days) {
            Some(c) => c,
            None => return Err(StoreError::InvalidPeriod),
        };
        let mut ints: Vec<i64> = Vec::new();
        ints.push(cutoff);
        let metrics_deleted = self.exec_ints(DELETE_OLD_METRICS, &ints)?;
        let logs_deleted = self.exec_ints(DELETE_OLD_LOGS, &ints)?;
        self.exec(VACUUM)?;
        Ok((metrics_deleted, logs_deleted))
    }
}

} // verus!
