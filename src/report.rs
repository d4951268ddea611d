//! Aggregation of a window of samples and events into a report.
use vstd::prelude::*;
use crate::decimal::{push_hundredths, push_str, push_tenths, hundredths_text, tenths_text};
use crate::metrics::{percent_of, SystemMetrics};
use crate::scanner::{models, EntryModel, LogEntry};
use crate::severity::Severity;
use crate::store::{entry_times, metrics_times, window_sorted, Store, StoreError};
use crate::text::{chars_of, string_of};

verus! {

/// Issue-detection thresholds, in the fixed-point units of `SystemMetrics`.
#[derive(Debug, Clone, Copy, PartialEq, Eq, Structural)]
pub struct ThresholdsConfig {
    /// Peak CPU usage, in hundredths of a percent, above which an issue is raised.
    pub cpu_warning: u64,
    /// Peak memory use, in hundredths of a percent.
    pub memory_warning: u64,
    /// Peak disk use, in hundredths of a percent.
    pub disk_warning: u64,
    /// Peak 1-minute load average, in hundredths.
    pub load_warning: u64,
    /// Number of errors above which the logs deserve a closer look.
    pub error_count: usize,
}

/// The standard thresholds: CPU 90%, memory 90%, disk 85%, load 5.00, ten errors.
pub open spec fn standard_thresholds() -> ThresholdsConfig {
    ThresholdsConfig {
        cpu_warning: 9000,
        memory_warning: 9000,
        disk_warning: 8500,
        load_warning: 500,
        error_count: 10,
    }
}

impl ThresholdsConfig {
    /// CPU 90%, memory 90%, disk 85%, load 5.00, ten errors.
    pub fn standard() -> (r: ThresholdsConfig)
        ensures
            r == standard_thresholds(),
            r.cpu_warning == 9000,
            r.memory_warning == 9000,
            r.disk_warning == 8500,
            r.load_warning == 500,
            r.error_count == 10,
    {
        ThresholdsConfig {
            cpu_warning: 9000,
            memory_warning: 9000,
            disk_warning: 8500,
            load_warning: 500,
            error_count: 10,
        }
    }
}

/// A finding about the window; values are the peaks that broke a threshold.
#[derive(Debug, Clone, Copy, PartialEq, Eq, Structural)]
pub enum Issue {
    /// The window holds no samples.
    NoData,
    /// Peak CPU usage, in hundredths of a percent.
    HighCpu(u64),
    /// Peak memory use, in hundredths of a percent.
    HighMemory(u64),
    /// Peak disk use, in hundredths of a percent.
    HighDisk(u64),
    /// Peak 1-minute load average, in hundredths.
    HighLoad(u64),
}

/// The human-readable text of an issue.
pub open spec fn issue_text(i: Issue) -> Seq<char> {
    match i {
        Issue::NoData => "No data available for the specified time period"@,
        Issue::HighCpu(v) => "HIGH CPU USAGE: Peak CPU usage reached "@ + tenths_text(v as nat) + "%"@,
        Issue::HighMemory(v) => "HIGH MEMORY USAGE: Peak memory usage reached "@ + tenths_text(
            v as nat,
        ) + "%"@,
        Issue::HighDisk(v) => "HIGH DISK USAGE: Disk usage reached "@ + tenths_text(v as nat)
            + "%"@,
        Issue::HighLoad(v) => "HIGH LOAD: System load average reached "@ + hundredths_text(
            v as nat,
        ),
    }
}

impl Issue {
    /// The human-readable text of this issue.
    pub fn message(&self) -> (r: String)
        ensures
            r@ == issue_text(*self),
    {
        let mut out: Vec<char> = Vec::new();
        match *self {
            Issue::NoData => {
                push_str(&mut out, "No data available for the specified time period");
            },
            Issue::HighCpu(v) => {
                push_str(&mut out, "HIGH CPU USAGE: Peak CPU usage reached ");
                push_tenths(&mut out, v);
                push_str(&mut out, "%");
            },
            Issue::HighMemory(v) => {
                push_str(&mut out, "HIGH MEMORY USAGE: Peak memory usage reached ");
                push_tenths(&mut out, v);
                push_str(&mut out, "%");
            },
            Issue::HighDisk(v) => {
                push_str(&mut out, "HIGH DISK USAGE: Disk usage reached ");
                push_tenths(&mut out, v);
                push_str(&mut out, "%");
            },
            Issue::HighLoad(v) => {
                push_str(&mut out, "HIGH LOAD: System load average reached ");
                push_hundredths(&mut out, v);
            },
        }
        assert(out@ =~= issue_text(*self));
        string_of(&out)
    }
}

/// A per-sample statistic that the report aggregates.
#[derive(Debug, Clone, Copy, PartialEq, Eq, Structural)]
pub enum Stat {
    Cpu,
    MemoryPercent,
    DiskPercent,
    Processes,
    Load1,
}

/// The value of statistic `k` for one sample.
pub open spec fn stat_of(m: SystemMetrics, k: Stat) -> int {
    match k {
        Stat::Cpu => m.cpu_usage as int,
        Stat::MemoryPercent => percent_of(m.memory_used, m.memory_total),
        Stat::DiskPercent => percent_of(m.disk_used, m.disk_total),
        Stat::Processes => m.process_count as int,
        Stat::Load1 => m.load_avg_1min as int,
    }
}

/// The sum of statistic `k` over `s`.
pub open spec fn sum_stat(s: Seq<SystemMetrics>, k: Stat) -> int
    decreases s.len(),
{
    if s.len() == 0 {
        0
    } else {
        sum_stat(s.drop_last(), k) + stat_of(s.last(), k)
    }
}

/// The largest value of statistic `k` over `s`, or 0 for none.
pub open spec fn max_stat(s: Seq<SystemMetrics>, k: Stat) -> int
    decreases s.len(),
{
    if s.len() == 0 {
        0
    } else {
        let m = max_stat(s.drop_last(), k);
        let v = stat_of(s.last(), k);
        if v > m {
            v
        } else {
            m
        }
    }
}

/// The mean of statistic `k` over non-empty `s`, rounded down.
pub open spec fn avg_stat(s: Seq<SystemMetrics>, k: Stat) -> int {
    sum_stat(s, k) / (s.len() as int)
}

fn stat_value(m: &SystemMetrics, k: Stat) -> (r: u64)
    ensures
        r == stat_of(*m, k),
{
    match k {
        Stat::Cpu => m.cpu_usage as u64,
        Stat::MemoryPercent => m.memory_percent(),
        Stat::DiskPercent => m.disk_percent(),
        Stat::Processes => m.process_count,
        Stat::Load1 => m.load_avg_1min as u64,
    }
}

proof fn lemma_mean_bounded(s: int, n: int, b: int)
    requires
        n > 0,
        0 <= s <= n * b,
    ensures
        0 <= s / n <= b,
{
    assert(s / n <= b) by (nonlinear_arith)
        requires
            n > 0,
            s <= n * b,
    {}
    assert(s / n >= 0) by (nonlinear_arith)
        requires
            n > 0,
            s >= 0,
    {}
}

/// Mean (rounded down) and maximum of statistic `k` over non-empty `ms`.
pub fn mean_and_max(ms: &Vec<SystemMetrics>, k: Stat) -> (r: (u64, u64))
    requires
        ms.len() > 0,
    ensures
        r.0 == avg_stat(ms@, k),
        r.1 == max_stat(ms@, k),
{
    let mut sum: u128 = 0;
    let mut max: u64 = 0;
    let mut i: usize = 0;
    while i < ms.len()
        invariant
            i <= ms.len(),
            sum == sum_stat(ms@.subrange(0, i as int), k),
            max == max_stat(ms@.subrange(0, i as int), k),
            sum <= i * 18446744073709551615u128,
        decreases ms.len() - i,
    {
        let v = stat_value(&ms[i], k);
        proof {
            assert(ms@.subrange(0, i + 1).drop_last() =~= ms@.subrange(0, i as int));
        }
        sum = sum + v as u128;
        if v > max {
            max = v;
        }
        i += 1;
    }
    proof {
        assert(ms@.subrange(0, ms.len() as int) =~= ms@);
        lemma_mean_bounded(sum as int, ms.len() as int, 18446744073709551615);
    }
    ((sum / (ms.len() as u128)) as u64, max)
}

/// Summary statistics of the samples in a window. Percentages and loads are
/// in hundredths; averages are rounded down.
#[derive(Debug)]
pub struct MetricsReport {
    pub period_start: i64,
    pub period_end: i64,
    pub avg_cpu_usage: u64,
    pub max_cpu_usage: u64,
    pub avg_memory_used_percent: u64,
    pub max_memory_used_percent: u64,
    pub avg_disk_used_percent: u64,
    pub max_disk_used_percent: u64,
    pub avg_process_count: u64,
    pub max_load_avg_1min: u64,
    pub issues: Vec<Issue>,
}

/// The issues raised by peaks against thresholds, in the order CPU, memory,
/// disk, load; a peak raises one only when it is strictly above its threshold.
pub open spec fn issues_spec(
    cpu: int,
    mem: int,
    disk: int,
    load: int,
    th: ThresholdsConfig,
) -> Seq<Issue> {
    let a = if cpu > th.cpu_warning { seq![Issue::HighCpu(cpu as u64)] } else { Seq::empty() };
    let b = if mem > th.memory_warning { seq![Issue::HighMemory(mem as u64)] } else { Seq::empty() };
    let c = if disk > th.disk_warning { seq![Issue::HighDisk(disk as u64)] } else { Seq::empty() };
    let d = if load > th.load_warning { seq![Issue::HighLoad(load as u64)] } else { Seq::empty() };
    a + b + c + d
}

/// What a report over `ms` holds: for no samples, zeros and the no-data issue;
/// otherwise the means and peaks of `ms` and the issues their peaks raise.
pub open spec fn metrics_report_spec(
    r: MetricsReport,
    ms: Seq<SystemMetrics>,
    start: i64,
    end: i64,
    th: ThresholdsConfig,
) -> bool {
    &&& r.period_start == start
    &&& r.period_end == end
    &&& if ms.len() == 0 {
        &&& r.avg_cpu_usage == 0 && r.max_cpu_usage == 0
        &&& r.avg_memory_used_percent == 0 && r.max_memory_used_percent == 0
        &&& r.avg_disk_used_percent == 0 && r.max_disk_used_percent == 0
        &&& r.avg_process_count == 0 && r.max_load_avg_1min == 0
        &&& r.issues@ == seq![Issue::NoData]
    } else {
        &&& r.avg_cpu_usage == avg_stat(ms, Stat::Cpu)
        &&& r.max_cpu_usage == max_stat(ms, Stat::Cpu)
        &&& r.avg_memory_used_percent == avg_stat(ms, Stat::MemoryPercent)
        &&& r.max_memory_used_percent == max_stat(ms, Stat::MemoryPercent)
        &&& r.avg_disk_used_percent == avg_stat(ms, Stat::DiskPercent)
        &&& r.max_disk_used_percent == max_stat(ms, Stat::DiskPercent)
        &&& r.avg_process_count == avg_stat(ms, Stat::Processes)
        &&& r.max_load_avg_1min == max_stat(ms, Stat::Load1)
        &&& r.issues@ == issues_spec(
            max_stat(ms, Stat::Cpu),
            max_stat(ms, Stat::MemoryPercent),
            max_stat(ms, Stat::DiskPercent),
            max_stat(ms, Stat::Load1),
            th,
        )
    }
}

/// Aggregates the samples of the window `[start, end]`.
pub fn build_metrics_report(
    ms: &Vec<SystemMetrics>,
    start: i64,
    end: i64,
    th: &ThresholdsConfig,
) -> (r: MetricsReport)
    ensures
        metrics_report_spec(r, ms@, start, end, *th),
{
    if ms.len() == 0 {
        let mut issues: Vec<Issue> = Vec::new();
        issues.push(Issue::NoData);
        assert(issues@ =~= seq![Issue::NoData]);
        return MetricsReport {
            period_start: start,
            period_end: end,
            avg_cpu_usage: 0,
            max_cpu_usage: 0,
            avg_memory_used_percent: 0,
            max_memory_used_percent: 0,
            avg_disk_used_percent: 0,
            max_disk_used_percent: 0,
            avg_process_count: 0,
            max_load_avg_1min: 0,
            issues,
        };
    }
    let (avg_cpu, max_cpu) = mean_and_max(ms, Stat::Cpu);
    let (avg_mem, max_mem) = mean_and_max(ms, Stat::MemoryPercent);
    let (avg_disk, max_disk) = mean_and_max(ms, Stat::DiskPercent);
    let (avg_proc, _) = mean_and_max(ms, Stat::Processes);
    let (_, max_load) = mean_and_max(ms, Stat::Load1);
    let mut issues: Vec<Issue> = Vec::new();
    if max_cpu > th.cpu_warning {
        issues.push(Issue::HighCpu(max_cpu));
    }
    if max_mem > th.memory_warning {
        issues.push(Issue::HighMemory(max_mem));
    }
    if max_disk > th.disk_warning {
        issues.push(Issue::HighDisk(max_disk));
    }
    if max_load > th.load_warning {
        issues.push(Issue::HighLoad(max_load));
    }
    assert(issues@ =~= issues_spec(
        max_cpu as int,
        max_mem as int,
        max_disk as int,
        max_load as int,
        *th,
    ));
    MetricsReport {
        period_start: start,
        period_end: end,
        avg_cpu_usage: avg_cpu,
        max_cpu_usage: max_cpu,
        avg_memory_used_percent: avg_mem,
        max_memory_used_percent: max_mem,
        avg_disk_used_percent: avg_disk,
        max_disk_used_percent: max_disk,
        avg_process_count: avg_proc,
        max_load_avg_1min: max_load,
        issues,
    }
}

/// Number of entries of severity `level` in `s`.
pub open spec fn count_level(s: Seq<EntryModel>, level: Severity) -> nat
    decreases s.len(),
{
    if s.len() == 0 {
        0
    } else {
        count_level(s.drop_last(), level) + if s.last().level == level { 1nat } else { 0nat }
    }
}

/// An entry of severity CRITICAL or ERROR.
pub open spec fn is_high(e: EntryModel) -> bool {
    e.level == Severity::Critical || e.level == Severity::Error
}

/// The CRITICAL and ERROR entries of `s`, in order.
pub open spec fn high_entries(s: Seq<EntryModel>) -> Seq<EntryModel>
    decreases s.len(),
{
    if s.len() == 0 {
        Seq::empty()
    } else if is_high(s.last()) {
        high_entries(s.drop_last()).push(s.last())
    } else {
        high_entries(s.drop_last())
    }
}

/// The first `n` elements of `s`, or all of them.
pub open spec fn first_n<T>(s: Seq<T>, n: nat) -> Seq<T> {
    if s.len() <= n {
        s
    } else {
        s.take(n as int)
    }
}

/// Counts of the events in a window, and the first of its CRITICAL and ERROR events.
#[derive(Debug)]
pub struct LogReport {
    pub total_errors: usize,
    pub total_warnings: usize,
    pub total_critical: usize,
    pub recent_errors: Vec<LogEntry>,
}

/// Counts the events of `logs` per severity and keeps the first `max_recent`
/// CRITICAL or ERROR events; with `logs` newest first, those are the most recent.
pub fn build_log_report(logs: &Vec<LogEntry>, max_recent: usize) -> (r: LogReport)
    ensures
        r.total_errors == count_level(models(logs@), Severity::Error),
        r.total_warnings == count_level(models(logs@), Severity::Warning),
        r.total_critical == count_level(models(logs@), Severity::Critical),
        models(r.recent_errors@) == first_n(high_entries(models(logs@)), max_recent as nat),
{
    let mut errors: usize = 0;
    let mut warnings: usize = 0;
    let mut critical: usize = 0;
    let mut recent: Vec<LogEntry> = Vec::new();
    let mut i: usize = 0;
    while i < logs.len()
        invariant
            i <= logs.len(),
            errors == count_level(models(logs@.subrange(0, i as int)), Severity::Error),
            warnings == count_level(models(logs@.subrange(0, i as int)), Severity::Warning),
            critical == count_level(models(logs@.subrange(0, i as int)), Severity::Critical),
            errors + warnings + critical <= i,
            models(recent@) == first_n(high_entries(models(logs@.subrange(0, i as int))), max_recent as nat),
        decreases logs.len() - i,
    {
        let e = &logs[i];
        let ghost prev = models(logs@.subrange(0, i as int));
        let ghost next = models(logs@.subrange(0, i + 1));
        proof {
            assert(next.drop_last() =~= prev);
            assert(next.last() == e@);
        }
        match e.level {
            Severity::Error => errors += 1,
            Severity::Warning => warnings += 1,
            Severity::Critical => critical += 1,
        }
        if e.level == Severity::Error || e.level == Severity::Critical {
            assert(high_entries(next) == high_entries(prev).push(e@));
            if recent.len() < max_recent {
                let ghost before = recent@;
                recent.push(e.duplicate());
                proof {
                    assert(models(recent@) =~= models(before).push(e@));
                    assert(high_entries(prev).len() < max_recent);
                }
            } else {
                proof {
                    let h = high_entries(prev);
                    assert(h.len() >= max_recent);
                    assert(h.push(e@).take(max_recent as int) =~= first_n(h, max_recent as nat));
                }
            }
        }
        i += 1;
    }
    proof {
        assert(logs@.subrange(0, logs.len() as int) =~= logs@);
    }
    LogReport { total_errors: errors, total_warnings: warnings, total_critical: critical, recent_errors: recent }
}

/// Outcome of one external-tool check.
#[derive(Debug, Clone, Copy, PartialEq, Eq, Structural)]
pub enum CheckStatus {
    Passed,
    Warning,
    Critical,
    Error,
    Info,
}

/// Result of one external-tool check, kept verbatim.
#[derive(Debug)]
pub struct SystemCheckResult {
    /// Seconds since the Unix epoch.
    pub timestamp: i64,
    pub check_name: String,
    pub check_type: String,
    pub status: CheckStatus,
    pub value: Option<String>,
    pub message: String,
}

/// Number of checks in `s` with status `st`.
pub open spec fn count_status(s: Seq<SystemCheckResult>, st: CheckStatus) -> nat
    decreases s.len(),
{
    if s.len() == 0 {
        0
    } else {
        count_status(s.drop_last(), st) + if s.last().status == st { 1nat } else { 0nat }
    }
}

/// The checks of a window with their counts per status.
#[derive(Debug)]
pub struct SystemChecksReport {
    pub checks: Vec<SystemCheckResult>,
    pub total_checks: usize,
    pub checks_ok: usize,
    pub checks_warning: usize,
    pub checks_critical: usize,
    pub checks_error: usize,
}

/// Counts `checks` per status and keeps them.
pub fn build_checks_report(checks: Vec<SystemCheckResult>) -> (r: SystemChecksReport)
    ensures
        r.checks@ == checks@,
        r.total_checks == checks@.len(),
        r.checks_ok == count_status(checks@, CheckStatus::Passed),
        r.checks_warning == count_status(checks@, CheckStatus::Warning),
        r.checks_critical == count_status(checks@, CheckStatus::Critical),
        r.checks_error == count_status(checks@, CheckStatus::Error),
{
    let mut ok: usize = 0;
    let mut warning: usize = 0;
    let mut critical: usize = 0;
    let mut error: usize = 0;
    let mut i: usize = 0;
    while i < checks.len()
        invariant
            i <= checks.len(),
            ok == count_status(checks@.subrange(0, i as int), CheckStatus::Passed),
            warning == count_status(checks@.subrange(0, i as int), CheckStatus::Warning),
            critical == count_status(checks@.subrange(0, i as int), CheckStatus::Critical),
            error == count_status(checks@.subrange(0, i as int), CheckStatus::Error),
            ok + warning + critical + error <= i,
        decreases checks.len() - i,
    {
        proof {
            assert(checks@.subrange(0, i + 1).drop_last() =~= checks@.subrange(0, i as int));
        }
        match checks[i].status {
            CheckStatus::Passed => ok += 1,
            CheckStatus::Warning => warning += 1,
            CheckStatus::Critical => critical += 1,
            CheckStatus::Error => error += 1,
            CheckStatus::Info => {},
        }
        i += 1;
    }
    proof {
        assert(checks@.subrange(0, checks.len() as int) =~= checks@);
    }
    let total = checks.len();
    SystemChecksReport {
        checks,
        total_checks: total,
        checks_ok: ok,
        checks_warning: warning,
        checks_critical: critical,
        checks_error: error,
    }
}

/// Output format of an exported report.
#[derive(Debug, Clone, Copy, PartialEq, Eq, Structural)]
pub enum ExportFormat {
    Json,
    Text,
}

/// The format a name stands for, ignoring case: "json", or "text" / "txt".
pub open spec fn format_of(lower: Seq<char>) -> Option<ExportFormat> {
    if lower == "json"@ {
        Some(ExportFormat::Json)
    } else if lower == "text"@ || lower == "txt"@ {
        Some(ExportFormat::Text)
    } else {
        None
    }
}

impl ExportFormat {
    /// Reads an already lower-cased format name; `None` for an unsupported one.
    pub fn from_lowercase(lower: &str) -> (r: Option<ExportFormat>)
        ensures
            r == format_of(lower@),
    {
        let cs = chars_of(lower);
        if crate::text::chars_equal(&cs, "json") {
            Some(ExportFormat::Json)
        } else if crate::text::chars_equal(&cs, "text") || crate::text::chars_equal(&cs, "txt") {
            Some(ExportFormat::Text)
        } else {
            None
        }
    }

    /// Reads a format name, ignoring case; `None` for an unsupported one.
    pub fn from_str(s: &str) -> (r: Option<ExportFormat>)
        ensures
            r == format_of(crate::classifier::lower_of(s@)),
    {
        let lower = crate::classifier::lowercase(s);
        ExportFormat::from_lowercase(lower.as_str())
    }
}

/// Default number of recent CRITICAL/ERROR events a report keeps.
pub const MAX_RECENT_ERRORS_DISPLAY: usize = 10;

/// What a log report over `logs` holds.
pub open spec fn log_report_spec(r: LogReport, logs: Seq<EntryModel>, max_recent: nat) -> bool {
    &&& r.total_errors == count_level(logs, Severity::Error)
    &&& r.total_warnings == count_level(logs, Severity::Warning)
    &&& r.total_critical == count_level(logs, Severity::Critical)
    &&& models(r.recent_errors@) == first_n(high_entries(logs), max_recent)
}

/// A report on `[start, end]`: the aggregation of some newest-first sequence of
/// samples in the window, and the log report of some newest-first sequence of
/// events in it.
pub open spec fn window_report(
    m: MetricsReport,
    l: LogReport,
    c: SystemChecksReport,
    start: i64,
    end: i64,
    th: ThresholdsConfig,
    max_recent: nat,
) -> bool {
    &&& exists|ms: Seq<SystemMetrics>|
        window_sorted(metrics_times(ms), start, end) && metrics_report_spec(m, ms, start, end, th)
    &&& exists|ls: Seq<LogEntry>|
        window_sorted(entry_times(ls), start, end) && log_report_spec(l, models(ls), max_recent)
    &&& c.total_checks == 0
}

/// Reports on the window `[start, end]` of `store`: the aggregation of its
/// samples and the counts and most recent high-severity entries of its events,
/// both read newest first.
pub fn build_report(
    store: &Store,
    start: i64,
    end: i64,
    th: &ThresholdsConfig,
    max_recent: usize,
) -> (r: Result<(MetricsReport, LogReport, SystemChecksReport), StoreError>)
    ensures
        r matches Ok((m, l, c)) ==> window_report(m, l, c, start, end, *th, max_recent as nat),
        r is Err ==> (r matches Err(StoreError::Engine(_)) || r matches Err(StoreError::InvalidRow)),
{
    let metrics = store.query_metrics(start, end)?;
    let metrics_report = build_metrics_report(&metrics, start, end, th);
    let logs = store.query_logs(start, end, None)?;
    let log_report = build_log_report(&logs, max_recent);
    let checks_report = build_checks_report(Vec::new());
    assert(window_sorted(metrics_times(metrics@), start, end) && metrics_report_spec(
        metrics_report,
        metrics@,
        start,
        end,
        *th,
    ));
    assert(window_sorted(entry_times(logs@), start, end) && log_report_spec(
        log_report,
        models(logs@),
        max_recent as nat,
    ));
    assert(window_report(metrics_report, log_report, checks_report, start, end, *th, max_recent as nat));
    Ok((metrics_report, log_report, checks_report))
}

/// The window of the last `hours` hours before `now`, when its start is representable.
pub open spec fn window_spec(now: i64, hours: i64) -> Option<(i64, i64)> {
    let start = now - hours * 3600;
    if i64::MIN <= start <= i64::MAX {
        Some((start as i64, now))
    } else {
        None
    }
}

/// Computes `window_spec` without overflow.
pub fn report_window(now: i64, hours: i64) -> (r: Option<(i64, i64)>)
    ensures
        r == window_spec(now, hours),
{
    assert(-0x10000_0000_0000_0000_0000 < hours as int * 3600 < 0x10000_0000_0000_0000_0000)
        by (nonlinear_arith)
        requires
            i64::MIN <= hours <= i64::MAX,
    {}
    let span: i128 = hours as i128 * 3600i128;
    let start: i128 = now as i128 - span;
    if start < i64::MIN as i128 || start > i64::MAX as i128 {
        None
    } else {
        Some((start as i64, now))
    }
}

/// Reports on the last `hours_back` hours before `now`, with the standard
/// thresholds and at most `MAX_RECENT_ERRORS_DISPLAY` recent errors, as
/// `build_report` does; fails with `InvalidPeriod` exactly when that window's
/// start is not representable, and otherwise only as the store fails.
pub fn generate_report(
    store: &Store,
    hours_back: i64,
    now: i64,
) -> (r: Result<(MetricsReport, LogReport, SystemChecksReport), StoreError>)
    ensures
        window_spec(now, hours_back) is None <==> r matches Err(StoreError::InvalidPeriod),
        r matches Ok((m, l, c)) ==> window_spec(now, hours_back) matches Some((s, e)) && window_report(
            m,
            l,
            c,
            s,
            e,
            standard_thresholds(),
            MAX_RECENT_ERRORS_DISPLAY as nat,
        ),
        r is Err ==> (r matches Err(StoreError::InvalidPeriod) || r matches Err(StoreError::Engine(_))
            || r matches Err(StoreError::InvalidRow)),
{
    let (start, end) = match report_window(now, hours_back) {
        Some(w) => w,
        None => return Err(StoreError::InvalidPeriod),
    };
    let th = ThresholdsConfig::standard();
    build_report(store, start, end, &th, MAX_RECENT_ERRORS_DISPLAY)
}

/// An action a report advises.
#[derive(Debug, Clone, Copy, PartialEq, Eq, Structural)]
pub enum Recommendation {
    InvestigateCpu,
    FreeMemory,
    FreeDisk,
    ReviewCritical,
    ReviewErrors,
}

/// The text of a recommendation.
pub open spec fn recommendation_text(r: Recommendation) -> Seq<char> {
    match r {
        Recommendation::InvestigateCpu => "Investigate high CPU usage - check for runaway processes"@,
        Recommendation::FreeMemory => "Memory usage is high - consider freeing up memory or adding more RAM"@,
        Recommendation::FreeDisk => "Disk space is running low - clean up old files or expand storage"@,
        Recommendation::ReviewCritical => "Critical issues found in logs - review system logs immediately"@,
        Recommendation::ReviewErrors => "Multiple errors detected - review system logs for patterns"@,
    }
}

impl Recommendation {
    /// The text of this recommendation.
    pub fn message(&self) -> (r: &'static str)
        ensures
            r@ == recommendation_text(*self),
    {
        match self {
            Recommendation::InvestigateCpu => "Investigate high CPU usage - check for runaway processes",
            Recommendation::FreeMemory => "Memory usage is high - consider freeing up memory or adding more RAM",
            Recommendation::FreeDisk => "Disk space is running low - clean up old files or expand storage",
            Recommendation::ReviewCritical => "Critical issues found in logs - review system logs immediately",
            Recommendation::ReviewErrors => "Multiple errors detected - review system logs for patterns",
        }
    }
}

/// The recommendations of a report, in a fixed order: CPU, memory and disk
/// peaks strictly above their thresholds, any CRITICAL event, and more errors
/// than the error threshold.
pub open spec fn recommendations_spec(m: MetricsReport, l: LogReport, th: ThresholdsConfig) -> Seq<Recommendation> {
    let a = if m.max_cpu_usage > th.cpu_warning { seq![Recommendation::InvestigateCpu] } else { Seq::empty() };
    let b = if m.max_memory_used_percent > th.memory_warning { seq![Recommendation::FreeMemory] } else { Seq::empty() };
    let c = if m.max_disk_used_percent > th.disk_warning { seq![Recommendation::FreeDisk] } else { Seq::empty() };
    let d = if l.total_critical > 0 { seq![Recommendation::ReviewCritical] } else { Seq::empty() };
    let e = if l.total_errors > th.error_count { seq![Recommendation::ReviewErrors] } else { Seq::empty() };
    a + b + c + d + e
}

/// What a report advises; empty when the system looks healthy.
pub fn recommendations(m: &MetricsReport, l: &LogReport, th: &ThresholdsConfig) -> (r: Vec<Recommendation>)
    ensures
        r@ == recommendations_spec(*m, *l, *th),
{
    let mut r: Vec<Recommendation> = Vec::new();
    if m.max_cpu_usage > th.cpu_warning {
        r.push(Recommendation::InvestigateCpu);
    }
    if m.max_memory_used_percent > th.memory_warning {
        r.push(Recommendation::FreeMemory);
    }
    if m.max_disk_used_percent > th.disk_warning {
        r.push(Recommendation::FreeDisk);
    }
    if l.total_critical > 0 {
        r.push(Recommendation::ReviewCritical);
    }
    if l.total_errors > th.error_count {
        r.push(Recommendation::ReviewErrors);
    }
    assert(r@ =~= recommendations_spec(*m, *l, *th));
    r
}

} // verus!
