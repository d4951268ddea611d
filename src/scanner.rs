//! Turning the lines of log files into classified log events.
//!
//! Reading files is left to the caller, which hands over each file's lines
//! (or the way reading it failed); everything decided about them is here.
use vstd::prelude::*;
use crate::classifier::{classify_spec, timestamp_spec, Classifier};
use crate::text::{trim, trimmed};
use crate::severity::Severity;

verus! {

/// Maximum number of lines read from each log file.
pub const MAX_LOG_LINES_PER_FILE: usize = 1000;

/// One classified log line.
#[derive(Debug)]
pub struct LogEntry {
    /// Seconds since the Unix epoch.
    pub timestamp: i64,
    pub level: Severity,
    /// The file or stream the line came from.
    pub source: String,
    /// The line, trimmed of surrounding white space.
    pub message: String,
}

impl LogEntry {
    /// A field-by-field copy.
    pub fn duplicate(&self) -> (r: LogEntry)
        ensures
            r == *self,
    {
        LogEntry {
            timestamp: self.timestamp,
            level: self.level,
            source: self.source.clone(),
            message: self.message.clone(),
        }
    }
}

/// What a log entry holds, as plain values.
pub struct EntryModel {
    pub timestamp: i64,
    pub level: Severity,
    pub source: Seq<char>,
    pub message: Seq<char>,
}

impl View for LogEntry {
    type V = EntryModel;

    open spec fn view(&self) -> EntryModel {
        EntryModel {
            timestamp: self.timestamp,
            level: self.level,
            source: self.source@,
            message: self.message@,
        }
    }
}

/// The models of a sequence of entries.
pub open spec fn models(v: Seq<LogEntry>) -> Seq<EntryModel> {
    v.map_values(|e: LogEntry| e@)
}

/// The event made from an ingested `line` of severity `level`: dated by the
/// timestamp embedded in it, or else by `fallback`.
pub open spec fn event_of(line: Seq<char>, level: Severity, source: Seq<char>, fallback: i64) -> EntryModel {
    EntryModel {
        timestamp: match timestamp_spec(line) {
            Some(t) => t,
            None => fallback,
        },
        level,
        source,
        message: trim(line),
    }
}

/// The events of `lines` read from `source`: one per ingested line, in order.
pub open spec fn events_spec(lines: Seq<Seq<char>>, source: Seq<char>, fallback: i64) -> Seq<EntryModel>
    decreases lines.len(),
{
    if lines.len() == 0 {
        Seq::empty()
    } else {
        let prev = events_spec(lines.drop_last(), source, fallback);
        match classify_spec(lines.last()) {
            Some(level) => prev.push(event_of(lines.last(), level, source, fallback)),
            None => prev,
        }
    }
}

/// The first `n` lines of `lines`, or all of them.
pub open spec fn first_lines(lines: Seq<String>, n: nat) -> Seq<Seq<char>> {
    let m = if lines.len() <= n {
        lines.len() as int
    } else {
        n as int
    };
    lines.subrange(0, m).map_values(|l: String| l@)
}

/// Classifies the first `max_entries` of `lines`, read from `source`. Lines that
/// are not ingested are dropped; a line without a readable timestamp is dated
/// `fallback`, the scan time.
pub fn collect_log_entries(
    classifier: &Classifier,
    lines: &Vec<String>,
    source: &str,
    fallback: i64,
    max_entries: usize,
) -> (r: Vec<LogEntry>)
    requires
        classifier.wf(),
    ensures
        models(r@) == events_spec(first_lines(lines@, max_entries as nat), source@, fallback),
{
    let n = if lines.len() <= max_entries {
        lines.len()
    } else {
        max_entries
    };
    let ghost all = first_lines(lines@, max_entries as nat);
    let mut out: Vec<LogEntry> = Vec::new();
    let mut i: usize = 0;
    while i < n
        invariant
            classifier.wf(),
            n <= lines.len(),
            all == lines@.subrange(0, n as int).map_values(|l: String| l@),
            i <= n,
            models(out@) == events_spec(all.subrange(0, i as int), source@, fallback),
        decreases n - i,
    {
        let line = &lines[i];
        let ghost prefix = all.subrange(0, i as int);
        let ghost next = all.subrange(0, i + 1);
        proof {
            assert(next.drop_last() =~= prefix);
            assert(next.last() == line@);
        }
        if let Some(level) = classifier.classify(line.as_str()) {
            let ts = match classifier.extract_timestamp(line.as_str()) {
                Some(t) => t,
                None => fallback,
            };
            let message = trimmed(line.as_str());
            let e = LogEntry { timestamp: ts, level, source: String::from_str(source), message };
            let ghost before = out@;
            out.push(e);
            proof {
                assert(models(out@) =~= models(before).push(e@));
            }
        }
        i += 1;
    }
    proof {
        assert(all.subrange(0, n as int) =~= all);
    }
    out
}

/// How reading one log file went.
pub enum LogRead {
    /// The file does not exist; it is skipped without a warning.
    Missing,
    /// The file exists but may not be read.
    PermissionDenied,
    /// Reading failed for another reason.
    Unreadable,
    /// The file's lines, without their line terminators.
    Lines(Vec<String>),
}

/// A log file and how reading it went.
pub struct LogFile {
    pub path: String,
    pub read: LogRead,
}

/// A file that could not be read; the scan went on without it.
pub struct ScanWarning {
    pub path: String,
    /// Reading was refused for lack of permission, rather than failing otherwise.
    pub permission_denied: bool,
}

/// Everything one scan produced.
pub struct ScanReport {
    pub entries: Vec<LogEntry>,
    pub warnings: Vec<ScanWarning>,
}

/// The events of one file: none unless its lines were read.
pub open spec fn file_events(f: LogFile, fallback: i64, max_lines: nat) -> Seq<EntryModel> {
    match f.read {
        LogRead::Lines(ls) => events_spec(first_lines(ls@, max_lines), f.path@, fallback),
        _ => Seq::empty(),
    }
}

/// The events of all files, file after file.
pub open spec fn scan_spec(files: Seq<LogFile>, fallback: i64, max_lines: nat) -> Seq<EntryModel>
    decreases files.len(),
{
    if files.len() == 0 {
        Seq::empty()
    } else {
        scan_spec(files.drop_last(), fallback, max_lines) + file_events(files.last(), fallback, max_lines)
    }
}

/// The warning a file gives, as (path, permission denied), if any.
pub open spec fn file_warning(f: LogFile) -> Option<(Seq<char>, bool)> {
    match f.read {
        LogRead::PermissionDenied => Some((f.path@, true)),
        LogRead::Unreadable => Some((f.path@, false)),
        _ => None,
    }
}

/// The warnings of all files, in order.
pub open spec fn warnings_spec(files: Seq<LogFile>) -> Seq<(Seq<char>, bool)>
    decreases files.len(),
{
    if files.len() == 0 {
        Seq::empty()
    } else {
        match file_warning(files.last()) {
            Some(w) => warnings_spec(files.drop_last()).push(w),
            None => warnings_spec(files.drop_last()),
        }
    }
}

/// The models of a sequence of warnings.
pub open spec fn warning_models(v: Seq<ScanWarning>) -> Seq<(Seq<char>, bool)> {
    v.map_values(|w: ScanWarning| (w.path@, w.permission_denied))
}

/// Scans the given log files: each readable file contributes the events of its
/// first `max_lines` lines; missing files are skipped silently; a file that
/// could not be read gives a warning and does not stop the scan.
pub fn scan_system_logs_with_paths(
    classifier: &Classifier,
    files: &Vec<LogFile>,
    fallback: i64,
    max_lines: usize,
) -> (r: ScanReport)
    requires
        classifier.wf(),
    ensures
        models(r.entries@) == scan_spec(files@, fallback, max_lines as nat),
        warning_models(r.warnings@) == warnings_spec(files@),
{
    let mut entries: Vec<LogEntry> = Vec::new();
    let mut warnings: Vec<ScanWarning> = Vec::new();
    let mut i: usize = 0;
    while i < files.len()
        invariant
            classifier.wf(),
            i <= files.len(),
            models(entries@) == scan_spec(files@.subrange(0, i as int), fallback, max_lines as nat),
            warning_models(warnings@) == warnings_spec(files@.subrange(0, i as int)),
        decreases files.len() - i,
    {
        let f = &files[i];
        let ghost prefix = files@.subrange(0, i as int);
        let ghost next = files@.subrange(0, i + 1);
        proof {
            assert(next.drop_last() =~= prefix);
            assert(next.last() == *f);
        }
        match &f.read {
            LogRead::Missing => {},
            LogRead::PermissionDenied => {
                let ghost before = warnings@;
                warnings.push(ScanWarning { path: f.path.clone(), permission_denied: true });
                proof {
                    assert(warning_models(warnings@) =~= warning_models(before).push((f.path@, true)));
                }
            },
            LogRead::Unreadable => {
                let ghost before = warnings@;
                warnings.push(ScanWarning { path: f.path.clone(), permission_denied: false });
                proof {
                    assert(warning_models(warnings@) =~= warning_models(before).push((f.path@, false)));
                }
            },
            LogRead::Lines(lines) => {
                let mut found = collect_log_entries(classifier, lines, f.path.as_str(), fallback, max_lines);
                let ghost before = entries@;
                let ghost added = found@;
                entries.append(&mut found);
                proof {
                    assert(models(entries@) =~= models(before) + models(added));
                }
            },
        }
        i += 1;
    }
    proof {
        assert(files@.subrange(0, files.len() as int) =~= files@);
    }
    ScanReport { entries, warnings }
}

/// Scans log files with the standard per-file line limit.
pub fn scan_system_logs(classifier: &Classifier, files: &Vec<LogFile>, fallback: i64) -> (r: ScanReport)
    requires
        classifier.wf(),
    ensures
        models(r.entries@) == scan_spec(files@, fallback, MAX_LOG_LINES_PER_FILE as nat),
        warning_models(r.warnings@) == warnings_spec(files@),
{
    scan_system_logs_with_paths(classifier, files, fallback, MAX_LOG_LINES_PER_FILE)
}

/// Lines none of which is ingested (an empty file, or only benign lines) give no events.
pub proof fn lemma_no_ingested_lines_no_events(lines: Seq<Seq<char>>, source: Seq<char>, fallback: i64)
    requires
        forall|k: int| 0 <= k < lines.len() ==> classify_spec(#[trigger] lines[k]) is None,
    ensures
        events_spec(lines, source, fallback).len() == 0,
    decreases lines.len(),
{
    if lines.len() > 0 {
        let prefix = lines.drop_last();
        assert forall|k: int| 0 <= k < prefix.len() implies classify_spec(#[trigger] prefix[k]) is None by {
            assert(prefix[k] == lines[k]);
        }
        lemma_no_ingested_lines_no_events(prefix, source, fallback);
        assert(classify_spec(lines[lines.len() - 1]) is None);
    }
}

/// Log files scanned when no paths are given.
pub fn get_default_log_paths() -> (r: Vec<String>)
    ensures
        r@.map_values(|p: String| p@) == seq![
            "/var/log/syslog"@,
            "/var/log/messages"@,
            "/var/log/kern.log"@,
            "/var/log/auth.log"@,
        ],
{
    let mut r: Vec<String> = Vec::new();
    r.push(String::from_str("/var/log/syslog"));
    r.push(String::from_str("/var/log/messages"));
    r.push(String::from_str("/var/log/kern.log"));
    r.push(String::from_str("/var/log/auth.log"));
    assert(r@.map_values(|p: String| p@) =~= seq![
        "/var/log/syslog"@,
        "/var/log/messages"@,
        "/var/log/kern.log"@,
        "/var/log/auth.log"@,
    ]);
    r
}

} // verus!
