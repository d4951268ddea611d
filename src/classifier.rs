//! Severity classification of log lines and recovery of embedded timestamps.
//!
//! Matching is done by the `regex` crate; lower-casing by `str::to_lowercase`;
//! timestamp parsing by `chrono`. What those return is named below and the
//! classification rules are stated over the names.
use vstd::prelude::*;
use crate::severity::Severity;
use crate::text::{chars_of, contains, has_prefix, has_substring, starts_with, string_of, trim, trimmed};

verus! {

#[verifier::external_type_specification]
#[verifier::external_body]
pub struct ExRegex(regex::Regex);

/// Pattern for CRITICAL lines; evaluated first.
pub const CRITICAL_PATTERN: &'static str =
    r"(?i)\b(critical|panic|segfault|kernel:.*bug|out of memory|oom[-_]killer)\b";

/// Pattern for ERROR lines; evaluated second.
pub const ERROR_PATTERN: &'static str = r"(?i)\b(error|failed|failure|fatal|cannot)\b";

/// Pattern for WARNING lines; evaluated last.
pub const WARNING_PATTERN: &'static str = r"(?i)\b(warn|warning|deprecated)\b";

/// Locates an ISO-8601-like date-time inside a line.
pub const TIMESTAMP_PATTERN: &'static str =
    r"(\d{4}-\d{2}-\d{2}[T ]\d{2}:\d{2}:\d{2}(?:\.\d+)?(?:[+-]\d{2}:?\d{2}|Z)?)";

/// Whether the regex compiled from `pattern` matches somewhere in `text`.
pub uninterp spec fn regex_is_match(pattern: Seq<char>, text: Seq<char>) -> bool;

/// The leftmost-first match of the regex compiled from `pattern` in `text`.
pub uninterp spec fn regex_find(pattern: Seq<char>, text: Seq<char>) -> Option<Seq<char>>;

/// The lower-case form of `s`.
pub uninterp spec fn lower_of(s: Seq<char>) -> Seq<char>;

/// Whether the regex engine accepts `pattern`.
pub uninterp spec fn regex_compiles(pattern: Seq<char>) -> bool;

/// Seconds since the Unix epoch of an RFC 3339 date-time, if `s` is one.
pub uninterp spec fn rfc3339_seconds(s: Seq<char>) -> Option<i64>;

/// A compiled regular expression together with the text it was compiled from.
pub struct Pattern {
    source: String,
    re: regex::Regex,
}

impl Pattern {
    /// The text this pattern was compiled from.
    pub closed spec fn source(&self) -> Seq<char> {
        self.source@
    }
}

/// Relies on `regex::Regex::new`: compiles `src`, or fails on invalid syntax.
#[verifier::external_body]
fn compile_pattern(src: &str) -> (r: Option<Pattern>)
    ensures
        r is Some <==> regex_compiles(src@),
        r matches Some(p) ==> p.source() == src@,
{
    regex::Regex::new(src).ok().map(|re| Pattern { source: src.to_string(), re })
}

/// Relies on `regex::Regex::is_match`.
#[verifier::external_body]
fn pattern_matches(p: &Pattern, text: &str) -> (r: bool)
    ensures
        r == regex_is_match(p.source(), text@),
{
    p.re.is_match(text)
}

/// Relies on `regex::Regex::find`: the text of the leftmost-first match.
#[verifier::external_body]
fn pattern_find(p: &Pattern, text: &str) -> (r: Option<String>)
    ensures
        r matches Some(m) ==> regex_find(p.source(), text@) == Some(m@),
        r is None ==> regex_find(p.source(), text@) is None,
{
    p.re.find(text).map(|m| m.as_str().to_string())
}

/// Relies on `str::to_lowercase`.
#[verifier::external_body]
pub(crate) fn lowercase(s: &str) -> (r: String)
    ensures
        r@ == lower_of(s@),
{
    s.to_lowercase()
}

/// Relies on `chrono::DateTime::parse_from_rfc3339`, read as epoch seconds.
#[verifier::external_body]
pub(crate) fn parse_rfc3339(s: &str) -> (r: Option<i64>)
    ensures
        r == rfc3339_seconds(s@),
{
    chrono::DateTime::parse_from_rfc3339(s).ok().map(|dt| dt.timestamp())
}

/// A line that is skipped before any pattern is tried: blank, or a bare URL.
pub open spec fn is_skipped(line: Seq<char>) -> bool {
    trim(line).len() == 0 || has_prefix(line, "http://"@) || has_prefix(line, "https://"@)
}

/// A lower-cased line that mentions errors only in a benign way.
pub open spec fn is_benign(lower: Seq<char>) -> bool {
    has_substring(lower, "error=0"@) || has_substring(lower, "errors=0"@) || has_substring(
        lower,
        "no error"@,
    ) || has_substring(lower, "without error"@)
}

/// The severity decided from what is known of a line: whether it is skipped,
/// its lower-case form, and which patterns match that form. CRITICAL before
/// ERROR before WARNING, the first match wins; a benign mention of errors does
/// not count as ERROR.
pub open spec fn severity_rule(
    skipped: bool,
    lower: Seq<char>,
    critical: bool,
    error: bool,
    warning: bool,
) -> Option<Severity> {
    if skipped {
        None
    } else if critical {
        Some(Severity::Critical)
    } else if error && !is_benign(lower) {
        Some(Severity::Error)
    } else if warning {
        Some(Severity::Warning)
    } else {
        None
    }
}

/// The severity of a line.
pub open spec fn classify_spec(line: Seq<char>) -> Option<Severity> {
    let lower = lower_of(line);
    severity_rule(
        is_skipped(line),
        lower,
        regex_is_match(CRITICAL_PATTERN@, lower),
        regex_is_match(ERROR_PATTERN@, lower),
        regex_is_match(WARNING_PATTERN@, lower),
    )
}

/// Whether `line`, whose trimmed form is `trimmed`, is skipped before any pattern is tried.
pub fn is_skipped_line(line: &str, trimmed: &str) -> (r: bool)
    ensures
        r == (trimmed@.len() == 0 || has_prefix(line@, "http://"@) || has_prefix(line@, "https://"@)),
{
    let cs = chars_of(line);
    trimmed.unicode_len() == 0 || starts_with(&cs, "http://") || starts_with(&cs, "https://")
}

/// Decides the severity of a line from whether it is skipped, its lower-case
/// form `lower`, and which of the CRITICAL, ERROR and WARNING patterns match `lower`.
pub fn decide_severity(skipped: bool, lower: &str, critical: bool, error: bool, warning: bool) -> (r: Option<Severity>)
    ensures
        r == severity_rule(skipped, lower@, critical, error, warning),
{
    if skipped {
        None
    } else if critical {
        Some(Severity::Critical)
    } else {
        let lc = chars_of(lower);
        let benign = contains(&lc, "error=0") || contains(&lc, "errors=0") || contains(&lc, "no error")
            || contains(&lc, "without error");
        if error && !benign {
            Some(Severity::Error)
        } else if warning {
            Some(Severity::Warning)
        } else {
            None
        }
    }
}

/// `s` with every space replaced by `T`.
pub open spec fn space_to_t(s: Seq<char>) -> Seq<char> {
    s.map_values(|c: char| if c == ' ' { 'T' } else { c })
}

/// A date-time text read as RFC 3339, or else read with its spaces replaced by `T`.
pub open spec fn datetime_seconds(s: Seq<char>) -> Option<i64> {
    match rfc3339_seconds(s) {
        Some(t) => Some(t),
        None => rfc3339_seconds(space_to_t(s)),
    }
}

/// The timestamp embedded in a line: the located date-time, read by `datetime_seconds`.
pub open spec fn timestamp_spec(line: Seq<char>) -> Option<i64> {
    match regex_find(TIMESTAMP_PATTERN@, line) {
        Some(m) => datetime_seconds(m),
        None => None,
    }
}

/// Epoch seconds of a date-time text in RFC 3339 form, or in that form with a
/// space between date and time.
pub fn parse_datetime(s: &str) -> (r: Option<i64>)
    ensures
        r == datetime_seconds(s@),
{
    if let Some(t) = parse_rfc3339(s) {
        return Some(t);
    }
    let alt = replace_spaces(s);
    parse_rfc3339(alt.as_str())
}

/// Immutable set of compiled patterns, built once and shared by reference.
pub struct Classifier {
    critical: Pattern,
    error: Pattern,
    warning: Pattern,
    timestamp: Pattern,
}

impl Classifier {
    /// Every pattern was compiled from its fixed source.
    pub closed spec fn wf(&self) -> bool {
        &&& self.critical.source() == CRITICAL_PATTERN@
        &&& self.error.source() == ERROR_PATTERN@
        &&& self.warning.source() == WARNING_PATTERN@
        &&& self.timestamp.source() == TIMESTAMP_PATTERN@
    }

    /// Compiles the fixed pattern set; `None` only if the regex engine rejects one.
    pub fn new() -> (r: Option<Classifier>)
        ensures
            r is Some <==> (regex_compiles(CRITICAL_PATTERN@) && regex_compiles(ERROR_PATTERN@)
                && regex_compiles(WARNING_PATTERN@) && regex_compiles(TIMESTAMP_PATTERN@)),
            r matches Some(c) ==> c.wf(),
    {
        let critical = compile_pattern(CRITICAL_PATTERN)?;
        let error = compile_pattern(ERROR_PATTERN)?;
        let warning = compile_pattern(WARNING_PATTERN)?;
        let timestamp = compile_pattern(TIMESTAMP_PATTERN)?;
        Some(Classifier { critical, error, warning, timestamp })
    }

    /// Severity of `line`, or `None` for a line that is not ingested.
    pub fn classify(&self, line: &str) -> (r: Option<Severity>)
        requires
            self.wf(),
        ensures
            r == classify_spec(line@),
    {
        let t = trimmed(line);
        let skipped = is_skipped_line(line, t.as_str());
        let lower = lowercase(line);
        let critical = pattern_matches(&self.critical, lower.as_str());
        let error = pattern_matches(&self.error, lower.as_str());
        let warning = pattern_matches(&self.warning, lower.as_str());
        decide_severity(skipped, lower.as_str(), critical, error, warning)
    }

    /// Epoch seconds of the date-time embedded in `line`, if one is found and parses.
    pub fn extract_timestamp(&self, line: &str) -> (r: Option<i64>)
        requires
            self.wf(),
        ensures
            r == timestamp_spec(line@),
    {
        let m = pattern_find(&self.timestamp, line)?;
        parse_datetime(m.as_str())
    }
}

/// Replaces every space by `T`.
pub fn replace_spaces(s: &str) -> (r: String)
    ensures
        r@ == space_to_t(s@),
{
    let cs = chars_of(s);
    let mut out: Vec<char> = Vec::new();
    let mut i: usize = 0;
    while i < cs.len()
        invariant
            cs@ == s@,
            i <= cs.len(),
            out@ =~= space_to_t(cs@.subrange(0, i as int)),
        decreases cs.len() - i,
    {
        let c = cs[i];
        if c == ' ' {
            out.push('T');
        } else {
            out.push(c);
        }
        i += 1;
        assert(cs@.subrange(0, i as int) =~= cs@.subrange(0, i - 1).push(c));
    }
    assert(cs@.subrange(0, cs.len() as int) =~= cs@);
    string_of(&out)
}

/// A line whose lower-case form mentions errors only benignly, and which matches
/// neither the CRITICAL nor the WARNING pattern, gets no severity at all.
pub proof fn lemma_benign_error_dropped(line: Seq<char>)
    requires
        is_benign(lower_of(line)),
        !regex_is_match(CRITICAL_PATTERN@, lower_of(line)),
        !regex_is_match(WARNING_PATTERN@, lower_of(line)),
    ensures
        classify_spec(line) is None,
{
}

/// A line that matches both the CRITICAL and the ERROR pattern is CRITICAL.
pub proof fn lemma_critical_before_error(line: Seq<char>)
    requires
        !is_skipped(line),
        regex_is_match(CRITICAL_PATTERN@, lower_of(line)),
        regex_is_match(ERROR_PATTERN@, lower_of(line)),
    ensures
        classify_spec(line) == Some(Severity::Critical),
{
}

} // verus!
