//! Severity levels of classified log lines.
use vstd::prelude::*;

verus! {

/// Severity of a classified log line. Lines below `Warning` are never kept.
#[derive(Debug, Clone, Copy, PartialEq, Eq, Structural)]
pub enum Severity {
    Critical,
    Error,
    Warning,
}

/// Canonical upper-case text of a severity, as stored on disk.
pub open spec fn severity_text(s: Severity) -> Seq<char> {
    match s {
        Severity::Critical => "CRITICAL"@,
        Severity::Error => "ERROR"@,
        Severity::Warning => "WARNING"@,
    }
}


/// The severity whose canonical name is `t`, if any.
pub open spec fn severity_from_text(t: Seq<char>) -> Option<Severity> {
    if t == "CRITICAL"@ {
        Some(Severity::Critical)
    } else if t == "ERROR"@ {
        Some(Severity::Error)
    } else if t == "WARNING"@ {
        Some(Severity::Warning)
    } else {
        None
    }
}

impl Severity {
    /// Canonical upper-case name.
    pub fn as_str(&self) -> (r: &'static str)
        ensures
            r@ == severity_text(*self),
    {
        proof {
            reveal_strlit("CRITICAL");
            reveal_strlit("ERROR");
            reveal_strlit("WARNING");
        }
        match self {
            Severity::Critical => "CRITICAL",
            Severity::Error => "ERROR",
            Severity::Warning => "WARNING",
        }
    }

    /// Parses the canonical name back; any other text is rejected.
    pub fn parse(s: &str) -> (r: Option<Severity>)
        ensures
            r == severity_from_text(s@),
            r matches Some(v) ==> severity_text(v) == s@,
            r is None ==> (forall|v: Severity| severity_text(v) != s@),
    {
        proof {
            reveal_strlit("CRITICAL");
            reveal_strlit("ERROR");
            reveal_strlit("WARNING");
        }
        let cs = crate::text::chars_of(s);
        if crate::text::chars_equal(&cs, "CRITICAL") {
            Some(Severity::Critical)
        } else if crate::text::chars_equal(&cs, "ERROR") {
            Some(Severity::Error)
        } else if crate::text::chars_equal(&cs, "WARNING") {
            Some(Severity::Warning)
        } else {
            proof {
                assert forall|v: Severity| severity_text(v) != s@ by {
                    match v {
                        Severity::Critical => {},
                        Severity::Error => {},
                        Severity::Warning => {},
                    }
                }
            }
            None
        }
    }
}

} // verus!
