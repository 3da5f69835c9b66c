//! The five log severities, the default used when a caller gives none,
//! and the routing of severity tag strings.

use vstd::prelude::*;

verus! {

/// A log severity, from lowest detail to highest urgency.
#[derive(Clone, Copy, Debug, PartialEq, Eq, Structural)]
pub enum Severity {
    Trace,
    Debug,
    Info,
    Warn,
    Error,
}

/// The severity a wrapped operation logs at: the caller's choice, or the
/// highest urgency when the caller gave none.
pub open spec fn resolved_severity(tag: Option<Severity>) -> Severity {
    match tag {
        Option::Some(s) => s,
        Option::None => Severity::Error,
    }
}

/// Resolves an optional severity tag to the one actually logged at.
pub fn resolve_severity(tag: Option<Severity>) -> (r: Severity)
    ensures
        r == resolved_severity(tag),
{
    match tag {
        Option::Some(s) => s,
        Option::None => Severity::Error,
    }
}

/// Character-by-character equality of two string slices.
pub fn str_equal(a: &str, b: &str) -> (r: bool)
    ensures
        r == (a@ == b@),
{
    let a_len = a.unicode_len();
    let b_len = b.unicode_len();
    if a_len != b_len {
        return false;
    }
    let mut i: usize = 0;
    while i < a_len
        invariant
            a_len == a@.len(),
            a@.len() == b@.len(),
            0 <= i <= a_len,
            forall|j: int| 0 <= j < i ==> a@[j] == b@[j],
        decreases a_len - i,
    {
        if a.get_char(i) != b.get_char(i) {
            return false;
        }
        i = i + 1;
    }
    proof {
        assert(a@ =~= b@);
    }
    true
}

/// The severity a tag string routes to, or none for an unrecognized tag.
pub open spec fn severity_of_tag(tag: Seq<char>) -> Option<Severity> {
    if tag == "TRACE"@ {
        Option::Some(Severity::Trace)
    } else if tag == "DEBUG"@ {
        Option::Some(Severity::Debug)
    } else if tag == "INFO"@ {
        Option::Some(Severity::Info)
    } else if tag == "WARN"@ {
        Option::Some(Severity::Warn)
    } else if tag == "ERROR"@ {
        Option::Some(Severity::Error)
    } else {
        Option::None
    }
}

/// Routes a severity tag string to its severity. An unrecognized tag routes
/// nowhere, so a caller can safely do nothing with it rather than fail.
pub fn severity_from_tag(tag: &str) -> (r: Option<Severity>)
    ensures
        r == severity_of_tag(tag@),
{
    if str_equal(tag, "TRACE") {
        Option::Some(Severity::Trace)
    } else if str_equal(tag, "DEBUG") {
        Option::Some(Severity::Debug)
    } else if str_equal(tag, "INFO") {
        Option::Some(Severity::Info)
    } else if str_equal(tag, "WARN") {
        Option::Some(Severity::Warn)
    } else if str_equal(tag, "ERROR") {
        Option::Some(Severity::Error)
    } else {
        Option::None
    }
}

} // verus!
