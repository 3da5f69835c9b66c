//! Wrapping a fallible outcome: on failure, a `"<file>:<line>[ => <message>]"`
//! note is attached to the error as its newest context layer and returned as
//! the one log record to emit; on success the value passes through untouched
//! and nothing is logged.

use vstd::prelude::*;

use crate::chain::{attach_context, chain_of};
use crate::note::{make_note, note_spec};
use crate::severity::{resolve_severity, resolved_severity, Severity};

verus! {

/// One record for the log collector: a severity and the text to emit.
pub struct LogRecord {
    pub severity: Severity,
    pub text: String,
}

/// Builds the single record that an emit-log call sends to the collector,
/// carrying the caller's message verbatim at the requested severity.
pub fn logmsg(severity: Severity, message: String) -> (r: LogRecord)
    ensures
        r.severity == severity,
        r.text == message,
{
    LogRecord { severity, text: message }
}

/// The view of an optional owned message.
pub open spec fn message_text(message: Option<String>) -> Option<Seq<char>> {
    match message {
        Option::Some(m) => Option::Some(m@),
        Option::None => Option::None,
    }
}

/// Wraps a fallible outcome observed at `file:line`.
///
/// A success passes through identically, with no record to emit and no note
/// built. A failure comes back with the note attached as the newest
/// (outermost) layer of its cause chain, together with exactly one record
/// carrying the same note at the resolved severity.
pub fn wraperr<T>(
    severity: Option<Severity>,
    outcome: Result<T, anyhow::Error>,
    file: &str,
    line: u64,
    message: Option<String>,
) -> (r: (Result<T, anyhow::Error>, Option<LogRecord>))
    ensures
        outcome is Ok ==> r.0 == outcome,
        outcome is Ok ==> r.1 is None,
        outcome is Err ==> r.0 is Err,
        outcome is Err ==> r.1 is Some,
        outcome is Err ==> r.1->0.severity == resolved_severity(severity),
        outcome is Err ==> r.1->0.text@ == note_spec(
            file@,
            line as nat,
            message_text(message),
        ),
        outcome is Err ==> chain_of(r.0->Err_0) == seq![
            note_spec(file@, line as nat, message_text(message)),
        ] + chain_of(outcome->Err_0),
{
    match outcome {
        Result::Ok(v) => (Result::Ok(v), Option::None),
        Result::Err(e) => {
            let resolved = resolve_severity(severity);
            let message_ref: Option<&str> = match &message {
                Option::Some(m) => Option::Some(m.as_str()),
                Option::None => Option::None,
            };
            let note = make_note(file, line, message_ref);
            let text = note.clone();
            let wrapped = attach_context(e, note);
            (Result::Err(wrapped), Option::Some(LogRecord { severity: resolved, text }))
        },
    }
}

} // verus!
