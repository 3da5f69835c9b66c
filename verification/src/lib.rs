//! Error annotation and logging helpers layered over an error-chaining
//! facility and a structured-logging facility.
//!
//! The crate offers three operations:
//! - building a log record at one of five severities,
//! - wrapping a fallible outcome: on failure a `"<file>:<line> => <message>"`
//!   note is attached to the error and returned as a log record to emit,
//! - flattening a failed result's cause chain into the list of its
//!   nonempty cause strings, the top-level message excluded.

pub mod chain;
pub mod note;
pub mod severity;
pub mod wrap;

pub use chain::backtrace_anyhow;
