//! The error taxonomy of the engine.
//!
//! Every failure is surfaced to the caller immediately and untranslated;
//! the engine never retries.  Each variant carries the offending detail as
//! plain text, rendered at the bus boundary.

use vstd::prelude::*;

verus! {

/// The various errors a run can end in.
#[derive(Debug, Clone)]
pub enum Error {
    /// The bus connection could not be established.
    DBusConnectionFail(String),
    /// A unit name escaped to an invalid object path.  The escaping makes
    /// this unreachable in practice.
    DBusInvalidPath(String),
    /// The property-change subscription could not be established.
    ListenPropertyChangeFail(String),
    /// A property-change notification could not be parsed.
    ParsePropertyChangeFail(String),
    /// A synchronous property read failed.
    QueryPropertyFail(String),
    /// The service manager rejected the start request: a name collision,
    /// an invalid property, or insufficient privilege.
    StartFail(String),
    /// The two fetched timestamps did not yield a time usage; both raw
    /// values are carried for diagnosis, never guessed at.
    TimeUsageFail(String, String, String),
}

} // verus!
