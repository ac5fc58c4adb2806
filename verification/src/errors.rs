//! Error taxonomy of the blog core.

use vstd::prelude::*;

verus! {

/// Why the index could not be built at startup.  Either way the failure is
/// fatal: no index value exists, so the blog routes never become reachable.
#[derive(Debug, Clone, PartialEq, Eq)]
pub enum LoadError {
    /// The manifest file could not be opened or read.
    Io(String),
    /// The manifest text does not parse, or does not match the expected
    /// schema; carries the parser's message.
    Parse(String),
}

/// Why a single entry request failed.  Such a failure is local to the
/// request: it never touches the index or any other request.
#[derive(Debug, Clone, PartialEq, Eq)]
pub enum RenderError {
    /// No entry in the index has the requested key; carries the key.
    NotFound(String),
    /// The matched entry's source file could not be read at render time;
    /// carries the reader's message.
    EntryRead(String),
}

} // verus!
