use vstd::prelude::*;

verus! {

/// What can go wrong on either side of an engine call.
#[derive(Debug, Clone, PartialEq, Eq)]
pub enum RrdError {
    /// A path cannot be written as a null-terminated byte string.
    InvalidPath,
    /// The string at `index` of an argument list (or the single string
    /// argument, at index 0) holds an embedded null byte.
    InvalidString { index: usize },
    /// A point in time cannot be written as signed seconds since the epoch.
    TimeOutOfRange,
    /// The engine reported a failure; this is its own diagnostic text.
    EngineError(String),
}

} // verus!
