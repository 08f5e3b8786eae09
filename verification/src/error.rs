//! What a compression attempt reports when it yields no stream.

use vstd::prelude::*;

verus! {

/// Why a compression attempt produced no output.
#[derive(Debug, Clone, PartialEq, Eq)]
pub enum PngError {
    /// The compressed stream is longer than the ceiling in force. The number
    /// is a byte count for diagnostics: the ceiling, or the length reached.
    /// The candidate is simply dropped; other candidates go on.
    DeflatedDataTooLong(usize),
    /// The encoder underneath, or its sink, reported a failure. This points
    /// at the tooling or the environment, not at the data.
    Other(String),
}

/// The outcome of a compression attempt.
pub type PngResult<T> = Result<T, PngError>;

impl PngError {
    /// An encoder failure with the given description.
    pub fn new(description: &str) -> (error: PngError)
        ensures
            error matches PngError::Other(detail) && detail@ == description@,
    {
        PngError::Other(description.to_owned())
    }
}

} // verus!
