//! The error type shared by every stage of the decoder.

use vstd::prelude::*;

use crate::buf;

verus! {

/// Failure of any stage of the decoder. Parsing is fail-fast: the
/// first violated invariant surfaces one of these and no partial
/// structures are returned.
#[derive(Debug, Clone, Copy)]
pub enum ApsError {
    /// A failure with no further description.
    Unknown,
    /// A violated invariant, described in words.
    General(&'static str),
    /// A raw read ran past the end of the input.
    Parse(buf::Error),
}

impl ApsError {
    /// A human-readable description of the failure.
    pub fn message(&self) -> (r: &'static str)
        ensures
            *self matches ApsError::General(s) ==> r == s,
    {
        match *self {
            ApsError::Unknown => "Unknown error",
            ApsError::General(s) => s,
            ApsError::Parse(_) => "Parsing error: not enough input data!",
        }
    }
}

} // verus!
