//! The single, opaque failure type of every fallible signature operation.

use vstd::prelude::*;

verus! {

/// Failure of a signature operation.
///
/// It has no public discriminant: a malformed encoding, a signature that
/// does not match, a signing fault and an algorithm mismatch all look the
/// same to the caller, so that no cause can be told apart by branching on
/// it. A description may be kept for local diagnostics only.
#[derive(Debug)]
pub struct Error {
    source: Option<String>,
}

impl Error {
    /// The description kept for diagnostics, if any.
    pub closed spec fn diagnostic_spec(&self) -> Option<Seq<char>> {
        match self.source {
            Some(s) => Some(s@),
            None => None,
        }
    }

    /// A failure with no description.
    pub fn new() -> (r: Error)
        ensures
            r.diagnostic_spec() is None,
    {
        Error { source: None }
    }

    /// A failure that keeps `source`, a description of the underlying
    /// cause, for diagnostics.
    pub fn from_source(source: String) -> (r: Error)
        ensures
            r.diagnostic_spec() == Some(source@),
    {
        Error { source: Some(source) }
    }

    /// The description of the underlying cause, for logging; not meant to
    /// tell failures apart.
    pub fn diagnostic(&self) -> (r: Option<&String>)
        ensures
            match r {
                Some(s) => self.diagnostic_spec() == Some(s@),
                None => self.diagnostic_spec() is None,
            },
    {
        match &self.source {
            Some(s) => Some(s),
            None => None,
        }
    }
}

} // verus!
