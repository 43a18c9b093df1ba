//! Failures of operations on vector data.

use vstd::prelude::*;

verus! {

/// Failures raised by operations on vector data.
#[derive(Clone, Copy, Debug, PartialEq, Eq, Structural)]
pub enum OperationError {
    /// The dense facet of a sparse vector, or the sparse facet of a dense
    /// vector, was requested.
    WrongSparse,
}

impl OperationError {
    /// Human-readable description of the failure.
    pub fn message(&self) -> (text: &'static str)
        ensures
            text@ == "Wrong usage of sparse vectors"@,
    {
        "Wrong usage of sparse vectors"
    }
}

} // verus!
