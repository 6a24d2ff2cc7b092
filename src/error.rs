//! The library's error type.
use vstd::prelude::*;
use crate::value::ValueType;

verus! {

/// Why an operation failed.
#[derive(Debug, Clone, PartialEq, Eq)]
pub enum Error {
    /// A script value does not satisfy a function's argument contract.
    TypeMismatch { argument: String, expected: ValueType, got: ValueType },
    /// A manifest source is not under the declared root.
    InvalidRelativePath { path: String, root: String },
    /// No pipeline has the requested name.
    NotFound { name: String },
    /// Reading, writing or archiving failed.
    IoFailure { message: String },
    /// A pipeline failed at one of its steps.
    PipelineFailed { pipeline: String, step: usize, message: String },
}

/// The error for argument `argument`, which wanted `expected` and got `got`.
pub open spec fn is_mismatch(e: Error, argument: Seq<char>, expected: ValueType, got: ValueType) -> bool {
    &&& e matches Error::TypeMismatch { .. }
    &&& e->TypeMismatch_argument@ == argument
    &&& e->TypeMismatch_expected == expected
    &&& e->TypeMismatch_got == got
}

/// The error for argument `name`, which wanted `expected` and got `got`.
pub fn mismatch(name: &str, expected: ValueType, got: ValueType) -> (e: Error)
    ensures
        is_mismatch(e, name@, expected, got),
{
    Error::TypeMismatch { argument: String::from_str(name), expected, got }
}

/// An I/O failure carrying `message`.
pub fn io_failure(message: String) -> (e: Error)
    ensures
        e matches Error::IoFailure { message: m } && m@ == message@,
{
    Error::IoFailure { message }
}

} // verus!
