use vstd::prelude::*;

verus! {

/// The error taxonomy of the boundary layer. Every fallible boundary
/// operation reports one of these kinds inside a [`BoundaryError`].
#[derive(Clone, Copy, Debug, PartialEq, Eq, Structural)]
pub enum ErrorKind {
    /// A descriptor disagreed with the stored type at a downcast or a
    /// validation step.
    TypeMismatch,
    /// No registered implementation exists for the given type tuple.
    UnsupportedCombination,
    /// The domain/metric pairing is not registered as a valid metric space.
    IncompatibleMetricSpace,
    /// A type name outside the closed registry of supported types.
    UnsupportedType,
    /// A descriptor of the wrong shape for the requested role.
    InvalidArgument,
    /// A boundary payload did not match the size or layout its descriptor
    /// implies.
    InternalMarshalling,
}

/// A structured error crossing the boundary: a kind plus a diagnostic
/// message naming the types and the operation involved, so a caller can
/// diagnose a failure without access to this library's source.
#[derive(Clone, Debug)]
pub struct BoundaryError {
    pub kind: ErrorKind,
    pub message: String,
}

impl BoundaryError {
    pub fn new(kind: ErrorKind, message: String) -> (r: BoundaryError)
        ensures
            r.kind == kind,
            r.message == message,
    {
        BoundaryError { kind, message }
    }
}

} // verus!
