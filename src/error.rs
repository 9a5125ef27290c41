use vstd::prelude::*;

verus! {

/// An operation of the host's table interface that this connector refuses.
#[derive(Debug, Clone, Copy, PartialEq, Eq, Structural)]
pub enum Operation {
    ReScan,
    Modify,
}

/// Why an operation of the connector failed. Every error ends the operation
/// in which it occurs; none is retried.
#[derive(Debug, Clone, PartialEq, Eq)]
pub enum FdwError {
    /// A required option is absent; holds the option's name.
    ConfigError(String),
    /// The token request failed or its response could not be read.
    AuthError(String),
    /// A page request failed or its body could not be decoded.
    FetchError(String),
    /// The record has no member of the requested column's name.
    MissingField(String),
    /// The requested column's type cannot be produced.
    UnsupportedType(String),
    /// The operation is not offered by a read-only connector.
    UnsupportedOperation(Operation),
    /// A next page was asked of a page without a continuation reference.
    NoContinuation,
}

} // verus!
