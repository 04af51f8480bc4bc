//! The error that a call, a transport or a payload access fails with.

use vstd::prelude::*;

verus! {

/// The kind of a failure.
#[derive(Debug, Clone, Copy, PartialEq, Eq)]
pub enum ErrorKind {
    /// Something went wrong.
    Failed,
    /// The callee is short of a resource; the call may work later.
    Overloaded,
    /// The connection that the call needs is gone.
    Disconnected,
    /// The callee does not implement what was called.
    Unimplemented,
}

/// A failure, with words that explain its root cause.
#[derive(Debug, Clone, PartialEq, Eq)]
pub struct Error {
    /// The kind of the failure.
    pub kind: ErrorKind,
    /// What went wrong.
    pub description: String,
}

} // verus!
