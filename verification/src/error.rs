//! The error taxonomy of the buffer bridge.

use vstd::prelude::*;

verus! {

/// An error crossing the native/host boundary.
///
/// `TypeMismatch` and `HostAllocationFailure` are recoverable and surface
/// to the immediate caller. `EnvironmentConsistencyViolation` means the
/// ownership contract between the two sides has diverged (for example, a
/// strong reference was released more often than it was taken); it is
/// propagated as a distinct error kind rather than aborting the process,
/// so callers can tell "bad input" from "boundary broke".
#[derive(Debug, Clone, Copy, PartialEq, Eq, Structural)]
pub enum NjError {
    /// Ingestion was requested on a host value that is not a buffer.
    TypeMismatch,
    /// The host's buffer-creation primitive failed (e.g. out of memory).
    HostAllocationFailure,
    /// A strong-reference release failed: the host/native ownership
    /// model has diverged and no further operation on the value can be
    /// trusted.
    EnvironmentConsistencyViolation,
}

} // verus!
