//! A byte-buffer bridge between natively owned memory and a host runtime
//! that owns memory through garbage collection.
//!
//! Byte sequences cross the boundary in four ways: given away without a
//! copy (an external-transfer buffer, reclaimed exactly once by a
//! host-driven callback), given away by copying, observed for the duration
//! of one call (a borrowed view), or observed durably under a strong
//! reference that prevents collection (a pinned handle, released exactly
//! once on destruction).
//!
//! The host runtime's value-creation and reference-counting primitives are
//! an explicit capability, [`host::JsEnv`], threaded through every boundary
//! call, so the transfer protocol can be exercised and verified against a
//! precise model of the host's obligations.

pub mod buffer;
pub mod error;
pub mod host;
pub mod laws;
