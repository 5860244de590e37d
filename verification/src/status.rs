//! The driver's status taxonomy: every fallible entry point returns
//! `Result<_, VaStatus>`, distinguishing stale or out-of-range handles per
//! object kind, malformed parameters, recognized-but-unhandled request
//! combinations, processing-engine failures and allocation failures.

use vstd::prelude::*;

verus! {

/// Why a driver call failed.
///
/// A lookup of a missing slot and one of an out-of-range index map to the
/// same invalid-handle status for that object kind, so a caller cannot tell
/// "never existed" from "destroyed".
#[derive(Clone, Copy, PartialEq, Eq, Structural, Debug)]
pub enum VaStatus {
    /// A config handle did not resolve to a live config.
    InvalidConfig,
    /// A context handle did not resolve to a live context.
    InvalidContext,
    /// A surface handle did not resolve to a live surface, or a surface's
    /// backing buffer is gone or of the wrong kind.
    InvalidSurface,
    /// A buffer handle did not resolve to a live buffer.
    InvalidBuffer,
    /// An image handle did not resolve to a live image.
    InvalidImage,
    /// A malformed attribute, region or size/count combination.
    InvalidParameter,
    /// Resource exhaustion while allocating a surface or a handle.
    AllocationFailed,
    /// The external processing engine failed, or was driven out of order.
    EncodingError,
    /// A recognized but unhandled combination of profile, pipeline kind,
    /// buffer kind or memory-export kind.
    Unimplemented,
}

} // verus!
