//! Core logic of a real-time GPU renderer: device selection, the per-frame
//! resource ring that pipelines rendering across frames in flight, and the
//! strict construction/teardown ordering of device-owned objects.
//!
//! The graphics API itself (instance, surface, logical device, queues) lives
//! outside this crate; callers enumerate devices and perform the blocking
//! waits, then hand the results to the verified decision logic here as plain
//! values.

use vstd::prelude::*;

pub mod instance;
pub mod lifecycle;
pub mod ring;
pub mod selector;

verus! {

/// Outcome taxonomy for every fallible operation of the renderer core.
///
/// Per-device rejection during enumeration is not an error by itself: it only
/// narrows the candidate set. Total absence of candidates escalates to
/// `NoSuitableDevice`; an empty enumeration to `EnumerationFailure`.
#[derive(Clone, Copy, Debug, PartialEq, Eq, Structural)]
pub enum RenderError {
    /// No devices present at all.
    EnumerationFailure,
    /// Devices exist, but none passes the capability/presentation filter.
    NoSuitableDevice,
    /// Creation of a pool, buffer, signal or fence was rejected.
    ResourceCreationFailure,
    /// A bounded fence wait exceeded its timeout: the device is presumed
    /// hung or lost, and the failure is fatal rather than retryable.
    SyncTimeout,
    /// An opaque failure reported by the graphics backend.
    BackendFailure,
}

} // verus!
