//! The shutdown-signal capability consulted by the drain loop.
//!
//! The pipeline polls a signal once per drained buffer and shuts down
//! cooperatively when it reports true. Platform signal wiring (interrupt and
//! terminate handlers) lives entirely outside the core; the core only sees
//! this pollable boolean capability.

use vstd::prelude::*;

verus! {

/// A non-blocking, idempotent "should stop" query.
///
/// `is_set` models the observed state of the signal. A fresh observation is
/// made at each `poll`; once the signal has been observed set, it stays set
/// (an interrupt request is never withdrawn).
pub trait ShutdownSignal: Sized {
    /// Whether shutdown has been requested, as of the latest observation.
    /// Left unspecified for signals outside this library.
    open spec fn is_set(&self) -> bool {
        vstd::pervasive::arbitrary()
    }

    /// Observes the signal: returns true when shutdown has been requested.
    fn poll(&mut self) -> (r: bool)
        ensures
            r == final(self).is_set(),
            old(self).is_set() ==> final(self).is_set(),
    ;
}

/// A shutdown signal that never reports shutdown: the default on platforms
/// where no signal interception is available.
pub struct NeverShutdown;

impl ShutdownSignal for NeverShutdown {
    open spec fn is_set(&self) -> bool {
        false
    }

    fn poll(&mut self) -> (r: bool)
        ensures
            r == final(self).is_set(),
            old(self).is_set() ==> final(self).is_set(),
    {
        false
    }
}

/// A shutdown signal driven by an explicit request, for callers that decide
/// themselves when a run should stop.
pub struct ManualSignal {
    stop_requested: bool,
}

impl ManualSignal {
    /// A signal with no shutdown requested yet.
    pub fn new() -> (r: ManualSignal)
        ensures
            !r.is_set(),
    {
        ManualSignal { stop_requested: false }
    }

    /// Requests shutdown: every later poll reports true.
    pub fn request_stop(&mut self)
        ensures
            final(self).is_set(),
    {
        self.stop_requested = true;
    }
}

impl ShutdownSignal for ManualSignal {
    closed spec fn is_set(&self) -> bool {
        self.stop_requested
    }

    fn poll(&mut self) -> (r: bool)
        ensures
            r == final(self).is_set(),
            old(self).is_set() ==> final(self).is_set(),
    {
        self.stop_requested
    }
}

/// The shutdown handle for platforms without signal interception: a signal
/// that always reports "keep running". Platforms with signal support install
/// their own `ShutdownSignal` outside the core.
pub fn abort_handle() -> (r: NeverShutdown)
    ensures
        !r.is_set(),
{
    NeverShutdown
}

} // verus!
