//! Cooperative shutdown signalling.
//!
//! A `ShutdownToken` broadcasts a single "terminate" event.  Its state moves
//! one way only: once `shutdown` has been called the token reports a pending
//! shutdown forever after.

use vstd::prelude::*;

verus! {

/// A token used to signal that the node wants to shut down.
///
/// The flag transitions `false -> true` exactly once and never back.
pub struct ShutdownToken {
    requested: bool,
}

impl ShutdownToken {
    /// Creates a token with no shutdown requested yet.
    pub fn new() -> (token: ShutdownToken)
        ensures
            !token.is_shutdown(),
    {
        ShutdownToken { requested: false }
    }

    /// Whether a shutdown has been requested on this token.
    pub closed spec fn is_shutdown(&self) -> bool {
        self.requested
    }

    /// Returns true if the token is indicating a shutdown.
    pub fn is_awaiting_shutdown(&self) -> (r: bool)
        ensures
            r == self.is_shutdown(),
    {
        self.requested
    }

    /// Tell the token to go to shutdown state.
    pub fn shutdown(&mut self)
        ensures
            final(self).is_shutdown(),
    {
        self.requested = true;
    }

    /// A task waiting on the token becomes ready exactly when the flag is set,
    /// so a poll reports readiness iff a shutdown was requested.
    pub fn poll_ready(&self) -> (ready: bool)
        ensures
            ready == self.is_shutdown(),
    {
        self.requested
    }
}

} // verus!
