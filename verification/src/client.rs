//! The socket client of the scheduler: the commands it sends and how it
//! retries connecting.
use vstd::prelude::*;

verus! {

/// A command sent to the scheduler over its socket.
#[derive(Debug, Clone, Copy, PartialEq, Eq, Structural)]
pub enum Command {
    List,
}

/// How many times the client tries to reach the scheduler, the last try
/// included.
pub const MAX_CONNECTION_ATTEMPTS: u32 = 10;

/// The count of connection attempts while the client waits for the
/// scheduler: it starts at 1, each failed probe adds one, and probing stops
/// at the first success or once the count reaches `MAX_CONNECTION_ATTEMPTS`;
/// a last connection is then made whatever happened.
pub struct ConnectRetry {
    attempts: u32,
}

impl ConnectRetry {
    #[verifier::type_invariant]
    spec fn within_bounds(self) -> bool {
        1 <= self.attempts <= MAX_CONNECTION_ATTEMPTS
    }

    /// The count so far.
    pub closed spec fn count(&self) -> nat {
        self.attempts as nat
    }

    /// The count before any probe: 1.
    pub fn new() -> (r: ConnectRetry)
        ensures
            r.count() == 1,
    {
        ConnectRetry { attempts: 1 }
    }

    /// The count so far.
    pub fn attempts(&self) -> (r: u32)
        ensures
            r == self.count(),
            1 <= r <= MAX_CONNECTION_ATTEMPTS,
    {
        proof { use_type_invariant(self); }
        self.attempts
    }

    /// Whether another probe is due: the count is below the maximum.
    pub fn should_probe(&self) -> (r: bool)
        ensures
            r == (self.count() < MAX_CONNECTION_ATTEMPTS),
    {
        self.attempts < MAX_CONNECTION_ATTEMPTS
    }

    /// Records a probe: a failed one adds one to the count. Returns whether
    /// probing is over because the probe connected.
    pub fn record_probe(&mut self, connected: bool) -> (stop: bool)
        requires
            old(self).count() < MAX_CONNECTION_ATTEMPTS,
        ensures
            stop == connected,
            connected ==> final(self).count() == old(self).count(),
            !connected ==> final(self).count() == old(self).count() + 1,
            final(self).count() <= MAX_CONNECTION_ATTEMPTS,
    {
        proof { use_type_invariant(&*self); }
        if connected {
            true
        } else {
            self.attempts = self.attempts + 1;
            false
        }
    }
}

} // verus!
