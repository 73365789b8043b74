use vstd::prelude::*;

verus! {

/// Coordinates graceful shutdown: on the termination signal the listener
/// stops accepting new requests, already-admitted requests run to
/// completion (or to their own deadline — shutdown itself aborts nothing),
/// and the process exits once none is left in flight.
pub struct ShutdownCoordinator {
    /// Whether the listener still accepts new requests.
    pub accepting: bool,
    /// How many accepted requests have not yet finished.
    pub in_flight: usize,
}

/// The state after the termination signal: acceptance stops, in-flight work
/// is untouched.
pub open spec fn after_signal(s: ShutdownCoordinator) -> ShutdownCoordinator {
    ShutdownCoordinator { accepting: false, in_flight: s.in_flight }
}

/// The state after one accepted request: one more in flight.
pub open spec fn after_accept(s: ShutdownCoordinator) -> ShutdownCoordinator {
    ShutdownCoordinator { accepting: s.accepting, in_flight: (s.in_flight + 1) as usize }
}

/// The state after one in-flight request finishes and its response is
/// delivered.
pub open spec fn after_complete(s: ShutdownCoordinator) -> ShutdownCoordinator {
    ShutdownCoordinator { accepting: s.accepting, in_flight: (s.in_flight - 1) as usize }
}

impl ShutdownCoordinator {
    /// The process may exit exactly when the signal has been seen and no
    /// request is left in flight.
    pub open spec fn may_exit_spec(&self) -> bool {
        !self.accepting && self.in_flight == 0
    }

    /// A coordinator for a freshly started listener.
    pub fn new() -> (s: ShutdownCoordinator)
        ensures
            s.accepting,
            s.in_flight == 0,
    {
        ShutdownCoordinator { accepting: true, in_flight: 0 }
    }

    /// The termination signal arrived: stop accepting new requests; leave
    /// in-flight ones alone.
    pub fn signal(&mut self)
        ensures
            *final(self) == after_signal(*old(self)),
    {
        self.accepting = false;
    }

    /// A request arrives at the listener: it is taken in exactly when the
    /// signal has not been seen.
    pub fn try_accept(&mut self) -> (accepted: bool)
        requires
            old(self).in_flight < usize::MAX,
        ensures
            accepted <==> old(self).accepting,
            accepted ==> *final(self) == after_accept(*old(self)),
            !accepted ==> *final(self) == *old(self),
    {
        if self.accepting {
            self.in_flight = self.in_flight + 1;
            true
        } else {
            false
        }
    }

    /// An accepted request finished and its response went out.
    pub fn complete(&mut self)
        requires
            old(self).in_flight > 0,
        ensures
            *final(self) == after_complete(*old(self)),
    {
        self.in_flight = self.in_flight - 1;
    }

    /// Whether the process may exit now.
    pub fn may_exit(&self) -> (r: bool)
        ensures
            r == self.may_exit_spec(),
    {
        !self.accepting && self.in_flight == 0
    }
}

/// Law: shutdown is graceful. With one request in flight when the signal
/// arrives: a request arriving after the signal is not accepted; the
/// in-flight request is not aborted by the signal; the process may not exit
/// while it is still running; and once it completes, exit is allowed.
pub proof fn lemma_graceful_shutdown(s: ShutdownCoordinator)
    requires
        s.accepting,
        s.in_flight == 1,
    ensures
        !after_signal(s).accepting,
        after_signal(s).in_flight == s.in_flight,
        !after_signal(s).may_exit_spec(),
        after_complete(after_signal(s)).may_exit_spec(),
{
}

} // verus!
