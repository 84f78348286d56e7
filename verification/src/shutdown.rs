//! The shutdown handshake: a one-shot, single-value signal from the
//! bridge's owner to the polling task. The owner may signal any number of
//! times without harm, but only the first signal is ever observed, and it
//! is observed at most once.

use vstd::prelude::*;

verus! {

/// What a signal attempt reports back to the caller.
#[derive(Clone, Copy, PartialEq, Eq, Debug)]
pub enum SignalStatus {
    /// This was the first signal; the polling task will observe it.
    Accepted,
    /// A signal had already been sent; this one changes nothing.
    AlreadySignaled,
}

/// A one-shot shutdown signal: `signal` is effective at most once, and
/// `try_recv` observes that one signal at most once.
pub struct ShutdownSignal {
    sent: bool,
    observed: bool,
}

impl ShutdownSignal {
    /// Whether a signal has been sent.
    pub closed spec fn sent(self) -> bool {
        self.sent
    }

    /// Whether the receiving side has already observed the signal.
    pub closed spec fn observed(self) -> bool {
        self.observed
    }

    /// A signal can only have been observed after it was sent.
    pub open spec fn wf(self) -> bool {
        self.observed() ==> self.sent()
    }

    /// A fresh handshake: nothing sent, nothing observed.
    pub fn new() -> (s: ShutdownSignal)
        ensures
            s.wf(),
            !s.sent(),
            !s.observed(),
    {
        ShutdownSignal { sent: false, observed: false }
    }

    /// Sends the shutdown signal. The first call is accepted; every later
    /// call reports that the signal was already sent and changes nothing.
    /// Signaling never fails, whatever state the receiving side is in.
    pub fn signal(&mut self) -> (r: SignalStatus)
        requires
            old(self).wf(),
        ensures
            final(self).wf(),
            final(self).sent(),
            final(self).observed() == old(self).observed(),
            r == (if old(self).sent() {
                SignalStatus::AlreadySignaled
            } else {
                SignalStatus::Accepted
            }),
    {
        let r = if self.sent {
            SignalStatus::AlreadySignaled
        } else {
            SignalStatus::Accepted
        };
        self.sent = true;
        r
    }

    /// Non-blocking check from the receiving side: reports true exactly
    /// once, the first time it runs after a signal was sent.
    pub fn try_recv(&mut self) -> (r: bool)
        requires
            old(self).wf(),
        ensures
            final(self).wf(),
            final(self).sent() == old(self).sent(),
            r == (old(self).sent() && !old(self).observed()),
            final(self).observed() == (old(self).observed() || old(self).sent()),
    {
        let r = self.sent && !self.observed;
        if self.sent {
            self.observed = true;
        }
        r
    }
}

} // verus!
