//! Listening for the server shutdown signal.
use tokio::sync::broadcast;
use vstd::prelude::*;

verus! {

/// Declares the outside type `tokio::sync::broadcast::Receiver`, with no
/// fields visible.
#[verifier::external_type_specification]
#[verifier::external_body]
#[verifier::reject_recursive_types(T)]
pub struct ExReceiver<T>(broadcast::Receiver<T>);

/// What receiving the shutdown notice does first.
#[derive(Debug, PartialEq, Eq, Structural)]
pub enum RecvAction {
    /// The signal was received already: return at once, changing nothing.
    Return,
    /// Wait on the receiver for the signal, then record it.
    Wait,
}

/// The first step of receiving the notice, when `received` tells whether
/// the signal was received already.
pub open spec fn recv_action(received: bool) -> RecvAction {
    if received {
        RecvAction::Return
    } else {
        RecvAction::Wait
    }
}

/// Whether the signal is received after a receive of the notice, begun when
/// `received` told that, has run to completion.
pub open spec fn recv_step(received: bool) -> bool {
    match recv_action(received) {
        RecvAction::Return => received,
        RecvAction::Wait => true,
    }
}

/// Whether the signal is received after a new `Shutdown` has run `n`
/// receives of the notice to completion.
pub open spec fn received_after(n: nat) -> bool
    decreases n,
{
    if n == 0 {
        false
    } else {
        recv_step(received_after((n - 1) as nat))
    }
}

/// A `Shutdown` reports the signal received exactly when some receive of
/// the notice has run to completion since it was made; a receive that
/// starts with the signal received returns at once and changes nothing.
pub proof fn lemma_received_after_recvs(n: nat)
    ensures
        received_after(n) <==> n > 0,
        recv_action(true) == RecvAction::Return,
        recv_step(true) == true,
    decreases n,
{
    if n > 1 {
        lemma_received_after_recvs((n - 1) as nat);
    }
}

/// Listens for the server shutdown signal.
///
/// Shutdown is signaled using a `broadcast::Receiver`. Only a single value is
/// ever sent. Once a value has been sent via the broadcast channel, the
/// server should shut down.
///
/// The `Shutdown` struct listens for the signal and tracks that the signal
/// has been received. Callers may query whether the shutdown signal has been
/// received or not. Receiving the notice goes in steps: `recv_begin` tells
/// whether to return at once or to wait; the caller waits on `notifier()`,
/// then calls `signal_received()`.
#[derive(Debug)]
pub struct Shutdown {
    /// `true` once the shutdown signal has been received.
    shutdown: bool,
    /// The receive half of the channel that carries the signal.
    notify: broadcast::Receiver<()>,
}

impl Shutdown {
    /// Whether the shutdown signal has been received.
    pub closed spec fn received(&self) -> bool {
        self.shutdown
    }

    /// The receiver that the signal arrives on.
    pub closed spec fn receiver(&self) -> broadcast::Receiver<()> {
        self.notify
    }

    /// Creates a new `Shutdown` backed by the given `broadcast::Receiver`,
    /// with no signal received yet.
    pub fn new(notify: broadcast::Receiver<()>) -> (r: Shutdown)
        ensures
            r.received() == received_after(0),
            r.receiver() == notify,
    {
        Shutdown { shutdown: false, notify }
    }

    /// Returns `true` if the shutdown signal has been received.
    pub fn is_shutdown(&self) -> (r: bool)
        ensures
            r == self.received(),
    {
        self.shutdown
    }

    /// The first step of receiving the shutdown notice: return at once if
    /// the signal was received already, else wait for it.
    pub fn recv_begin(&self) -> (r: RecvAction)
        ensures
            r == recv_action(self.received()),
    {
        if self.shutdown {
            RecvAction::Return
        } else {
            RecvAction::Wait
        }
    }

    /// The receiver to wait on for the signal. Waiting on it changes only
    /// the receiver: whether the signal was received is kept.
    pub fn notifier(&mut self) -> (r: &mut broadcast::Receiver<()>)
        ensures
            *r == old(self).receiver(),
            final(self).receiver() == *final(r),
            final(self).received() == old(self).received(),
    {
        &mut self.notify
    }

    /// Remembers that the shutdown signal has been received: the last step
    /// of a receive that waited.
    pub fn signal_received(&mut self)
        ensures
            final(self).received() == recv_step(old(self).received()),
            final(self).received(),
            final(self).receiver() == old(self).receiver(),
    {
        self.shutdown = true;
    }
}

} // verus!
