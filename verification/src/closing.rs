//! Waiting for an environment to close.

use crate::event::{ClosingEvent, ListedEvent, Setter, Waiter};
use std::time::Duration;
use synchronoise::event::SignalEvent;
use vstd::prelude::*;

verus! {

/// `synchronoise::event::SignalEvent`: a flag that threads can wait on. It changes under
/// shared references, so a value of it stands for the event itself and not for its state.
#[verifier::external_type_specification]
#[verifier::external_body]
pub struct ExSignalEvent(SignalEvent);

/// `SignalEvent::manual` makes an event that stays set once it is set, with the given state
/// to start from. Nothing is stated of the result but that it came from this call: any thread
/// may set the event as soon as it is there.
pub assume_specification[ SignalEvent::manual ](init_state: bool) -> (event: SignalEvent)
    opens_invariants none
;

/// `SignalEvent::signal` sets the event and wakes every thread that waits on it. Nothing is
/// stated of it: what it changes, any thread may see, and no value here tells it. It is the
/// one function here without `opens_invariants none`, so that what has that clause cannot
/// set an event.
pub assume_specification[ SignalEvent::signal ](event: &SignalEvent);

/// `SignalEvent::wait` blocks until the event is set, and returns at once when it is.
/// Nothing is stated of it: when it returns is up to the other threads.
pub assume_specification[ SignalEvent::wait ](event: &SignalEvent)
    opens_invariants none
;

/// `SignalEvent::wait_timeout` blocks until the event is set or the timeout has elapsed, and
/// returns whether the event is set. Nothing is stated of the result: it is up to the other
/// threads and to time.
pub assume_specification[ SignalEvent::wait_timeout ](
    event: &SignalEvent,
    timeout: Duration,
) -> (signaled: bool)
    opens_invariants none
;

/// A structure that can be used to wait for the closing event,
/// multiple threads can wait on this event.
pub struct EnvClosingEvent(Waiter);

impl Clone for EnvClosingEvent {
    fn clone(&self) -> (event: Self)
        ensures
            event == *self,
    {
        EnvClosingEvent(self.0.another())
    }
}

impl EnvClosingEvent {
    /// The event that is waited on.
    pub closed spec fn event(self) -> ClosingEvent {
        self.0.event()
    }

    /// A handle to wait on the given event.
    pub(crate) fn of(signal_event: &ListedEvent) -> (event: Self)
        ensures
            event.event() == signal_event.event(),
        opens_invariants none
    {
        EnvClosingEvent(Waiter::of(signal_event))
    }

    /// Blocks this thread until the environment is effectively closed.
    ///
    /// Make sure that you don't have any copy of the environment in the thread
    /// that is waiting for a close event, if you do, you will have a dead-lock.
    pub fn wait(&self)
        ensures
            call_ensures(SignalEvent::wait, (&self.event().inner(),), ()),
        opens_invariants none
    {
        self.0.wait()
    }

    /// Blocks this thread until either the environment has been closed
    /// or until the timeout elapses, returns `true` if the environment
    /// has been effectively closed.
    pub fn wait_timeout(&self, timeout: Duration) -> (closed: bool)
        ensures
            call_ensures(SignalEvent::wait_timeout, (&self.event().inner(), timeout), closed),
        opens_invariants none
    {
        self.0.wait_timeout(timeout)
    }
}

/// The last duty of an environment that closes: once LMDB has closed it, to tell those who
/// wait for it.
#[must_use]
pub struct ClosedSignal(Setter);

impl ClosedSignal {
    /// The event that is to be set.
    pub closed spec fn event(self) -> ClosingEvent {
        self.0.event()
    }

    /// The duty to set the event of an environment that is listed no more.
    pub(crate) fn of(signal_event: ListedEvent) -> (signal: Self)
        ensures
            signal.event() == signal_event.event(),
        opens_invariants none
    {
        ClosedSignal(Setter::of(signal_event))
    }

    /// Signals to all the waiters that the environment is closed now.
    pub fn signal(self)
        ensures
            call_ensures(SignalEvent::signal, (&self.event().inner(),), ()),
    {
        self.0.set()
    }
}

} // verus!
