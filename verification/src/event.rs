//! The event that is set when an environment is closed, and who may set it.
//!
//! Whoever wants to can wait for the event. It is set by [`Setter::set`] and nothing else, and
//! a setter is had only in exchange for the event of a listed environment, of which there is
//! one and which is then not listed any more. Every other function here has the clause
//! `opens_invariants none`, which [`SignalEvent::signal`] has not: it cannot set the event.

use crate::share::{Reader, Shared};
use std::time::Duration;
use synchronoise::event::SignalEvent;
use vstd::prelude::*;

verus! {

/// An event that is set when an environment is closed.
pub struct ClosingEvent(SignalEvent);

impl ClosingEvent {
    /// The event itself.
    pub closed spec fn inner(self) -> SignalEvent {
        self.0
    }

    /// An event that is not set.
    pub(crate) fn unset() -> (event: Self)
        ensures
            call_ensures(SignalEvent::manual, (false,), event.inner()),
        opens_invariants none
    {
        ClosingEvent(SignalEvent::manual(false))
    }
}

/// The event of an environment that is listed. There is one for each environment that is
/// listed, and it cannot be copied: who turns it into a [`Setter`] has it no more.
pub struct ListedEvent(Shared<ClosingEvent>);

impl ListedEvent {
    /// The event.
    pub closed spec fn event(self) -> ClosingEvent {
        self.0.value()
    }

    /// The event, to be listed.
    pub(crate) fn of(event: Shared<ClosingEvent>) -> (listed: Self)
        ensures
            listed.event() == event.value(),
        opens_invariants none
    {
        ListedEvent(event)
    }
}

/// Someone who can wait for an event.
pub struct Waiter(Reader<ClosingEvent>);

impl Waiter {
    /// The event that is waited for.
    pub closed spec fn event(self) -> ClosingEvent {
        self.0.value()
    }

    /// One who waits for the given event.
    pub(crate) fn of(listed: &ListedEvent) -> (waiter: Self)
        ensures
            waiter.event() == listed.event(),
        opens_invariants none
    {
        Waiter(listed.0.reader())
    }

    /// Another who waits for the same event.
    pub(crate) fn another(&self) -> (waiter: Self)
        ensures
            waiter == *self,
        opens_invariants none
    {
        Waiter(self.0.another())
    }

    /// Blocks until the event is set.
    pub(crate) fn wait(&self)
        ensures
            call_ensures(SignalEvent::wait, (&self.event().inner(),), ()),
        opens_invariants none
    {
        self.0.get().0.wait()
    }

    /// Blocks until the event is set or the timeout elapses, and returns whether it is set.
    pub(crate) fn wait_timeout(&self, timeout: Duration) -> (set: bool)
        ensures
            call_ensures(SignalEvent::wait_timeout, (&self.event().inner(), timeout), set),
        opens_invariants none
    {
        self.0.get().0.wait_timeout(timeout)
    }
}

/// The one who can set an event, once.
pub struct Setter(Shared<ClosingEvent>);

impl Setter {
    /// The event that is to be set.
    pub closed spec fn event(self) -> ClosingEvent {
        self.0.value()
    }

    /// The one who can set the event of an environment that is not listed any more.
    pub(crate) fn of(listed: ListedEvent) -> (setter: Self)
        ensures
            setter.event() == listed.event(),
        opens_invariants none
    {
        Setter(listed.0)
    }

    /// Sets the event.
    pub(crate) fn set(self)
        ensures
            call_ensures(SignalEvent::signal, (&self.event().inner(),), ()),
    {
        self.0.get().0.signal()
    }
}

} // verus!
