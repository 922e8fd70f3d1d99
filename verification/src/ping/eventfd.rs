//! A ping on an event counter of the kernel.
//!
//! The counter is opened as a semaphore: each notification adds one to it, and
//! each event that is handled takes one off, so a burst of notifications is
//! reported once for each of them.

use crate::ping::{share, Token};
use crate::{asks, Event, Interest, PollMode, Request, Socket, Source, Steps};
use std::sync::Arc;
use vstd::prelude::*;

verus! {

/// What one notification writes: the number one, as the counter's increment.
pub open spec fn token() -> Token {
    Token::Counter(1)
}

/// How the counter is to be opened.
#[derive(Clone, Copy, Debug, PartialEq, Eq, Structural)]
pub struct Creation {
    /// The value that the counter starts with.
    pub initial: u32,
    /// The handle is closed when the process runs another program.
    pub cloexec: bool,
    /// Reading an empty counter fails at once in place of waiting.
    pub nonblock: bool,
    /// A read takes one off the counter in place of emptying it.
    pub semaphore: bool,
}

/// A ping on an event counter.
#[derive(Debug)]
pub struct Ping<H> {
    eventfd: Socket<Notify<H>>,
}

/// The counter's handle, shared between the ping and its notifiers.
#[derive(Debug)]
pub struct Notify<H>(Arc<H>);

impl<H> View for Notify<H> {
    type V = H;

    closed spec fn view(&self) -> H {
        *self.0
    }
}

impl<H> Clone for Notify<H> {
    fn clone(&self) -> (notify: Self)
        ensures
            notify == *self,
    {
        Notify(share(&self.0))
    }
}

impl<H> Notify<H> {
    /// The counter's handle.
    pub fn handle(&self) -> (handle: &H)
        ensures
            *handle == self@,
    {
        &*self.0
    }

    /// What is to be written to the counter to notify once.
    pub fn notify(&self) -> (written: Token)
        ensures
            written == token(),
    {
        Token::Counter(1)
    }
}

impl<H> Ping<H> {
    /// How the counter of a ping is to be opened: empty, closed on exec,
    /// non-blocking, and as a semaphore.
    pub fn creation() -> (creation: Creation)
        ensures
            creation == (Creation { initial: 0, cloexec: true, nonblock: true, semaphore: true }),
    {
        Creation { initial: 0, cloexec: true, nonblock: true, semaphore: true }
    }

    /// The notifier's part of the ping.
    pub closed spec fn notify_spec(self) -> Notify<H> {
        self.eventfd.inner()
    }

    /// The registration on record.
    pub closed spec fn interest(self) -> Option<Interest> {
        self.eventfd.interest()
    }

    /// A ping on the counter `efd`, which was opened as `creation` says.
    pub fn new(efd: H) -> (ping: Self)
        ensures
            ping.notify_spec()@ == efd,
            ping.interest() is None,
    {
        Self { eventfd: Socket::new(Notify(Arc::new(efd))) }
    }

    /// The notifier's part of the ping.
    pub fn notify(&self) -> (notify: &Notify<H>)
        ensures
            *notify == self.notify_spec(),
    {
        self.eventfd.socket()
    }

    /// Records the registration and asks for the counter to be added to the
    /// poller.
    pub fn register(&mut self, interest: Event, mode: PollMode) -> (requests: Steps<Request>)
        ensures
            asks(requests@, seq![Request::Add { event: interest, mode }]),
            final(self).interest() == Some(Interest { event: interest, mode }),
            final(self).notify_spec() == old(self).notify_spec(),
    {
        self.eventfd.register(interest, mode)
    }

    /// Records the registration and asks for the poller's to be changed.
    pub fn reregister(&mut self, interest: Event, mode: PollMode) -> (requests: Steps<Request>)
        ensures
            asks(requests@, seq![Request::Modify { event: interest, mode }]),
            final(self).interest() == Some(Interest { event: interest, mode }),
            final(self).notify_spec() == old(self).notify_spec(),
    {
        self.eventfd.reregister(interest, mode)
    }

    /// Clears the record and, where there was one, asks for the counter to be
    /// removed from the poller.
    pub fn deregister(&mut self) -> (requests: Steps<Request>)
        ensures
            old(self).interest() is Some ==> asks(requests@, seq![Request::Delete]),
            old(self).interest() is None ==> asks(requests@, Seq::<Request>::empty()),
            final(self).interest() is None,
            final(self).notify_spec() == old(self).notify_spec(),
    {
        self.eventfd.deregister()
    }

    /// Asks for one notification to be taken off the counter: a read of as
    /// many bytes as a notification wrote.
    pub fn handle_event(&mut self, event: Event) -> (requests: Steps<Request>)
        ensures
            asks(requests@, seq![Request::Drain { len: token().len() }]),
            *final(self) == *old(self),
    {
        let requests = Steps::new(vec![Request::Drain { len: 8 }]);
        self.eventfd.handle_event(event);
        requests
    }
}

} // verus!
