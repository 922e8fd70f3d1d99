//! A source that reports an event when the program asks it to.
//!
//! A ping is built on a handle of the operating system that the poller can
//! watch. Its [`Notifier`] says what has to be written to that handle to make
//! the poller report the ping's event; handling the event takes one such
//! notification out again.

use crate::{
    asks, lemma_held_after_single, Event, Interest, PollMode, Request, Source, Steps,
};
use std::sync::Arc;
use vstd::prelude::*;

pub mod eventfd;
pub mod iocp;
pub mod pipe;

verus! {

/// What a notifier writes to its handle to notify once.
#[derive(Clone, Copy, Debug, PartialEq, Eq, Structural)]
pub enum Token {
    /// The eight bytes of this number, in the byte order of the machine.
    Counter(u64),
    /// This one byte.
    Byte(u8),
}

impl Token {
    /// The number of bytes that the token takes on the handle.
    pub open spec fn spec_len(self) -> usize {
        match self {
            Token::Counter(_) => 8,
            Token::Byte(_) => 1,
        }
    }

    /// The number of bytes that the token takes on the handle.
    #[verifier::when_used_as_spec(spec_len)]
    pub fn len(self) -> (len: usize)
        ensures
            len == self.spec_len(),
    {
        match self {
            Token::Counter(_) => 8,
            Token::Byte(_) => 1,
        }
    }
}

/// Another owner of the value that `handle` owns.
///
/// Calls `Arc::clone`, which makes a second pointer to the same allocation:
/// the value behind the result is the value behind `handle`.
#[verifier::external_body]
pub(crate) fn share<H>(handle: &Arc<H>) -> (shared: Arc<H>)
    ensures
        shared == *handle,
{
    Arc::clone(handle)
}

/// The ping of the platform: one of the two kinds that a Unix system offers.
#[derive(Debug)]
pub enum Sys<H> {
    /// A ping on an event counter.
    Eventfd(eventfd::Ping<H>),
    /// A ping on a pipe.
    Pipe(pipe::Ping<H>),
}

/// The notifier of the platform's ping.
#[derive(Debug)]
pub enum SysNotify<H> {
    /// Notifies a ping on an event counter.
    Eventfd(eventfd::Notify<H>),
    /// Notifies a ping on a pipe.
    Pipe(pipe::Notify<H>),
}

/// A source that reports its event when its notifier is used.
#[derive(Debug)]
pub struct Ping<H> {
    source: Sys<H>,
}

/// The handle by which a ping is woken. It shares the ping's handle, and can
/// be cloned and sent to other threads.
#[derive(Debug)]
pub struct Notifier<H> {
    notifier: SysNotify<H>,
}

impl<H> SysNotify<H> {
    /// The handle that a notification is written to.
    pub open spec fn handle(self) -> H {
        match self {
            SysNotify::Eventfd(notify) => notify@,
            SysNotify::Pipe(notify) => notify@,
        }
    }

    /// What one notification writes.
    pub open spec fn token(self) -> Token {
        match self {
            SysNotify::Eventfd(_) => eventfd::token(),
            SysNotify::Pipe(_) => pipe::token(),
        }
    }
}

impl<H> Sys<H> {
    /// The notifier's part of the ping.
    pub open spec fn notify(self) -> SysNotify<H> {
        match self {
            Sys::Eventfd(ping) => SysNotify::Eventfd(ping.notify_spec()),
            Sys::Pipe(ping) => SysNotify::Pipe(ping.notify_spec()),
        }
    }

    /// The registration on record.
    pub open spec fn interest(self) -> Option<Interest> {
        match self {
            Sys::Eventfd(ping) => ping.interest(),
            Sys::Pipe(ping) => ping.interest(),
        }
    }

    /// The handle that the poller watches and that notifications are read
    /// from: the counter itself, or the reading end of the pipe.
    pub open spec fn readable(self) -> H {
        match self {
            Sys::Eventfd(ping) => ping.notify_spec()@,
            Sys::Pipe(ping) => ping.reader_spec(),
        }
    }

}

impl<H> View for Ping<H> {
    type V = Sys<H>;

    closed spec fn view(&self) -> Sys<H> {
        self.source
    }
}

impl<H> View for Notifier<H> {
    type V = SysNotify<H>;

    closed spec fn view(&self) -> SysNotify<H> {
        self.notifier
    }
}

impl<H> Ping<H> {
    /// The ping of the platform, from the ping that was opened on it.
    pub fn new(source: Sys<H>) -> (ping: Self)
        ensures
            ping@ == source,
    {
        Self { source }
    }

    /// The ping underneath.
    pub fn source(&self) -> (source: &Sys<H>)
        ensures
            *source == self@,
    {
        &self.source
    }

    /// The handle that the poller watches and that notifications are read
    /// from.
    pub fn readable(&self) -> (handle: &H)
        ensures
            *handle == self@.readable(),
    {
        match &self.source {
            Sys::Eventfd(ping) => ping.notify().handle(),
            Sys::Pipe(ping) => ping.reader(),
        }
    }

    /// A new notifier for this ping. It shares the ping's handle.
    pub fn notifier(&self) -> (notifier: Notifier<H>)
        ensures
            notifier@ == self@.notify(),
    {
        match &self.source {
            Sys::Eventfd(ping) => Notifier { notifier: SysNotify::Eventfd(ping.notify().clone()) },
            Sys::Pipe(ping) => Notifier { notifier: SysNotify::Pipe(ping.notify().clone()) },
        }
    }
}

impl<H> Source for Ping<H> {
    open spec fn interest(&self) -> Option<Interest> {
        self@.interest()
    }

    fn register(&mut self, interest: Event, mode: PollMode) -> (requests: Steps<Request>)
        ensures
            asks(requests@, seq![Request::Add { event: interest, mode }]),
            final(self)@.notify() == old(self)@.notify(),
            final(self)@.readable() == old(self)@.readable(),
    {
        match &mut self.source {
            Sys::Eventfd(ping) => ping.register(interest, mode),
            Sys::Pipe(ping) => ping.register(interest, mode),
        }
    }

    fn reregister(&mut self, interest: Event, mode: PollMode) -> (requests: Steps<Request>)
        ensures
            asks(requests@, seq![Request::Modify { event: interest, mode }]),
            final(self)@.notify() == old(self)@.notify(),
            final(self)@.readable() == old(self)@.readable(),
    {
        match &mut self.source {
            Sys::Eventfd(ping) => ping.reregister(interest, mode),
            Sys::Pipe(ping) => ping.reregister(interest, mode),
        }
    }

    fn deregister(&mut self) -> (requests: Steps<Request>)
        ensures
            old(self).interest() is Some ==> asks(requests@, seq![Request::Delete]),
            final(self)@.notify() == old(self)@.notify(),
            final(self)@.readable() == old(self)@.readable(),
    {
        match &mut self.source {
            Sys::Eventfd(ping) => ping.deregister(),
            Sys::Pipe(ping) => ping.deregister(),
        }
    }

    fn handle_event(&mut self, event: Event) -> (requests: Steps<Request>)
        ensures
            asks(requests@, seq![Request::Drain { len: old(self)@.notify().token().len() }]),
            final(self)@ == old(self)@,
    {
        let requests = match &mut self.source {
            Sys::Eventfd(ping) => ping.handle_event(event),
            Sys::Pipe(ping) => ping.handle_event(event),
        };
        proof {
            lemma_held_after_single(old(self).interest(), requests@.items[0]);
            assert(requests@.items =~= seq![requests@.items[0]]);
        }
        requests
    }
}

impl<H> Clone for Notifier<H> {
    fn clone(&self) -> (notifier: Self)
        ensures
            notifier@ == self@,
    {
        match &self.notifier {
            SysNotify::Eventfd(notify) => Notifier { notifier: SysNotify::Eventfd(notify.clone()) },
            SysNotify::Pipe(notify) => Notifier { notifier: SysNotify::Pipe(notify.clone()) },
        }
    }
}

impl<H> Notifier<H> {
    /// The notifier underneath.
    pub fn sys(&self) -> (notifier: &SysNotify<H>)
        ensures
            *notifier == self@,
    {
        &self.notifier
    }

    /// The handle that a notification is written to.
    pub fn handle(&self) -> (handle: &H)
        ensures
            *handle == self@.handle(),
    {
        match &self.notifier {
            SysNotify::Eventfd(notify) => notify.handle(),
            SysNotify::Pipe(notify) => notify.handle(),
        }
    }

    /// What is to be written to the notifier's handle to notify the ping
    /// once. Every call asks for one write, whether or not the ping is
    /// registered.
    pub fn notify(&self) -> (token: Token)
        ensures
            token == self@.token(),
    {
        match &self.notifier {
            SysNotify::Eventfd(notify) => notify.notify(),
            SysNotify::Pipe(notify) => notify.notify(),
        }
    }
}

} // verus!
