//! The receiving side of a channel, as a source of the poll loop.
//!
//! The receiver keeps a future that waits for the next value of the channel.
//! Such a future ends with the value it got, so it is good for one value: the
//! owner gives the receiver a new one each time the receiver is registered
//! anew, and a receiver that is not given one stays with a future that has
//! ended.

use crate::future::{kept_after, taken, Poll, PollFuture};
use crate::ping::{Ping, Sys};
use crate::{asks, Error, Event, Interest, PollMode, Request, Source, Steps};
use vstd::prelude::*;

verus! {

/// The receiving side of a channel of values of `T`. `F` is the future that
/// waits for the next value.
#[derive(Debug)]
pub struct Receiver<H, F, T> {
    future: PollFuture<H, F, Option<T>>,
}

/// What sending into a channel gives, from what the channel said: a failure of
/// the channel, whatever it is, is the one failure of sending.
pub fn sent<E>(outcome: Result<(), E>) -> (result: Result<(), Error>)
    ensures
        outcome is Ok ==> result is Ok,
        outcome is Err ==> result == Err::<(), Error>(Error::SendFailed),
{
    match outcome {
        Ok(()) => Ok(()),
        Err(_) => Err(Error::SendFailed),
    }
}

/// What receiving gives, from what polling the future gave.
pub open spec fn received<T>(polled: Poll<Option<T>>) -> Option<T> {
    match polled {
        Poll::Ready(value) => value,
        Poll::Pending => None,
    }
}

impl<H, F, T> Receiver<H, F, T> {
    /// The ping that wakes the poll loop.
    pub closed spec fn ping_spec(&self) -> Sys<H> {
        self.future.ping_spec()
    }

    /// The future that waits for the next value.
    pub closed spec fn future_spec(&self) -> F {
        self.future.future_spec()
    }

    /// What the future has ended with and the owner has not taken yet.
    pub closed spec fn kept_spec(&self) -> Option<Option<T>> {
        self.future.kept_spec()
    }

    /// A receiver that waits with `future`, and wakes the poll loop with
    /// `ping`.
    pub fn new(ping: Ping<H>, future: F) -> (receiver: Self)
        ensures
            receiver.ping_spec() == ping@,
            receiver.future_spec() == future,
            receiver.kept_spec() is None,
    {
        Self { future: PollFuture::new(ping, future) }
    }

    /// The ping, for building the waker on its notifier.
    pub fn ping(&self) -> (ping: &Ping<H>)
        ensures
            ping@ == self.ping_spec(),
    {
        self.future.ping()
    }

    /// The future that waits for the next value, for polling it.
    pub fn future_mut(&mut self) -> (future: &mut F)
        ensures
            *future == old(self).future_spec(),
            final(self).future_spec() == *final(future),
            final(self).ping_spec() == old(self).ping_spec(),
            final(self).kept_spec() == old(self).kept_spec(),
    {
        self.future.future_mut()
    }

    /// Takes what a poll of the future gave: what the future ended with is
    /// kept for the owner.
    pub fn polled(&mut self, polled: Poll<Option<T>>)
        ensures
            final(self).kept_spec() == kept_after(old(self).kept_spec(), polled),
            final(self).ping_spec() == old(self).ping_spec(),
            final(self).future_spec() == old(self).future_spec(),
    {
        self.future.polled(polled)
    }

    /// Hands the owner what is kept, and keeps it no longer. Where nothing is
    /// kept the owner polls the future, and takes what that gives.
    pub fn poll_unpin(&mut self) -> (value: Poll<Option<T>>)
        ensures
            value == taken(old(self).kept_spec()),
            final(self).kept_spec() is None,
            final(self).ping_spec() == old(self).ping_spec(),
            final(self).future_spec() == old(self).future_spec(),
    {
        self.future.poll_unpin()
    }

    /// What receiving gives, from what the owner got of the future, kept or
    /// polled: the value where the future has ended with one, and nothing
    /// where the channel is closed or the future is still waiting.
    pub fn recv(&mut self, polled: Poll<Option<T>>) -> (value: Option<T>)
        ensures
            value == received(polled),
            *final(self) == *old(self),
    {
        match polled {
            Poll::Ready(value) => value,
            Poll::Pending => None,
        }
    }

    /// Takes how the requests of `reregister` went. Where they were carried
    /// out, `fresh` takes the place of the future, which has ended or may
    /// have; where one failed, the receiver stays as it is. The failure is
    /// handed on as it came.
    pub fn reregistered<E>(&mut self, outcome: Result<(), E>, fresh: F) -> (result: Result<(), E>)
        ensures
            result == outcome,
            outcome is Ok ==> final(self).future_spec() == fresh,
            outcome is Err ==> final(self).future_spec() == old(self).future_spec(),
            final(self).ping_spec() == old(self).ping_spec(),
            final(self).kept_spec() == old(self).kept_spec(),
    {
        if outcome.is_ok() {
            self.reset(fresh);
        }
        outcome
    }

    /// Puts `fresh` in place of the future, which has ended or may have.
    pub fn reset(&mut self, fresh: F)
        ensures
            final(self).future_spec() == fresh,
            final(self).ping_spec() == old(self).ping_spec(),
            final(self).kept_spec() == old(self).kept_spec(),
    {
        let future = self.future.future_mut();
        *future = fresh;
    }
}

impl<H, F, T> Source for Receiver<H, F, T> {
    open spec fn interest(&self) -> Option<Interest> {
        self.ping_spec().interest()
    }

    /// Registers the ping, and then asks for the waker to be woken once.
    fn register(&mut self, interest: Event, mode: PollMode) -> (requests: Steps<Request>)
        ensures
            asks(requests@, seq![Request::Add { event: interest, mode }, Request::Wake]),
            final(self).ping_spec().notify() == old(self).ping_spec().notify(),
            final(self).ping_spec().readable() == old(self).ping_spec().readable(),
            final(self).future_spec() == old(self).future_spec(),
            final(self).kept_spec() == old(self).kept_spec(),
    {
        self.future.register(interest, mode)
    }

    /// Registers the ping anew. The future is put anew with `reregistered`,
    /// once that has been done.
    fn reregister(&mut self, interest: Event, mode: PollMode) -> (requests: Steps<Request>)
        ensures
            asks(requests@, seq![Request::Modify { event: interest, mode }]),
            final(self).ping_spec().notify() == old(self).ping_spec().notify(),
            final(self).ping_spec().readable() == old(self).ping_spec().readable(),
            final(self).future_spec() == old(self).future_spec(),
            final(self).kept_spec() == old(self).kept_spec(),
    {
        self.future.reregister(interest, mode)
    }

    fn deregister(&mut self) -> (requests: Steps<Request>)
        ensures
            old(self).interest() is Some ==> asks(requests@, seq![Request::Delete]),
            final(self).ping_spec().notify() == old(self).ping_spec().notify(),
            final(self).ping_spec().readable() == old(self).ping_spec().readable(),
            final(self).future_spec() == old(self).future_spec(),
            final(self).kept_spec() == old(self).kept_spec(),
    {
        self.future.deregister()
    }

    /// Asks for one notification to be taken out of the ping, and then for
    /// the future to be polled once; what that gives comes back through
    /// `polled`.
    fn handle_event(&mut self, event: Event) -> (requests: Steps<Request>)
        ensures
            asks(requests@, seq![
                Request::Drain { len: old(self).ping_spec().notify().token().len() },
                Request::Poll,
            ]),
            final(self).ping_spec() == old(self).ping_spec(),
            final(self).future_spec() == old(self).future_spec(),
            final(self).kept_spec() == old(self).kept_spec(),
    {
        self.future.handle_event(event)
    }
}

} // verus!
