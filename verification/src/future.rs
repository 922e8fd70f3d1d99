//! A computation that is polled from the poll loop.
//!
//! A computation that can be suspended says when it wants to be polled again
//! by waking a waker. Here the waker notifies a ping, so that the wish shows
//! up in the poll loop as an event of the ping. Handling that event takes the
//! notification out of the ping and then polls the computation once. What the
//! poll gives is not the business of the poll loop: a value that the
//! computation ends with is kept here, for the owner to take.
//!
//! This module keeps the ping, the computation and the kept value together
//! and says what each operation asks for. Its caller builds the waker on the
//! ping's notifier and does the polling that is asked for.

use crate::ping::{Ping, Sys};
use crate::{
    asks, lemma_held_after_push, lemma_held_after_single, Event, Interest, PollMode, Request,
    Source, Steps,
};
use vstd::prelude::*;

verus! {

/// What polling a computation gave.
#[derive(Debug, PartialEq, Eq)]
pub enum Poll<T> {
    /// The computation has ended with this value.
    Ready(T),
    /// The computation is not done. It wakes its waker when polling it again
    /// is worth while.
    Pending,
}

/// A ping together with the computation that it wakes the poll loop for,
/// whatever the computation takes when it is polled. `T` is what the
/// computation ends with.
#[derive(Debug)]
pub struct PollFutureWithArg<H, F, T> {
    ping: Ping<H>,
    future: F,
    kept: Option<T>,
}

/// A future that is polled from the poll loop.
#[derive(Debug)]
pub struct PollFuture<H, F, T> {
    inner: PollFutureWithArg<H, F, T>,
}

/// A ping together with a computation that is polled with something that
/// only its owner has: a reader or a writer with the owner's buffer, a seeker
/// with the position that the owner wants.
///
/// The poll loop has no buffer and no position to poll with, and one that it
/// made up would take bytes from the reader or move the seeker behind the
/// owner's back. So handling an event of such a source takes the notification
/// out of the ping and leaves the polling to the owner. In all else the source
/// asks what a future asks.
#[derive(Debug)]
pub struct PollWithArg<H, F> {
    ping: Ping<H>,
    future: F,
}

/// A reader that is polled from the poll loop.
pub type PollRead<H, R> = PollWithArg<H, R>;

/// A writer that is polled from the poll loop.
pub type PollWrite<H, W> = PollWithArg<H, W>;

/// A seeker that is polled from the poll loop.
pub type PollSeek<H, S> = PollWithArg<H, S>;

/// What is kept once a poll gave `polled`, where `kept` was kept before: the
/// value that the computation ended with, and else what was kept.
pub open spec fn kept_after<T>(kept: Option<T>, polled: Poll<T>) -> Option<T> {
    match polled {
        Poll::Ready(value) => Some(value),
        Poll::Pending => kept,
    }
}

/// What the owner gets when it asks for the value: the one that is kept, and
/// else the word that the computation is not done.
pub open spec fn taken<T>(kept: Option<T>) -> Poll<T> {
    match kept {
        Some(value) => Poll::Ready(value),
        None => Poll::Pending,
    }
}

impl<H, F, T> PollFutureWithArg<H, F, T> {
    /// The ping that wakes the poll loop.
    pub closed spec fn ping_spec(&self) -> Sys<H> {
        self.ping@
    }

    /// The computation.
    pub closed spec fn future_spec(&self) -> F {
        self.future
    }

    /// The value that the computation has ended with and that the owner has
    /// not taken yet.
    pub closed spec fn kept_spec(&self) -> Option<T> {
        self.kept
    }

    /// Keeps `future` with `ping`, which is new and is the one that the
    /// future's waker will notify. No value is kept yet.
    pub fn new_with_arg(ping: Ping<H>, future: F) -> (source: Self)
        ensures
            source.ping_spec() == ping@,
            source.future_spec() == future,
            source.kept_spec() is None,
    {
        Self { ping, future, kept: None }
    }

    /// The ping, for building the waker on its notifier.
    pub fn ping(&self) -> (ping: &Ping<H>)
        ensures
            ping@ == self.ping_spec(),
    {
        &self.ping
    }

    /// The computation.
    pub fn future(&self) -> (future: &F)
        ensures
            *future == self.future_spec(),
    {
        &self.future
    }

    /// The computation, for polling it or putting another in its place. The
    /// ping and the kept value are not touched.
    pub fn future_mut(&mut self) -> (future: &mut F)
        ensures
            *future == old(self).future_spec(),
            final(self).future_spec() == *final(future),
            final(self).ping_spec() == old(self).ping_spec(),
            final(self).kept_spec() == old(self).kept_spec(),
    {
        &mut self.future
    }

    /// Registers the ping, and then asks for the waker to be woken once, so
    /// that the poll loop gets an event and polls the computation for the
    /// first time without anything else having to happen. The waker is woken
    /// only where the ping was added: the requests are steps.
    pub fn register(&mut self, interest: Event, mode: PollMode) -> (requests: Steps<Request>)
        ensures
            asks(requests@, seq![Request::Add { event: interest, mode }, Request::Wake]),
            final(self).ping_spec().interest() == Some(Interest { event: interest, mode }),
            final(self).ping_spec().notify() == old(self).ping_spec().notify(),
            final(self).ping_spec().readable() == old(self).ping_spec().readable(),
            final(self).future_spec() == old(self).future_spec(),
            final(self).kept_spec() == old(self).kept_spec(),
    {
        let mut requests = self.ping.register(interest, mode);
        requests.push(Request::Wake);
        requests
    }

    /// Registers the ping anew.
    pub fn reregister(&mut self, interest: Event, mode: PollMode) -> (requests: Steps<Request>)
        ensures
            asks(requests@, seq![Request::Modify { event: interest, mode }]),
            final(self).ping_spec().interest() == Some(Interest { event: interest, mode }),
            final(self).ping_spec().notify() == old(self).ping_spec().notify(),
            final(self).ping_spec().readable() == old(self).ping_spec().readable(),
            final(self).future_spec() == old(self).future_spec(),
            final(self).kept_spec() == old(self).kept_spec(),
    {
        self.ping.reregister(interest, mode)
    }

    /// Takes the ping out of the poller.
    pub fn deregister(&mut self) -> (requests: Steps<Request>)
        ensures
            old(self).ping_spec().interest() is Some ==> asks(requests@, seq![Request::Delete]),
            old(self).ping_spec().interest() is None ==> asks(requests@, Seq::<Request>::empty()),
            final(self).ping_spec().interest() is None,
            final(self).ping_spec().notify() == old(self).ping_spec().notify(),
            final(self).ping_spec().readable() == old(self).ping_spec().readable(),
            final(self).future_spec() == old(self).future_spec(),
            final(self).kept_spec() == old(self).kept_spec(),
    {
        self.ping.deregister()
    }

    /// Asks for one notification to be taken out of the ping, and then for
    /// the computation to be polled once. The computation is polled only
    /// where the notification was taken out: the requests are steps. What the
    /// poll gives comes back through `polled`, not through the poll loop.
    pub fn handle_event(&mut self, event: Event) -> (requests: Steps<Request>)
        ensures
            asks(requests@, seq![
                Request::Drain { len: old(self).ping_spec().notify().token().len() },
                Request::Poll,
            ]),
            final(self).ping_spec() == old(self).ping_spec(),
            final(self).future_spec() == old(self).future_spec(),
            final(self).kept_spec() == old(self).kept_spec(),
    {
        let mut requests = self.ping.handle_event(event);
        requests.push(Request::Poll);
        requests
    }

    /// Takes what a poll of the computation gave. A value that the
    /// computation ended with is kept for the owner; where the computation is
    /// not done, what is kept stays.
    pub fn polled(&mut self, polled: Poll<T>)
        ensures
            final(self).kept_spec() == kept_after(old(self).kept_spec(), polled),
            final(self).ping_spec() == old(self).ping_spec(),
            final(self).future_spec() == old(self).future_spec(),
    {
        match polled {
            Poll::Ready(value) => {
                self.kept = Some(value);
            },
            Poll::Pending => {},
        }
    }

    /// Hands the owner the value that is kept, and keeps it no longer. Where
    /// none is kept the computation is not known to be done: the owner may
    /// poll it, and takes what that gives.
    pub fn poll_unpin(&mut self) -> (value: Poll<T>)
        ensures
            value == taken(old(self).kept_spec()),
            final(self).kept_spec() is None,
            final(self).ping_spec() == old(self).ping_spec(),
            final(self).future_spec() == old(self).future_spec(),
    {
        match self.kept.take() {
            Some(value) => Poll::Ready(value),
            None => Poll::Pending,
        }
    }
}

impl<H, F, T> PollFuture<H, F, T> {
    /// The ping that wakes the poll loop.
    pub closed spec fn ping_spec(&self) -> Sys<H> {
        self.inner.ping_spec()
    }

    /// The future.
    pub closed spec fn future_spec(&self) -> F {
        self.inner.future_spec()
    }

    /// The value that the future has ended with and that the owner has not
    /// taken yet.
    pub closed spec fn kept_spec(&self) -> Option<T> {
        self.inner.kept_spec()
    }

    /// Keeps `future` with `ping`, which is new and is the one that the
    /// future's waker will notify. No value is kept yet.
    pub fn new(ping: Ping<H>, future: F) -> (source: Self)
        ensures
            source.ping_spec() == ping@,
            source.future_spec() == future,
            source.kept_spec() is None,
    {
        Self { inner: PollFutureWithArg::new_with_arg(ping, future) }
    }

    /// The ping, for building the waker on its notifier.
    pub fn ping(&self) -> (ping: &Ping<H>)
        ensures
            ping@ == self.ping_spec(),
    {
        self.inner.ping()
    }

    /// The future.
    pub fn future(&self) -> (future: &F)
        ensures
            *future == self.future_spec(),
    {
        self.inner.future()
    }

    /// The future, for polling it or putting another in its place. The ping
    /// and the kept value are not touched.
    pub fn future_mut(&mut self) -> (future: &mut F)
        ensures
            *future == old(self).future_spec(),
            final(self).future_spec() == *final(future),
            final(self).ping_spec() == old(self).ping_spec(),
            final(self).kept_spec() == old(self).kept_spec(),
    {
        self.inner.future_mut()
    }

    /// Takes what a poll of the future gave. A value that the future ended
    /// with is kept for the owner; where the future is not done, what is kept
    /// stays.
    pub fn polled(&mut self, polled: Poll<T>)
        ensures
            final(self).kept_spec() == kept_after(old(self).kept_spec(), polled),
            final(self).ping_spec() == old(self).ping_spec(),
            final(self).future_spec() == old(self).future_spec(),
    {
        self.inner.polled(polled)
    }

    /// Hands the owner the value that is kept, and keeps it no longer. Where
    /// none is kept the future is not known to be done: the owner may poll
    /// it, and takes what that gives.
    pub fn poll_unpin(&mut self) -> (value: Poll<T>)
        ensures
            value == taken(old(self).kept_spec()),
            final(self).kept_spec() is None,
            final(self).ping_spec() == old(self).ping_spec(),
            final(self).future_spec() == old(self).future_spec(),
    {
        self.inner.poll_unpin()
    }
}

impl<H, F, T> Source for PollFuture<H, F, T> {
    open spec fn interest(&self) -> Option<Interest> {
        self.ping_spec().interest()
    }

    /// Registers the ping, and then asks for the waker to be woken once. The
    /// waker is woken only where the ping was added: the requests are steps.
    fn register(&mut self, interest: Event, mode: PollMode) -> (requests: Steps<Request>)
        ensures
            asks(requests@, seq![Request::Add { event: interest, mode }, Request::Wake]),
            final(self).ping_spec().notify() == old(self).ping_spec().notify(),
            final(self).ping_spec().readable() == old(self).ping_spec().readable(),
            final(self).future_spec() == old(self).future_spec(),
            final(self).kept_spec() == old(self).kept_spec(),
    {
        let requests = self.inner.register(interest, mode);
        proof {
            let first = seq![Request::Add { event: interest, mode }];
            lemma_held_after_single(old(self).interest(), first[0]);
            assert(first =~= seq![first[0]]);
            lemma_held_after_push(old(self).interest(), first, Request::Wake);
            assert(requests@.items =~= first.push(Request::Wake));
        }
        requests
    }

    fn reregister(&mut self, interest: Event, mode: PollMode) -> (requests: Steps<Request>)
        ensures
            asks(requests@, seq![Request::Modify { event: interest, mode }]),
            final(self).ping_spec().notify() == old(self).ping_spec().notify(),
            final(self).ping_spec().readable() == old(self).ping_spec().readable(),
            final(self).future_spec() == old(self).future_spec(),
            final(self).kept_spec() == old(self).kept_spec(),
    {
        let requests = self.inner.reregister(interest, mode);
        proof {
            lemma_held_after_single(old(self).interest(), requests@.items[0]);
            assert(requests@.items =~= seq![requests@.items[0]]);
        }
        requests
    }

    fn deregister(&mut self) -> (requests: Steps<Request>)
        ensures
            old(self).interest() is Some ==> asks(requests@, seq![Request::Delete]),
            final(self).ping_spec().notify() == old(self).ping_spec().notify(),
            final(self).ping_spec().readable() == old(self).ping_spec().readable(),
            final(self).future_spec() == old(self).future_spec(),
            final(self).kept_spec() == old(self).kept_spec(),
    {
        let requests = self.inner.deregister();
        proof {
            if old(self).interest() is Some {
                lemma_held_after_single(old(self).interest(), requests@.items[0]);
                assert(requests@.items =~= seq![requests@.items[0]]);
            }
        }
        requests
    }

    /// Asks for one notification to be taken out of the ping, and then for
    /// the future to be polled once. The future is polled only where the
    /// notification was taken out: the requests are steps. What the poll
    /// gives comes back through `polled`, not through the poll loop.
    fn handle_event(&mut self, event: Event) -> (requests: Steps<Request>)
        ensures
            asks(requests@, seq![
                Request::Drain { len: old(self).ping_spec().notify().token().len() },
                Request::Poll,
            ]),
            final(self).ping_spec() == old(self).ping_spec(),
            final(self).future_spec() == old(self).future_spec(),
            final(self).kept_spec() == old(self).kept_spec(),
    {
        let requests = self.inner.handle_event(event);
        proof {
            let first = seq![requests@.items[0]];
            lemma_held_after_single(old(self).interest(), first[0]);
            lemma_held_after_push(old(self).interest(), first, Request::Poll);
            assert(requests@.items =~= first.push(Request::Poll));
        }
        requests
    }
}

impl<H, F> PollWithArg<H, F> {
    /// The ping that wakes the poll loop.
    pub closed spec fn ping_spec(&self) -> Sys<H> {
        self.ping@
    }

    /// The computation.
    pub closed spec fn future_spec(&self) -> F {
        self.future
    }

    /// Keeps `future` with `ping`, which is new and is the one that the
    /// computation's waker will notify.
    pub fn new(ping: Ping<H>, future: F) -> (source: Self)
        ensures
            source.ping_spec() == ping@,
            source.future_spec() == future,
    {
        Self { ping, future }
    }

    /// The ping, for building the waker on its notifier.
    pub fn ping(&self) -> (ping: &Ping<H>)
        ensures
            ping@ == self.ping_spec(),
    {
        &self.ping
    }

    /// The computation.
    pub fn future(&self) -> (future: &F)
        ensures
            *future == self.future_spec(),
    {
        &self.future
    }

    /// The computation, for polling it. The ping is not touched.
    pub fn future_mut(&mut self) -> (future: &mut F)
        ensures
            *future == old(self).future_spec(),
            final(self).future_spec() == *final(future),
            final(self).ping_spec() == old(self).ping_spec(),
    {
        &mut self.future
    }
}

impl<H, F> Source for PollWithArg<H, F> {
    open spec fn interest(&self) -> Option<Interest> {
        self.ping_spec().interest()
    }

    /// Registers the ping, and then asks for the waker to be woken once. The
    /// waker is woken only where the ping was added: the requests are steps.
    fn register(&mut self, interest: Event, mode: PollMode) -> (requests: Steps<Request>)
        ensures
            asks(requests@, seq![Request::Add { event: interest, mode }, Request::Wake]),
            final(self).ping_spec().notify() == old(self).ping_spec().notify(),
            final(self).ping_spec().readable() == old(self).ping_spec().readable(),
            final(self).future_spec() == old(self).future_spec(),
    {
        let mut requests = self.ping.register(interest, mode);
        proof {
            lemma_held_after_push(old(self).interest(), requests@.items, Request::Wake);
        }
        requests.push(Request::Wake);
        requests
    }

    fn reregister(&mut self, interest: Event, mode: PollMode) -> (requests: Steps<Request>)
        ensures
            asks(requests@, seq![Request::Modify { event: interest, mode }]),
            final(self).ping_spec().notify() == old(self).ping_spec().notify(),
            final(self).ping_spec().readable() == old(self).ping_spec().readable(),
            final(self).future_spec() == old(self).future_spec(),
    {
        self.ping.reregister(interest, mode)
    }

    fn deregister(&mut self) -> (requests: Steps<Request>)
        ensures
            old(self).interest() is Some ==> asks(requests@, seq![Request::Delete]),
            final(self).ping_spec().notify() == old(self).ping_spec().notify(),
            final(self).ping_spec().readable() == old(self).ping_spec().readable(),
            final(self).future_spec() == old(self).future_spec(),
    {
        self.ping.deregister()
    }

    /// Asks for one notification to be taken out of the ping. The computation
    /// is not polled by this: its owner polls it, with what it takes.
    fn handle_event(&mut self, event: Event) -> (requests: Steps<Request>)
        ensures
            asks(requests@, seq![
                Request::Drain { len: old(self).ping_spec().notify().token().len() },
            ]),
            final(self).ping_spec() == old(self).ping_spec(),
            final(self).future_spec() == old(self).future_spec(),
    {
        self.ping.handle_event(event)
    }
}

/// A value that a poll gave is the value that the owner gets, once: what is
/// taken after the poll is that value, and nothing is kept after it is taken.
pub proof fn law_polled_value_is_taken_once<T>(kept: Option<T>, value: T)
    ensures
        taken(kept_after(kept, Poll::Ready(value))) == Poll::Ready(value),
        taken(kept_after(None::<T>, Poll::<T>::Pending)) == Poll::<T>::Pending,
{
}

/// The waker of a future is woken only where the future's ping was added to
/// the poller, and a future is polled only where the notification was taken
/// out of its ping: where the first of two steps fails, the second is never
/// due.
pub proof fn law_second_step_waits_for_the_first(
    first: Request,
    second: Request,
    outcomes: Seq<bool>,
)
    ensures
        ({
            let steps = crate::StepsView { items: seq![first, second], done: 0, failed: false };
            &&& steps.due() == Some(first)
            &&& steps.settled(true).due() == Some(second)
            &&& steps.settled(false).settled_all(outcomes).due() is None
        }),
{
    let steps = crate::StepsView { items: seq![first, second], done: 0, failed: false };
    crate::law_a_failure_ends_the_steps(steps, outcomes);
}

} // verus!
