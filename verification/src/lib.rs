//! Building blocks for driving event sources from a synchronous, readiness-based
//! poll loop.
//!
//! The crate is the decision-making half of such a loop. Nothing in it touches
//! an operating-system handle: every operation updates the state of a source and
//! answers with the [`Request`]s that its caller has to carry out, in order,
//! against the poller and the handles that the source stands for. The requests
//! of one operation are run as [`Steps`]: each is due only once the one before
//! it has been carried out, and the first that fails ends the operation with its
//! failure, so that none after it is carried out.

use vstd::prelude::*;

pub mod channel;
pub mod future;
pub mod ping;
pub mod threadpool;
pub mod time;
pub mod timer;

verus! {

/// A readiness descriptor: the key that the caller chose for a source, and the
/// kinds of readiness it asks about. The crate never looks inside one; it hands
/// events through as it got them.
#[derive(Clone, Copy, Debug, PartialEq, Eq, Structural)]
pub struct Event {
    /// The key by which the caller tells its sources apart.
    pub key: usize,
    /// Interest in the source becoming readable.
    pub readable: bool,
    /// Interest in the source becoming writable.
    pub writable: bool,
}

/// How a registration behaves once it has reported an event.
#[derive(Clone, Copy, Debug, PartialEq, Eq, Structural)]
pub enum PollMode {
    /// Reports once; has to be registered again to report once more.
    Oneshot,
    /// Reports for as long as the condition holds.
    Level,
    /// Reports when the condition begins to hold.
    Edge,
    /// As `Edge`, and disarmed by the first report.
    EdgeOneshot,
}

/// What a source was last registered with.
#[derive(Clone, Copy, Debug, PartialEq, Eq, Structural)]
pub struct Interest {
    /// The event asked for.
    pub event: Event,
    /// The mode it was asked for in.
    pub mode: PollMode,
}

/// One piece of outside work that a source asks its caller to do.
#[derive(Clone, Copy, Debug, PartialEq, Eq, Structural)]
pub enum Request {
    /// Add the source's handle to the poller, with this event and mode.
    Add { event: Event, mode: PollMode },
    /// Change the registration of the source's handle to this event and mode.
    Modify { event: Event, mode: PollMode },
    /// Remove the source's handle from the poller.
    Delete,
    /// Read `len` bytes from the readable handle of the source's ping, which
    /// takes one notification out of it.
    Drain { len: usize },
    /// Invoke the waker of the source by reference. A failure to do so is
    /// fatal: it is not reported as an error.
    Wake,
    /// Poll the computation of the source once, with a context on the waker of
    /// the source, and hand what that gives to the source.
    Poll,
}

/// A failure that the crate itself finds. Its caller reports it as a general
/// failure of input and output, with the message where there is one.
#[derive(Clone, Copy, Debug, PartialEq, Eq, Structural)]
pub enum Error {
    /// A ping on a completion port was asked for an edge-triggered mode.
    UnsupportedMode,
    /// A value could not be put into a channel.
    SendFailed,
}

impl Error {
    /// The message that goes with the failure, if it has one.
    pub fn message(&self) -> (text: Option<&'static str>)
        ensures
            *self == Error::UnsupportedMode ==> text == Some("unsupported polling mode for IOCP"),
            *self == Error::SendFailed ==> text is None,
    {
        match self {
            Error::UnsupportedMode => Some("unsupported polling mode for IOCP"),
            Error::SendFailed => None,
        }
    }
}

impl Event {
    /// An event for `key` that asks about readability only.
    pub fn readable(key: usize) -> (event: Event)
        ensures
            event == (Event { key, readable: true, writable: false }),
    {
        Event { key, readable: true, writable: false }
    }

    /// An event for `key` that asks about writability only.
    pub fn writable(key: usize) -> (event: Event)
        ensures
            event == (Event { key, readable: false, writable: true }),
    {
        Event { key, readable: false, writable: true }
    }

    /// An event for `key` that asks about both.
    pub fn all(key: usize) -> (event: Event)
        ensures
            event == (Event { key, readable: true, writable: true }),
    {
        Event { key, readable: true, writable: true }
    }

    /// An event for `key` that asks about nothing.
    pub fn none(key: usize) -> (event: Event)
        ensures
            event == (Event { key, readable: false, writable: false }),
    {
        Event { key, readable: false, writable: false }
    }
}

impl PollMode {
    /// Whether a registration in this mode is used up by its first report.
    pub open spec fn is_oneshot(self) -> bool {
        self == PollMode::Oneshot || self == PollMode::EdgeOneshot
    }

    /// Whether a registration in this mode is used up by its first report.
    #[verifier::when_used_as_spec(is_oneshot)]
    pub fn oneshot(self) -> (b: bool)
        ensures
            b == self.is_oneshot(),
    {
        match self {
            PollMode::Oneshot => true,
            PollMode::EdgeOneshot => true,
            PollMode::Level => false,
            PollMode::Edge => false,
        }
    }
}

/// The registration that a poller holds for a handle once it has carried out
/// `request`, where it held `held` before.
pub open spec fn held_after_one(held: Option<Interest>, request: Request) -> Option<Interest> {
    match request {
        Request::Add { event, mode } => Some(Interest { event, mode }),
        Request::Modify { event, mode } => Some(Interest { event, mode }),
        Request::Delete => None,
        Request::Drain { len } => held,
        Request::Wake => held,
        Request::Poll => held,
    }
}

/// The registration that a poller holds for a handle once it has carried out
/// all of `requests`, first to last, where it held `held` before.
pub open spec fn held_after(held: Option<Interest>, requests: Seq<Request>) -> Option<Interest>
    decreases requests.len(),
{
    if requests.len() == 0 {
        held
    } else {
        held_after_one(held_after(held, requests.drop_last()), requests.last())
    }
}

/// Whether giving up its registration has taken the record of a source from
/// `before` to `after` and made the source ask for `requests`: nothing is on
/// record after, the poller is left with nothing, and a source that had
/// nothing on record has asked for nothing.
pub open spec fn deregistered(
    before: Option<Interest>,
    after: Option<Interest>,
    requests: Seq<Request>,
) -> bool {
    &&& after is None
    &&& held_after(before, requests) is None
    &&& before is None ==> requests =~= Seq::<Request>::empty()
}

/// Something that can be registered with a poller.
///
/// A source keeps account of the registration it last asked for. Every
/// operation answers with the requests that the caller has to carry out for
/// it, as steps that have not begun: a request is due only once those before
/// it have been carried out, and the first that fails is the failure of the
/// operation. Where the caller carries them all out, the poller holds for the
/// source's handle exactly what the source has on record.
pub trait Source {
    /// The registration that the source has on record, if any.
    spec fn interest(&self) -> Option<Interest>;

    /// Records `interest` and `mode`, and asks for the source to be added to
    /// the poller with them.
    fn register(&mut self, interest: Event, mode: PollMode) -> (requests: Steps<Request>)
        ensures
            final(self).interest() == Some(Interest { event: interest, mode }),
            held_after(old(self).interest(), requests@.items) == final(self).interest(),
            requests@.done == 0 && !requests@.failed,
    ;

    /// Records `interest` and `mode` in place of what was on record, and asks
    /// for the registration to be changed to them.
    fn reregister(&mut self, interest: Event, mode: PollMode) -> (requests: Steps<Request>)
        ensures
            final(self).interest() == Some(Interest { event: interest, mode }),
            held_after(old(self).interest(), requests@.items) == final(self).interest(),
            requests@.done == 0 && !requests@.failed,
    ;

    /// Clears the record, and asks for the source to be removed from the
    /// poller. A source with nothing on record asks for nothing, so a second
    /// call in a row is free of outside work and cannot fail.
    fn deregister(&mut self) -> (requests: Steps<Request>)
        ensures
            deregistered(old(self).interest(), final(self).interest(), requests@.items),
            requests@.done == 0 && !requests@.failed,
    ;

    /// Acknowledges an event that the poller reported for the source. The
    /// record stays as it was.
    fn handle_event(&mut self, event: Event) -> (requests: Steps<Request>)
        ensures
            final(self).interest() == old(self).interest(),
            held_after(old(self).interest(), requests@.items) == final(self).interest(),
            requests@.done == 0 && !requests@.failed,
    ;
}

/// A source made of a handle that the poller can watch by itself, such as a
/// socket. It owns the handle and records what it was last registered with.
#[derive(Debug)]
pub struct Socket<T> {
    interest: Option<Interest>,
    socket: T,
}

impl<T> Socket<T> {
    /// The handle that the source owns.
    pub closed spec fn inner(&self) -> T {
        self.socket
    }

    /// A source for `socket`, with nothing on record.
    pub fn new(socket: T) -> (source: Self)
        ensures
            source.inner() == socket,
            source.interest() is None,
    {
        Self { interest: None, socket }
    }

    /// The handle.
    pub fn socket(&self) -> (socket: &T)
        ensures
            *socket == self.inner(),
    {
        &self.socket
    }

    /// The handle, for changing it in place. The record is not touched.
    pub fn socket_mut(&mut self) -> (socket: &mut T)
        ensures
            *socket == old(self).inner(),
            final(self).inner() == *final(socket),
            final(self).interest() == old(self).interest(),
    {
        &mut self.socket
    }

    /// Gives the handle back and forgets the record.
    pub fn into_socket(self) -> (socket: T)
        ensures
            socket == self.inner(),
    {
        self.socket
    }
}

impl<T> Source for Socket<T> {
    closed spec fn interest(&self) -> Option<Interest> {
        self.interest
    }

    fn register(&mut self, interest: Event, mode: PollMode) -> (requests: Steps<Request>)
        ensures
            asks(requests@, seq![Request::Add { event: interest, mode }]),
            final(self).inner() == old(self).inner(),
    {
        self.interest = Some(Interest { event: interest, mode });
        let requests = Steps::new(vec![Request::Add { event: interest, mode }]);
        proof {
            lemma_held_after_single(old(self).interest(), requests@.items[0]);
            assert(requests@.items =~= seq![requests@.items[0]]);
        }
        requests
    }

    fn reregister(&mut self, interest: Event, mode: PollMode) -> (requests: Steps<Request>)
        ensures
            asks(requests@, seq![Request::Modify { event: interest, mode }]),
            final(self).inner() == old(self).inner(),
    {
        self.interest = Some(Interest { event: interest, mode });
        let requests = Steps::new(vec![Request::Modify { event: interest, mode }]);
        proof {
            lemma_held_after_single(old(self).interest(), requests@.items[0]);
            assert(requests@.items =~= seq![requests@.items[0]]);
        }
        requests
    }

    fn deregister(&mut self) -> (requests: Steps<Request>)
        ensures
            old(self).interest() is Some ==> asks(requests@, seq![Request::Delete]),
            old(self).interest() is None ==> *final(self) == *old(self),
            final(self).inner() == old(self).inner(),
    {
        let was = self.interest.take();
        if was.is_some() {
            let requests = Steps::new(vec![Request::Delete]);
            proof {
                lemma_held_after_single(old(self).interest(), requests@.items[0]);
                assert(requests@.items =~= seq![requests@.items[0]]);
            }
            requests
        } else {
            Steps::new(Vec::new())
        }
    }

    fn handle_event(&mut self, event: Event) -> (requests: Steps<Request>)
        ensures
            asks(requests@, Seq::<Request>::empty()),
            *final(self) == *old(self),
    {
        Steps::new(Vec::new())
    }
}

/// A single request leaves what that request alone leaves.
pub proof fn lemma_held_after_single(held: Option<Interest>, request: Request)
    ensures
        held_after(held, seq![request]) == held_after_one(held, request),
{
    let one = seq![request];
    assert(one.drop_last() =~= Seq::<Request>::empty());
    assert(held_after(held, one.drop_last()) == held);
    assert(one.last() == request);
}

/// One more request leaves what it leaves after the others.
pub proof fn lemma_held_after_push(held: Option<Interest>, requests: Seq<Request>, request: Request)
    ensures
        held_after(held, requests.push(request)) == held_after_one(
            held_after(held, requests),
            request,
        ),
{
    assert(requests.push(request).drop_last() =~= requests);
}

/// Giving a registration up twice in a row is giving it up once, for every
/// source: the second time asks for nothing, so it cannot fail, and the poller
/// is left with no registration for the source.
pub proof fn law_deregister_is_idempotent(
    start: Option<Interest>,
    once: Option<Interest>,
    twice: Option<Interest>,
    first: Seq<Request>,
    second: Seq<Request>,
)
    requires
        deregistered(start, once, first),
        deregistered(once, twice, second),
    ensures
        second =~= Seq::<Request>::empty(),
        twice is None,
        held_after(start, first + second) is None,
{
    assert(first + second =~= first);
}

/// Whether `requests` are the requests `items`, none of them carried out
/// yet.
pub open spec fn asks(requests: StepsView<Request>, items: Seq<Request>) -> bool {
    requests.items =~= items && requests.done == 0 && !requests.failed
}

/// Steps that are carried out one after the other, up to the first that
/// fails: the requests of an operation, or the notifiers of a firing.
#[derive(Debug)]
pub struct Steps<T> {
    items: Vec<T>,
    done: usize,
    failed: bool,
}

/// Steps, as the contracts see them.
pub struct StepsView<T> {
    /// All the steps, first to last.
    pub items: Seq<T>,
    /// How many of them have been carried out.
    pub done: nat,
    /// Whether one has failed.
    pub failed: bool,
}

impl<T> StepsView<T> {
    /// The step that is due: the first that has not been carried out, as long
    /// as none has failed.
    pub open spec fn due(self) -> Option<T> {
        if !self.failed && self.done < self.items.len() {
            Some(self.items[self.done as int])
        } else {
            None
        }
    }

    /// The steps once the one that was due went well, or failed. Where none
    /// was due, they stay as they are.
    pub open spec fn settled(self, well: bool) -> StepsView<T> {
        if self.due() is None {
            self
        } else if well {
            StepsView { items: self.items, done: self.done + 1, failed: false }
        } else {
            StepsView { items: self.items, done: self.done, failed: true }
        }
    }

    /// The steps once those that were due, one after the other, went as
    /// `outcomes` say, first to last.
    pub open spec fn settled_all(self, outcomes: Seq<bool>) -> StepsView<T>
        decreases outcomes.len(),
    {
        if outcomes.len() == 0 {
            self
        } else {
            self.settled_all(outcomes.drop_last()).settled(outcomes.last())
        }
    }
}

impl<T> View for Steps<T> {
    type V = StepsView<T>;

    closed spec fn view(&self) -> StepsView<T> {
        StepsView { items: self.items@, done: self.done as nat, failed: self.failed }
    }
}

impl<T> Steps<T> {
    /// The steps `items`, none of them carried out yet.
    pub fn new(items: Vec<T>) -> (steps: Self)
        ensures
            steps@ == (StepsView { items: items@, done: 0, failed: false }),
    {
        Steps { items, done: 0, failed: false }
    }

    /// Puts one more step after the last.
    pub fn push(&mut self, item: T)
        ensures
            final(self)@ == (StepsView { items: old(self)@.items.push(item), ..old(self)@ }),
    {
        self.items.push(item);
    }

    /// The step that is due, if one is.
    pub fn due(&self) -> (step: Option<&T>)
        ensures
            match step {
                Some(step) => self@.due() == Some(*step),
                None => self@.due() is None,
            },
    {
        if !self.failed && self.done < self.items.len() {
            Some(&self.items[self.done])
        } else {
            None
        }
    }

    /// Takes how the step that was due went. Where it went well, the next one
    /// is due; where it failed, none is due any more. What came in is handed
    /// back as it is, for the caller to end the operation with.
    pub fn settle<E>(&mut self, outcome: Result<(), E>) -> (result: Result<(), E>)
        ensures
            result == outcome,
            final(self)@ == old(self)@.settled(outcome is Ok),
    {
        if !self.failed && self.done < self.items.len() {
            if outcome.is_ok() {
                self.done += 1;
            } else {
                self.failed = true;
            }
        }
        outcome
    }

    /// Whether every step has been carried out.
    pub fn finished(&self) -> (all: bool)
        ensures
            all == (!self@.failed && self@.done == self@.items.len()),
    {
        !self.failed && self.done == self.items.len()
    }
}

/// Steps are due in their order: once the first `n` have gone well, the next
/// one is due, and after the last one none is.
pub proof fn law_steps_are_due_in_order<T>(items: Seq<T>, n: nat)
    requires
        n <= items.len(),
    ensures
        ({
            let after = (StepsView { items, done: 0, failed: false }).settled_all(
                Seq::new(n, |i: int| true),
            );
            &&& after == (StepsView { items, done: n, failed: false })
            &&& n < items.len() ==> after.due() == Some(items[n as int])
            &&& n == items.len() ==> after.due() is None
        }),
    decreases n,
{
    let wells = Seq::new(n, |i: int| true);
    if n > 0 {
        law_steps_are_due_in_order(items, (n - 1) as nat);
        assert(wells.drop_last() =~= Seq::new((n - 1) as nat, |i: int| true));
    }
}

/// A step that fails ends the steps: none is due after it, however the caller
/// goes on, so no step after the one that failed is carried out.
pub proof fn law_a_failure_ends_the_steps<T>(steps: StepsView<T>, outcomes: Seq<bool>)
    requires
        steps.due() is Some,
    ensures
        steps.settled(false).settled_all(outcomes).due() is None,
        steps.settled(false).settled_all(outcomes).done == steps.done,
    decreases outcomes.len(),
{
    if outcomes.len() > 0 {
        law_a_failure_ends_the_steps(steps, outcomes.drop_last());
    }
}

} // verus!
