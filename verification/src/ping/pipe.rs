//! A ping on a pipe.
//!
//! Each notification writes one byte to the pipe, and each event that is
//! handled reads one byte from it. The pipe holds only so many bytes: where
//! events are not handled, a notification can fail for want of room, and the
//! caller gets that failure as it is.

use crate::ping::{share, Token};
use crate::{asks, Event, Interest, PollMode, Request, Socket, Source, Steps};
use std::sync::Arc;
use vstd::prelude::*;

verus! {

/// What one notification writes: a single zero byte.
pub open spec fn token() -> Token {
    Token::Byte(0)
}

/// A ping on a pipe. The poller watches the end that is read from.
#[derive(Debug)]
pub struct Ping<H> {
    reader: Socket<H>,
    writer: Notify<H>,
}

/// The end of the pipe that is written to, shared between the ping and its
/// notifiers.
#[derive(Debug)]
pub struct Notify<H>(Arc<H>);

impl<H> View for Notify<H> {
    type V = H;

    closed spec fn view(&self) -> H {
        *self.0
    }
}

impl<H> Clone for Notify<H> {
    fn clone(&self) -> (notify: Self)
        ensures
            notify == *self,
    {
        Notify(share(&self.0))
    }
}

impl<H> Notify<H> {
    /// The end of the pipe that is written to.
    pub fn handle(&self) -> (handle: &H)
        ensures
            *handle == self@,
    {
        &*self.0
    }

    /// What is to be written to the pipe to notify once.
    pub fn notify(&self) -> (written: Token)
        ensures
            written == token(),
    {
        Token::Byte(0)
    }
}

impl<H> Ping<H> {
    /// The notifier's part of the ping.
    pub closed spec fn notify_spec(self) -> Notify<H> {
        self.writer
    }

    /// The end of the pipe that is read from.
    pub closed spec fn reader_spec(self) -> H {
        self.reader.inner()
    }

    /// The registration on record.
    pub closed spec fn interest(self) -> Option<Interest> {
        self.reader.interest()
    }

    /// A ping on the pipe from `writer` to `reader`. Both ends are to be
    /// closed when the process runs another program.
    pub fn new(reader: H, writer: H) -> (ping: Self)
        ensures
            ping.reader_spec() == reader,
            ping.notify_spec()@ == writer,
            ping.interest() is None,
    {
        Self { reader: Socket::new(reader), writer: Notify(Arc::new(writer)) }
    }

    /// The notifier's part of the ping.
    pub fn notify(&self) -> (notify: &Notify<H>)
        ensures
            *notify == self.notify_spec(),
    {
        &self.writer
    }

    /// The end of the pipe that is read from.
    pub fn reader(&self) -> (reader: &H)
        ensures
            *reader == self.reader_spec(),
    {
        self.reader.socket()
    }

    /// Records the registration and asks for the reading end to be added to
    /// the poller.
    pub fn register(&mut self, interest: Event, mode: PollMode) -> (requests: Steps<Request>)
        ensures
            asks(requests@, seq![Request::Add { event: interest, mode }]),
            final(self).interest() == Some(Interest { event: interest, mode }),
            final(self).notify_spec() == old(self).notify_spec(),
            final(self).reader_spec() == old(self).reader_spec(),
    {
        self.reader.register(interest, mode)
    }

    /// Records the registration and asks for the poller's to be changed.
    pub fn reregister(&mut self, interest: Event, mode: PollMode) -> (requests: Steps<Request>)
        ensures
            asks(requests@, seq![Request::Modify { event: interest, mode }]),
            final(self).interest() == Some(Interest { event: interest, mode }),
            final(self).notify_spec() == old(self).notify_spec(),
            final(self).reader_spec() == old(self).reader_spec(),
    {
        self.reader.reregister(interest, mode)
    }

    /// Clears the record and, where there was one, asks for the reading end to
    /// be removed from the poller.
    pub fn deregister(&mut self) -> (requests: Steps<Request>)
        ensures
            old(self).interest() is Some ==> asks(requests@, seq![Request::Delete]),
            old(self).interest() is None ==> asks(requests@, Seq::<Request>::empty()),
            final(self).interest() is None,
            final(self).notify_spec() == old(self).notify_spec(),
            final(self).reader_spec() == old(self).reader_spec(),
    {
        self.reader.deregister()
    }

    /// Asks for one notification to be taken out of the pipe: a read of as
    /// many bytes as a notification wrote.
    pub fn handle_event(&mut self, event: Event) -> (requests: Steps<Request>)
        ensures
            asks(requests@, seq![Request::Drain { len: token().len() }]),
            *final(self) == *old(self),
    {
        let requests = Steps::new(vec![Request::Drain { len: 1 }]);
        self.reader.handle_event(event);
        requests
    }
}

/// The flags of a handle, as far as opening a pipe is concerned.
#[derive(Clone, Copy, Debug, PartialEq, Eq, Structural)]
pub struct FdFlags {
    /// The handle is closed when the process runs another program.
    pub cloexec: bool,
    /// The bits of all other flags, as the system gave them.
    pub other: u32,
}

/// One of the two ends of a pipe.
#[derive(Clone, Copy, Debug, PartialEq, Eq, Structural)]
pub enum End {
    /// The end that is read from.
    Reader,
    /// The end that is written to.
    Writer,
}

/// A call to the system on the way to an open pipe.
#[derive(Clone, Copy, Debug, PartialEq, Eq, Structural)]
pub enum Call {
    /// Open a pipe whose ends have the close-on-exec flag from the start.
    PipeWith { cloexec: bool },
    /// Open a pipe with no flags.
    Pipe,
    /// Read the flags of one end.
    GetFlags(End),
    /// Set the flags of one end to these.
    SetFlags(End, FdFlags),
}

/// How a call went.
#[derive(Clone, Copy, Debug, PartialEq, Eq, Structural)]
pub enum Outcome {
    /// The call failed.
    Failed,
    /// A pipe was opened.
    Opened,
    /// The flags of the end were read.
    Flags(FdFlags),
    /// The flags of the end were set.
    Marked,
}

/// How far the opening of a pipe has come.
///
/// The pipe is first opened with the close-on-exec flag in one call. Where the
/// system cannot do that, it is opened plainly and the flag is put on the
/// writing end and then on the reading end, each time on top of the flags that
/// the end already has. A failure on that second way ends the opening; the
/// caller reports the error of the call that failed.
#[derive(Clone, Copy, Debug, PartialEq, Eq, Structural)]
pub enum Setup {
    /// The one-call opening is to be tried.
    Atomic,
    /// The one-call opening failed; the plain one is to be tried.
    Plain,
    /// The flags of the writing end are to be read.
    WriterFlags,
    /// The writing end, which has these flags, is to get the flag.
    WriterMark(FdFlags),
    /// The flags of the reading end are to be read.
    ReaderFlags,
    /// The reading end, which has these flags, is to get the flag.
    ReaderMark(FdFlags),
    /// The pipe is open and both ends have the flag.
    Ready,
    /// The opening failed.
    Failed,
}

impl FdFlags {
    /// The same flags with close-on-exec among them.
    pub open spec fn spec_with_cloexec(self) -> FdFlags {
        FdFlags { cloexec: true, other: self.other }
    }

    /// The same flags with close-on-exec among them.
    #[verifier::when_used_as_spec(spec_with_cloexec)]
    pub fn with_cloexec(self) -> (flags: FdFlags)
        ensures
            flags == self.spec_with_cloexec(),
    {
        FdFlags { cloexec: true, other: self.other }
    }
}

impl Setup {
    /// The call that is due, or none where the opening has ended.
    pub open spec fn spec_call(self) -> Option<Call> {
        match self {
            Setup::Atomic => Some(Call::PipeWith { cloexec: true }),
            Setup::Plain => Some(Call::Pipe),
            Setup::WriterFlags => Some(Call::GetFlags(End::Writer)),
            Setup::WriterMark(flags) => Some(Call::SetFlags(End::Writer, flags.with_cloexec())),
            Setup::ReaderFlags => Some(Call::GetFlags(End::Reader)),
            Setup::ReaderMark(flags) => Some(Call::SetFlags(End::Reader, flags.with_cloexec())),
            Setup::Ready => None,
            Setup::Failed => None,
        }
    }

    /// Where the opening stands once the call that was due went as `outcome`
    /// says. An outcome that is no answer to that call counts as its failure.
    pub open spec fn spec_advance(self, outcome: Outcome) -> Setup {
        match (self, outcome) {
            (Setup::Atomic, Outcome::Opened) => Setup::Ready,
            (Setup::Atomic, _) => Setup::Plain,
            (Setup::Plain, Outcome::Opened) => Setup::WriterFlags,
            (Setup::WriterFlags, Outcome::Flags(flags)) => Setup::WriterMark(flags),
            (Setup::WriterMark(_), Outcome::Marked) => Setup::ReaderFlags,
            (Setup::ReaderFlags, Outcome::Flags(flags)) => Setup::ReaderMark(flags),
            (Setup::ReaderMark(_), Outcome::Marked) => Setup::Ready,
            (Setup::Ready, _) => Setup::Ready,
            (_, _) => Setup::Failed,
        }
    }

    /// Where the opening stands after the calls went as `outcomes` say, first
    /// to last.
    pub open spec fn after(self, outcomes: Seq<Outcome>) -> Setup
        decreases outcomes.len(),
    {
        if outcomes.len() == 0 {
            self
        } else {
            self.after(outcomes.drop_last()).spec_advance(outcomes.last())
        }
    }

    /// The start of an opening.
    pub fn start() -> (setup: Setup)
        ensures
            setup == Setup::Atomic,
    {
        Setup::Atomic
    }

    /// The call that is due, or none where the opening has ended.
    #[verifier::when_used_as_spec(spec_call)]
    pub fn call(self) -> (call: Option<Call>)
        ensures
            call == self.spec_call(),
    {
        match self {
            Setup::Atomic => Some(Call::PipeWith { cloexec: true }),
            Setup::Plain => Some(Call::Pipe),
            Setup::WriterFlags => Some(Call::GetFlags(End::Writer)),
            Setup::WriterMark(flags) => Some(Call::SetFlags(End::Writer, flags.with_cloexec())),
            Setup::ReaderFlags => Some(Call::GetFlags(End::Reader)),
            Setup::ReaderMark(flags) => Some(Call::SetFlags(End::Reader, flags.with_cloexec())),
            Setup::Ready => None,
            Setup::Failed => None,
        }
    }

    /// Where the opening stands once the call that was due went as `outcome`
    /// says.
    #[verifier::when_used_as_spec(spec_advance)]
    pub fn advance(self, outcome: Outcome) -> (next: Setup)
        ensures
            next == self.spec_advance(outcome),
    {
        match self {
            Setup::Atomic => match outcome {
                Outcome::Opened => Setup::Ready,
                _ => Setup::Plain,
            },
            Setup::Plain => match outcome {
                Outcome::Opened => Setup::WriterFlags,
                _ => Setup::Failed,
            },
            Setup::WriterFlags => match outcome {
                Outcome::Flags(flags) => Setup::WriterMark(flags),
                _ => Setup::Failed,
            },
            Setup::WriterMark(_) => match outcome {
                Outcome::Marked => Setup::ReaderFlags,
                _ => Setup::Failed,
            },
            Setup::ReaderFlags => match outcome {
                Outcome::Flags(flags) => Setup::ReaderMark(flags),
                _ => Setup::Failed,
            },
            Setup::ReaderMark(_) => match outcome {
                Outcome::Marked => Setup::Ready,
                _ => Setup::Failed,
            },
            Setup::Ready => Setup::Ready,
            Setup::Failed => Setup::Failed,
        }
    }

    /// Whether the pipe is open with the flag on both ends.
    pub fn is_ready(self) -> (ready: bool)
        ensures
            ready == (self == Setup::Ready),
    {
        match self {
            Setup::Ready => true,
            _ => false,
        }
    }

    /// Whether the opening failed.
    pub fn is_failed(self) -> (failed: bool)
        ensures
            failed == (self == Setup::Failed),
    {
        match self {
            Setup::Failed => true,
            _ => false,
        }
    }
}

/// Where the system opens a pipe with the flag in one call, that call is the
/// only one.
pub proof fn law_atomic_opening_is_one_call()
    ensures
        Setup::Atomic.call() == Some(Call::PipeWith { cloexec: true }),
        Setup::Atomic.advance(Outcome::Opened) == Setup::Ready,
        Setup::Ready.call() is None,
{
}

/// Where the one-call opening fails and every later call succeeds, the calls
/// are: open plainly, read and set the writing end's flags, read and set the
/// reading end's flags. Each end keeps the flags it had and gains the flag,
/// and only then is the pipe ready.
pub proof fn law_fallback_marks_both_ends(writer: FdFlags, reader: FdFlags)
    ensures
        ({
            let plain = Setup::Atomic.advance(Outcome::Failed);
            let opened = plain.advance(Outcome::Opened);
            let writer_read = opened.advance(Outcome::Flags(writer));
            let writer_set = writer_read.advance(Outcome::Marked);
            let reader_read = writer_set.advance(Outcome::Flags(reader));
            let reader_set = reader_read.advance(Outcome::Marked);
            &&& plain.call() == Some(Call::Pipe)
            &&& opened.call() == Some(Call::GetFlags(End::Writer))
            &&& writer_read.call() == Some(
                Call::SetFlags(End::Writer, FdFlags { cloexec: true, other: writer.other }),
            )
            &&& writer_set.call() == Some(Call::GetFlags(End::Reader))
            &&& reader_read.call() == Some(
                Call::SetFlags(End::Reader, FdFlags { cloexec: true, other: reader.other }),
            )
            &&& reader_set == Setup::Ready
        }),
{
}

/// A failure after the one-call opening ends the opening: no call is due, and
/// nothing that comes in changes that.
pub proof fn law_failure_is_final(setup: Setup, outcome: Outcome)
    requires
        setup != Setup::Atomic,
        setup != Setup::Ready,
    ensures
        setup.advance(Outcome::Failed) == Setup::Failed,
        Setup::Failed.call() is None,
        Setup::Failed.advance(outcome) == Setup::Failed,
{
}

/// An opening has ended after six calls at most, however they went.
pub proof fn law_opening_ends(outcomes: Seq<Outcome>)
    requires
        outcomes.len() == 6,
    ensures
        Setup::Atomic.after(outcomes).call() is None,
{
    let s0 = Setup::Atomic;
    let o = outcomes;
    assert(o.take(0) =~= Seq::<Outcome>::empty());
    assert(s0.after(o.take(0)) == s0);
    lemma_after_step(s0, o, 1);
    lemma_after_step(s0, o, 2);
    lemma_after_step(s0, o, 3);
    lemma_after_step(s0, o, 4);
    lemma_after_step(s0, o, 5);
    lemma_after_step(s0, o, 6);
    assert(o.take(6) =~= o);
}

/// The state after the first `n` outcomes is the state after the first
/// `n - 1`, advanced by the `n`-th.
proof fn lemma_after_step(setup: Setup, outcomes: Seq<Outcome>, n: int)
    requires
        1 <= n <= outcomes.len(),
    ensures
        setup.after(outcomes.take(n)) == setup.after(outcomes.take(n - 1)).advance(
            outcomes[n - 1],
        ),
{
    assert(outcomes.take(n).drop_last() =~= outcomes.take(n - 1));
    assert(outcomes.take(n).last() == outcomes[n - 1]);
}

} // verus!
