//! A ping on a completion port.
//!
//! A completion port reports what was posted to it; it does not watch handles.
//! So this ping has no handle: it keeps the packet that stands for its event,
//! and a notification asks for that packet to be posted. The state here is
//! shared by the ping and its notifiers; whoever holds it keeps it behind a
//! lock and runs one operation at a time.
//!
//! A notification takes two steps. [`Inner::notify`] counts it and says what
//! is to be posted, if anything. The caller then looks for the poller and
//! posts, and [`Inner::wake`] takes how that went and says what the
//! notification gives.

use crate::{Error, Event, PollMode};
use vstd::prelude::*;

verus! {

/// What a registered ping keeps.
#[derive(Debug)]
pub struct Interest<P> {
    /// The poller to post to. The ping does not keep the poller alive.
    pub poller: P,
    /// The event that a posted packet carries.
    pub packet: Event,
    /// The mode of the registration.
    pub mode: PollMode,
}

/// The state of a ping.
#[derive(Debug)]
pub struct Inner<P> {
    /// The registration, if there is one.
    pub interest: Option<Interest<P>>,
    /// How many notifications have not been handled yet.
    pub notified: usize,
}

/// How the posting of a packet went.
#[derive(Clone, Copy, Debug, PartialEq, Eq, Structural)]
pub enum Delivery {
    /// There was no poller to post to: the ping is not registered, or the
    /// poller is gone. Nothing was posted, and that is no failure.
    PollerGone,
    /// The packet was posted.
    Posted,
    /// The poller refused the packet. The notification fails with its error.
    Failed,
}

/// Whether a ping on a completion port can be registered in `mode`.
pub open spec fn supported(mode: PollMode) -> bool {
    mode == PollMode::Oneshot || mode == PollMode::Level
}

impl<P> Inner<P> {
    /// The state after a registration with a supported mode.
    pub open spec fn registered(self, poller: P, packet: Event, mode: PollMode) -> Self {
        Inner { interest: Some(Interest { poller, packet, mode }), notified: self.notified }
    }

    /// The state after the registration is given up.
    pub open spec fn deregistered(self) -> Self {
        Inner { interest: None, notified: self.notified }
    }

    /// The state after an event is handled.
    pub open spec fn handled(self) -> Self {
        Inner {
            interest: self.interest,
            notified: if self.notified == 0 {
                0
            } else {
                (self.notified - 1) as usize
            },
        }
    }

    /// The state after a notification is counted.
    pub open spec fn counted(self) -> Self {
        Inner {
            interest: self.interest,
            notified: if self.notified == usize::MAX {
                usize::MAX
            } else {
                (self.notified + 1) as usize
            },
        }
    }

    /// The event of the packet that a notification asks to be posted.
    pub open spec fn posts(self) -> Option<Event> {
        match self.interest {
            Some(interest) => Some(interest.packet),
            None => None,
        }
    }

    /// The state after the posting went as `delivery` says.
    pub open spec fn woken(self, delivery: Delivery) -> Self {
        match self.interest {
            Some(interest) if delivery == Delivery::Posted && interest.mode.is_oneshot() => Inner {
                interest: None,
                notified: self.notified,
            },
            _ => self,
        }
    }

    /// The state after a whole notification whose posting went as `delivery`
    /// says.
    pub open spec fn notified_once(self, delivery: Delivery) -> Self {
        self.counted().woken(delivery)
    }

    /// The state of a new ping: not registered, nothing to handle.
    pub fn new() -> (inner: Self)
        ensures
            inner.interest is None,
            inner.notified == 0,
    {
        Inner { interest: None, notified: 0 }
    }

    /// Registers the ping. There is nothing to add to the poller, so this is
    /// what `reregister` does.
    pub fn register(&mut self, poller: P, interest: Event, mode: PollMode) -> (result: Result<
        (),
        Error,
    >)
        ensures
            supported(mode) ==> result is Ok && *final(self) == old(self).registered(
                poller,
                interest,
                mode,
            ),
            !supported(mode) ==> result == Err::<(), Error>(Error::UnsupportedMode) && *final(self)
                == *old(self),
    {
        self.reregister(poller, interest, mode)
    }

    /// Puts a registration on record, in place of any that was there. Only the
    /// modes `Oneshot` and `Level` are taken; for the others the state stays
    /// as it was.
    pub fn reregister(&mut self, poller: P, interest: Event, mode: PollMode) -> (result: Result<
        (),
        Error,
    >)
        ensures
            supported(mode) ==> result is Ok && *final(self) == old(self).registered(
                poller,
                interest,
                mode,
            ),
            !supported(mode) ==> result == Err::<(), Error>(Error::UnsupportedMode) && *final(self)
                == *old(self),
    {
        match mode {
            PollMode::Oneshot => {},
            PollMode::Level => {},
            PollMode::Edge => {
                return Err(Error::UnsupportedMode);
            },
            PollMode::EdgeOneshot => {
                return Err(Error::UnsupportedMode);
            },
        }
        self.interest = Some(Interest { poller, packet: interest, mode });
        Ok(())
    }

    /// Gives the registration up, whether or not there is one.
    pub fn deregister(&mut self)
        ensures
            *final(self) == old(self).deregistered(),
    {
        self.interest = None;
    }

    /// Takes one notification off the count, which does not go below zero.
    pub fn handle_event(&mut self, event: Event)
        ensures
            *final(self) == old(self).handled(),
    {
        self.notified = self.notified.saturating_sub(1);
    }

    /// The poller that a packet is to be posted to.
    pub fn poller(&self) -> (poller: Option<&P>)
        ensures
            match self.interest {
                Some(interest) => poller == Some(&interest.poller),
                None => poller is None,
            },
    {
        match &self.interest {
            Some(interest) => Some(&interest.poller),
            None => None,
        }
    }

    /// Counts a notification, and says which packet is to be posted for it: the
    /// one on record where the ping is registered, none where it is not.
    pub fn notify(&mut self) -> (packet: Option<Event>)
        ensures
            *final(self) == old(self).counted(),
            packet == old(self).posts(),
    {
        self.notified = self.notified.saturating_add(1);
        match &self.interest {
            Some(interest) => Some(interest.packet),
            None => None,
        }
    }

    /// Takes how the posting went, as the caller got it: nothing where there
    /// was no poller to post to, or what the poller answered. A packet that
    /// was posted for a registration in a one-shot mode uses the registration
    /// up. A poller that is gone is no failure; a failure of the poller is
    /// the failure of the notification, as it is.
    pub fn wake<E>(&mut self, posted: Option<Result<(), E>>) -> (result: Result<(), E>)
        ensures
            *final(self) == old(self).woken(delivery_of(posted)),
            result == result_of(posted),
    {
        match posted {
            Some(Ok(())) => {
                let disarm = match &self.interest {
                    Some(interest) => interest.mode.oneshot(),
                    None => false,
                };
                if disarm {
                    self.interest = None;
                }
                Ok(())
            },
            Some(Err(error)) => Err(error),
            None => Ok(()),
        }
    }
}

/// How a posting went, from what the caller got.
pub open spec fn delivery_of<E>(posted: Option<Result<(), E>>) -> Delivery {
    match posted {
        Some(Ok(_)) => Delivery::Posted,
        Some(Err(_)) => Delivery::Failed,
        None => Delivery::PollerGone,
    }
}

/// What a notification gives, from what the caller got of the posting.
pub open spec fn result_of<E>(posted: Option<Result<(), E>>) -> Result<(), E> {
    match posted {
        Some(Err(error)) => Err(error),
        _ => Ok(()),
    }
}

impl<P> Inner<P> {
    /// The state after notifications whose postings went as `deliveries` say,
    /// first to last.
    pub open spec fn notified_all(self, deliveries: Seq<Delivery>) -> Self
        decreases deliveries.len(),
    {
        if deliveries.len() == 0 {
            self
        } else {
            self.notified_all(deliveries.drop_last()).notified_once(deliveries.last())
        }
    }
}

/// Giving a registration up a second time changes nothing.
pub proof fn law_deregister_is_idempotent<P>(inner: Inner<P>)
    ensures
        inner.deregistered().deregistered() == inner.deregistered(),
        inner.deregistered().interest is None,
{
}

/// A ping that is not registered posts nothing, whatever is notified or
/// handled after, until it is registered again.
pub proof fn law_deregistered_is_silent<P>(inner: Inner<P>, deliveries: Seq<Delivery>)
    ensures
        inner.deregistered().posts() is None,
        inner.deregistered().notified_all(deliveries).posts() is None,
        inner.deregistered().notified_all(deliveries).handled().posts() is None,
    decreases deliveries.len(),
{
    if deliveries.len() > 0 {
        law_deregistered_is_silent(inner, deliveries.drop_last());
    }
}

/// A one-shot registration posts for one notification. Once that packet is
/// posted, further notifications post nothing, before the event is handled
/// and after; a new registration posts once more.
pub proof fn law_oneshot_posts_once<P>(
    inner: Inner<P>,
    poller: P,
    packet: Event,
    deliveries: Seq<Delivery>,
    again: Event,
)
    ensures
        ({
            let armed = inner.registered(poller, packet, PollMode::Oneshot);
            let fired = armed.notified_once(Delivery::Posted);
            let rearmed = fired.handled().registered(poller, again, PollMode::Oneshot);
            &&& armed.posts() == Some(packet)
            &&& fired.posts() is None
            &&& fired.handled().posts() is None
            &&& fired.notified_all(deliveries).handled().posts() is None
            &&& rearmed.posts() == Some(again)
            &&& rearmed.notified_once(Delivery::Posted).posts() is None
        }),
{
    let fired = inner.registered(poller, packet, PollMode::Oneshot).notified_once(
        Delivery::Posted,
    );
    assert(fired == fired.deregistered());
    law_deregistered_is_silent(fired, deliveries);
}

/// A level registration stays: every notification posts its packet, however
/// many came before and however their postings went, until the ping is
/// registered anew or not at all.
pub proof fn law_level_posts_every_time<P>(
    inner: Inner<P>,
    poller: P,
    packet: Event,
    deliveries: Seq<Delivery>,
)
    ensures
        inner.registered(poller, packet, PollMode::Level).notified_all(deliveries).posts() == Some(
            packet,
        ),
        inner.registered(poller, packet, PollMode::Level).notified_all(
            deliveries,
        ).handled().posts() == Some(packet),
    decreases deliveries.len(),
{
    if deliveries.len() > 0 {
        law_level_posts_every_time(inner, poller, packet, deliveries.drop_last());
        lemma_level_interest_stays(inner, poller, packet, deliveries.drop_last());
    }
}

/// Under a level registration, notifications leave the registration as it is.
proof fn lemma_level_interest_stays<P>(
    inner: Inner<P>,
    poller: P,
    packet: Event,
    deliveries: Seq<Delivery>,
)
    ensures
        inner.registered(poller, packet, PollMode::Level).notified_all(deliveries).interest == Some(
            Interest { poller, packet, mode: PollMode::Level },
        ),
    decreases deliveries.len(),
{
    if deliveries.len() > 0 {
        lemma_level_interest_stays(inner, poller, packet, deliveries.drop_last());
    }
}

/// A notification whose packet the poller refuses, or whose poller is gone,
/// leaves the registration as it is: only a posted packet uses one up.
pub proof fn law_only_posting_disarms<P>(inner: Inner<P>, delivery: Delivery)
    requires
        delivery != Delivery::Posted,
    ensures
        inner.notified_once(delivery).interest == inner.interest,
{
}

} // verus!
