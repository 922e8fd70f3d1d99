//! Timers, and the wheel that fires them.
//!
//! The wheel is an ordered map from deadline and timer id to the notifier of
//! the timer's ping. Firing takes out every entry whose deadline has passed and
//! hands back their notifiers, earliest first, for the caller to notify. A
//! timer that is to fire again is put back by its owner, once the owner has
//! handled the event.

use crate::ping::{Notifier, Ping, SysNotify};
use crate::time::{max_nanos, Clock, Duration, Instant};
use crate::{asks, Event, Interest, PollMode, Request, Source, Steps};
use vstd::prelude::*;

verus! {

/// An entry of the wheel, as the contracts see it.
pub struct Slot<H> {
    /// When the timer is due, in nanoseconds since the wheel's clock started.
    pub deadline: nat,
    /// The id of the timer.
    pub id: u64,
    /// The notifier of the timer's ping.
    pub notifier: SysNotify<H>,
}

/// A wheel, as the contracts see it.
pub struct WheelView<H> {
    /// The entries, in the order of their deadlines and, among equal
    /// deadlines, of their ids.
    pub slots: Seq<Slot<H>>,
    /// The id that the next timer gets.
    pub next_id: u64,
}

/// A timer, as the contracts see it.
pub struct TimerView<H> {
    /// The id under which the timer stands in a wheel.
    pub id: u64,
    /// When the timer is due next, if ever.
    pub deadline: Option<nat>,
    /// The span from one firing to the next, in nanoseconds.
    pub interval: nat,
    /// The notifier of the timer's ping.
    pub notifier: SysNotify<H>,
    /// The handle of the timer's ping that the poller watches and that
    /// notifications are read from.
    pub readable: H,
    /// What the timer's ping is registered with.
    pub interest: Option<Interest>,
}

impl<H> TimerView<H> {
    /// The timer with this id, deadline and interval on the ping `ping`.
    pub open spec fn on(
        id: u64,
        deadline: Option<nat>,
        interval: nat,
        ping: crate::ping::Sys<H>,
    ) -> TimerView<H> {
        TimerView {
            id,
            deadline,
            interval,
            notifier: ping.notify(),
            readable: ping.readable(),
            interest: ping.interest(),
        }
    }
}

impl<H> Slot<H> {
    /// Whether this entry comes before `other` in the wheel.
    pub open spec fn precedes(self, other: Slot<H>) -> bool {
        self.deadline < other.deadline || (self.deadline == other.deadline && self.id < other.id)
    }

    /// Whether this entry stands where `other` would: the wheel holds one
    /// entry for a deadline and an id.
    pub open spec fn same_key(self, other: Slot<H>) -> bool {
        self.deadline == other.deadline && self.id == other.id
    }
}

/// Whether `slots` are in the order of a wheel, no two of them under one key.
pub open spec fn sorted<H>(slots: Seq<Slot<H>>) -> bool {
    forall|i: int, j: int| 0 <= i < j < slots.len() ==> slots[i].precedes(slots[j])
}

/// How many entries at the front of `slots` come before `slot`. In a wheel
/// these are all that do.
pub open spec fn rank<H>(slots: Seq<Slot<H>>, slot: Slot<H>) -> nat
    decreases slots.len(),
{
    if slots.len() == 0 || !slots[0].precedes(slot) {
        0
    } else {
        1 + rank(slots.skip(1), slot)
    }
}

/// The entries of a wheel once `slot` is put in: in its place by deadline and
/// id, and in place of the entry that had that place.
pub open spec fn inserted<H>(slots: Seq<Slot<H>>, slot: Slot<H>) -> Seq<Slot<H>> {
    let at = rank(slots, slot) as int;
    if at < slots.len() && slots[at].same_key(slot) {
        slots.update(at, slot)
    } else {
        slots.insert(at, slot)
    }
}

/// How many entries at the front of `slots` are due before `now`. In a wheel
/// these are all that are.
pub open spec fn due<H>(slots: Seq<Slot<H>>, now: nat) -> nat
    decreases slots.len(),
{
    if slots.len() == 0 || slots[0].deadline >= now {
        0
    } else {
        1 + due(slots.skip(1), now)
    }
}

/// The notifiers that a wheel hands out when it fires at `now`: those of the
/// entries that are due before `now`, earliest first.
pub open spec fn fired<H>(slots: Seq<Slot<H>>, now: nat) -> Seq<SysNotify<H>> {
    slots.take(due(slots, now) as int).map_values(|slot: Slot<H>| slot.notifier)
}

/// The entries that a wheel keeps when it fires at `now`.
pub open spec fn kept<H>(slots: Seq<Slot<H>>, now: nat) -> Seq<Slot<H>> {
    slots.skip(due(slots, now) as int)
}

/// The time from `now` to the earliest deadline that a wheel keeps when it
/// fires at `now`, in nanoseconds; none where it keeps nothing.
pub open spec fn next_timeout<H>(slots: Seq<Slot<H>>, now: nat) -> Option<nat> {
    let rest = kept(slots, now);
    if rest.len() == 0 {
        None
    } else {
        Some((rest[0].deadline - now) as nat)
    }
}

/// The deadline of a timer after it has fired: one interval on. There is none
/// where the interval is the longest span, which stands for "never again"
/// whatever the deadline was, and none where the clock does not reach that
/// far.
pub open spec fn advanced(deadline: Option<nat>, interval: nat) -> Option<nat> {
    match deadline {
        Some(due) if interval < max_nanos() && due + interval <= max_nanos() => Some(
            due + interval,
        ),
        _ => None,
    }
}

/// The views of the notifiers in `notifiers`.
pub open spec fn views<H>(notifiers: Seq<Notifier<H>>) -> Seq<SysNotify<H>> {
    notifiers.map_values(|notifier: Notifier<H>| notifier@)
}

struct Entry<H> {
    deadline: Instant,
    id: u64,
    notifier: Notifier<H>,
}

impl<H> Entry<H> {
    spec fn slot(self) -> Slot<H> {
        Slot { deadline: self.deadline@, id: self.id, notifier: self.notifier@ }
    }

    /// Whether this entry comes before the key `deadline`, `id`.
    fn precedes(&self, deadline: Instant, id: u64) -> (before: bool)
        ensures
            before == (self.deadline@ < deadline@ || (self.deadline@ == deadline@ && self.id
                < id)),
    {
        self.deadline.lt(deadline) || (!deadline.lt(self.deadline) && self.id < id)
    }

    /// Whether the key `deadline`, `id` comes before this entry.
    fn follows(&self, deadline: Instant, id: u64) -> (after: bool)
        ensures
            after == (deadline@ < self.deadline@ || (self.deadline@ == deadline@ && id
                < self.id)),
    {
        deadline.lt(self.deadline) || (!self.deadline.lt(deadline) && id < self.id)
    }
}

spec fn slots_of<H>(entries: Seq<Entry<H>>) -> Seq<Slot<H>> {
    entries.map_values(|entry: Entry<H>| entry.slot())
}

/// The wheel: every timer that is waiting, keyed by its deadline and its id.
pub struct TimerWheel<H> {
    clock: Clock,
    timers: Vec<Entry<H>>,
    last_id: u64,
}

/// What a wheel hands back when it fires.
pub struct Fired<H> {
    /// The notifiers of the timers that were due, earliest first, as steps:
    /// each is due to be used once the one before it has been, and the first
    /// that fails ends the firing with its failure.
    pub notifiers: Steps<Notifier<H>>,
    /// How long it is until the next timer is due, where one is waiting: the
    /// time that the caller may wait for the poller.
    pub next: Option<Duration>,
}

/// A timer: a ping that the wheel notifies when the deadline has passed.
pub struct Timer<H> {
    id: u64,
    ping: Ping<H>,
    deadline: Option<Instant>,
    interval: Duration,
}

impl<H> View for TimerWheel<H> {
    type V = WheelView<H>;

    closed spec fn view(&self) -> WheelView<H> {
        WheelView { slots: slots_of(self.timers@), next_id: self.last_id }
    }
}

impl<H> View for Timer<H> {
    type V = TimerView<H>;

    closed spec fn view(&self) -> TimerView<H> {
        TimerView::on(
            self.id,
            match self.deadline {
                Some(deadline) => Some(deadline@),
                None => None,
            },
            self.interval@,
            self.ping@,
        )
    }
}

/// The entries at the front of a wheel that `rank` counts come before the
/// slot, and the one after them does not.
pub proof fn lemma_rank_splits<H>(slots: Seq<Slot<H>>, slot: Slot<H>)
    ensures
        rank(slots, slot) <= slots.len(),
        forall|i: int| 0 <= i < rank(slots, slot) ==> (#[trigger] slots[i]).precedes(slot),
        rank(slots, slot) < slots.len() ==> !slots[rank(slots, slot) as int].precedes(slot),
    decreases slots.len(),
{
    if slots.len() == 0 || !slots[0].precedes(slot) {
    } else {
        let rest = slots.skip(1);
        lemma_rank_splits(rest, slot);
        assert forall|i: int| 0 <= i < rank(slots, slot) implies (#[trigger] slots[i]).precedes(
            slot,
        ) by {
            if i > 0 {
                assert(slots[i] == rest[i - 1]);
            }
        }
        if rank(slots, slot) < slots.len() {
            assert(slots[rank(slots, slot) as int] == rest[rank(rest, slot) as int]);
        }
    }
}

/// Where the first `n` entries come before the slot and the next one does
/// not, `n` is the slot's rank.
pub proof fn lemma_rank_is<H>(slots: Seq<Slot<H>>, slot: Slot<H>, n: int)
    requires
        0 <= n <= slots.len(),
        forall|i: int| 0 <= i < n ==> (#[trigger] slots[i]).precedes(slot),
        n < slots.len() ==> !slots[n].precedes(slot),
    ensures
        rank(slots, slot) == n,
    decreases slots.len(),
{
    if n == 0 {
    } else {
        let rest = slots.skip(1);
        assert(slots[0].precedes(slot));
        assert forall|i: int| 0 <= i < n - 1 implies (#[trigger] rest[i]).precedes(slot) by {
            assert(rest[i] == slots[i + 1]);
        }
        if n - 1 < rest.len() {
            assert(rest[n - 1] == slots[n]);
        }
        lemma_rank_is(rest, slot, n - 1);
    }
}

/// Putting a slot into a wheel leaves a wheel.
pub proof fn lemma_inserted_sorted<H>(slots: Seq<Slot<H>>, slot: Slot<H>)
    requires
        sorted(slots),
    ensures
        sorted(inserted(slots, slot)),
{
    lemma_rank_splits(slots, slot);
    let at = rank(slots, slot) as int;
    let result = inserted(slots, slot);
    assert forall|i: int, j: int| 0 <= i < j < result.len() implies result[i].precedes(
        result[j],
    ) by {
        if at < slots.len() && slots[at].same_key(slot) {
            if i == at {
                assert(slots[at].precedes(slots[j]));
            } else if j == at {
                assert(slots[i].precedes(slots[at]));
            } else {
                assert(slots[i].precedes(slots[j]));
            }
        } else {
            if i < at && j < at {
                assert(slots[i].precedes(slots[j]));
            } else if i < at && j == at {
                assert(slots[i].precedes(slot));
            } else if i < at && j > at {
                assert(slots[i].precedes(slots[j - 1]));
            } else if i == at {
                assert(result[j] == slots[j - 1]);
                if j - 1 > at {
                    assert(slots[at].precedes(slots[j - 1]));
                }
            } else {
                assert(slots[i - 1].precedes(slots[j - 1]));
            }
        }
    }
}

/// In a wheel, the entries that `due` counts are those that are due before
/// `now`, and no entry after them is.
pub proof fn lemma_due_splits<H>(slots: Seq<Slot<H>>, now: nat)
    requires
        sorted(slots),
    ensures
        due(slots, now) <= slots.len(),
        forall|i: int| 0 <= i < due(slots, now) ==> (#[trigger] slots[i]).deadline < now,
        forall|i: int| due(slots, now) <= i < slots.len() ==> (#[trigger] slots[i]).deadline >= now,
    decreases slots.len(),
{
    if slots.len() == 0 {
    } else if slots[0].deadline >= now {
        assert forall|i: int| 0 <= i < slots.len() implies (#[trigger] slots[i]).deadline
            >= now by {
            if i > 0 {
                assert(slots[0].precedes(slots[i]));
            }
        }
    } else {
        let rest = slots.skip(1);
        assert forall|i: int, j: int| 0 <= i < j < rest.len() implies rest[i].precedes(
            rest[j],
        ) by {
            assert(slots[i + 1].precedes(slots[j + 1]));
        }
        lemma_due_splits(rest, now);
        assert forall|i: int| 0 <= i < due(slots, now) implies (#[trigger] slots[i]).deadline
            < now by {
            if i > 0 {
                assert(slots[i] == rest[i - 1]);
            }
        }
        assert forall|i: int| due(slots, now) <= i < slots.len() implies (
        #[trigger] slots[i]).deadline >= now by {
            assert(slots[i] == rest[i - 1]);
        }
    }
}

/// Where the first `n` entries are due before `now` and the next one is not,
/// `n` is what `due` counts.
pub proof fn lemma_due_is<H>(slots: Seq<Slot<H>>, now: nat, n: int)
    requires
        0 <= n <= slots.len(),
        forall|i: int| 0 <= i < n ==> (#[trigger] slots[i]).deadline < now,
        n < slots.len() ==> slots[n].deadline >= now,
    ensures
        due(slots, now) == n,
    decreases slots.len(),
{
    if n == 0 {
    } else {
        let rest = slots.skip(1);
        assert(slots[0].deadline < now);
        assert forall|i: int| 0 <= i < n - 1 implies (#[trigger] rest[i]).deadline < now by {
            assert(rest[i] == slots[i + 1]);
        }
        if n - 1 < rest.len() {
            assert(rest[n - 1] == slots[n]);
        }
        lemma_due_is(rest, now, n - 1);
    }
}

impl<H> WheelView<H> {
    /// The wheel after it has given out `timer`: the next id is used up, and
    /// a timer that is due at some time stands in the wheel.
    pub open spec fn giving(self, timer: TimerView<H>) -> WheelView<H> {
        WheelView { slots: self.holding(timer), next_id: (self.next_id + 1) as u64 }
    }

    /// The entries of the wheel once `timer` is put in: as they were, where
    /// the timer is not due at any time.
    pub open spec fn holding(self, timer: TimerView<H>) -> Seq<Slot<H>> {
        match timer.deadline {
            Some(deadline) => inserted(
                self.slots,
                Slot { deadline, id: timer.id, notifier: timer.notifier },
            ),
            None => self.slots,
        }
    }

    /// Whether a wheel that was `self` has fired at `now`, became `after` and
    /// handed back `notifiers` and `next`.
    pub open spec fn fires(
        self,
        now: nat,
        after: WheelView<H>,
        notifiers: Seq<SysNotify<H>>,
        next: Option<nat>,
    ) -> bool {
        &&& notifiers == fired(self.slots, now)
        &&& after.slots == kept(self.slots, now)
        &&& after.next_id == self.next_id
        &&& next == next_timeout(self.slots, now)
    }
}

/// The length of a span, where there is one.
pub open spec fn nanos_of(span: Option<Duration>) -> Option<nat> {
    match span {
        Some(span) => Some(span@),
        None => None,
    }
}

impl<H> TimerWheel<H> {
    /// Whether the entries are in order, no two under one key. Every wheel
    /// is.
    #[verifier::type_invariant]
    pub closed spec fn wf(self) -> bool {
        sorted(slots_of(self.timers@))
    }

    /// An empty wheel. Its clock starts now, and its first timer gets the id
    /// one.
    pub fn new() -> (wheel: Self)
        ensures
            wheel@.slots =~= Seq::<Slot<H>>::empty(),
            wheel@.next_id == 1,
    {
        Self { clock: Clock::start(), timers: Vec::new(), last_id: 1 }
    }

    /// The clock by which the wheel tells the time.
    pub closed spec fn clock_spec(&self) -> Clock {
        self.clock
    }

    /// The clock by which the wheel tells the time.
    pub fn clock(&self) -> (clock: &Clock)
        ensures
            *clock == self.clock_spec(),
    {
        &self.clock
    }

    /// The id that the next timer gets.
    pub fn next_id(&self) -> (id: u64)
        ensures
            id == self@.next_id,
    {
        self.last_id
    }

    /// How many timers are waiting.
    pub fn len(&self) -> (len: usize)
        ensures
            len == self@.slots.len(),
    {
        self.timers.len()
    }

    /// Puts an entry in its place, in place of the one that had it.
    fn insert(&mut self, deadline: Instant, id: u64, notifier: Notifier<H>)
        ensures
            final(self)@.slots == inserted(
                old(self)@.slots,
                Slot { deadline: deadline@, id, notifier: notifier@ },
            ),
            final(self)@.next_id == old(self)@.next_id,
            final(self).clock_spec() == old(self).clock_spec(),
    {
        proof {
            use_type_invariant(&*self);
        }
        let mut timers: Vec<Entry<H>> = Vec::new();
        std::mem::swap(&mut self.timers, &mut timers);
        let ghost before = slots_of(timers@);
        let ghost slot = Slot { deadline: deadline@, id, notifier: notifier@ };
        let mut at: usize = 0;
        while at < timers.len() && timers[at].precedes(deadline, id)
            invariant
                at <= timers.len(),
                slots_of(timers@) == before,
                slot == (Slot { deadline: deadline@, id, notifier: notifier@ }),
                forall|i: int| 0 <= i < at ==> (#[trigger] before[i]).precedes(slot),
            decreases timers.len() - at,
        {
            at += 1;
        }
        proof {
            lemma_rank_is(before, slot, at as int);
            lemma_inserted_sorted(before, slot);
        }
        let replace = at < timers.len() && !timers[at].follows(deadline, id);
        let entry = Entry { deadline, id, notifier };
        if replace {
            timers.set(at, entry);
        } else {
            timers.insert(at, entry);
        }
        proof {
            assert(slots_of(timers@) =~= inserted(before, slot));
        }
        self.timers = timers;
    }

    /// A timer that fires once, when `duration` has gone by from now.
    pub fn after(&mut self, ping: Ping<H>, duration: Duration) -> (timer: Timer<H>)
        requires
            old(self)@.next_id < u64::MAX,
        ensures
            exists|now: nat|
                now <= max_nanos() && #[trigger] after_from(
                    now,
                    duration@,
                    old(self)@,
                    ping@,
                    timer@,
                    final(self)@,
                ),
            duration@ == 0 ==> timer@.deadline is Some && timer@.id == old(self)@.next_id,
            final(self).clock_spec() == old(self).clock_spec(),
    {
        let now = self.clock.now();
        self.after_at(ping, now, duration)
    }

    /// A timer that fires once, when `duration` has gone by from `now`. Where
    /// the clock does not reach that far, the timer never fires, and the
    /// wheel stays as it is.
    pub fn after_at(&mut self, ping: Ping<H>, now: Instant, duration: Duration) -> (timer: Timer<
        H,
    >)
        requires
            now@ + duration@ <= max_nanos() ==> old(self)@.next_id < u64::MAX,
        ensures
            after_from(now@, duration@, old(self)@, ping@, timer@, final(self)@),
            final(self).clock_spec() == old(self).clock_spec(),
    {
        match now.checked_add(duration) {
            Some(deadline) => self.at(ping, deadline),
            None => Timer::never(ping),
        }
    }

    /// A timer that fires once, at `deadline`.
    pub fn at(&mut self, ping: Ping<H>, deadline: Instant) -> (timer: Timer<H>)
        requires
            old(self)@.next_id < u64::MAX,
        ensures
            timer@ == TimerView::on(old(self)@.next_id, Some(deadline@), max_nanos(), ping@),
            final(self)@ == old(self)@.giving(timer@),
            final(self).clock_spec() == old(self).clock_spec(),
    {
        let notifier = ping.notifier();
        let timer = Timer {
            id: self.last_id,
            ping,
            deadline: Some(deadline),
            interval: Duration::max(),
        };
        proof {
            use_type_invariant(&*self);
        }
        self.last_id += 1;
        self.insert(deadline, timer.id, notifier);
        timer
    }

    /// A timer that fires every `interval`, for the first time one interval
    /// from now.
    pub fn interval(&mut self, ping: Ping<H>, interval: Duration) -> (timer: Timer<H>)
        requires
            old(self)@.next_id < u64::MAX,
        ensures
            exists|now: nat|
                now <= max_nanos() && #[trigger] interval_from(
                    now,
                    interval@,
                    old(self)@,
                    ping@,
                    timer@,
                    final(self)@,
                ),
            interval@ == 0 ==> timer@.deadline is Some,
            final(self).clock_spec() == old(self).clock_spec(),
    {
        let now = self.clock.now();
        let timer = self.interval_at(ping, now, interval);
        proof {
            assert(interval_from(now@, interval@, old(self)@, ping@, timer@, self@));
        }
        timer
    }

    /// A timer that fires every `interval`, for the first time one interval
    /// after `start`. Where the clock does not reach that far, the timer
    /// never fires and does not stand in the wheel; it has used an id all the
    /// same.
    pub fn interval_at(&mut self, ping: Ping<H>, start: Instant, interval: Duration) -> (timer:
        Timer<H>)
        requires
            old(self)@.next_id < u64::MAX,
        ensures
            interval_from(start@, interval@, old(self)@, ping@, timer@, final(self)@),
            final(self).clock_spec() == old(self).clock_spec(),
    {
        let notifier = ping.notifier();
        let timer = Timer {
            id: self.last_id,
            ping,
            deadline: step(start, interval),
            interval,
        };
        proof {
            use_type_invariant(&*self);
        }
        self.last_id += 1;
        if let Some(deadline) = timer.deadline {
            self.insert(deadline, timer.id, notifier);
        }
        timer
    }

    /// Fires the timers that are due now.
    pub fn fire_timers(&mut self) -> (fired: Fired<H>)
        ensures
            exists|now: nat|
                now <= max_nanos() && #[trigger] old(self)@.fires(
                    now,
                    final(self)@,
                    views(fired.notifiers@.items),
                    nanos_of(fired.next),
                ),
            fired.notifiers@.done == 0 && !fired.notifiers@.failed,
            final(self).clock_spec() == old(self).clock_spec(),
    {
        let now = self.clock.now();
        let fired = self.fire_timers_at(now);
        proof {
            assert(old(self)@.fires(
                now@,
                self@,
                views(fired.notifiers@.items),
                nanos_of(fired.next),
            ));
        }
        fired
    }

    /// Fires the timers that are due before `now`: takes them out of the
    /// wheel and hands back their notifiers, earliest first, with the time
    /// from `now` to the next deadline. A timer that is due exactly at `now`
    /// stays for the next firing. The wheel is in its new state before any
    /// notifier is used.
    pub fn fire_timers_at(&mut self, now: Instant) -> (fired: Fired<H>)
        ensures
            old(self)@.fires(
                now@,
                final(self)@,
                views(fired.notifiers@.items),
                nanos_of(fired.next),
            ),
            fired.notifiers@.items.len() == due(old(self)@.slots, now@),
            fired.notifiers@.done == 0 && !fired.notifiers@.failed,
            final(self).clock_spec() == old(self).clock_spec(),
    {
        proof {
            use_type_invariant(&*self);
        }
        let mut expired: Vec<Entry<H>> = Vec::new();
        std::mem::swap(&mut self.timers, &mut expired);
        let ghost before = slots_of(expired@);
        let mut count: usize = 0;
        while count < expired.len() && expired[count].deadline.lt(now)
            invariant
                count <= expired.len(),
                slots_of(expired@) == before,
                forall|i: int| 0 <= i < count ==> (#[trigger] before[i]).deadline < now@,
            decreases expired.len() - count,
        {
            count += 1;
        }
        proof {
            lemma_due_is(before, now@, count as int);
        }
        let rest = expired.split_off(count);
        proof {
            assert(slots_of(rest@) =~= before.skip(count as int));
            assert(slots_of(expired@) =~= before.take(count as int));
            assert forall|i: int, j: int| 0 <= i < j < slots_of(rest@).len() implies slots_of(
                rest@,
            )[i].precedes(slots_of(rest@)[j]) by {
                assert(before[i + count].precedes(before[j + count]));
            }
        }
        let next = if rest.len() == 0 {
            None
        } else {
            Some(rest[0].deadline.saturating_duration_since(now))
        };
        self.timers = rest;
        let ghost taken = expired@;
        let mut notifiers: Vec<Notifier<H>> = Vec::new();
        for entry in iter: expired
            invariant
                iter.seq() == taken,
                notifiers@.len() == iter.index(),
                forall|i: int|
                    0 <= i < iter.index() ==> (#[trigger] notifiers@[i])@ == taken[i].notifier@,
        {
            notifiers.push(entry.notifier);
        }
        proof {
            assert(views(notifiers@) =~= fired(before, now@));
        }
        Fired { notifiers: Steps::new(notifiers), next }
    }
}

/// What a firing gives, from how the notifying of the timers that were due
/// went: the time to the next deadline where every notifier could be used, and
/// the failure of the first that could not. The wheel has fired either way.
pub fn fire_result<E>(next: Option<Duration>, notified: Result<(), E>) -> (result: Result<
    Option<Duration>,
    E,
>)
    ensures
        notified is Ok ==> result == Ok::<Option<Duration>, E>(next),
        notified matches Err(error) ==> result == Err::<Option<Duration>, E>(error),
{
    match notified {
        Ok(_) => Ok(next),
        Err(error) => Err(error),
    }
}

/// Whether a wheel that was `before` has given out `timer` on the ping `ping`
/// to fire once, `duration` after `now`, and became `after`.
pub open spec fn after_from<H>(
    now: nat,
    duration: nat,
    before: WheelView<H>,
    ping: crate::ping::Sys<H>,
    timer: TimerView<H>,
    after: WheelView<H>,
) -> bool {
    if now + duration <= max_nanos() {
        &&& timer == TimerView::on(before.next_id, Some(now + duration), max_nanos(), ping)
        &&& after == before.giving(timer)
    } else {
        &&& timer == TimerView::on(0, None, max_nanos(), ping)
        &&& after == before
    }
}

/// Whether a wheel that was `before` has given out `timer` on the ping `ping`
/// to fire every `interval`, first one interval after `start`, and became
/// `after`.
pub open spec fn interval_from<H>(
    start: nat,
    interval: nat,
    before: WheelView<H>,
    ping: crate::ping::Sys<H>,
    timer: TimerView<H>,
    after: WheelView<H>,
) -> bool {
    &&& timer == TimerView::on(before.next_id, advanced(Some(start), interval), interval, ping)
    &&& after == before.giving(timer)
}

/// The deadline one interval after `deadline`, where there is one.
fn step(deadline: Instant, interval: Duration) -> (next: Option<Instant>)
    ensures
        nanos_at(next) == advanced(Some(deadline@), interval@),
{
    if interval.is_max() {
        None
    } else {
        deadline.checked_add(interval)
    }
}

/// The place of a point on the clock, where there is one.
pub open spec fn nanos_at(point: Option<Instant>) -> Option<nat> {
    match point {
        Some(point) => Some(point@),
        None => None,
    }
}

impl<H> Default for TimerWheel<H> {
    fn default() -> (wheel: Self)
        ensures
            wheel@.slots =~= Seq::<Slot<H>>::empty(),
            wheel@.next_id == 1,
    {
        Self::new()
    }
}

impl<H> Timer<H> {
    /// A timer that never fires. It has the id zero, which no wheel gives
    /// out.
    pub fn never(ping: Ping<H>) -> (timer: Self)
        ensures
            timer@ == TimerView::on(0, None, max_nanos(), ping@),
    {
        Self { id: 0, ping, deadline: None, interval: Duration::max() }
    }

    /// The id under which the timer stands in a wheel.
    pub fn id(&self) -> (id: u64)
        ensures
            id == self@.id,
    {
        self.id
    }

    /// When the timer is due next, if ever.
    pub fn deadline(&self) -> (deadline: Option<Instant>)
        ensures
            self@.deadline == nanos_at(deadline),
    {
        self.deadline
    }

    /// The span from one firing to the next.
    pub fn interval(&self) -> (interval: Duration)
        ensures
            interval@ == self@.interval,
    {
        self.interval
    }

    /// The timer's ping.
    pub fn ping(&self) -> (ping: &Ping<H>)
        ensures
            ping@.notify() == self@.notifier,
            ping@.readable() == self@.readable,
            ping@.interest() == self@.interest,
    {
        &self.ping
    }

    /// Moves the deadline one interval on, where the timer has a deadline;
    /// the timer is disarmed where the clock does not reach that far. This is
    /// what handling an event of the timer comes to, once the requests of
    /// `handle_event` have been carried out: see `event_handled`.
    pub fn advance(&mut self)
        ensures
            final(self)@ == (TimerView {
                deadline: advanced(old(self)@.deadline, old(self)@.interval),
                ..old(self)@
            }),
    {
        if let Some(deadline) = self.deadline {
            self.deadline = step(deadline, self.interval);
        }
    }

    /// Takes how the requests of `handle_event` went. Where they were carried
    /// out, the deadline moves one interval on, as `advance` says; where one
    /// failed, the timer stays as it is. The failure is handed on as it came.
    pub fn event_handled<E>(&mut self, drained: Result<(), E>) -> (result: Result<(), E>)
        ensures
            result == drained,
            drained is Ok ==> final(self)@ == (TimerView {
                deadline: advanced(old(self)@.deadline, old(self)@.interval),
                ..old(self)@
            }),
            drained is Err ==> final(self)@ == old(self)@,
    {
        if drained.is_ok() {
            self.advance();
        }
        drained
    }

    /// Puts the timer back into `wheel`, under its id and its deadline. A
    /// timer without a deadline is left out.
    pub fn handle_wheel(&mut self, wheel: &mut TimerWheel<H>)
        ensures
            final(self)@ == old(self)@,
            final(wheel)@.slots == old(wheel)@.holding(old(self)@),
            final(wheel)@.next_id == old(wheel)@.next_id,
            final(wheel).clock_spec() == old(wheel).clock_spec(),
    {
        if let Some(deadline) = self.deadline {
            let notifier = self.ping.notifier();
            wheel.insert(deadline, self.id, notifier);
        }
    }
}

impl<H> Source for Timer<H> {
    open spec fn interest(&self) -> Option<Interest> {
        self@.interest
    }

    fn register(&mut self, interest: Event, mode: PollMode) -> (requests: Steps<Request>)
        ensures
            asks(requests@, seq![Request::Add { event: interest, mode }]),
            final(self)@ == (TimerView {
                interest: Some(Interest { event: interest, mode }),
                ..old(self)@
            }),
    {
        self.ping.register(interest, mode)
    }

    fn reregister(&mut self, interest: Event, mode: PollMode) -> (requests: Steps<Request>)
        ensures
            asks(requests@, seq![Request::Modify { event: interest, mode }]),
            final(self)@ == (TimerView {
                interest: Some(Interest { event: interest, mode }),
                ..old(self)@
            }),
    {
        self.ping.reregister(interest, mode)
    }

    fn deregister(&mut self) -> (requests: Steps<Request>)
        ensures
            old(self).interest() is Some ==> asks(requests@, seq![Request::Delete]),
            final(self)@ == (TimerView { interest: None, ..old(self)@ }),
    {
        self.ping.deregister()
    }

    /// Asks for one notification to be taken out of the timer's ping. The
    /// deadline moves on with `event_handled`, once that has been done.
    fn handle_event(&mut self, event: Event) -> (requests: Steps<Request>)
        ensures
            asks(requests@, seq![Request::Drain { len: old(self)@.notifier.token().len() }]),
            final(self)@ == old(self)@,
    {
        self.ping.handle_event(event)
    }
}

/// A wheel that fires hands out exactly the timers that are due before
/// `now`, and keeps exactly the others. A timer that is due at `now` itself is
/// among those it keeps.
pub proof fn law_fire_splits_at_now<H>(slots: Seq<Slot<H>>, now: nat, i: int)
    requires
        sorted(slots),
        0 <= i < slots.len(),
    ensures
        slots[i].deadline < now ==> i < fired(slots, now).len() && fired(slots, now)[i]
            == slots[i].notifier,
        slots[i].deadline >= now ==> i >= fired(slots, now).len() && kept(slots, now)[i - fired(
            slots,
            now,
        ).len()] == slots[i],
        fired(slots, now).len() + kept(slots, now).len() == slots.len(),
        sorted(kept(slots, now)),
{
    lemma_due_splits(slots, now);
    let n = due(slots, now) as int;
    let rest = kept(slots, now);
    assert forall|a: int, b: int| 0 <= a < b < rest.len() implies rest[a].precedes(rest[b]) by {
        assert(slots[a + n].precedes(slots[b + n]));
    }
}

/// Of two timers with deadlines on either side of `now`, a wheel that fires
/// at `now` hands out the earlier one only, keeps the later one, and says how
/// long it is from `now` to the later deadline. It does not matter which of
/// the two was put into the wheel first.
pub proof fn law_earlier_timer_fires_alone<H>(earlier: Slot<H>, later: Slot<H>, now: nat)
    requires
        earlier.deadline < now < later.deadline,
    ensures
        ({
            let empty = Seq::<Slot<H>>::empty();
            let slots = inserted(inserted(empty, earlier), later);
            &&& slots == inserted(inserted(empty, later), earlier)
            &&& fired(slots, now) == seq![earlier.notifier]
            &&& kept(slots, now) == seq![later]
            &&& next_timeout(slots, now) == Some((later.deadline - now) as nat)
        }),
{
    let empty = Seq::<Slot<H>>::empty();
    let both = seq![earlier, later];
    lemma_rank_is(empty, earlier, 0);
    assert(inserted(empty, earlier) =~= seq![earlier]);
    lemma_rank_is(seq![earlier], later, 1);
    assert(inserted(seq![earlier], later) =~= both);
    lemma_rank_is(empty, later, 0);
    assert(inserted(empty, later) =~= seq![later]);
    lemma_rank_is(seq![later], earlier, 0);
    assert(inserted(seq![later], earlier) =~= both);
    lemma_due_is(both, now, 1);
    assert(fired(both, now) =~= seq![earlier.notifier]);
    assert(kept(both, now) =~= seq![later]);
}

/// What a wheel holds once a slot is put in: that slot, and every entry it
/// held under another key. Nothing else.
pub proof fn law_inserted_holds<H>(slots: Seq<Slot<H>>, slot: Slot<H>, other: Slot<H>)
    requires
        sorted(slots),
    ensures
        inserted(slots, slot).contains(slot),
        inserted(slots, slot).contains(other) <==> other == slot || (slots.contains(other)
            && !other.same_key(slot)),
{
    lemma_rank_splits(slots, slot);
    let at = rank(slots, slot) as int;
    let result = inserted(slots, slot);
    assert(result[at] == slot);
    if result.contains(other) && other != slot {
        let i = choose|i: int| 0 <= i < result.len() && result[i] == other;
        if at < slots.len() && slots[at].same_key(slot) {
            assert(slots[i] == other);
            if i < at {
                assert(slots[i].precedes(slots[at]));
            } else {
                assert(slots[at].precedes(slots[i]));
            }
        } else {
            if i < at {
                assert(slots[i] == other);
            } else {
                assert(slots[i - 1] == other);
                if i - 1 > at {
                    assert(slots[at].precedes(slots[i - 1]));
                }
            }
        }
    }
    if slots.contains(other) && !other.same_key(slot) {
        let i = choose|i: int| 0 <= i < slots.len() && slots[i] == other;
        if at < slots.len() && slots[at].same_key(slot) {
            assert(result[i] == other);
        } else if i < at {
            assert(result[i] == other);
        } else {
            assert(result[i + 1] == other);
        }
    }
}

/// A timer that fires once is disarmed by its firing: its interval is the
/// longest span, after which there is no deadline, whatever the deadline was.
pub proof fn law_one_shot_disarms(deadline: Option<nat>)
    ensures
        advanced(deadline, max_nanos()) is None,
{
}

/// A timer that fires every interval is due one interval after its last
/// deadline, for as long as the clock reaches.
pub proof fn law_interval_recurs(deadline: nat, interval: nat)
    requires
        interval < max_nanos(),
        deadline + interval <= max_nanos(),
    ensures
        advanced(Some(deadline), interval) == Some(deadline + interval),
{
}

/// The entries of every wheel are in order, no two under one key.
pub proof fn law_wheel_is_in_order<H>(wheel: TimerWheel<H>)
    requires
        wheel.wf(),
    ensures
        sorted(wheel@.slots),
{
}

/// A timer that is put back into the wheel fires again: once its new deadline
/// has passed, the wheel hands out its notifier.
pub proof fn law_timer_put_back_fires_again<H>(slots: Seq<Slot<H>>, timer: Slot<H>, now: nat)
    requires
        sorted(slots),
        timer.deadline < now,
    ensures
        fired(inserted(slots, timer), now).contains(timer.notifier),
        !kept(inserted(slots, timer), now).contains(timer),
{
    lemma_rank_splits(slots, timer);
    lemma_inserted_sorted(slots, timer);
    let after = inserted(slots, timer);
    let at = rank(slots, timer) as int;
    assert(after[at] == timer);
    law_fire_splits_at_now(after, now, at);
    assert(fired(after, now)[at] == timer.notifier);
    lemma_due_splits(after, now);
    if kept(after, now).contains(timer) {
        let i = choose|i: int| 0 <= i < kept(after, now).len() && kept(after, now)[i] == timer;
        assert(after[i + due(after, now)] == timer);
    }
}

/// Firing at `now` splits the wheel at the key of the deadline `now` and the
/// id zero: what is due is what comes before that key. No id is below zero,
/// so an entry with the deadline `now` itself comes after the key, whatever
/// its id.
pub proof fn law_fire_splits_at_key<H>(slots: Seq<Slot<H>>, now: nat, notifier: SysNotify<H>)
    ensures
        due(slots, now) == rank(slots, Slot { deadline: now, id: 0, notifier }),
    decreases slots.len(),
{
    if slots.len() > 0 && slots[0].deadline < now {
        law_fire_splits_at_key(slots.skip(1), now, notifier);
    }
}

} // verus!
