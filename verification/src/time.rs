//! Time as the timers see it: spans, and points on a clock.
//!
//! A span is a whole number of nanoseconds, kept as seconds and the nanoseconds
//! of the second that has begun. A point in time is the span since the clock
//! was started. Both are plain values, so that a deadline can be compared,
//! moved and stored without asking the system anything; only [`Clock`] reads
//! the system's monotonic clock.

use vstd::prelude::*;

verus! {

/// The nanoseconds of a second.
pub const NANOS_PER_SEC: u32 = 1_000_000_000;

/// The nanoseconds of a millisecond.
pub const NANOS_PER_MILLI: u32 = 1_000_000;

/// The milliseconds of a second.
pub const MILLIS_PER_SEC: u64 = 1_000;

/// The longest span, in nanoseconds.
pub open spec fn max_nanos() -> nat {
    (u64::MAX * NANOS_PER_SEC + (NANOS_PER_SEC - 1)) as nat
}

/// A span of time.
#[derive(Clone, Copy, Debug, PartialEq, Eq, Structural)]
pub struct Duration {
    secs: u64,
    nanos: u32,
}

/// A point in time on a clock.
#[derive(Clone, Copy, Debug, PartialEq, Eq, Structural)]
pub struct Instant {
    offset: Duration,
}

impl View for Duration {
    type V = nat;

    /// The span in nanoseconds.
    closed spec fn view(&self) -> nat {
        (self.secs * NANOS_PER_SEC + self.nanos) as nat
    }
}

impl View for Instant {
    type V = nat;

    /// The nanoseconds since the clock was started.
    closed spec fn view(&self) -> nat {
        self.offset@
    }
}

impl Duration {
    /// Whether the span is kept in its one proper form: less than a second's
    /// worth of nanoseconds beside the seconds. Every span that the crate
    /// hands out is.
    #[verifier::type_invariant]
    pub closed spec fn wf(self) -> bool {
        self.nanos < NANOS_PER_SEC
    }

    /// The span of `secs` seconds and `nanos` nanoseconds, where it is not
    /// longer than the longest span.
    pub fn new(secs: u64, nanos: u32) -> (span: Option<Duration>)
        ensures
            secs * NANOS_PER_SEC + nanos <= max_nanos() ==> span is Some && span->0@ == secs
                * NANOS_PER_SEC + nanos,
            secs * NANOS_PER_SEC + nanos > max_nanos() ==> span is None,
    {
        let carry: u32 = nanos / NANOS_PER_SEC;
        let rest: u32 = nanos % NANOS_PER_SEC;
        match secs.checked_add(carry as u64) {
            Some(secs) => Some(Duration { secs, nanos: rest }),
            None => None,
        }
    }

    /// The span of `secs` seconds.
    pub fn from_secs(secs: u64) -> (span: Duration)
        ensures
            span@ == secs * NANOS_PER_SEC,
    {
        Duration { secs, nanos: 0 }
    }

    /// The span of `millis` milliseconds.
    pub fn from_millis(millis: u64) -> (span: Duration)
        ensures
            span@ == millis * NANOS_PER_MILLI,
    {
        let secs: u64 = millis / MILLIS_PER_SEC;
        let rest: u64 = millis % MILLIS_PER_SEC;
        let nanos: u32 = (rest as u32) * NANOS_PER_MILLI;
        Duration { secs, nanos }
    }

    /// The longest span. As the interval of a timer it stands for "never
    /// again".
    pub fn max() -> (span: Duration)
        ensures
            span@ == max_nanos(),
    {
        Duration { secs: u64::MAX, nanos: NANOS_PER_SEC - 1 }
    }

    /// Whether this is the longest span. No span is longer.
    pub fn is_max(self) -> (longest: bool)
        ensures
            longest == (self@ == max_nanos()),
            self@ <= max_nanos(),
    {
        proof {
            use_type_invariant(self);
        }
        self.secs == u64::MAX && self.nanos == NANOS_PER_SEC - 1
    }

    /// The whole seconds of the span.
    pub fn as_secs(self) -> (secs: u64)
        ensures
            secs == self@ / (NANOS_PER_SEC as nat),
    {
        proof {
            use_type_invariant(self);
        }
        self.secs
    }

    /// The nanoseconds of the span beyond its whole seconds.
    pub fn subsec_nanos(self) -> (nanos: u32)
        ensures
            nanos == self@ % (NANOS_PER_SEC as nat),
            nanos < NANOS_PER_SEC,
    {
        proof {
            use_type_invariant(self);
        }
        self.nanos
    }

    /// Whether this span is shorter than `other`.
    pub fn lt(self, other: Duration) -> (shorter: bool)
        ensures
            shorter == (self@ < other@),
    {
        proof {
            use_type_invariant(self);
            use_type_invariant(other);
        }
        self.secs < other.secs || (self.secs == other.secs && self.nanos < other.nanos)
    }

    /// The two spans together, where that is not longer than the longest span.
    pub fn checked_add(self, other: Duration) -> (sum: Option<Duration>)
        ensures
            self@ + other@ <= max_nanos() ==> sum is Some && sum->0@ == self@ + other@,
            self@ + other@ > max_nanos() ==> sum is None,
    {
        proof {
            use_type_invariant(self);
            use_type_invariant(other);
        }
        let nanos: u32 = self.nanos + other.nanos;
        let carry: u64 = if nanos >= NANOS_PER_SEC {
            1
        } else {
            0
        };
        let rest: u32 = if nanos >= NANOS_PER_SEC {
            nanos - NANOS_PER_SEC
        } else {
            nanos
        };
        match self.secs.checked_add(other.secs) {
            Some(secs) => match secs.checked_add(carry) {
                Some(secs) => Some(Duration { secs, nanos: rest }),
                None => None,
            },
            None => None,
        }
    }

    /// What is left of this span once `other` is taken from it: nothing where
    /// `other` is the longer one.
    pub fn saturating_sub(self, other: Duration) -> (rest: Duration)
        ensures
            self@ >= other@ ==> rest@ == self@ - other@,
            self@ < other@ ==> rest@ == 0,
    {
        proof {
            use_type_invariant(self);
            use_type_invariant(other);
        }
        if self.lt(other) {
            Duration { secs: 0, nanos: 0 }
        } else if self.nanos >= other.nanos {
            Duration { secs: self.secs - other.secs, nanos: self.nanos - other.nanos }
        } else {
            Duration {
                secs: self.secs - other.secs - 1,
                nanos: self.nanos + NANOS_PER_SEC - other.nanos,
            }
        }
    }
}

impl Instant {
    /// Whether the point is kept in its one proper form.
    pub closed spec fn wf(self) -> bool {
        self.offset.wf()
    }

    /// The point that lies `offset` after the start of the clock.
    pub fn after_start(offset: Duration) -> (point: Instant)
        ensures
            point@ == offset@,
    {
        Instant { offset }
    }

    /// The span from the start of the clock to this point.
    pub fn since_start(self) -> (offset: Duration)
        ensures
            offset@ == self@,
    {
        self.offset
    }

    /// Whether this point is earlier than `other`.
    pub fn lt(self, other: Instant) -> (earlier: bool)
        ensures
            earlier == (self@ < other@),
    {
        self.offset.lt(other.offset)
    }

    /// The point that lies `span` after this one, where the clock reaches that
    /// far.
    pub fn checked_add(self, span: Duration) -> (point: Option<Instant>)
        ensures
            self@ + span@ <= max_nanos() ==> point is Some && point->0@ == self@ + span@,
            self@ + span@ > max_nanos() ==> point is None,
    {
        match self.offset.checked_add(span) {
            Some(offset) => Some(Instant { offset }),
            None => None,
        }
    }

    /// The span from `earlier` to this point: nothing where `earlier` is in
    /// fact the later one.
    pub fn saturating_duration_since(self, earlier: Instant) -> (span: Duration)
        ensures
            self@ >= earlier@ ==> span@ == self@ - earlier@,
            self@ < earlier@ ==> span@ == 0,
    {
        self.offset.saturating_sub(earlier.offset)
    }
}

/// Two spans in proper form are the same value just where they are as long as
/// each other: `==` on spans compares their lengths.
pub proof fn law_spans_of_one_length_are_equal(a: Duration, b: Duration)
    requires
        a.wf(),
        b.wf(),
    ensures
        a@ == b@ <==> a == b,
{
}

/// Two points in proper form are the same value just where they lie as far
/// from the start of the clock: `==` on points compares their places.
pub proof fn law_points_of_one_place_are_equal(a: Instant, b: Instant)
    requires
        a.wf(),
        b.wf(),
    ensures
        a@ == b@ <==> a == b,
{
    law_spans_of_one_length_are_equal(a.offset, b.offset);
}

/// A reading of the system's monotonic clock, `std::time::Instant`. It is
/// carried as it is; nothing is known of what it holds.
#[verifier::external_type_specification]
#[verifier::external_body]
pub struct ExSystemInstant(std::time::Instant);

/// The reading of the system's monotonic clock at the time of the call.
///
/// Calls `std::time::Instant::now`. Nothing is claimed of the reading.
#[verifier::external_body]
fn system_now() -> std::time::Instant {
    std::time::Instant::now()
}

/// The time that has gone by since the reading `origin` was taken.
///
/// Calls `std::time::Instant::elapsed`. Nothing is claimed of the span.
#[verifier::external_body]
fn system_elapsed(origin: &std::time::Instant) -> core::time::Duration {
    origin.elapsed()
}

/// The whole seconds of a span of the standard library.
///
/// Calls `core::time::Duration::as_secs`. Nothing is claimed of the number.
#[verifier::external_body]
fn system_secs(span: &core::time::Duration) -> u64 {
    span.as_secs()
}

/// The nanoseconds of a span of the standard library beyond its whole
/// seconds.
///
/// Calls `core::time::Duration::subsec_nanos`, which is documented to give the
/// part of the span that is a fraction of a second: less than a second's
/// worth of nanoseconds.
#[verifier::external_body]
fn system_subsec_nanos(span: &core::time::Duration) -> (nanos: u32)
    ensures
        nanos < NANOS_PER_SEC,
{
    span.subsec_nanos()
}

/// A clock that counts from the moment it was started.
#[derive(Debug)]
pub struct Clock {
    origin: std::time::Instant,
}

impl Clock {
    /// The reading of the system's clock at which this clock was started.
    pub closed spec fn origin_spec(&self) -> std::time::Instant {
        self.origin
    }

    /// A clock that starts now: at whatever the system's clock reads.
    pub fn start() -> Clock {
        Clock::started_at(system_now())
    }

    /// The reading of the system's clock at which this clock was started.
    pub fn origin(&self) -> (origin: &std::time::Instant)
        ensures
            *origin == self.origin_spec(),
    {
        &self.origin
    }

    /// The point in time that it is now: the time gone by on the system's
    /// clock since the start. Whatever that clock says, it is in proper form.
    pub fn now(&self) -> (now: Instant)
        ensures
            now.wf(),
            now@ <= max_nanos(),
    {
        let elapsed = system_elapsed(&self.origin);
        let secs = system_secs(&elapsed);
        let nanos = system_subsec_nanos(&elapsed);
        Instant { offset: Duration { secs, nanos } }
    }

    /// A clock that was started when the system's clock read `origin`.
    pub fn started_at(origin: std::time::Instant) -> (clock: Clock)
        ensures
            clock.origin_spec() == origin,
    {
        Clock { origin }
    }
}

} // verus!
