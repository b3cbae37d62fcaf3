use vstd::prelude::*;

use crate::duration::{Duration, MAX_NANOS};
use crate::mock::Mock;
use crate::std_time;
use crate::timepoint::Timepoint;

verus! {

/// An instant of a monotonic clock: either read from the system (`std::time::Instant`)
/// or from the mocked clock (a `Timepoint`). Two instants are only compared or
/// subtracted where both come from the same clock.
#[derive(Debug, Clone, Copy, PartialEq, Eq, Hash)]
pub struct Instant(Mock<std::time::Instant, Timepoint>);

impl Instant {
    #[verifier::type_invariant]
    spec fn tagged(&self) -> bool {
        !(self.0 is Constant)
    }

    /// The virtual time of a mocked instant; `None` for one read from the system.
    pub closed spec fn virtual_time(&self) -> Option<Timepoint> {
        match self.0 {
            Mock::Mocked(t) => Some(t),
            _ => None,
        }
    }

    /// Whether both instants come from the same clock.
    pub open spec fn same_clock(&self, other: Instant) -> bool {
        self.virtual_time() is Some == other.virtual_time() is Some
    }

    /// The instant now: the mocked clock's local time where the thread has one
    /// (`clock`), the system's clock otherwise.
    pub fn now(clock: Option<Timepoint>) -> (r: Instant)
        ensures
            r.virtual_time() == clock,
    {
        match clock {
            Some(t) => Instant(Mock::Mocked(t)),
            None => Instant(Mock::Actual(std_time::instant_now())),
        }
    }

    /// The mocked instant at `time`.
    pub fn at(time: Timepoint) -> (r: Instant)
        ensures
            r.virtual_time() == Some(time),
    {
        Instant(Mock::Mocked(time))
    }

    /// The virtual time of a mocked instant; `None` for one read from the system.
    pub fn timepoint(&self) -> (r: Option<Timepoint>)
        ensures
            r == self.virtual_time(),
    {
        match self.0 {
            Mock::Mocked(t) => Some(t),
            _ => None,
        }
    }

    /// The span from `earlier` to this instant. Both come from the same clock, and a
    /// mocked `earlier` does not come after this instant.
    pub fn duration_since(&self, earlier: Instant) -> (r: Duration)
        requires
            self.same_clock(earlier),
            self.virtual_time() matches Some(t) ==> earlier.virtual_time()->0@ <= t@,
        ensures
            self.virtual_time() matches Some(t) ==> r@ == t@ - earlier.virtual_time()->0@,
    {
        proof {
            use_type_invariant(self);
            use_type_invariant(&earlier);
        }
        match (self.0, earlier.0) {
            (Mock::Mocked(now), Mock::Mocked(before)) => now.duration_since(before),
            (Mock::Actual(now), Mock::Actual(before)) => std_time::from_std(
                std_time::instant_duration_since(&now, before),
            ),
            _ => Duration::zero(),
        }
    }

    /// The span from `earlier` to this instant, or `None` where `earlier` comes after
    /// it. Both come from the same clock.
    pub fn checked_duration_since(&self, earlier: Instant) -> (r: Option<Duration>)
        requires
            self.same_clock(earlier),
        ensures
            self.virtual_time() matches Some(t) ==> {
                let e = earlier.virtual_time()->0;
                &&& (e@ <= t@ <==> r is Some)
                &&& r matches Some(d) ==> d@ == t@ - e@
            },
    {
        proof {
            use_type_invariant(self);
            use_type_invariant(&earlier);
        }
        match (self.0, earlier.0) {
            (Mock::Mocked(now), Mock::Mocked(before)) => now.checked_duration_since(before),
            (Mock::Actual(now), Mock::Actual(before)) => {
                match std_time::instant_checked_duration_since(&now, before) {
                    Some(d) => Some(std_time::from_std(d)),
                    None => None,
                }
            },
            _ => None,
        }
    }

    /// The span from `earlier` to this instant, or the empty span where `earlier` comes
    /// after it. Both come from the same clock.
    pub fn saturating_duration_since(&self, earlier: Instant) -> (r: Duration)
        requires
            self.same_clock(earlier),
        ensures
            self.virtual_time() matches Some(t) ==> {
                let e = earlier.virtual_time()->0;
                r@ == if e@ <= t@ { t@ - e@ } else { 0 }
            },
    {
        proof {
            use_type_invariant(self);
            use_type_invariant(&earlier);
        }
        match (self.0, earlier.0) {
            (Mock::Mocked(now), Mock::Mocked(before)) => now.saturating_duration_since(before),
            (Mock::Actual(now), Mock::Actual(before)) => std_time::from_std(
                std_time::instant_saturating_duration_since(&now, before),
            ),
            _ => Duration::zero(),
        }
    }

    /// The span from this instant to now, where `clock` is what `now` reads: the
    /// thread's local time where the clock is mocked. The instant comes from the same
    /// clock and, if mocked, does not come after `clock`.
    pub fn elapsed(&self, clock: Option<Timepoint>) -> (r: Duration)
        requires
            self.virtual_time() is Some == clock is Some,
            clock matches Some(now) ==> self.virtual_time()->0@ <= now@,
        ensures
            clock matches Some(now) ==> r@ == now@ - self.virtual_time()->0@,
    {
        proof {
            use_type_invariant(self);
        }
        match self.0 {
            Mock::Actual(i) => std_time::from_std(std_time::instant_elapsed(&i)),
            _ => Instant::now(clock).duration_since(*self),
        }
    }

    /// The instant `duration` later, or `None` where the clock cannot represent it.
    pub fn checked_add(&self, duration: Duration) -> (r: Option<Instant>)
        ensures
            r matches Some(i) ==> self.same_clock(i),
            self.virtual_time() matches Some(t) ==> {
                &&& (t@ + duration@ <= MAX_NANOS <==> r is Some)
                &&& r matches Some(i) ==> i.virtual_time()->0@ == t@ + duration@
            },
    {
        proof {
            use_type_invariant(self);
        }
        match self.0 {
            Mock::Mocked(t) => match t.checked_add(duration) {
                Some(later) => Some(Instant(Mock::Mocked(later))),
                None => None,
            },
            Mock::Actual(i) => match std_time::instant_checked_add(
                &i,
                std_time::to_std(duration),
            ) {
                Some(later) => Some(Instant(Mock::Actual(later))),
                None => None,
            },
            Mock::Constant(_) => None,
        }
    }

    /// The instant `duration` earlier, or `None` where the clock cannot represent it.
    pub fn checked_sub(&self, duration: Duration) -> (r: Option<Instant>)
        ensures
            r matches Some(i) ==> self.same_clock(i),
            self.virtual_time() matches Some(t) ==> {
                &&& (duration@ <= t@ <==> r is Some)
                &&& r matches Some(i) ==> i.virtual_time()->0@ == t@ - duration@
            },
    {
        proof {
            use_type_invariant(self);
        }
        match self.0 {
            Mock::Mocked(t) => match t.checked_sub(duration) {
                Some(earlier) => Some(Instant(Mock::Mocked(earlier))),
                None => None,
            },
            Mock::Actual(i) => match std_time::instant_checked_sub(
                &i,
                std_time::to_std(duration),
            ) {
                Some(earlier) => Some(Instant(Mock::Actual(earlier))),
                None => None,
            },
            Mock::Constant(_) => None,
        }
    }
}

} // verus!
