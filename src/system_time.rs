use vstd::prelude::*;

use crate::duration::{Duration, MAX_NANOS};
use crate::mock::Mock;
use crate::std_time;
use crate::timepoint::Timepoint;

verus! {

/// A point of wall-clock time: either read from the system (`std::time::SystemTime`) or
/// from the mocked clock (a `Timepoint`, whose origin stands for the Unix epoch). Two
/// times are only compared or subtracted where both come from the same clock.
#[derive(Debug, Clone, Copy, PartialEq, Eq, Hash)]
pub struct SystemTime(Mock<std::time::SystemTime, Timepoint>);

impl SystemTime {
    #[verifier::type_invariant]
    spec fn tagged(&self) -> bool {
        !(self.0 is Constant)
    }

    /// The virtual time of a mocked time; `None` for one read from the system.
    pub closed spec fn virtual_time(&self) -> Option<Timepoint> {
        match self.0 {
            Mock::Mocked(t) => Some(t),
            _ => None,
        }
    }

    /// Whether both times come from the same clock.
    pub open spec fn same_clock(&self, other: SystemTime) -> bool {
        self.virtual_time() is Some == other.virtual_time() is Some
    }

    /// The time now: the mocked clock's local time where the thread has one (`clock`),
    /// the system's clock otherwise.
    pub fn now(clock: Option<Timepoint>) -> (r: SystemTime)
        ensures
            r.virtual_time() == clock,
    {
        match clock {
            Some(t) => SystemTime(Mock::Mocked(t)),
            None => SystemTime(Mock::Actual(std_time::system_now())),
        }
    }

    /// The Unix epoch on the clock that is in use: the origin of the mocked clock where
    /// it is mocked (`mocked`), the system's epoch otherwise.
    pub fn unix_epoch(mocked: bool) -> (r: SystemTime)
        ensures
            mocked ==> (r.virtual_time() matches Some(t) && t@ == 0),
            !mocked ==> r.virtual_time() is None,
    {
        if mocked {
            SystemTime(Mock::Mocked(Timepoint::start()))
        } else {
            SystemTime(Mock::Actual(std_time::system_unix_epoch()))
        }
    }

    /// The mocked time at `time`.
    pub fn at(time: Timepoint) -> (r: SystemTime)
        ensures
            r.virtual_time() == Some(time),
    {
        SystemTime(Mock::Mocked(time))
    }

    /// The virtual time of a mocked time; `None` for one read from the system.
    pub fn timepoint(&self) -> (r: Option<Timepoint>)
        ensures
            r == self.virtual_time(),
    {
        match self.0 {
            Mock::Mocked(t) => Some(t),
            _ => None,
        }
    }

    /// The span from `earlier` to this time. Both come from the same clock; for the
    /// system's clock an `earlier` that is later gives an error, and a mocked `earlier`
    /// does not come after this time.
    pub fn duration_since(&self, earlier: SystemTime) -> (r: Result<
        Duration,
        std::time::SystemTimeError,
    >)
        requires
            self.same_clock(earlier),
            self.virtual_time() matches Some(t) ==> earlier.virtual_time()->0@ <= t@,
        ensures
            self.virtual_time() matches Some(t) ==> (r matches Ok(d) && d@ == t@
                - earlier.virtual_time()->0@),
    {
        proof {
            use_type_invariant(self);
            use_type_invariant(&earlier);
        }
        match (self.0, earlier.0) {
            (Mock::Mocked(now), Mock::Mocked(before)) => Ok(now.duration_since(before)),
            (Mock::Actual(now), Mock::Actual(before)) => {
                match std_time::system_duration_since(&now, before) {
                    Ok(d) => Ok(std_time::from_std(d)),
                    Err(e) => Err(e),
                }
            },
            _ => Ok(Duration::zero()),
        }
    }

    /// The span from this time to now, where `clock` is what `now` reads: the thread's
    /// local time where the clock is mocked. The time comes from the same clock and, if
    /// mocked, does not come after `clock`.
    pub fn elapsed(&self, clock: Option<Timepoint>) -> (r: Result<
        Duration,
        std::time::SystemTimeError,
    >)
        requires
            self.virtual_time() is Some == clock is Some,
            clock matches Some(now) ==> self.virtual_time()->0@ <= now@,
        ensures
            clock matches Some(now) ==> (r matches Ok(d) && d@ == now@
                - self.virtual_time()->0@),
    {
        proof {
            use_type_invariant(self);
        }
        match self.0 {
            Mock::Actual(t) => match std_time::system_elapsed(&t) {
                Ok(d) => Ok(std_time::from_std(d)),
                Err(e) => Err(e),
            },
            _ => SystemTime::now(clock).duration_since(*self),
        }
    }

    /// The time `duration` later, or `None` where the clock cannot represent it.
    pub fn checked_add(&self, duration: Duration) -> (r: Option<SystemTime>)
        ensures
            r matches Some(s) ==> self.same_clock(s),
            self.virtual_time() matches Some(t) ==> {
                &&& (t@ + duration@ <= MAX_NANOS <==> r is Some)
                &&& r matches Some(s) ==> s.virtual_time()->0@ == t@ + duration@
            },
    {
        proof {
            use_type_invariant(self);
        }
        match self.0 {
            Mock::Mocked(t) => match t.checked_add(duration) {
                Some(later) => Some(SystemTime(Mock::Mocked(later))),
                None => None,
            },
            Mock::Actual(s) => match std_time::system_checked_add(
                &s,
                std_time::to_std(duration),
            ) {
                Some(later) => Some(SystemTime(Mock::Actual(later))),
                None => None,
            },
            Mock::Constant(_) => None,
        }
    }

    /// The time `duration` earlier, or `None` where the clock cannot represent it.
    pub fn checked_sub(&self, duration: Duration) -> (r: Option<SystemTime>)
        ensures
            r matches Some(s) ==> self.same_clock(s),
            self.virtual_time() matches Some(t) ==> {
                &&& (duration@ <= t@ <==> r is Some)
                &&& r matches Some(s) ==> s.virtual_time()->0@ == t@ - duration@
            },
    {
        proof {
            use_type_invariant(self);
        }
        match self.0 {
            Mock::Mocked(t) => match t.checked_sub(duration) {
                Some(earlier) => Some(SystemTime(Mock::Mocked(earlier))),
                None => None,
            },
            Mock::Actual(s) => match std_time::system_checked_sub(
                &s,
                std_time::to_std(duration),
            ) {
                Some(earlier) => Some(SystemTime(Mock::Actual(earlier))),
                None => None,
            },
            Mock::Constant(_) => None,
        }
    }
}

} // verus!
