use vstd::prelude::*;

use crate::duration::{Duration, MAX_NANOS};

verus! {

/// An instant of the virtual clock: the span that has passed since the clock's origin.
#[derive(Debug, Clone, Copy, PartialEq, Eq, Structural, PartialOrd, Ord, Hash, Default)]
pub struct Timepoint(Duration);

impl Timepoint {
    /// Nanoseconds since the origin.
    pub closed spec fn view(&self) -> nat {
        self.0@
    }

    /// The origin of the virtual clock.
    pub fn start() -> (r: Timepoint)
        ensures
            r@ == 0,
    {
        Timepoint(Duration::zero())
    }

    /// The instant `d` after the origin.
    pub fn from_duration(d: Duration) -> (r: Timepoint)
        ensures
            r@ == d@,
    {
        Timepoint(d)
    }

    /// The span from the origin to this instant.
    pub fn as_duration(&self) -> (r: Duration)
        ensures
            r@ == self@,
    {
        self.0
    }

    pub fn as_nanos(&self) -> (r: u128)
        ensures
            r as nat == self@,
            r <= MAX_NANOS,
    {
        self.0.as_nanos()
    }

    /// Whether this instant comes strictly before `other`.
    pub fn is_before(&self, other: &Timepoint) -> (r: bool)
        ensures
            r == (self@ < other@),
    {
        self.as_nanos() < other.as_nanos()
    }

    /// The later of both instants.
    pub fn max(self, other: Timepoint) -> (r: Timepoint)
        ensures
            r@ == if self@ < other@ { other@ } else { self@ },
    {
        if self.is_before(&other) {
            other
        } else {
            self
        }
    }

    /// The instant `duration` later, or `None` where that leaves the range.
    pub fn checked_add(&self, duration: Duration) -> (r: Option<Timepoint>)
        ensures
            self@ + duration@ <= MAX_NANOS <==> r is Some,
            r matches Some(t) ==> t@ == self@ + duration@,
    {
        match self.0.checked_add(duration) {
            Some(d) => Some(Timepoint(d)),
            None => None,
        }
    }

    /// The instant `duration` earlier, or `None` where that comes before the origin.
    pub fn checked_sub(&self, duration: Duration) -> (r: Option<Timepoint>)
        ensures
            duration@ <= self@ <==> r is Some,
            r matches Some(t) ==> t@ == self@ - duration@,
    {
        match self.0.checked_sub(duration) {
            Some(d) => Some(Timepoint(d)),
            None => None,
        }
    }

    /// The instant `duration` later; it must lie within the range.
    pub fn add(self, duration: Duration) -> (r: Timepoint)
        requires
            self@ + duration@ <= MAX_NANOS,
        ensures
            r@ == self@ + duration@,
    {
        self.checked_add(duration).unwrap()
    }

    /// The instant `duration` earlier; it must not come before the origin.
    pub fn sub(self, duration: Duration) -> (r: Timepoint)
        requires
            duration@ <= self@,
        ensures
            r@ == self@ - duration@,
    {
        self.checked_sub(duration).unwrap()
    }

    /// The span from `earlier` to this instant; `earlier` must not come after it.
    pub fn duration_since(&self, earlier: Timepoint) -> (r: Duration)
        requires
            earlier@ <= self@,
        ensures
            r@ == self@ - earlier@,
    {
        self.0.checked_sub(earlier.0).unwrap()
    }

    /// The span from `earlier` to this instant, or `None` where `earlier` comes after it.
    pub fn checked_duration_since(self, earlier: Timepoint) -> (r: Option<Duration>)
        ensures
            earlier@ <= self@ <==> r is Some,
            r matches Some(d) ==> d@ == self@ - earlier@,
    {
        self.0.checked_sub(earlier.0)
    }

    /// The span from `earlier` to this instant, or the empty span where `earlier` comes
    /// after it.
    pub fn saturating_duration_since(&self, earlier: Timepoint) -> (r: Duration)
        ensures
            r@ == if earlier@ <= self@ { self@ - earlier@ } else { 0 },
    {
        self.0.saturating_sub(earlier.0)
    }
}

} // verus!
