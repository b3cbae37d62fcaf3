use vstd::prelude::*;

verus! {

/// Nanoseconds in one second.
pub const NANOS_PER_SEC: u128 = 1_000_000_000;

/// The largest span a `Duration` holds: `u64::MAX` seconds and 999,999,999 nanoseconds.
pub const MAX_NANOS: u128 = 18_446_744_073_709_551_615_999_999_999;

/// A span of time with nanosecond resolution, with the same range and the same
/// checked arithmetic as `std::time::Duration`.
#[derive(Debug, Clone, Copy, PartialEq, Eq, Structural, PartialOrd, Ord, Hash, Default)]
pub struct Duration {
    nanos: u128,
}

impl Duration {
    /// The span in nanoseconds.
    pub closed spec fn view(&self) -> nat {
        self.nanos as nat
    }

    #[verifier::type_invariant]
    spec fn in_range(&self) -> bool {
        self.nanos <= MAX_NANOS
    }

    /// The span of `secs` seconds and `nanos` nanoseconds; `nanos` may exceed one second,
    /// as long as the whole seconds still fit in a `u64`.
    pub fn new(secs: u64, nanos: u32) -> (r: Duration)
        requires
            secs as int + nanos as int / NANOS_PER_SEC as int <= u64::MAX,
        ensures
            r@ == secs as nat * NANOS_PER_SEC as nat + nanos as nat,
    {
        let total: u128 = secs as u128 * NANOS_PER_SEC + nanos as u128;
        assert(total <= MAX_NANOS) by (nonlinear_arith)
            requires
                total == secs as int * NANOS_PER_SEC as int + nanos as int,
                secs as int + nanos as int / NANOS_PER_SEC as int <= u64::MAX,
                NANOS_PER_SEC == 1_000_000_000,
                MAX_NANOS == u64::MAX as int * 1_000_000_000 + 999_999_999,
        ;
        Duration { nanos: total }
    }

    pub fn from_secs(secs: u64) -> (r: Duration)
        ensures
            r@ == secs as nat * NANOS_PER_SEC as nat,
    {
        Duration { nanos: secs as u128 * NANOS_PER_SEC }
    }

    pub fn from_millis(millis: u64) -> (r: Duration)
        ensures
            r@ == millis as nat * 1_000_000,
    {
        Duration { nanos: millis as u128 * 1_000_000 }
    }

    pub fn from_micros(micros: u64) -> (r: Duration)
        ensures
            r@ == micros as nat * 1_000,
    {
        Duration { nanos: micros as u128 * 1_000 }
    }

    pub fn from_nanos(nanos: u64) -> (r: Duration)
        ensures
            r@ == nanos as nat,
    {
        Duration { nanos: nanos as u128 }
    }

    /// The empty span.
    pub fn zero() -> (r: Duration)
        ensures
            r@ == 0,
    {
        Duration { nanos: 0 }
    }

    pub fn is_zero(&self) -> (r: bool)
        ensures
            r == (self@ == 0),
    {
        self.nanos == 0
    }

    /// The whole seconds of the span.
    pub fn as_secs(&self) -> (r: u64)
        ensures
            r as nat == self@ / NANOS_PER_SEC as nat,
    {
        proof {
            use_type_invariant(self);
        }
        (self.nanos / NANOS_PER_SEC) as u64
    }

    /// The part of the span below one second, in nanoseconds.
    pub fn subsec_nanos(&self) -> (r: u32)
        ensures
            r as nat == self@ % NANOS_PER_SEC as nat,
            r < NANOS_PER_SEC,
    {
        (self.nanos % NANOS_PER_SEC) as u32
    }

    /// The whole span in nanoseconds.
    pub fn as_nanos(&self) -> (r: u128)
        ensures
            r as nat == self@,
            r <= MAX_NANOS,
    {
        proof {
            use_type_invariant(self);
        }
        self.nanos
    }

    /// The span of `nanos` nanoseconds, where that fits in a `Duration`.
    pub fn from_nanos_checked(nanos: u128) -> (r: Option<Duration>)
        ensures
            nanos <= MAX_NANOS <==> r is Some,
            r matches Some(d) ==> d@ == nanos as nat,
    {
        if nanos <= MAX_NANOS {
            Some(Duration { nanos })
        } else {
            None
        }
    }

    /// The sum of both spans, or `None` where it exceeds the range.
    pub fn checked_add(self, rhs: Duration) -> (r: Option<Duration>)
        ensures
            self@ + rhs@ <= MAX_NANOS <==> r is Some,
            r matches Some(d) ==> d@ == self@ + rhs@,
    {
        proof {
            use_type_invariant(&self);
            use_type_invariant(&rhs);
        }
        let sum: u128 = self.nanos + rhs.nanos;
        Duration::from_nanos_checked(sum)
    }

    /// The difference of both spans, or `None` where `rhs` is the longer one.
    pub fn checked_sub(self, rhs: Duration) -> (r: Option<Duration>)
        ensures
            rhs@ <= self@ <==> r is Some,
            r matches Some(d) ==> d@ == self@ - rhs@,
    {
        proof {
            use_type_invariant(&self);
        }
        if rhs.nanos <= self.nanos {
            Some(Duration { nanos: self.nanos - rhs.nanos })
        } else {
            None
        }
    }

    /// The difference of both spans, or the empty span where `rhs` is the longer one.
    pub fn saturating_sub(self, rhs: Duration) -> (r: Duration)
        ensures
            r@ == if rhs@ <= self@ { self@ - rhs@ } else { 0 },
    {
        proof {
            use_type_invariant(&self);
        }
        if rhs.nanos <= self.nanos {
            Duration { nanos: self.nanos - rhs.nanos }
        } else {
            Duration { nanos: 0 }
        }
    }
}

} // verus!
