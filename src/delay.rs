//! The steps of a mocked delay future. Where its thread is not frozen, a delay is over
//! as soon as it is polled, and advances the clock to its timeout. Where the thread is
//! frozen, a poll registers the task's waker with the shared clock, to be handed out
//! once another thread advances the shared time to the timeout.
use vstd::prelude::*;

use crate::clock::{advance_to, get, is_frozen, raised_local, unfreeze_scoped, Advance, LocalClock};
use crate::duration::{Duration, MAX_NANOS};
use crate::shared_clock::{advanced, cancelled, registered, same_state, SharedClock};
use crate::timepoint::Timepoint;
use crate::waker_queue::{has_key, TimedWaker};

verus! {

/// The registration of a delay's waker: the key of its queue entry, and the thread
/// whose timed wait it counts as.
#[derive(Debug, Clone, Copy, PartialEq, Eq, Structural)]
pub struct TimedWakerHandle {
    pub key: u64,
    pub thread: u64,
}

/// A delay that is over once the clock reaches `timeout`.
#[derive(Debug)]
pub struct DelayFuture {
    timeout: Timepoint,
    handle: Option<TimedWakerHandle>,
}

/// What a poll of a delay found.
pub enum DelayPoll<W> {
    /// The delay is over. Getting there raised the shared time (`raised`), and the
    /// wakers in `due` became due on the way and are to be woken.
    Ready { raised: bool, due: Vec<TimedWaker<W>> },
    /// The delay is not over; its waker waits in the shared clock's queue.
    Pending,
    /// The shared clock does not know the thread, or has no key left.
    Unregistered,
}

/// Whether `after` is `before` with the registration of `delay`, where it has one,
/// dropped: its entry leaves the queue and its timed wait ends.
pub open spec fn released<W>(delay: DelayFuture, before: SharedClock<W>, after: SharedClock<W>) -> bool {
    match delay.handle_spec() {
        Some(h) => cancelled(before, h.thread, h.key, after),
        None => same_state(before, after),
    }
}

/// Whether `delay` and `after` are what re-registering `waker` on `thread` under the
/// delay's timeout leaves, starting from `before` where the earlier registration is
/// already dropped; `r` tells whether that succeeded. Without a waker nothing is
/// registered; where the timeout is reached nothing needs to be.
pub open spec fn reregistered<W>(
    before: SharedClock<W>,
    thread: u64,
    waker: Option<W>,
    r: bool,
    delay: DelayFuture,
    after: SharedClock<W>,
) -> bool {
    match waker {
        Some(w) if before.now()@ < delay.timeout_spec()@ => {
            &&& (r <==> before.can_enter(thread))
            &&& r ==> (delay.handle_spec() matches Some(h) && h.thread == thread && registered(
                before,
                thread,
                w,
                delay.timeout_spec(),
                h.key,
                after,
            ))
            &&& !r ==> delay.handle_spec() is None && same_state(before, after)
        },
        _ => r && delay.handle_spec() is None && same_state(before, after),
    }
}

impl DelayFuture {
    pub closed spec fn timeout_spec(&self) -> Timepoint {
        self.timeout
    }

    pub closed spec fn handle_spec(&self) -> Option<TimedWakerHandle> {
        self.handle
    }

    /// A delay of `delay` from the local time, which must stay within the range.
    pub fn new(slot: &Option<LocalClock>, delay: Duration) -> (r: DelayFuture)
        requires
            *slot is Some,
            slot->0.time@ + delay@ <= MAX_NANOS,
        ensures
            r.timeout_spec()@ == slot->0.time@ + delay@,
            r.handle_spec() is None,
    {
        DelayFuture { timeout: get(slot).add(delay), handle: None }
    }

    pub fn timeout(&self) -> (r: Timepoint)
        ensures
            r == self.timeout_spec(),
    {
        self.timeout
    }

    pub fn handle(&self) -> (r: Option<TimedWakerHandle>)
        ensures
            r == self.handle_spec(),
    {
        self.handle
    }

    /// Drops the registration of the waker, where there is one: its entry leaves the
    /// queue and its timed wait ends.
    pub fn cancel<W>(&mut self, shared: &mut SharedClock<W>)
        requires
            old(shared).wf(),
        ensures
            final(shared).wf(),
            final(self).timeout_spec() == old(self).timeout_spec(),
            final(self).handle_spec() is None,
            old(self).handle_spec() matches Some(h) ==> cancelled(
                *old(shared),
                h.thread,
                h.key,
                *final(shared),
            ),
            old(self).handle_spec() is None ==> *final(shared) == *old(shared),
            released(*old(self), *old(shared), *final(shared)),
    {
        match self.handle {
            Some(h) => {
                shared.cancel_timed_waker(h.thread, h.key);
            },
            None => {},
        }
        self.handle = None;
    }

    /// Polls the delay on `thread`, with `waker` to be handed out when it is over.
    /// Not frozen: the clock advances to the timeout and the delay is over. Frozen: any
    /// earlier registration is dropped, and where the shared time has not reached the
    /// timeout, `waker` is registered and the delay is pending; either way the local
    /// time is brought up to the shared time.
    pub fn poll<W>(
        &mut self,
        slot: &mut Option<LocalClock>,
        shared: &mut SharedClock<W>,
        thread: u64,
        waker: W,
    ) -> (r: DelayPoll<W>)
        requires
            *old(slot) is Some,
            old(shared).wf(),
        ensures
            final(shared).wf(),
            *final(slot) is Some,
            (*final(slot))->0.frozen == (*old(slot))->0.frozen,
            final(self).timeout_spec() == old(self).timeout_spec(),
            !(*old(slot))->0.frozen ==> {
                &&& final(self).handle_spec() == old(self).handle_spec()
                &&& raised_local((*old(slot))->0, old(self).timeout_spec()@, (*final(slot))->0)
                &&& r matches DelayPoll::Ready { raised, due } && advanced(
                    *old(shared),
                    old(self).timeout_spec()@,
                    *final(shared),
                    raised,
                    due@,
                )
            },
            (*old(slot))->0.frozen ==> match r {
                DelayPoll::Ready { raised, due } => {
                    &&& !raised
                    &&& due@.len() == 0
                    &&& final(self).handle_spec() is None
                    &&& old(self).timeout_spec()@ <= final(shared).now()@
                    &&& final(shared).now() == old(shared).now()
                    &&& raised_local((*old(slot))->0, old(shared).now()@, (*final(slot))->0)
                    &&& released(*old(self), *old(shared), *final(shared))
                },
                DelayPoll::Pending => {
                    &&& final(self).handle_spec() matches Some(h) && h.thread == thread
                        && has_key(final(shared).wakers(), h.key)
                    &&& final(shared).now()@ < old(self).timeout_spec()@
                    &&& final(shared).now() == old(shared).now()
                    &&& raised_local((*old(slot))->0, old(shared).now()@, (*final(slot))->0)
                    &&& exists|mid: SharedClock<W>|
                        released(*old(self), *old(shared), mid) && registered(
                            mid,
                            thread,
                            waker,
                            old(self).timeout_spec(),
                            final(self).handle_spec()->0.key,
                            *final(shared),
                        )
                },
                DelayPoll::Unregistered => {
                    &&& final(self).handle_spec() is None
                    &&& final(shared).now() == old(shared).now()
                    &&& *final(slot) == *old(slot)
                    &&& released(*old(self), *old(shared), *final(shared))
                },
            },
            old(shared).can_enter(thread) ==> !(r is Unregistered),
    {
        if !is_frozen(slot) {
            let step = advance_to(slot, shared, thread, self.timeout);
            return match step {
                Advance::Raised { raised, due } => DelayPoll::Ready { raised, due },
                _ => DelayPoll::Ready { raised: false, due: Vec::new() },
            };
        }
        self.cancel(shared);
        let ghost mid = *shared;
        let timeout = self.timeout;
        match shared.register_timed_waker(thread, waker, timeout) {
            None => DelayPoll::Unregistered,
            Some((key, now)) => {
                let ghost registration = *shared;
                let scope = unfreeze_scoped(slot);
                let step = advance_to(slot, shared, thread, now);
                scope.restore(slot);
                proof {
                    assert(!step->raised);
                    assert(step->due@.len() == 0);
                    assert(shared.wakers() =~= registration.wakers());
                }
                match key {
                    Some(k) => {
                        self.handle = Some(TimedWakerHandle { key: k, thread });
                        proof {
                            assert(released(*old(self), *old(shared), mid));
                            assert(registered(mid, thread, waker, timeout, k, *shared));
                        }
                        DelayPoll::Pending
                    },
                    None => DelayPoll::Ready { raised: false, due: Vec::new() },
                }
            },
        }
    }

    /// Starts the delay anew, `delay` from the local time, which must stay within the
    /// range. Where the waker was registered, the registration is dropped and, where the
    /// caller hands the waker back (`waker`), made anew under the new timeout as a timed
    /// wait of `thread`. Returns false where that registration failed.
    pub fn reset<W>(
        &mut self,
        slot: &Option<LocalClock>,
        shared: &mut SharedClock<W>,
        thread: u64,
        delay: Duration,
        waker: Option<W>,
    ) -> (r: bool)
        requires
            *slot is Some,
            slot->0.time@ + delay@ <= MAX_NANOS,
            old(shared).wf(),
        ensures
            final(shared).wf(),
            final(shared).now() == old(shared).now(),
            final(self).timeout_spec()@ == slot->0.time@ + delay@,
            old(self).handle_spec() is None ==> r && final(self).handle_spec() is None
                && *final(shared) == *old(shared),
            old(self).handle_spec() is Some ==> exists|mid: SharedClock<W>|
                released(*old(self), *old(shared), mid) && reregistered(
                    mid,
                    thread,
                    waker,
                    r,
                    *final(self),
                    *final(shared),
                ),
            old(shared).can_enter(thread) ==> r,
            final(self).handle_spec() matches Some(h) ==> h.thread == thread && has_key(
                final(shared).wakers(),
                h.key,
            ),
    {
        let timeout = get(slot).add(delay);
        self.timeout = timeout;
        if self.handle.is_none() {
            return true;
        }
        self.cancel(shared);
        let ghost mid = *shared;
        proof {
            assert(released(*old(self), *old(shared), mid));
        }
        match waker {
            None => {
                proof {
                    assert(reregistered(mid, thread, waker, true, *self, *shared));
                }
                true
            },
            Some(w) => match shared.register_timed_waker(thread, w, timeout) {
                None => {
                    proof {
                        assert(reregistered(mid, thread, waker, false, *self, *shared));
                    }
                    false
                },
                Some((key, _now)) => {
                    match key {
                        Some(k) => {
                            self.handle = Some(TimedWakerHandle { key: k, thread });
                            proof {
                                assert(registered(mid, thread, w, timeout, k, *shared));
                            }
                        },
                        None => {},
                    }
                    proof {
                        assert(reregistered(mid, thread, waker, true, *self, *shared));
                    }
                    true
                },
            },
        }
    }
}

} // verus!
