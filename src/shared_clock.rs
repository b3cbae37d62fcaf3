use vstd::prelude::*;
use std::collections::HashMap;

use crate::timepoint::Timepoint;
use crate::waker_queue::{
    has_key, keys_distinct, sorted_by_timeout, ties_in_key_order, TimedWaker, WakerQueue,
};

verus! {

broadcast use vstd::std_specs::hash::group_hash_axioms;

/// The state that every thread of one test shares: the shared virtual time, how many
/// timed waits each registered thread is in, and the wakers of pending timed waits.
/// The owner keeps it under one lock; each method is one step taken under it.
pub struct SharedClock<W> {
    time: Timepoint,
    timed_waits: HashMap<u64, u64>,
    wakers: WakerQueue<W>,
    next_key: u64,
}

/// Whether `after` is `before` with the shared time raised to `time` where it was
/// earlier, and `due` the entries that this handed out: none where the time stayed,
/// and otherwise the leading entries whose timeout is not later than `time`, in order.
pub open spec fn advanced<W>(
    before: SharedClock<W>,
    time: nat,
    after: SharedClock<W>,
    raised: bool,
    due: Seq<TimedWaker<W>>,
) -> bool {
    &&& raised == (before.now()@ < time)
    &&& raised ==> after.now()@ == time
    &&& !raised ==> after.now() == before.now()
    &&& after.timed_waits() == before.timed_waits()
    &&& after.next_key() == before.next_key()
    &&& due.len() <= before.wakers().len()
    &&& due == before.wakers().take(due.len() as int)
    &&& after.wakers() == before.wakers().skip(due.len() as int)
    &&& (!raised ==> due.len() == 0)
    &&& forall|i: int| 0 <= i < due.len() ==> due[i].timeout@ <= time
}

/// Whether both states agree in the shared time, the counts of timed waits, the queue
/// and the next key.
pub open spec fn same_state<W>(a: SharedClock<W>, b: SharedClock<W>) -> bool {
    &&& b.now() == a.now()
    &&& b.timed_waits() == a.timed_waits()
    &&& b.wakers() == a.wakers()
    &&& b.next_key() == a.next_key()
}

/// Whether `after` is `before` with `waker` registered under `key` to be due at
/// `timeout`, as one more timed wait of `thread`. The new entry stands behind every
/// entry whose timeout is not later, and before every entry whose timeout is later.
pub open spec fn registered<W>(
    before: SharedClock<W>,
    thread: u64,
    waker: W,
    timeout: Timepoint,
    key: u64,
    after: SharedClock<W>,
) -> bool {
    &&& before.can_enter(thread)
    &&& key == before.next_key()
    &&& after.next_key() == key + 1
    &&& after.now() == before.now()
    &&& after.timed_waits() == before.timed_waits().insert(
        thread,
        (before.timed_waits()[thread] + 1) as u64,
    )
    &&& has_key(after.wakers(), key)
    &&& exists|i: int|
        0 <= i <= before.wakers().len() && after.wakers() == before.wakers().insert(
            i,
            TimedWaker { timeout, key, waker },
        ) && (forall|j: int| 0 <= j < i ==> before.wakers()[j].timeout@ <= timeout@) && (
        forall|j: int| i <= j < before.wakers().len() ==> timeout@ < before.wakers()[j].timeout@)
}

/// Whether `after` is `before` with one more timed wait of `thread`.
pub open spec fn entered<W>(before: SharedClock<W>, thread: u64, after: SharedClock<W>) -> bool {
    &&& before.timed_waits().contains_key(thread)
    &&& before.timed_waits()[thread] < u64::MAX
    &&& after.timed_waits() == before.timed_waits().insert(
        thread,
        (before.timed_waits()[thread] + 1) as u64,
    )
    &&& after.now() == before.now()
    &&& after.wakers() == before.wakers()
    &&& after.next_key() == before.next_key()
}

/// Whether `after` is `before` with one timed wait of `thread` less, where it had one.
pub open spec fn left<W>(before: SharedClock<W>, thread: u64, after: SharedClock<W>) -> bool {
    &&& after.timed_waits() == if before.timed_waits().contains_key(thread)
        && before.timed_waits()[thread] > 0 {
        before.timed_waits().insert(thread, (before.timed_waits()[thread] - 1) as u64)
    } else {
        before.timed_waits()
    }
    &&& after.now() == before.now()
    &&& after.wakers() == before.wakers()
    &&& after.next_key() == before.next_key()
}

/// Whether `after` is `before` with the entry of `key` taken out of the queue, where it
/// was there, and the timed wait that it stood for left on `thread`.
pub open spec fn cancelled<W>(
    before: SharedClock<W>,
    thread: u64,
    key: u64,
    after: SharedClock<W>,
) -> bool {
    &&& !has_key(after.wakers(), key)
    &&& (!has_key(before.wakers(), key) ==> after.wakers() == before.wakers())
    &&& (has_key(before.wakers(), key) ==> exists|i: int|
        0 <= i < before.wakers().len() && before.wakers()[i].key == key && after.wakers()
            == before.wakers().remove(i))
    &&& after.timed_waits() == if before.timed_waits().contains_key(thread)
        && before.timed_waits()[thread] > 0 {
        before.timed_waits().insert(thread, (before.timed_waits()[thread] - 1) as u64)
    } else {
        before.timed_waits()
    }
    &&& after.now() == before.now()
    &&& after.next_key() == before.next_key()
}

impl<W> SharedClock<W> {
    /// The shared virtual time.
    pub closed spec fn now(&self) -> Timepoint {
        self.time
    }

    /// For each registered thread, how many timed waits it is in.
    pub closed spec fn timed_waits(&self) -> Map<u64, u64> {
        self.timed_waits@
    }

    /// The pending wakers, in the order in which they are due.
    pub closed spec fn wakers(&self) -> Seq<TimedWaker<W>> {
        self.wakers@
    }

    /// The key that the next registered waker gets.
    pub closed spec fn next_key(&self) -> u64 {
        self.next_key
    }

    /// The queue is ordered by timeout with distinct keys below `next_key`, and only
    /// holds wakers that are not due yet.
    pub open spec fn wf(&self) -> bool {
        &&& sorted_by_timeout(self.wakers())
        &&& keys_distinct(self.wakers())
        &&& ties_in_key_order(self.wakers())
        &&& forall|i: int|
            0 <= i < self.wakers().len() ==> {
                &&& self.now()@ < #[trigger] self.wakers()[i].timeout@
                &&& self.wakers()[i].key < self.next_key()
            }
    }

    /// Whether `thread` can enter one more timed wait with a waker: it is registered,
    /// its count can grow, and a key is left.
    pub open spec fn can_enter(&self, thread: u64) -> bool {
        &&& self.timed_waits().contains_key(thread)
        &&& self.timed_waits()[thread] < u64::MAX
        &&& self.next_key() < u64::MAX
    }

    /// A shared clock at the origin, with no registered thread and no waker.
    pub fn new() -> (r: SharedClock<W>)
        ensures
            r.wf(),
            r.now()@ == 0,
            r.timed_waits() == Map::<u64, u64>::empty(),
            r.wakers() == Seq::<TimedWaker<W>>::empty(),
            r.next_key() == 0,
    {
        SharedClock {
            time: Timepoint::start(),
            timed_waits: HashMap::new(),
            wakers: WakerQueue::new(),
            next_key: 0,
        }
    }

    /// The shared virtual time.
    pub fn time(&self) -> (r: Timepoint)
        ensures
            r == self.now(),
    {
        self.time
    }

    /// Whether the shared time has reached `time`.
    pub fn has_reached(&self, time: Timepoint) -> (r: bool)
        ensures
            r == (time@ <= self.now()@),
    {
        !self.time.is_before(&time)
    }

    /// Registers `thread` with no timed wait.
    pub fn register_thread(&mut self, thread: u64)
        requires
            old(self).wf(),
        ensures
            final(self).wf(),
            final(self).timed_waits() == old(self).timed_waits().insert(thread, 0),
            final(self).now() == old(self).now(),
            final(self).wakers() == old(self).wakers(),
            final(self).next_key() == old(self).next_key(),
    {
        self.timed_waits.insert(thread, 0);
    }

    /// Whether `thread` is in a timed wait; `None` where it is not registered.
    pub fn timed_wait_active(&self, thread: u64) -> (r: Option<bool>)
        ensures
            r == if self.timed_waits().contains_key(thread) {
                Some(self.timed_waits()[thread] > 0)
            } else {
                None::<bool>
            },
    {
        match self.timed_waits.get(&thread) {
            Some(n) => Some(*n > 0),
            None => None,
        }
    }

    /// Counts one more timed wait of `thread`. Returns false, and changes nothing, where
    /// the thread is not registered or its count cannot grow.
    pub fn notify_timed_wait(&mut self, thread: u64) -> (r: bool)
        requires
            old(self).wf(),
        ensures
            final(self).wf(),
            r == (old(self).timed_waits().contains_key(thread) && old(self).timed_waits()[thread]
                < u64::MAX),
            r ==> entered(*old(self), thread, *final(self)),
            !r ==> *final(self) == *old(self),
    {
        match self.timed_waits.get(&thread) {
            Some(n) => {
                let n = *n;
                if n < u64::MAX {
                    self.timed_waits.insert(thread, n + 1);
                    true
                } else {
                    false
                }
            },
            None => false,
        }
    }

    /// Counts one timed wait of `thread` less, where it is in one.
    pub fn end_timed_wait(&mut self, thread: u64)
        requires
            old(self).wf(),
        ensures
            final(self).wf(),
            left(*old(self), thread, *final(self)),
    {
        match self.timed_waits.get(&thread) {
            Some(n) => {
                let n = *n;
                if n > 0 {
                    self.timed_waits.insert(thread, n - 1);
                }
            },
            None => {},
        }
    }

    /// Raises the shared time to `time` where it is earlier, and hands out the wakers
    /// that are due by then, in order. Returns whether the time was raised.
    pub fn unfreeze_advance_to(&mut self, time: Timepoint) -> (r: (bool, Vec<TimedWaker<W>>))
        requires
            old(self).wf(),
        ensures
            final(self).wf(),
            advanced(*old(self), time@, *final(self), r.0, r.1@),
            old(self).now()@ <= final(self).now()@,
            time@ <= final(self).now()@,
    {
        if self.time.is_before(&time) {
            self.time = time;
            let due = self.wakers.pop_due(time);
            proof {
                assert forall|i: int| 0 <= i < self.wakers().len() implies self.wakers()[i].key
                    < self.next_key() by {
                    assert(self.wakers()[i] == old(self).wakers()[i + due@.len()]);
                }
            }
            (true, due)
        } else {
            let none: Vec<TimedWaker<W>> = Vec::new();
            proof {
                assert(self.wakers().take(0) =~= none@);
                assert(self.wakers().skip(0) =~= self.wakers());
            }
            (false, none)
        }
    }

    /// Registers `waker` to be handed out once the shared time reaches `timeout`, as a
    /// timed wait of `thread`. Returns the key of the entry (`None` where the timeout is
    /// already reached, which leaves the state as it is) and the shared time. Returns
    /// `None` where the timeout lies ahead but the thread is not registered, its count
    /// cannot grow, or no key is left; the state then stays as it is too.
    pub fn register_timed_waker(&mut self, thread: u64, waker: W, timeout: Timepoint) -> (r:
        Option<(Option<u64>, Timepoint)>)
        requires
            old(self).wf(),
        ensures
            final(self).wf(),
            final(self).now() == old(self).now(),
            r is None <==> (old(self).now()@ < timeout@ && !old(self).can_enter(thread)),
            timeout@ <= old(self).now()@ ==> r == Some((None::<u64>, old(self).now()))
                && *final(self) == *old(self),
            old(self).now()@ < timeout@ ==> match r {
                Some((Some(key), now)) => now == old(self).now() && registered(
                    *old(self),
                    thread,
                    waker,
                    timeout,
                    key,
                    *final(self),
                ),
                Some((None, _)) => false,
                None => *final(self) == *old(self),
            },
    {
        let now = self.time;
        if !now.is_before(&timeout) {
            return Some((None, now));
        }
        if self.next_key == u64::MAX {
            return None;
        }
        if !self.notify_timed_wait(thread) {
            return None;
        }
        let key = self.next_key;
        self.wakers.push(timeout, key, waker);
        self.next_key = key + 1;
        proof {
            let before = old(self).wakers();
            assert forall|j: int| 0 <= j < self.wakers().len() implies self.now()@
                < #[trigger] self.wakers()[j].timeout@ && self.wakers()[j].key
                < self.next_key() by {
                let i = choose|i: int|
                    0 <= i <= before.len() && self.wakers() == before.insert(
                        i,
                        TimedWaker { timeout, key, waker },
                    );
                if j < i {
                    assert(self.wakers()[j] == before[j]);
                } else if j > i {
                    assert(self.wakers()[j] == before[j - 1]);
                }
            }
            let i = choose|i: int|
                0 <= i <= before.len() && self.wakers() == before.insert(
                    i,
                    TimedWaker { timeout, key, waker },
                );
            assert(self.wakers()[i].key == key);
        }
        Some((Some(key), now))
    }

    /// Takes the waker of `key` out of the queue, where it is still there, and ends the
    /// timed wait that it stood for on `thread`.
    pub fn cancel_timed_waker(&mut self, thread: u64, key: u64)
        requires
            old(self).wf(),
        ensures
            final(self).wf(),
            cancelled(*old(self), thread, key, *final(self)),
    {
        let removed = self.wakers.remove_key(key);
        proof {
            assert forall|j: int| 0 <= j < self.wakers().len() implies self.now()@
                < #[trigger] self.wakers()[j].timeout@ && self.wakers()[j].key
                < self.next_key() by {
                if removed is Some {
                    let i = choose|i: int|
                        0 <= i < old(self).wakers().len() && old(self).wakers()[i] == removed->0
                            && removed->0.key == key && self.wakers() == old(
                            self,
                        ).wakers().remove(i);
                    if j >= i {
                        assert(self.wakers()[j] == old(self).wakers()[j + 1]);
                    }
                }
            }
        }
        self.end_timed_wait(thread);
    }
}

} // verus!
