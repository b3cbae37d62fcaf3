//! Properties of the mocked clock that relate several of its steps.
use vstd::prelude::*;

use crate::clock::{install_error, raised_local, LocalClock};
use crate::error::ChronobreakError;
use crate::shared_clock::{advanced, cancelled, entered, left, SharedClock};
use crate::waker_queue::{has_key, TimedWaker};

verus! {

/// One step of a thread's local clock: an advance to some target (what `advance_to`,
/// `advance`, `sync_with` and a poll ensure), or a change of the frozen flag alone.
pub open spec fn local_step(before: LocalClock, after: LocalClock) -> bool {
    (exists|time: nat| raised_local(before, time, after)) || after.time == before.time
}

/// One step of a shared clock: an advance, a timed wait that starts or ends, a
/// cancelled waker, or a step that keeps the shared time (a registration).
pub open spec fn shared_step<W>(before: SharedClock<W>, after: SharedClock<W>) -> bool {
    ||| exists|time: nat, raised: bool, due: Seq<TimedWaker<W>>|
        advanced(before, time, after, raised, due)
    ||| exists|thread: u64| entered(before, thread, after)
    ||| exists|thread: u64| left(before, thread, after)
    ||| exists|thread: u64, key: u64| cancelled(before, thread, key, after)
    ||| after.now() == before.now()
}

/// Installing a clock on a thread that has one (a second install without taking the
/// first down) reports `AlreadyInitialized`; once the clock is taken down, which leaves
/// the slot empty, installing succeeds again.
pub proof fn lemma_install_teardown(installed: LocalClock)
    ensures
        install_error(Some(installed)) == Some(ChronobreakError::AlreadyInitialized),
        install_error(None) is None,
{
}

/// A thread's local time never goes back: along any run of steps of its clock, a later
/// observation of the local time is never below an earlier one.
pub proof fn lemma_local_time_monotone(run: Seq<LocalClock>, i: int, j: int)
    requires
        forall|k: int| 0 <= k < run.len() - 1 ==> local_step(#[trigger] run[k], run[k + 1]),
        0 <= i <= j < run.len(),
    ensures
        run[i].time@ <= run[j].time@,
    decreases j - i,
{
    if i < j {
        lemma_local_time_monotone(run, i, j - 1);
        assert(local_step(run[j - 1], run[j]));
    }
}

/// The shared time never goes back: along any run of steps of a shared clock, a later
/// observation of the shared time is never below an earlier one.
pub proof fn lemma_shared_time_monotone<W>(run: Seq<SharedClock<W>>, i: int, j: int)
    requires
        forall|k: int| 0 <= k < run.len() - 1 ==> shared_step(#[trigger] run[k], run[k + 1]),
        0 <= i <= j < run.len(),
    ensures
        run[i].now()@ <= run[j].now()@,
    decreases j - i,
{
    if i < j {
        lemma_shared_time_monotone(run, i, j - 1);
        assert(shared_step(run[j - 1], run[j]));
    }
}

/// A thread that syncs with the time another thread handed over (on a join, a lock, a
/// condition signal) ends with a local time at least that of the other thread.
pub proof fn lemma_sync_happens_before(other: LocalClock, before: LocalClock, after: LocalClock)
    requires
        raised_local(before, other.time@, after),
    ensures
        other.time@ <= after.time@,
        before.time@ <= after.time@,
{
}

/// An advance that reaches the timeout of a registered waker hands that waker out.
pub proof fn lemma_advance_wakes<W>(
    before: SharedClock<W>,
    key: u64,
    time: nat,
    after: SharedClock<W>,
    raised: bool,
    due: Seq<TimedWaker<W>>,
)
    requires
        before.wf(),
        after.wf(),
        advanced(before, time, after, raised, due),
        exists|i: int|
            0 <= i < before.wakers().len() && before.wakers()[i].key == key
                && before.wakers()[i].timeout@ <= time,
    ensures
        has_key(due, key),
{
    let i = choose|i: int|
        0 <= i < before.wakers().len() && before.wakers()[i].key == key
            && before.wakers()[i].timeout@ <= time;
    assert(before.now()@ < before.wakers()[i].timeout@);
    if i >= due.len() {
        assert(after.wakers()[i - due.len()] == before.wakers()[i]);
        assert(after.now()@ < after.wakers()[i - due.len()].timeout@);
    } else {
        assert(due[i] == before.wakers()[i]);
    }
}

/// A waker whose registration was cancelled is not handed out by a later advance.
pub proof fn lemma_cancelled_never_woken<W>(
    start: SharedClock<W>,
    thread: u64,
    key: u64,
    before: SharedClock<W>,
    time: nat,
    after: SharedClock<W>,
    raised: bool,
    due: Seq<TimedWaker<W>>,
)
    requires
        cancelled(start, thread, key, before),
        advanced(before, time, after, raised, due),
    ensures
        !has_key(due, key),
        !has_key(after.wakers(), key),
{
    assert forall|i: int| 0 <= i < due.len() implies due[i].key != key by {
        assert(due[i] == before.wakers()[i]);
    }
    assert forall|i: int| 0 <= i < after.wakers().len() implies after.wakers()[i].key != key by {
        assert(after.wakers()[i] == before.wakers()[i + due.len()]);
    }
}

/// A thread that entered a timed wait is seen in one until it leaves it.
pub proof fn lemma_entered_is_seen<W>(before: SharedClock<W>, thread: u64, after: SharedClock<W>)
    requires
        entered(before, thread, after),
    ensures
        after.timed_waits().contains_key(thread),
        after.timed_waits()[thread] > 0,
{
}

/// A frozen thread's advance leaves the shared time as it is: entering the timed wait
/// and leaving it again change only the count of timed waits.
pub proof fn lemma_frozen_advance_keeps_shared_time<W>(
    start: SharedClock<W>,
    thread: u64,
    waiting: SharedClock<W>,
    woken: SharedClock<W>,
    end: SharedClock<W>,
)
    requires
        entered(start, thread, waiting),
        left(woken, thread, end),
    ensures
        waiting.now() == start.now(),
        end.now() == woken.now(),
{
}

/// An unfrozen thread's advance to `time` leaves both its local time and the shared
/// time at least `time`.
pub proof fn lemma_unfrozen_advance_raises_both<W>(
    local_before: LocalClock,
    time: nat,
    local_after: LocalClock,
    before: SharedClock<W>,
    after: SharedClock<W>,
    raised: bool,
    due: Seq<TimedWaker<W>>,
)
    requires
        raised_local(local_before, time, local_after),
        advanced(before, time, after, raised, due),
    ensures
        time <= local_after.time@,
        time <= after.now()@,
        before.now()@ <= after.now()@,
{
}

} // verus!
