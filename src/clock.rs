//! The mocked clock of one thread, and the steps that it takes together with the
//! shared clock of its test. The thread keeps its `LocalClock` in a slot of its own
//! (`None` where the clock is not mocked) and hands that slot to these functions; the
//! shared clock is handed in under its lock.
use vstd::prelude::*;

use crate::duration::{Duration, MAX_NANOS};
use crate::error::ChronobreakError;
use crate::shared_clock::{advanced, entered, SharedClock};
use crate::timepoint::Timepoint;
use crate::waker_queue::TimedWaker;

verus! {

/// The mocked clock of one thread.
#[derive(Debug, Clone, Copy, PartialEq, Eq, Structural)]
pub struct LocalClock {
    /// Whether timed waits block until another thread advances the shared clock,
    /// rather than advance it themselves.
    pub frozen: bool,
    /// The thread's local time.
    pub time: Timepoint,
}

/// Whether `after` is `before` with its local time raised to `time` where it was
/// earlier, and nothing else changed.
pub open spec fn raised_local(before: LocalClock, time: nat, after: LocalClock) -> bool {
    &&& after.frozen == before.frozen
    &&& after.time@ == if before.time@ < time { time } else { before.time@ }
}

/// What installing a clock on a thread whose slot holds `slot` reports: the error where
/// a clock is installed already, `None` where the install succeeds.
pub open spec fn install_error(slot: Option<LocalClock>) -> Option<ChronobreakError> {
    if slot is Some {
        Some(ChronobreakError::AlreadyInitialized)
    } else {
        None
    }
}

/// Proof that a thread's clock was mocked; it is handed back to take the clock down.
#[derive(Debug)]
pub struct ClockGuard {}

/// What an advance of the local clock asks of the shared clock.
pub enum Advance<W> {
    /// The thread is not frozen: the shared time was raised to the target where it was
    /// earlier (`raised`), and the wakers in `due` are due.
    Raised { raised: bool, due: Vec<TimedWaker<W>> },
    /// The thread is frozen and now counts as in a timed wait: it blocks until the
    /// shared time reaches `target`, and then ends the timed wait.
    Blocked { target: Timepoint },
    /// The thread is frozen but cannot enter a timed wait, as the shared clock does not
    /// know it.
    Unregistered,
}

/// The frozen flag that a scope found, to be put back when it ends.
#[derive(Debug, Clone, Copy, PartialEq, Eq, Structural)]
pub struct FrozenScope {
    pub was_frozen: bool,
}

/// What a new thread needs to join the mocked clock of the thread that made it: the
/// local clock at that moment, not frozen; `None` where that thread's clock is not
/// mocked.
#[derive(Debug, Clone, Copy, PartialEq, Eq, Structural)]
pub struct RegistrationHandle {
    clock: Option<LocalClock>,
}

/// The local time of a thread at one moment, to bring another thread's clock up to it;
/// `None` where the clock is not mocked.
#[derive(Debug, Clone, Copy, PartialEq, Eq, Structural)]
pub struct SyncHandle {
    time: Option<Timepoint>,
}

impl RegistrationHandle {
    pub closed spec fn view(&self) -> Option<LocalClock> {
        self.clock
    }

    pub fn clock(&self) -> (r: Option<LocalClock>)
        ensures
            r == self@,
    {
        self.clock
    }
}

impl SyncHandle {
    pub closed spec fn view(&self) -> Option<Timepoint> {
        self.time
    }

    pub fn time(&self) -> (r: Option<Timepoint>)
        ensures
            r == self@,
    {
        self.time
    }
}

/// Whether the clock is mocked.
pub fn is_mocked(slot: &Option<LocalClock>) -> (r: bool)
    ensures
        r == slot is Some,
{
    slot.is_some()
}

fn install<W>(
    slot: &mut Option<LocalClock>,
    shared: &mut SharedClock<W>,
    thread: u64,
    frozen: bool,
) -> (r: Result<ClockGuard, ChronobreakError>)
    requires
        old(shared).wf(),
    ensures
        final(shared).wf(),
        *final(slot) is Some,
        match install_error(*old(slot)) {
            Some(e) => r == Err::<ClockGuard, _>(e),
            None => r is Ok,
        },
        *old(slot) is Some ==> r == Err::<ClockGuard, _>(ChronobreakError::AlreadyInitialized)
            && *final(slot) == *old(slot) && *final(shared) == *old(shared),
        *old(slot) is None ==> {
            &&& r is Ok
            &&& *final(slot) is Some
            &&& (*final(slot))->0.frozen == frozen
            &&& (*final(slot))->0.time@ == 0
            &&& final(shared).timed_waits() == old(shared).timed_waits().insert(thread, 0)
            &&& final(shared).now() == old(shared).now()
            &&& final(shared).wakers() == old(shared).wakers()
            &&& final(shared).next_key() == old(shared).next_key()
        },
{
    if slot.is_some() {
        Err(ChronobreakError::AlreadyInitialized)
    } else {
        shared.register_thread(thread);
        *slot = Some(LocalClock { frozen, time: Timepoint::start() });
        Ok(ClockGuard {})
    }
}

/// Mocks the clock of `thread`, not frozen, at the origin, and registers the thread
/// with `shared`, the shared clock of its test. Fails where the clock is already mocked.
pub fn mock<W>(slot: &mut Option<LocalClock>, shared: &mut SharedClock<W>, thread: u64) -> (r:
    Result<ClockGuard, ChronobreakError>)
    requires
        old(shared).wf(),
    ensures
        final(shared).wf(),
        *final(slot) is Some,
        match install_error(*old(slot)) {
            Some(e) => r == Err::<ClockGuard, _>(e),
            None => r is Ok,
        },
        *old(slot) is Some ==> r == Err::<ClockGuard, _>(ChronobreakError::AlreadyInitialized)
            && *final(slot) == *old(slot) && *final(shared) == *old(shared),
        *old(slot) is None ==> {
            &&& r is Ok
            &&& *final(slot) is Some
            &&& (*final(slot))->0.frozen == false
            &&& (*final(slot))->0.time@ == 0
            &&& final(shared).timed_waits() == old(shared).timed_waits().insert(thread, 0)
            &&& final(shared).now() == old(shared).now()
            &&& final(shared).wakers() == old(shared).wakers()
            &&& final(shared).next_key() == old(shared).next_key()
        },
{
    install(slot, shared, thread, false)
}

/// Like `mock`, but with the clock frozen.
pub fn frozen<W>(slot: &mut Option<LocalClock>, shared: &mut SharedClock<W>, thread: u64) -> (r:
    Result<ClockGuard, ChronobreakError>)
    requires
        old(shared).wf(),
    ensures
        final(shared).wf(),
        *final(slot) is Some,
        match install_error(*old(slot)) {
            Some(e) => r == Err::<ClockGuard, _>(e),
            None => r is Ok,
        },
        *old(slot) is Some ==> r == Err::<ClockGuard, _>(ChronobreakError::AlreadyInitialized)
            && *final(slot) == *old(slot) && *final(shared) == *old(shared),
        *old(slot) is None ==> {
            &&& r is Ok
            &&& *final(slot) is Some
            &&& (*final(slot))->0.frozen == true
            &&& (*final(slot))->0.time@ == 0
            &&& final(shared).timed_waits() == old(shared).timed_waits().insert(thread, 0)
            &&& final(shared).now() == old(shared).now()
            &&& final(shared).wakers() == old(shared).wakers()
            &&& final(shared).next_key() == old(shared).next_key()
        },
{
    install(slot, shared, thread, true)
}

impl ClockGuard {
    /// Takes the mocked clock down: the thread reads the system's clock again.
    pub fn release(self, slot: &mut Option<LocalClock>)
        ensures
            *final(slot) == None::<LocalClock>,
    {
        *slot = None;
    }
}

/// The local time.
pub fn get(slot: &Option<LocalClock>) -> (r: Timepoint)
    requires
        slot is Some,
    ensures
        r == slot->0.time,
{
    match slot {
        Some(c) => c.time,
        None => Timepoint::start(),
    }
}

/// Whether the clock is frozen.
pub fn is_frozen(slot: &Option<LocalClock>) -> (r: bool)
    requires
        slot is Some,
    ensures
        r == slot->0.frozen,
{
    match slot {
        Some(c) => c.frozen,
        None => false,
    }
}

/// Sets the frozen flag and keeps the local time.
pub fn set_frozen(slot: &mut Option<LocalClock>, frozen: bool)
    requires
        *old(slot) is Some,
    ensures
        *final(slot) == Some(LocalClock { frozen, time: (*old(slot))->0.time }),
{
    match slot {
        Some(c) => {
            c.frozen = frozen;
        },
        None => {},
    }
}

/// Freezes the clock until the returned scope is restored.
pub fn freeze_scoped(slot: &mut Option<LocalClock>) -> (r: FrozenScope)
    requires
        *old(slot) is Some,
    ensures
        r.was_frozen == (*old(slot))->0.frozen,
        *final(slot) == Some(LocalClock { frozen: true, time: (*old(slot))->0.time }),
{
    let was_frozen = is_frozen(slot);
    set_frozen(slot, true);
    FrozenScope { was_frozen }
}

/// Unfreezes the clock until the returned scope is restored.
pub fn unfreeze_scoped(slot: &mut Option<LocalClock>) -> (r: FrozenScope)
    requires
        *old(slot) is Some,
    ensures
        r.was_frozen == (*old(slot))->0.frozen,
        *final(slot) == Some(LocalClock { frozen: false, time: (*old(slot))->0.time }),
{
    let was_frozen = is_frozen(slot);
    set_frozen(slot, false);
    FrozenScope { was_frozen }
}

impl FrozenScope {
    /// Ends the scope: the frozen flag is again what the scope found.
    pub fn restore(self, slot: &mut Option<LocalClock>)
        requires
            *old(slot) is Some,
        ensures
            *final(slot) == Some(LocalClock { frozen: self.was_frozen, time: (*old(slot))->0.time }),
    {
        set_frozen(slot, self.was_frozen);
    }
}

/// Advances the local clock to `time` where it is earlier. Where the thread is not
/// frozen, the shared clock is raised to `time` too; where it is frozen, the shared
/// clock is left as it is and the thread enters a timed wait, to block until another
/// thread brings the shared time to `time`.
pub fn advance_to<W>(
    slot: &mut Option<LocalClock>,
    shared: &mut SharedClock<W>,
    thread: u64,
    time: Timepoint,
) -> (r: Advance<W>)
    requires
        *old(slot) is Some,
        old(shared).wf(),
    ensures
        final(shared).wf(),
        *final(slot) is Some,
        raised_local((*old(slot))->0, time@, (*final(slot))->0),
        !(*old(slot))->0.frozen ==> (r matches Advance::Raised { raised, due } && advanced(
            *old(shared),
            time@,
            *final(shared),
            raised,
            due@,
        )),
        (*old(slot))->0.frozen ==> match r {
            Advance::Blocked { target } => target == time && entered(
                *old(shared),
                thread,
                *final(shared),
            ),
            Advance::Unregistered => *final(shared) == *old(shared) && !(old(
                shared,
            ).timed_waits().contains_key(thread) && old(shared).timed_waits()[thread]
                < u64::MAX),
            Advance::Raised { .. } => false,
        },
{
    let frozen = is_frozen(slot);
    match slot {
        Some(c) => {
            c.time = c.time.max(time);
        },
        None => {},
    }
    if frozen {
        if shared.notify_timed_wait(thread) {
            Advance::Blocked { target: time }
        } else {
            Advance::Unregistered
        }
    } else {
        let (raised, due) = shared.unfreeze_advance_to(time);
        Advance::Raised { raised, due }
    }
}

/// Advances the local clock by `duration`, as `advance_to` does with the local time
/// plus `duration`, which must lie within the range.
pub fn advance<W>(
    slot: &mut Option<LocalClock>,
    shared: &mut SharedClock<W>,
    thread: u64,
    duration: Duration,
) -> (r: Advance<W>)
    requires
        *old(slot) is Some,
        (*old(slot))->0.time@ + duration@ <= MAX_NANOS,
        old(shared).wf(),
    ensures
        final(shared).wf(),
        *final(slot) is Some,
        (*final(slot))->0.frozen == (*old(slot))->0.frozen,
        (*final(slot))->0.time@ == (*old(slot))->0.time@ + duration@,
        !(*old(slot))->0.frozen ==> (r matches Advance::Raised { raised, due } && advanced(
            *old(shared),
            (*old(slot))->0.time@ + duration@,
            *final(shared),
            raised,
            due@,
        )),
        (*old(slot))->0.frozen ==> match r {
            Advance::Blocked { target } => target@ == (*old(slot))->0.time@ + duration@ && entered(
                *old(shared),
                thread,
                *final(shared),
            ),
            Advance::Unregistered => *final(shared) == *old(shared) && !(old(
                shared,
            ).timed_waits().contains_key(thread) && old(shared).timed_waits()[thread]
                < u64::MAX),
            Advance::Raised { .. } => false,
        },
{
    let target = get(slot).add(duration);
    advance_to(slot, shared, thread, target)
}

/// The handle that a new thread registers with to share this thread's mocked clock.
pub fn registration_handle(slot: &Option<LocalClock>) -> (r: RegistrationHandle)
    ensures
        r@ == match *slot {
            Some(c) => Some(LocalClock { frozen: false, time: c.time }),
            None => None::<LocalClock>,
        },
{
    match slot {
        Some(c) => RegistrationHandle { clock: Some(LocalClock { frozen: false, time: c.time }) },
        None => RegistrationHandle { clock: None },
    }
}

/// Takes over the clock of `handle` on a new thread. Returns whether the clock is
/// mocked now; the caller then registers the thread with the shared clock that the
/// handle came with.
pub fn register_thread(slot: &mut Option<LocalClock>, handle: RegistrationHandle) -> (r: bool)
    ensures
        *final(slot) == handle@,
        r == handle@ is Some,
{
    *slot = handle.clock;
    handle.clock.is_some()
}

/// A handle with the local time; empty where the clock is not mocked.
pub fn sync_handle(slot: &Option<LocalClock>) -> (r: SyncHandle)
    ensures
        r@ == match *slot {
            Some(c) => Some(c.time),
            None => None::<Timepoint>,
        },
{
    match slot {
        Some(c) => SyncHandle { time: Some(c.time) },
        None => SyncHandle { time: None },
    }
}

/// Brings the local clock up to the time of `handle`, as `advance_to` does. A handle
/// with a time goes with a mocked clock, an empty one with a clock that is not; for an
/// empty handle nothing changes.
pub fn sync_with<W>(
    slot: &mut Option<LocalClock>,
    shared: &mut SharedClock<W>,
    thread: u64,
    handle: SyncHandle,
) -> (r: Advance<W>)
    requires
        handle@ is Some == *old(slot) is Some,
        old(shared).wf(),
    ensures
        final(shared).wf(),
        handle@ is None ==> *final(slot) == *old(slot) && *final(shared) == *old(shared) && (
        r matches Advance::Raised { raised, due } && !raised && due@.len() == 0),
        handle@ matches Some(t) ==> {
            &&& *final(slot) is Some
            &&& raised_local((*old(slot))->0, t@, (*final(slot))->0)
            &&& !(*old(slot))->0.frozen ==> (r matches Advance::Raised { raised, due } && advanced(
                *old(shared),
                t@,
                *final(shared),
                raised,
                due@,
            ))
            &&& (*old(slot))->0.frozen ==> match r {
                Advance::Blocked { target } => target == t && entered(
                    *old(shared),
                    thread,
                    *final(shared),
                ),
                Advance::Unregistered => *final(shared) == *old(shared) && !(old(
                    shared,
                ).timed_waits().contains_key(thread) && old(shared).timed_waits()[thread]
                    < u64::MAX),
                Advance::Raised { .. } => false,
            }
        },
{
    match handle.time {
        Some(t) => advance_to(slot, shared, thread, t),
        None => Advance::Raised { raised: false, due: Vec::new() },
    }
}

/// Brings the local clock up to the time of `handle` as an unfrozen thread would, and
/// keeps the frozen flag: the step that a join or a lock takes. It never blocks.
pub fn sync_with_unfrozen<W>(
    slot: &mut Option<LocalClock>,
    shared: &mut SharedClock<W>,
    thread: u64,
    handle: SyncHandle,
) -> (r: (bool, Vec<TimedWaker<W>>))
    requires
        handle@ is Some == *old(slot) is Some,
        old(shared).wf(),
    ensures
        final(shared).wf(),
        handle@ is None ==> *final(slot) == *old(slot) && *final(shared) == *old(shared) && !r.0
            && r.1@.len() == 0,
        handle@ matches Some(t) ==> {
            &&& *final(slot) is Some
            &&& raised_local((*old(slot))->0, t@, (*final(slot))->0)
            &&& advanced(*old(shared), t@, *final(shared), r.0, r.1@)
        },
{
    match handle.time {
        Some(t) => {
            let scope = unfreeze_scoped(slot);
            let step = advance_to(slot, shared, thread, t);
            scope.restore(slot);
            match step {
                Advance::Raised { raised, due } => (raised, due),
                _ => (false, Vec::new()),
            }
        },
        None => (false, Vec::new()),
    }
}

} // verus!
