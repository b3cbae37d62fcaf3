//! These tests run the clock's steps on a worker of a real `futures` thread pool. The
//! worker takes over the test's clock by hand, through `registration_handle` and
//! `register_thread`; they do not use the pool wrapper of the application crate, which
//! does the same in its `after_start` hook.
use chronobreak::clock::{self, LocalClock, RegistrationHandle};
use chronobreak::shared_clock::SharedClock;
use chronobreak::{Duration, Timepoint};
use futures::executor::ThreadPool;
use futures::future::FutureObj;
use futures::task::Spawn;
use std::sync::atomic::{AtomicBool, Ordering};
use std::sync::{Arc, Barrier, Mutex};

const TEST_THREAD: u64 = 1;
const WORKER: u64 = 2;

type Shared = Arc<Mutex<SharedClock<()>>>;

/// Mocks the clock of the test's thread; returns its shared clock, its slot, and the
/// handle that a worker of the pool takes over.
fn mocked() -> (Shared, Option<LocalClock>, RegistrationHandle) {
    let shared = Arc::new(Mutex::new(SharedClock::new()));
    let mut slot = None;
    clock::mock(&mut slot, &mut shared.lock().unwrap(), TEST_THREAD).unwrap();
    let handle = clock::registration_handle(&slot);
    (shared, slot, handle)
}

/// What a worker runs: it takes over the test's clock, advances it by 2 ns, and then
/// meets the test at the barrier.
async fn advance_on_worker(shared: Shared, handle: RegistrationHandle, barrier: Arc<Barrier>) {
    {
        let mut state = shared.lock().unwrap();
        let mut slot = None;
        if clock::register_thread(&mut slot, handle) {
            state.register_thread(WORKER);
        }
        clock::advance(&mut slot, &mut state, WORKER, Duration::from_nanos(2));
    }
    barrier.wait();
}

fn shared_time(shared: &Shared) -> Timepoint {
    shared.lock().unwrap().time()
}

#[test]
fn thread_pool_spawn_ok() {
    let (shared, _slot, handle) = mocked();
    let pool = ThreadPool::new().unwrap();
    let barrier = Arc::new(Barrier::new(2));
    pool.spawn_ok(advance_on_worker(shared.clone(), handle, barrier.clone()));
    barrier.wait();
    assert_eq!(shared_time(&shared), Timepoint::from_duration(Duration::from_nanos(2)));
}

#[test]
fn thread_pool_spawn_obj() {
    let (shared, _slot, handle) = mocked();
    let pool = ThreadPool::new().unwrap();
    let barrier = Arc::new(Barrier::new(2));
    pool.spawn_obj(FutureObj::new(Box::pin(advance_on_worker(
        shared.clone(),
        handle,
        barrier.clone(),
    ))))
    .unwrap();
    barrier.wait();
    assert_eq!(shared_time(&shared), Timepoint::from_duration(Duration::from_nanos(2)));
}

#[test]
fn thread_pool_spawn_obj_ok() {
    let (shared, _slot, handle) = mocked();
    let pool = ThreadPool::new().unwrap();
    let barrier = Arc::new(Barrier::new(2));
    pool.spawn_obj_ok(FutureObj::new(Box::pin(advance_on_worker(
        shared.clone(),
        handle,
        barrier.clone(),
    ))));
    barrier.wait();
    assert_eq!(shared_time(&shared), Timepoint::from_duration(Duration::from_nanos(2)));
}

#[test]
fn thread_pool_with_custom_after_start_is_mocked() {
    let (shared, _slot, handle) = mocked();
    let executed = Arc::new(AtomicBool::default());
    let executed2 = executed.clone();
    let pool = ThreadPool::builder()
        .after_start(move |_| executed2.store(true, Ordering::Relaxed))
        .create()
        .unwrap();
    let barrier = Arc::new(Barrier::new(2));
    pool.spawn_ok(advance_on_worker(shared.clone(), handle, barrier.clone()));
    barrier.wait();
    assert_eq!(executed.load(Ordering::Relaxed), true);
    assert_eq!(shared_time(&shared), Timepoint::from_duration(Duration::from_nanos(2)));
}
