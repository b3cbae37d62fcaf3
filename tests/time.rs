use chronobreak::duration::MAX_NANOS;
use chronobreak::{Duration, Instant, Mock, SystemTime, Timepoint};

fn at(d: Duration) -> Timepoint {
    Timepoint::from_duration(d)
}

#[test]
fn duration_constructors() {
    assert_eq!(Duration::from_secs(2).as_nanos(), 2_000_000_000);
    assert_eq!(Duration::from_millis(3).as_nanos(), 3_000_000);
    assert_eq!(Duration::from_micros(4).as_nanos(), 4_000);
    assert_eq!(Duration::from_nanos(5).as_nanos(), 5);
    assert_eq!(Duration::new(1, 1_500_000_000).as_nanos(), 2_500_000_000);
    assert_eq!(Duration::default(), Duration::zero());
    assert!(Duration::zero().is_zero());
}

#[test]
fn duration_parts() {
    let d = Duration::new(7, 123);
    assert_eq!(d.as_secs(), 7);
    assert_eq!(d.subsec_nanos(), 123);
    let max = Duration::new(u64::MAX, 999_999_999);
    assert_eq!(max.as_nanos(), MAX_NANOS);
}

#[test]
fn duration_checked_arithmetic() {
    let one = Duration::from_secs(1);
    assert_eq!(one.checked_add(one), Some(Duration::from_secs(2)));
    assert_eq!(one.checked_sub(Duration::from_millis(1)), Some(Duration::from_millis(999)));
    assert_eq!(Duration::from_millis(1).checked_sub(one), None);
    assert_eq!(Duration::from_millis(1).saturating_sub(one), Duration::zero());
    let max = Duration::new(u64::MAX, 999_999_999);
    assert_eq!(max.checked_add(Duration::from_nanos(1)), None);
    assert_eq!(Duration::from_nanos_checked(MAX_NANOS + 1), None);
}

#[test]
fn timepoint_start_is_origin() {
    assert_eq!(Timepoint::start().as_nanos(), 0);
    assert_eq!(Timepoint::start(), Timepoint::default());
}

#[test]
fn timepoint_arithmetic() {
    let t = at(Duration::from_secs(3));
    assert_eq!(t.checked_add(Duration::from_secs(1)), Some(at(Duration::from_secs(4))));
    assert_eq!(t.checked_sub(Duration::from_secs(1)), Some(at(Duration::from_secs(2))));
    assert_eq!(t.checked_sub(Duration::from_secs(4)), None);
    assert_eq!(t.add(Duration::from_nanos(1)).as_nanos(), 3_000_000_001);
    assert_eq!(t.sub(Duration::from_nanos(1)).as_nanos(), 2_999_999_999);
}

#[test]
fn timepoint_durations_since() {
    let early = at(Duration::from_millis(1));
    let late = at(Duration::from_millis(5));
    assert_eq!(late.duration_since(early), Duration::from_millis(4));
    assert_eq!(late.checked_duration_since(early), Some(Duration::from_millis(4)));
    assert_eq!(early.checked_duration_since(late), None);
    assert_eq!(early.saturating_duration_since(late), Duration::zero());
    assert_eq!(late.saturating_duration_since(early), Duration::from_millis(4));
}

#[test]
fn timepoint_order() {
    let early = at(Duration::from_nanos(1));
    let late = at(Duration::from_nanos(2));
    assert!(early.is_before(&late));
    assert!(!late.is_before(&early));
    assert!(!early.is_before(&early));
    assert_eq!(early.max(late), late);
    assert_eq!(late.max(early), late);
}

#[test]
fn timepoint_add_overflow() {
    let t = at(Duration::new(u64::MAX, 999_999_999));
    assert_eq!(t.checked_add(Duration::from_nanos(1)), None);
}

#[test]
fn mock_constructors() {
    let a: Mock<u8, u16> = Mock::actual(1);
    let m: Mock<u8, u16> = Mock::mocked(2);
    let c: Mock<u8, u16> = Mock::constant(3);
    assert_eq!(a, Mock::Actual(1));
    assert_eq!(m, Mock::Mocked(2));
    assert_eq!(c, Mock::Constant(3));
    assert!(m.is_mocked());
    assert!(!a.is_mocked());
}

#[test]
fn mock_new_picks_side() {
    let m: Mock<u8, u16> = Mock::new(true, || 1, || 2);
    assert_eq!(m, Mock::Mocked(2));
    let a: Mock<u8, u16> = Mock::new(false, || 1, || 2);
    assert_eq!(a, Mock::Actual(1));
}

#[test]
fn mock_flatten() {
    let a: Mock<Option<u8>, Option<u16>> = Mock::Actual(Some(1));
    assert_eq!(a.flatten(), Some(Mock::Actual(1)));
    let m: Mock<Option<u8>, Option<u16>> = Mock::Mocked(Some(2));
    assert_eq!(m.flatten(), Some(Mock::Mocked(2)));
    let n: Mock<Option<u8>, Option<u16>> = Mock::Mocked(None);
    assert_eq!(n.flatten(), None);
    let c: Mock<Option<u8>, Option<u16>> = Mock::Constant(0);
    assert_eq!(c.flatten(), None);
}

#[test]
fn instant_now_mocked_and_actual() {
    let mocked = Instant::now(Some(at(Duration::from_nanos(5))));
    assert_eq!(mocked.timepoint(), Some(at(Duration::from_nanos(5))));
    let actual = Instant::now(None);
    assert_eq!(actual.timepoint(), None);
}

#[test]
fn instant_elapsed() {
    let start = Instant::now(Some(Timepoint::start()));
    let now = Timepoint::start().add(Duration::from_secs(1));
    assert_eq!(start.elapsed(Some(now)), Duration::from_secs(1));
}

#[test]
fn instant_actual_elapsed_runs() {
    let start = Instant::now(None);
    let later = Instant::now(None);
    let _ = start.elapsed(None);
    assert!(later.checked_duration_since(start).is_some());
    assert_eq!(start.saturating_duration_since(later), later.saturating_duration_since(later));
}

#[test]
fn checked_add() {
    let dur = Duration::from_secs(1);
    let instant = Instant::now(Some(Timepoint::start())).checked_add(dur);
    assert_eq!(instant, Some(Instant::at(at(dur))));
}

#[test]
fn checked_add_secs_overflow() {
    let dur = Duration::from_secs(u64::MAX);
    let instant = Instant::now(Some(Timepoint::start())).checked_add(dur);
    assert_eq!(instant, Some(Instant::at(at(dur))));
    let instant = instant.unwrap().checked_add(Duration::from_secs(1));
    assert_eq!(instant, None);
}

#[test]
fn checked_add_nanos_overflow() {
    let dur = Duration::from_secs(u64::MAX)
        .checked_add(Duration::from_nanos(Duration::from_secs(1).as_nanos() as u64 - 1))
        .unwrap();
    let instant = Instant::now(Some(Timepoint::start())).checked_add(dur);
    assert_eq!(instant, Some(Instant::at(at(dur))));
    let instant = instant.unwrap().checked_add(Duration::from_nanos(1));
    assert_eq!(instant, None);
}

#[test]
fn checked_sub() {
    let dur = Duration::from_secs(1);
    let instant = Instant::now(Some(at(dur))).checked_sub(dur);
    assert_eq!(instant, Some(Instant::at(at(Duration::default()))));
}

#[test]
fn checked_sub_underflow() {
    let instant = Instant::now(Some(Timepoint::start())).checked_sub(Duration::from_secs(1));
    assert_eq!(instant, None);
    let instant = Instant::now(Some(Timepoint::start())).checked_sub(Duration::from_nanos(1));
    assert_eq!(instant, None);
}

#[test]
fn instant_durations_since() {
    let early = Instant::at(at(Duration::from_nanos(3)));
    let late = Instant::at(at(Duration::from_nanos(10)));
    assert_eq!(late.duration_since(early), Duration::from_nanos(7));
    assert_eq!(late.checked_duration_since(early), Some(Duration::from_nanos(7)));
    assert_eq!(early.checked_duration_since(late), None);
    assert_eq!(early.saturating_duration_since(late), Duration::zero());
}

#[test]
fn instant_actual_add_keeps_clock() {
    let now = Instant::now(None);
    let later = now.checked_add(Duration::from_secs(1)).unwrap();
    assert_eq!(later.timepoint(), None);
    assert_eq!(later.checked_duration_since(now), Some(Duration::from_secs(1)));
    assert_eq!(later.checked_sub(Duration::from_secs(1)), Some(now));
}

#[test]
fn duration_since_unix_epoch() {
    let now = SystemTime::now(Some(Timepoint::start()));
    assert_eq!(now.duration_since(SystemTime::unix_epoch(true)).unwrap(), Duration::default());
}

#[test]
fn system_time_elapsed() {
    let start = SystemTime::now(Some(Timepoint::start()));
    let now = Timepoint::start().add(Duration::from_secs(1));
    assert_eq!(start.elapsed(Some(now)).unwrap(), Duration::from_secs(1));
}

#[test]
fn elapsed_unix_epoch() {
    let epoch = SystemTime::unix_epoch(true);
    assert_eq!(epoch.elapsed(Some(Timepoint::start())).unwrap(), Duration::default());
}

#[test]
fn system_time_checked_arithmetic() {
    let t = SystemTime::at(at(Duration::from_secs(2)));
    assert_eq!(t.checked_add(Duration::from_secs(1)), Some(SystemTime::at(at(Duration::from_secs(3)))));
    assert_eq!(t.checked_sub(Duration::from_secs(1)), Some(SystemTime::at(at(Duration::from_secs(1)))));
    assert_eq!(t.checked_sub(Duration::from_secs(3)), None);
}

#[test]
fn system_time_actual_clock() {
    let epoch = SystemTime::unix_epoch(false);
    assert_eq!(epoch.timepoint(), None);
    let now = SystemTime::now(None);
    assert!(now.duration_since(epoch).unwrap().as_secs() > 0);
    assert!(epoch.duration_since(now).is_err());
    let later = now.checked_add(Duration::from_secs(1)).unwrap();
    assert_eq!(later.duration_since(now).unwrap(), Duration::from_secs(1));
    assert_eq!(later.checked_sub(Duration::from_secs(1)), Some(now));
}
