use ekiden_worker_host::pusher::{FailurePolicy, PushSchedule, TickReport};

#[test]
fn ticks_continue_after_failures() {
    let mut s = PushSchedule::new(5000, FailurePolicy::IgnoreAlways);
    assert_eq!(s.next_tick_offset_ms(), Some(5000));
    for n in 1..=10u64 {
        assert_eq!(s.record(false), TickReport::Failed);
        assert_eq!(s.ticks(), n);
        assert_eq!(s.consecutive_failures(), n);
        assert_eq!(s.next_tick_offset_ms(), Some((n + 1) * 5000));
    }
    assert_eq!(s.period_ms(), 5000);
}

#[test]
fn success_resets_failures() {
    let mut s = PushSchedule::new(5000, FailurePolicy::IgnoreAlways);
    s.record(false);
    s.record(false);
    assert_eq!(s.record(true), TickReport::Pushed);
    assert_eq!(s.consecutive_failures(), 0);
    assert_eq!(s.ticks(), 3);
    assert_eq!(s.next_tick_offset_ms(), Some(20000));
}

#[test]
fn warn_after_threshold() {
    let mut s = PushSchedule::new(1000, FailurePolicy::WarnAfter(3));
    assert_eq!(s.record(false), TickReport::Failed);
    assert_eq!(s.record(false), TickReport::Failed);
    assert_eq!(s.record(false), TickReport::FailedRepeatedly);
    assert_eq!(s.record(false), TickReport::FailedRepeatedly);
    assert_eq!(s.record(true), TickReport::Pushed);
    assert_eq!(s.record(false), TickReport::Failed);
    assert_eq!(s.next_tick_offset_ms(), Some(7000));
}

#[test]
fn offset_beyond_u64_is_none() {
    let mut s = PushSchedule::new(u64::MAX / 2 + 1, FailurePolicy::IgnoreAlways);
    assert_eq!(s.next_tick_offset_ms(), Some(u64::MAX / 2 + 1));
    s.record(true);
    assert_eq!(s.next_tick_offset_ms(), None);
}
