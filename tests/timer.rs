use druid_shell::timer::{timer_delay, TimerIds, TimerToken, FIRST_TIMER_ID};

#[test]
fn timer_ids_start_at_one_and_increase() {
    let mut ids = TimerIds::new();
    assert!(ids.has_next());
    let a = ids.next_timer_id();
    let b = ids.next_timer_id();
    let c = ids.next_timer_id();
    assert_eq!(a, FIRST_TIMER_ID);
    assert_eq!(a, 1);
    assert!(a < b && b < c);
    assert_eq!((b, c), (2, 3));
}

#[test]
fn timer_delay_is_clamped() {
    assert_eq!(timer_delay(250, 100), 150);
    assert_eq!(timer_delay(100, 250), 0);
    assert_eq!(timer_delay(100, 100), 0);
    assert_eq!(timer_delay(u64::MAX, 0), u64::MAX);
}

#[test]
fn timer_token_round_trip() {
    assert_eq!(TimerToken::new(42).get_raw(), 42);
}
