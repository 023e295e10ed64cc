use lorebot::clock::{time_now, Suspension, SuspensionClock};

#[test]
fn new_state_is_not_suspended_after_epoch() {
    let s = Suspension::new();
    assert_eq!(s.disabled_until, 0);
    assert!(s.is_suspended(0));
    assert!(!s.is_suspended(1));
}

#[test]
fn suspension_window_is_inclusive() {
    let mut s = Suspension::new();
    s.suspend(1000, 600);
    assert!(s.is_suspended(1000));
    assert!(s.is_suspended(1600));
    assert!(!s.is_suspended(1601));
}

#[test]
fn zero_cooldown_suspends_only_the_current_second() {
    let mut s = Suspension::new();
    s.suspend(50, 0);
    assert!(s.is_suspended(50));
    assert!(!s.is_suspended(51));
}

#[test]
fn suspending_twice_is_idempotent() {
    let mut once = Suspension::new();
    once.suspend(77, 10);
    let mut twice = Suspension::new();
    twice.suspend(77, 10);
    twice.suspend(77, 10);
    assert_eq!(once, twice);
}

#[test]
fn suspend_overwrites_a_later_end() {
    let mut s = Suspension::new();
    s.suspend(100, 1000);
    s.suspend(200, 10);
    assert_eq!(s.disabled_until, 210);
    assert!(!s.is_suspended(211));
}

#[test]
fn shared_clock_keeps_the_last_record() {
    let clock = SuspensionClock::new();
    assert_eq!(clock.snapshot().disabled_until, 0);
    let mut s = clock.snapshot();
    s.suspend(10, 5);
    clock.record(s);
    assert_eq!(clock.snapshot().disabled_until, 15);
}

#[test]
fn time_now_is_after_2020() {
    let now = time_now().unwrap();
    assert!(now > 1_577_836_800);
}
