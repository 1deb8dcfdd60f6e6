use washinoc::app::timing::{Instant, SoftTimer};

fn us(t: u64) -> Instant {
    Instant::from_micros(t)
}

#[test]
fn instant_round_trip() {
    assert_eq!(Instant::from_micros(1234).as_micros(), 1234);
    assert_eq!(Instant::from_micros(1234).micros, 1234);
}

#[test]
fn new_timer_is_idle() {
    let t = SoftTimer::new();
    assert!(t.deadline.is_none());
    assert!(!t.is_expired(us(0)));
    assert!(!t.is_expired(us(u64::MAX)));
    assert_eq!(t.remaining_ms(us(0)), 0);
    let d = SoftTimer::default();
    assert!(d.deadline.is_none());
}

#[test]
fn started_timer_expires_at_its_deadline() {
    let mut t = SoftTimer::new();
    t.start(us(1_000), 10);
    assert_eq!(t.deadline, Some(us(11_000)));
    assert!(!t.is_expired(us(10_999)));
    assert!(t.is_expired(us(11_000)));
    assert!(t.is_expired(us(50_000)));
}

#[test]
fn started_timer_reports_whole_milliseconds_left() {
    let mut t = SoftTimer::new();
    t.start(us(1_000), 10);
    assert_eq!(t.remaining_ms(us(1_000)), 10);
    assert_eq!(t.remaining_ms(us(1_500)), 9);
    assert_eq!(t.remaining_ms(us(10_001)), 0);
    assert_eq!(t.remaining_ms(us(11_000)), 0);
    assert_eq!(t.remaining_ms(us(20_000)), 0);
}

#[test]
fn remaining_time_never_grows() {
    let mut t = SoftTimer::new();
    t.start(us(0), 2_000);
    let mut last = t.remaining_ms(us(0));
    for now in (0..2_100_000u64).step_by(7_777) {
        let r = t.remaining_ms(us(now));
        assert!(r <= last);
        if t.is_expired(us(now)) {
            assert_eq!(r, 0);
        }
        last = r;
    }
}

#[test]
fn cancelled_timer_never_expires() {
    let mut t = SoftTimer::new();
    t.start(us(0), 1);
    t.cancel();
    assert!(t.deadline.is_none());
    assert!(!t.is_expired(us(1_000_000)));
    assert_eq!(t.remaining_ms(us(0)), 0);
}

#[test]
fn restart_replaces_the_deadline() {
    let mut t = SoftTimer::new();
    t.start(us(0), 1);
    t.start(us(5_000), 3);
    assert_eq!(t.deadline, Some(us(8_000)));
}
