use washinoc::config::{DUTY_HI, DUTY_LO, MOTOR_DIRECTION_CHANGE_GUARD_MS, MOTOR_STOP_MS};
use washinoc::domain::mode::WashMode;
use washinoc::domain::phase::MotorPhase;
use washinoc::domain::time::RemainingTime;

#[test]
fn wash_mode_durations() {
    assert_eq!(WashMode::Min5Lo.duration_ms(), 300_000);
    assert_eq!(WashMode::Min5Hi.duration_ms(), 300_000);
    assert_eq!(WashMode::Min10Lo.duration_ms(), 600_000);
    assert_eq!(WashMode::Min10Hi.duration_ms(), 600_000);
}

#[test]
fn wash_mode_duties() {
    assert_eq!(WashMode::Min5Lo.duty(), 67);
    assert_eq!(WashMode::Min10Lo.duty(), DUTY_LO);
    assert_eq!(WashMode::Min5Hi.duty(), 89);
    assert_eq!(WashMode::Min10Hi.duty(), DUTY_HI);
    for m in [WashMode::Min5Lo, WashMode::Min5Hi, WashMode::Min10Lo, WashMode::Min10Hi] {
        assert!(m.duty() <= 100);
    }
}

#[test]
fn wash_mode_cycles_through_all_four() {
    assert_eq!(WashMode::Min5Lo.next(), WashMode::Min5Hi);
    assert_eq!(WashMode::Min5Hi.next(), WashMode::Min10Lo);
    assert_eq!(WashMode::Min10Lo.next(), WashMode::Min10Hi);
    assert_eq!(WashMode::Min10Hi.next(), WashMode::Min5Lo);
    for m in [WashMode::Min5Lo, WashMode::Min5Hi, WashMode::Min10Lo, WashMode::Min10Hi] {
        assert_ne!(m.next(), m);
        assert_eq!(m.next().next().next().next(), m);
    }
}

#[test]
fn wash_mode_labels() {
    assert_eq!(WashMode::Min5Lo.label(), b"05Lo");
    assert_eq!(WashMode::Min5Hi.label(), b"05Hi");
    assert_eq!(WashMode::Min10Lo.label(), b"10Lo");
    assert_eq!(WashMode::Min10Hi.label(), b"10Hi");
}

#[test]
fn motor_phase_durations() {
    assert_eq!(MotorPhase::Forward.duration_ms(), 10_000);
    assert_eq!(MotorPhase::StopAfterForward.duration_ms(), 2_000);
    assert_eq!(MotorPhase::Reverse.duration_ms(), 10_000);
    assert_eq!(MotorPhase::StopAfterReverse.duration_ms(), MOTOR_STOP_MS);
    assert!(MotorPhase::StopAfterForward.duration_ms() >= MOTOR_DIRECTION_CHANGE_GUARD_MS);
    assert!(MOTOR_DIRECTION_CHANGE_GUARD_MS >= 500);
}

#[test]
fn motor_phase_cycle_alternates_drive_and_stop() {
    assert_eq!(MotorPhase::Forward.next(), MotorPhase::StopAfterForward);
    assert_eq!(MotorPhase::StopAfterForward.next(), MotorPhase::Reverse);
    assert_eq!(MotorPhase::Reverse.next(), MotorPhase::StopAfterReverse);
    assert_eq!(MotorPhase::StopAfterReverse.next(), MotorPhase::Forward);
    for p in [
        MotorPhase::Forward,
        MotorPhase::StopAfterForward,
        MotorPhase::Reverse,
        MotorPhase::StopAfterReverse,
    ] {
        assert_eq!(p.next().next().next().next(), p);
    }
}

#[test]
fn remaining_time_from_ms() {
    assert_eq!(RemainingTime::from_ms(300_000), RemainingTime { minutes: 5, seconds: 0 });
    assert_eq!(RemainingTime::from_ms(299_900), RemainingTime { minutes: 4, seconds: 59 });
    assert_eq!(RemainingTime::from_ms(61_999), RemainingTime { minutes: 1, seconds: 1 });
    assert_eq!(RemainingTime::from_ms(600_000), RemainingTime { minutes: 10, seconds: 0 });
    assert_eq!(RemainingTime::from_ms(0), RemainingTime { minutes: 0, seconds: 0 });
}

#[test]
fn remaining_time_is_zero_below_one_second() {
    assert!(RemainingTime::from_ms(0).is_zero());
    assert!(RemainingTime::from_ms(999).is_zero());
    assert!(!RemainingTime::from_ms(1_000).is_zero());
    assert!(!RemainingTime { minutes: 1, seconds: 0 }.is_zero());
    assert!(!RemainingTime { minutes: 0, seconds: 1 }.is_zero());
}

#[test]
fn remaining_time_minutes_and_seconds_add_up() {
    for ms in [0u64, 999, 1_000, 59_999, 60_000, 123_456, 599_999, 15_359_999] {
        let t = RemainingTime::from_ms(ms);
        assert!(t.seconds < 60);
        assert_eq!(t.minutes as u64 * 60 + t.seconds as u64, ms / 1000);
    }
}

#[test]
fn remaining_time_truncates_like_its_narrow_fields() {
    // 256 minutes and 5 seconds: the minutes wrap in 8 bits
    assert_eq!(
        RemainingTime::from_ms(256 * 60 * 1000 + 5_000),
        RemainingTime { minutes: 0, seconds: 5 }
    );
    // whole seconds are counted in 32 bits
    assert_eq!(
        RemainingTime::from_ms(((1u64 << 32) + 61) * 1000),
        RemainingTime { minutes: 1, seconds: 1 }
    );
}
