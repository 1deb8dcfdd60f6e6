use washinoc::app::timing::Instant;
use washinoc::domain::mode::WashMode;
use washinoc::drivers::display::{
    digit_segments, mode_segments, shutdown_segments, time_segments, SEG_COLON, SEG_DASH,
};
use washinoc::drivers::motor::MotorDirection;
use washinoc::drivers::touch::{ButtonEvent, TouchButton};

fn ms(t: u64) -> Instant {
    Instant::from_micros(t * 1000)
}

#[test]
fn motor_channel_duties() {
    assert_eq!(MotorDirection::Forward.channel_duties(67), (67, 0));
    assert_eq!(MotorDirection::Reverse.channel_duties(89), (0, 89));
    assert_eq!(MotorDirection::Stop.channel_duties(89), (0, 0));
    assert_eq!(MotorDirection::Brake.channel_duties(0), (100, 100));
}

#[test]
fn digit_patterns() {
    let expected = [0x3F, 0x30, 0x5B, 0x79, 0x74, 0x6D, 0x6F, 0x38, 0x7F, 0x7D];
    for d in 0..10u8 {
        assert_eq!(digit_segments(d), expected[d as usize]);
    }
}

#[test]
fn time_segments_show_minutes_and_seconds() {
    assert_eq!(time_segments(5, 0), [0x3F, 0x3F | SEG_COLON, 0x6D, 0x3F]);
    assert_eq!(time_segments(12, 34), [0x74, 0x79 | 0x80, 0x5B, 0x30]);
    assert_eq!(time_segments(99, 99), [0x7D, 0xFD, 0x7D, 0x7D]);
    assert_eq!(time_segments(0, 0), [0x3F, 0xBF, 0x3F, 0x3F]);
}

#[test]
fn distinct_times_show_distinct_patterns() {
    let mut seen = std::collections::HashSet::new();
    for m in 0..100u8 {
        for s in 0..100u8 {
            assert!(seen.insert(time_segments(m, s)));
        }
    }
}

#[test]
fn mode_segments_per_mode() {
    assert_eq!(mode_segments(WashMode::Min5Lo), [0x63, 0x87, 0x6D, 0x00]);
    assert_eq!(mode_segments(WashMode::Min5Hi), [0x02, 0xF6, 0x6D, 0x00]);
    assert_eq!(mode_segments(WashMode::Min10Lo), [0x63, 0x87, 0x3F, 0x30]);
    assert_eq!(mode_segments(WashMode::Min10Hi), [0x02, 0xF6, 0x3F, 0x30]);
}

#[test]
fn shutdown_shows_dashes() {
    assert_eq!(shutdown_segments(), [SEG_DASH; 4]);
}

#[test]
fn touch_short_press_on_release() {
    let mut b = TouchButton::new();
    assert_eq!(b.poll(false, ms(0)), None);
    assert_eq!(b.poll(true, ms(10)), None);
    assert!(b.was_pressed);
    assert_eq!(b.pressed_at, Some(ms(10)));
    assert_eq!(b.poll(true, ms(40)), None);
    assert_eq!(b.poll(false, ms(70)), Some(ButtonEvent::ShortPress));
    assert!(!b.was_pressed);
    assert_eq!(b.pressed_at, None);
    assert_eq!(b.poll(false, ms(80)), None);
}

#[test]
fn touch_debounce_boundary() {
    let mut b = TouchButton::new();
    assert_eq!(b.poll(true, ms(0)), None);
    assert_eq!(b.poll(false, ms(49)), None);
    let mut b = TouchButton::new();
    assert_eq!(b.poll(true, ms(0)), None);
    assert_eq!(b.poll(false, ms(50)), Some(ButtonEvent::ShortPress));
    let mut b = TouchButton::new();
    assert_eq!(b.poll(true, Instant::from_micros(0)), None);
    assert_eq!(b.poll(false, Instant::from_micros(49_999)), None);
}

#[test]
fn touch_long_press_reported_once_while_held() {
    let mut b = TouchButton::new();
    assert_eq!(b.poll(true, ms(0)), None);
    assert_eq!(b.poll(true, ms(799)), None);
    assert_eq!(b.poll(true, ms(800)), Some(ButtonEvent::LongPress));
    assert!(b.long_fired);
    for t in 801..2000 {
        assert_eq!(b.poll(true, ms(t)), None);
    }
    // release after a long press reports nothing
    assert_eq!(b.poll(false, ms(2000)), None);
    // the next touch is a fresh press again
    assert_eq!(b.poll(true, ms(3000)), None);
    assert!(!b.long_fired);
    assert_eq!(b.poll(false, ms(3100)), Some(ButtonEvent::ShortPress));
}

#[test]
fn touch_short_presses_are_debounce_apart() {
    // tap every millisecond-ish pattern; reported short presses stay 50 ms apart
    let mut b = TouchButton::new();
    let mut last_short: Option<u64> = None;
    let mut t: u64 = 0;
    let pattern = [true, true, false, true, false, false, true, true, true, false];
    for i in 0..2000u64 {
        let high = pattern[(i % 10) as usize] || (i % 97) < 60;
        t += 7; // ms
        if let Some(ButtonEvent::ShortPress) = b.poll(high, ms(t)) {
            if let Some(ls) = last_short {
                assert!(t - ls >= 50);
            }
            last_short = Some(t);
        }
    }
    assert!(last_short.is_some());
}
