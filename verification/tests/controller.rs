use washinoc::app::controller::Controller;
use washinoc::app::event::{Command, DisplayContent};
use washinoc::app::state::RunState;
use washinoc::app::timing::Instant;
use washinoc::domain::mode::WashMode;
use washinoc::domain::phase::MotorPhase;
use washinoc::drivers::motor::MotorDirection;
use washinoc::drivers::touch::ButtonEvent;

const SHORT: Option<ButtonEvent> = Some(ButtonEvent::ShortPress);
const LONG: Option<ButtonEvent> = Some(ButtonEvent::LongPress);

fn ms(t: u64) -> Instant {
    Instant::from_micros(t * 1000)
}

fn motor(direction: MotorDirection, duty_pct: u8) -> Command {
    Command::Motor { direction, duty_pct }
}

fn stop() -> Command {
    motor(MotorDirection::Stop, 0)
}

fn show(minutes: u8, seconds: u8) -> Command {
    Command::Display(DisplayContent::Countdown { minutes, seconds })
}

fn label(mode: WashMode) -> Command {
    Command::Display(DisplayContent::ModeLabel(mode))
}

fn off() -> Command {
    Command::Display(DisplayContent::Off)
}

/// Power on at 0, wake at 200 ms, select 5 min HI, start it at 400 ms.
fn running_min5hi() -> Controller {
    let (mut c, _) = Controller::new(ms(0));
    c.step(ms(200), SHORT);
    c.step(ms(300), SHORT);
    let cmds = c.step(ms(400), LONG);
    assert_eq!(cmds, vec![motor(MotorDirection::Forward, 89), show(5, 0)]);
    c
}

#[test]
fn power_on_blanks_display_and_stops_motor() {
    let (c, cmds) = Controller::new(ms(0));
    assert_eq!(cmds, vec![off(), stop()]);
    assert_eq!(c.state, RunState::Sleeping);
    assert!(c.waiting_for_wake);
    assert!(!c.is_asleep());
    assert_eq!(c.last_displayed_second, u16::MAX);
    assert!(c.blink_on);
}

#[test]
fn no_wake_press_goes_back_to_sleep() {
    let (mut c, _) = Controller::new(ms(0));
    assert_eq!(c.step(ms(9_999), None), vec![]);
    assert!(!c.is_asleep());
    // a long press does not wake the machine
    assert_eq!(c.step(ms(9_999), LONG), vec![]);
    assert!(!c.is_asleep());
    assert_eq!(c.step(ms(10_000), SHORT), vec![]);
    assert!(c.is_asleep());
    // once asleep nothing more happens
    assert_eq!(c.step(ms(20_000), SHORT), vec![]);
    assert!(c.is_asleep());
}

#[test]
fn wake_press_starts_selection() {
    let (mut c, _) = Controller::new(ms(0));
    assert_eq!(c.step(ms(200), SHORT), vec![label(WashMode::Min5Lo)]);
    assert_eq!(c.state, RunState::Selecting { mode: WashMode::Min5Lo });
    assert!(!c.waiting_for_wake);
}

#[test]
fn short_presses_cycle_the_mode() {
    let (mut c, _) = Controller::new(ms(0));
    c.step(ms(100), SHORT);
    assert_eq!(c.step(ms(200), SHORT), vec![label(WashMode::Min5Hi)]);
    assert_eq!(c.step(ms(300), SHORT), vec![label(WashMode::Min10Lo)]);
    assert_eq!(c.step(ms(400), SHORT), vec![label(WashMode::Min10Hi)]);
    assert_eq!(c.step(ms(500), SHORT), vec![label(WashMode::Min5Lo)]);
    assert_eq!(c.state, RunState::Selecting { mode: WashMode::Min5Lo });
}

#[test]
fn selection_idle_timeout_sleeps() {
    let (mut c, _) = Controller::new(ms(0));
    c.step(ms(200), SHORT);
    c.step(ms(5_000), SHORT); // re-arms the idle timer until 15 s
    assert_eq!(c.step(ms(14_999), None), vec![]);
    assert_eq!(c.step(ms(15_000), None), vec![off()]);
    assert!(c.is_asleep());
}

#[test]
fn long_press_starts_program() {
    let c = running_min5hi();
    assert_eq!(
        c.state,
        RunState::Running { mode: WashMode::Min5Hi, phase: MotorPhase::Forward, startup_step: 0 }
    );
    assert!(c.idle_timer.deadline.is_none());
    assert_eq!(c.program_timer.remaining_ms(ms(400)), 300_000);
    assert_eq!(c.phase_timer.remaining_ms(ms(400)), 10_000);
}

#[test]
fn countdown_refreshes_once_per_second() {
    let mut c = running_min5hi();
    assert_eq!(c.step(ms(500), None), vec![show(4, 59)]);
    assert_eq!(c.last_displayed_second, 299);
    assert_eq!(c.step(ms(600), None), vec![]);
    assert_eq!(c.step(ms(1_399), None), vec![]);
    assert_eq!(c.step(ms(1_401), None), vec![show(4, 58)]);
}

#[test]
fn wash_cycle_forward_stop_reverse_stop() {
    let mut c = running_min5hi();
    assert_eq!(c.step(ms(10_400), None), vec![show(4, 50), stop()]);
    assert_eq!(
        c.state,
        RunState::Running { mode: WashMode::Min5Hi, phase: MotorPhase::StopAfterForward, startup_step: 0 }
    );
    assert_eq!(c.step(ms(12_399), None), vec![show(4, 48)]);
    assert_eq!(c.step(ms(12_400), None), vec![motor(MotorDirection::Reverse, 89)]);
    assert_eq!(c.step(ms(22_400), None), vec![show(4, 38), stop()]);
    assert_eq!(c.step(ms(24_400), None), vec![show(4, 36), motor(MotorDirection::Forward, 89)]);
}

#[test]
fn pause_blink_and_resume_keep_the_time() {
    let mut c = running_min5hi();
    c.step(ms(10_400), None);
    c.step(ms(12_400), None); // reverse from 12.4 s
    assert_eq!(c.step(ms(13_000), SHORT), vec![stop()]);
    assert_eq!(
        c.state,
        RunState::Paused {
            mode: WashMode::Min5Hi,
            remaining_ms: 287_400,
            phase: MotorPhase::Reverse,
            phase_remaining_ms: 9_400,
        }
    );
    assert!(c.program_timer.deadline.is_none());
    assert!(c.phase_timer.deadline.is_none());
    // blinking every 500 ms
    assert_eq!(c.step(ms(13_499), None), vec![]);
    assert_eq!(c.step(ms(13_500), None), vec![off()]);
    assert!(!c.blink_on);
    assert_eq!(c.step(ms(14_000), None), vec![show(4, 47)]);
    assert!(c.blink_on);
    // resume much later: same phase, same time left
    assert_eq!(c.step(ms(60_000), SHORT), vec![motor(MotorDirection::Reverse, 89), show(4, 47)]);
    assert_eq!(
        c.state,
        RunState::Running { mode: WashMode::Min5Hi, phase: MotorPhase::Reverse, startup_step: 0 }
    );
    assert_eq!(c.program_timer.remaining_ms(ms(60_000)), 287_400);
    assert_eq!(c.phase_timer.remaining_ms(ms(60_000)), 9_400);
    assert!(c.blink_timer.deadline.is_none());
}

#[test]
fn long_press_while_running_finishes_then_sleeps() {
    let mut c = running_min5hi();
    assert_eq!(c.step(ms(5_000), LONG), vec![stop()]);
    assert_eq!(c.state, RunState::Finishing);
    assert_eq!(c.last_displayed_second, u16::MAX);
    assert!(c.program_timer.deadline.is_none());
    assert!(c.phase_timer.deadline.is_none());
    assert!(!c.is_asleep());
    assert_eq!(c.step(ms(5_001), None), vec![stop(), off()]);
    assert!(c.is_asleep());
}

#[test]
fn long_press_while_paused_finishes() {
    let mut c = running_min5hi();
    c.step(ms(1_000), SHORT);
    assert_eq!(c.step(ms(2_000), LONG), vec![stop()]);
    assert_eq!(c.state, RunState::Finishing);
    assert!(c.blink_timer.deadline.is_none());
    assert_eq!(c.step(ms(2_001), SHORT), vec![stop(), off()]);
    assert!(c.is_asleep());
}

#[test]
fn program_completes_when_its_timer_runs_out() {
    let mut c = running_min5hi();
    // one millisecond before the end: the countdown reads 0:00, and the
    // overdue forward phase gives way to its stop
    assert_eq!(c.step(ms(300_399), None), vec![show(0, 0), stop()]);
    // the program ends at 400 ms + 5 min, even with a short press pending
    assert_eq!(c.step(ms(300_400), SHORT), vec![stop()]);
    assert_eq!(c.state, RunState::Finishing);
    assert_eq!(c.step(ms(300_500), None), vec![stop(), off()]);
    assert!(c.is_asleep());
}

/// Follow the motor orders of a run and check that the motor is never
/// turned from one direction into the other without standing still for the
/// guard time, and never straight across.
fn check_motor_orders(orders: &[(u64, Command)]) {
    let mut last_drive: Option<MotorDirection> = None;
    let mut driving = false;
    let mut stopped_since: u64 = 0;
    let mut prev: Option<MotorDirection> = None;
    for &(t, cmd) in orders {
        if let Command::Motor { direction, .. } = cmd {
            let opposite = matches!(
                (prev, direction),
                (Some(MotorDirection::Forward), MotorDirection::Reverse)
                    | (Some(MotorDirection::Reverse), MotorDirection::Forward)
            );
            assert!(!opposite, "direct reversal at {t}");
            match direction {
                MotorDirection::Forward | MotorDirection::Reverse => {
                    if let Some(ld) = last_drive {
                        if ld != direction {
                            assert!(!driving);
                            assert!(t - stopped_since >= 2_000_000, "short stop before {t}");
                        }
                    }
                    last_drive = Some(direction);
                    driving = true;
                },
                _ => {
                    if driving {
                        stopped_since = t;
                    }
                    driving = false;
                },
            }
            prev = Some(direction);
        }
    }
}

#[test]
fn motor_never_reverses_without_the_guard_stop() {
    let (mut c, boot) = Controller::new(ms(0));
    let mut orders: Vec<(u64, Command)> = boot.into_iter().map(|cmd| (0, cmd)).collect();
    let mut t: u64 = 0;
    let mut i: u64 = 0;
    while !c.is_asleep() && i < 20_000 {
        t += 1_337; // µs
        i += 1;
        let event = if i == 3 {
            SHORT
        } else if i == 5 {
            LONG
        } else if i % 2_000 == 1_000 || i % 2_000 == 1_001 {
            // pause and resume a little later, sometimes in a stop phase
            SHORT
        } else {
            None
        };
        let now = Instant::from_micros(t);
        for cmd in c.step(now, event) {
            orders.push((t, cmd));
        }
    }
    assert!(orders.iter().any(|(_, c)| *c == motor(MotorDirection::Reverse, 67)));
    check_motor_orders(&orders);
}

#[test]
fn pause_in_stop_phase_keeps_the_guard() {
    let mut c = running_min5hi();
    assert_eq!(c.step(ms(10_400), None), vec![show(4, 50), stop()]);
    // pause half a millisecond into the stop's 1400th ms, resume 1 ms later
    assert_eq!(c.step(Instant::from_micros(11_000_500), SHORT), vec![stop()]);
    assert_eq!(
        c.state,
        RunState::Paused {
            mode: WashMode::Min5Hi,
            remaining_ms: 289_399,
            phase: MotorPhase::StopAfterForward,
            phase_remaining_ms: 1_399,
        }
    );
    assert_eq!(c.step(Instant::from_micros(11_001_500), SHORT), vec![stop(), show(4, 49)]);
    assert_eq!(c.step(Instant::from_micros(12_400_499), None), vec![show(4, 48)]);
    assert_eq!(
        c.step(Instant::from_micros(12_400_500), None),
        vec![motor(MotorDirection::Reverse, 89)]
    );
    // the motor stood still from 10.4 s: at least the 2 s guard
    assert!(12_400_500 - 10_400_000 >= 2_000_000);
}

#[test]
fn countdowns_and_drive_orders_stay_within_the_program() {
    for mode_presses in 0..4u64 {
        let (mut c, _) = Controller::new(ms(0));
        let mut t: u64 = 0;
        let mut i: u64 = 0;
        let mut mode = WashMode::Min5Lo;
        for _ in 0..mode_presses {
            mode = mode.next();
        }
        while !c.is_asleep() && i < 500_000 {
            t += 1_999; // µs
            i += 1;
            let event = if i == 3 {
                SHORT
            } else if i >= 4 && i < 4 + mode_presses {
                SHORT
            } else if i == 10 {
                LONG
            } else if i % 50_000 == 25_000 || i % 50_000 == 26_000 {
                SHORT
            } else {
                None
            };
            for cmd in c.step(Instant::from_micros(t), event) {
                match cmd {
                    Command::Display(DisplayContent::Countdown { minutes, seconds }) => {
                        assert!(minutes <= 10 && seconds < 60);
                    }
                    Command::Motor { direction, duty_pct } => {
                        assert_ne!(direction, MotorDirection::Brake);
                        if direction == MotorDirection::Stop {
                            assert_eq!(duty_pct, 0);
                        } else {
                            assert_eq!(duty_pct, mode.duty());
                            assert!(matches!(c.state, RunState::Running { .. }));
                        }
                    }
                    _ => {}
                }
            }
            match c.state {
                RunState::Running { mode: m, phase, .. } => {
                    assert_eq!(m, mode);
                    assert!(c.program_timer.remaining_ms(Instant::from_micros(t)) <= m.duration_ms());
                    assert!(c.phase_timer.remaining_ms(Instant::from_micros(t)) <= phase.duration_ms());
                }
                RunState::Paused { mode: m, remaining_ms, phase, phase_remaining_ms } => {
                    assert_eq!(m, mode);
                    assert!(remaining_ms <= m.duration_ms());
                    assert!(phase_remaining_ms <= phase.duration_ms());
                }
                _ => {}
            }
        }
        assert!(c.is_asleep());
    }
}
