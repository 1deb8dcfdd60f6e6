//! What each kind of poll does, stated from the configuration constants:
//! waking up, selecting, starting a program and the motor's wash cycle.
use crate::app::controller::{Controller, BLINK_INTERVAL_MS};
use crate::app::event::{Command, DisplayContent};
use crate::app::state::RunState;
use crate::app::timing::{lemma_started_timer, start_fits, Instant};
use crate::domain::time::lemma_countdown_is_exact;
use crate::config::{
    DUTY_HI, DUTY_LO, IDLE_TIMEOUT_MS, MOTOR_FORWARD_MS, MOTOR_REVERSE_MS, MOTOR_STOP_MS,
};
use crate::domain::mode::WashMode;
use crate::domain::phase::MotorPhase;
use crate::drivers::motor::MotorDirection;
use crate::drivers::touch::ButtonEvent;
use vstd::prelude::*;

verus! {

/// The short press that wakes the machine starts selection at the 5-minute
/// weak program, shows its label, and gives the user `IDLE_TIMEOUT_MS` to
/// go on: the idle timer then reports exactly `IDLE_TIMEOUT_MS` left, no
/// quiet poll before that much time has passed changes anything or shows
/// anything, and the first quiet poll after it puts the machine to sleep.
pub proof fn lemma_wake_gives_idle_time(c: Controller, now: Instant, later: Instant)
    requires
        c.wf(),
        c.waiting_for_wake,
        !c.wake_timer.expired_at(now),
        start_fits(now, IDLE_TIMEOUT_MS),
    ensures
        ({
            let woken = c.step_result(now, Some(ButtonEvent::ShortPress));
            let quiet = woken.0.step_result(later, None);
            &&& woken.0.state == RunState::Selecting { mode: WashMode::Min5Lo }
            &&& !woken.0.waiting_for_wake
            &&& woken.1 == seq![Command::Display(DisplayContent::ModeLabel(WashMode::Min5Lo))]
            &&& woken.0.idle_timer.remaining_at(now) == IDLE_TIMEOUT_MS
            &&& later.micros < now.micros + IDLE_TIMEOUT_MS * 1000 ==> {
                &&& quiet.0 == woken.0
                &&& quiet.1 == Seq::<Command>::empty()
            }
            &&& later.micros >= now.micros + IDLE_TIMEOUT_MS * 1000 ==> {
                &&& quiet.0.asleep()
                &&& quiet.1 == seq![Command::Display(DisplayContent::Off)]
            }
        }),
{
    lemma_started_timer(now, IDLE_TIMEOUT_MS, later);
    lemma_started_timer(now, IDLE_TIMEOUT_MS, now);
}

/// A short press while selecting shows the next mode in the cycle
/// 5 min LO → 5 min HI → 10 min LO → 10 min HI → 5 min LO, and again gives
/// the user `IDLE_TIMEOUT_MS` before a quiet poll puts the machine to sleep.
pub proof fn lemma_select_press_gives_idle_time(
    c: Controller,
    mode: WashMode,
    now: Instant,
    later: Instant,
)
    requires
        !c.waiting_for_wake,
        c.state == (RunState::Selecting { mode }),
        start_fits(now, IDLE_TIMEOUT_MS),
    ensures
        ({
            let next = match mode {
                WashMode::Min5Lo => WashMode::Min5Hi,
                WashMode::Min5Hi => WashMode::Min10Lo,
                WashMode::Min10Lo => WashMode::Min10Hi,
                WashMode::Min10Hi => WashMode::Min5Lo,
            };
            let pressed = c.step_result(now, Some(ButtonEvent::ShortPress));
            let quiet = pressed.0.step_result(later, None);
            &&& pressed.0.state == RunState::Selecting { mode: next }
            &&& pressed.1 == seq![Command::Display(DisplayContent::ModeLabel(next))]
            &&& pressed.0.idle_timer.remaining_at(now) == IDLE_TIMEOUT_MS
            &&& later.micros < now.micros + IDLE_TIMEOUT_MS * 1000 ==> {
                &&& quiet.0 == pressed.0
                &&& quiet.1 == Seq::<Command>::empty()
            }
        }),
{
    lemma_started_timer(now, IDLE_TIMEOUT_MS, later);
    lemma_started_timer(now, IDLE_TIMEOUT_MS, now);
}

/// A long press while selecting starts the selected program: its timer
/// reports the whole program left (5 or 10 minutes by the mode), the forward
/// phase reports `MOTOR_FORWARD_MS` left, the motor is driven forward at the
/// mode's strength (`DUTY_LO` or `DUTY_HI`), and the countdown shows the
/// program's full length, matching the timer.
pub proof fn lemma_long_press_starts_program(c: Controller, mode: WashMode, now: Instant)
    requires
        !c.waiting_for_wake,
        c.state == (RunState::Selecting { mode }),
        start_fits(now, 600_000),
    ensures
        ({
            let minutes: u8 = if mode is Min10Lo || mode is Min10Hi {
                10
            } else {
                5
            };
            let duty = if mode is Min5Hi || mode is Min10Hi {
                DUTY_HI
            } else {
                DUTY_LO
            };
            let started = c.step_result(now, Some(ButtonEvent::LongPress));
            &&& started.0.state == RunState::Running {
                mode,
                phase: MotorPhase::Forward,
                startup_step: 0,
            }
            &&& started.0.program_timer.remaining_at(now) == minutes as int * 60_000
            &&& started.0.phase_timer.remaining_at(now) == MOTOR_FORWARD_MS
            &&& started.0.idle_timer.deadline is None
            &&& started.1 == seq![
                Command::Motor { direction: MotorDirection::Forward, duty_pct: duty },
                Command::Display(DisplayContent::Countdown { minutes, seconds: 0 }),
            ]
        }),
{
    let ms = mode.program_ms();
    lemma_started_timer(now, ms, now);
    lemma_started_timer(now, MOTOR_FORWARD_MS, now);
}

/// When a running program's phase timer has run out (and the program's has
/// not), a quiet poll moves to the next phase of forward → stop → reverse →
/// stop → forward, orders the motor as that phase does (stop, or drive at
/// the program's strength), and arms the phase for its full length:
/// `MOTOR_FORWARD_MS`, `MOTOR_REVERSE_MS` or `MOTOR_STOP_MS`. Until that much
/// time has passed, quiet polls before the program ends keep the phase and
/// give the motor no order.
pub proof fn lemma_phase_runs_its_length(c: Controller, now: Instant, later: Instant)
    requires
        !c.waiting_for_wake,
        c.state is Running,
        !c.program_timer.expired_at(now),
        c.phase_timer.expired_at(now),
        start_fits(now, 10_000),
    ensures
        ({
            let mode = c.state->Running_mode;
            let phase = c.state->Running_phase;
            let next = match phase {
                MotorPhase::Forward => MotorPhase::StopAfterForward,
                MotorPhase::StopAfterForward => MotorPhase::Reverse,
                MotorPhase::Reverse => MotorPhase::StopAfterReverse,
                MotorPhase::StopAfterReverse => MotorPhase::Forward,
            };
            let length = match next {
                MotorPhase::Forward => MOTOR_FORWARD_MS,
                MotorPhase::Reverse => MOTOR_REVERSE_MS,
                _ => MOTOR_STOP_MS,
            };
            let duty = if mode is Min5Hi || mode is Min10Hi {
                DUTY_HI
            } else {
                DUTY_LO
            };
            let order = match next {
                MotorPhase::Forward => Command::Motor {
                    direction: MotorDirection::Forward,
                    duty_pct: duty,
                },
                MotorPhase::Reverse => Command::Motor {
                    direction: MotorDirection::Reverse,
                    duty_pct: duty,
                },
                _ => Command::Motor { direction: MotorDirection::Stop, duty_pct: 0 },
            };
            let moved = c.step_result(now, None);
            let quiet = moved.0.step_result(later, None);
            &&& moved.0.state == RunState::Running {
                mode,
                phase: next,
                startup_step: c.state->Running_startup_step,
            }
            &&& moved.0.program_timer == c.program_timer
            &&& moved.0.phase_timer.remaining_at(now) == length
            &&& moved.1.len() >= 1
            &&& moved.1.last() == order
            &&& later.micros < now.micros + length * 1000 && !c.program_timer.expired_at(later)
                ==> {
                &&& quiet.0.state == moved.0.state
                &&& quiet.0.phase_timer == moved.0.phase_timer
                &&& forall|i: int| 0 <= i < quiet.1.len() ==> !(#[trigger] quiet.1[i] is Motor)
            }
        }),
{
    let next = c.state->Running_phase.spec_next();
    lemma_started_timer(now, next.length_ms(), now);
    lemma_started_timer(now, next.length_ms(), later);
}

/// Power-on blanks the display, stops the motor, and waits
/// `IDLE_TIMEOUT_MS` for the wake-up press, with every other timer idle.
pub proof fn lemma_power_on(now: Instant)
    requires
        start_fits(now, IDLE_TIMEOUT_MS),
    ensures
        Controller::power_on_commands() == seq![
            Command::Display(DisplayContent::Off),
            Command::Motor { direction: MotorDirection::Stop, duty_pct: 0 },
        ],
        Controller::initial(now).waiting_for_wake,
        Controller::initial(now).state == RunState::Sleeping,
        !Controller::initial(now).asleep(),
        Controller::initial(now).wake_timer.remaining_at(now) == IDLE_TIMEOUT_MS,
        Controller::initial(now).idle_timer.deadline is None,
        Controller::initial(now).program_timer.deadline is None,
        Controller::initial(now).phase_timer.deadline is None,
        Controller::initial(now).blink_timer.deadline is None,
{
    lemma_started_timer(now, IDLE_TIMEOUT_MS, now);
}

/// A quiet poll of a running program whose time is not up shows the
/// countdown exactly when the whole seconds left differ from those shown
/// last, and what it shows is the program timer's time left: minutes and
/// seconds that add up to its whole seconds. The motor gets no order unless
/// the phase timer has run out.
pub proof fn lemma_countdown_shows_time_left(c: Controller, now: Instant)
    requires
        !c.waiting_for_wake,
        c.state is Running,
        !c.program_timer.expired_at(now),
        c.program_timer.remaining_at(now) < 256 * 60 * 1000,
        !c.phase_timer.expired_at(now),
    ensures
        ({
            let left = c.program_timer.remaining_at(now);
            let r = c.step_result(now, None);
            &&& r.0.state == c.state
            &&& r.0.program_timer == c.program_timer
            &&& r.0.phase_timer == c.phase_timer
            &&& r.0.last_displayed_second == left / 1000
            &&& (left / 1000 != c.last_displayed_second) ==> {
                &&& r.1.len() == 1
                &&& r.1[0] matches Command::Display(DisplayContent::Countdown { minutes, seconds })
                    && minutes * 60 + seconds == left / 1000 && seconds < 60
            }
            &&& (left / 1000 == c.last_displayed_second) ==> r.1.len() == 0
        }),
{
    lemma_countdown_is_exact(c.program_timer.remaining_at(now));
}

/// A short press while running pauses: the motor stops, the program and
/// phase timers are disarmed, and the display starts blinking, shown now and
/// toggled every `BLINK_INTERVAL_MS`. While paused, a quiet poll whose blink
/// timer has run out toggles the display between the countdown of the time
/// kept and blank, and blinks again `BLINK_INTERVAL_MS` later.
pub proof fn lemma_pause_blinks(c: Controller, now: Instant, later: Instant)
    requires
        !c.waiting_for_wake,
        c.state is Running,
        !c.program_timer.expired_at(now),
        start_fits(now, BLINK_INTERVAL_MS),
        start_fits(later, BLINK_INTERVAL_MS),
    ensures
        ({
            let paused = c.step_result(now, Some(ButtonEvent::ShortPress));
            let blink = paused.0.step_result(later, None);
            let kept = paused.0.state->Paused_remaining_ms;
            &&& paused.0.state is Paused
            &&& paused.1 == seq![Command::Motor { direction: MotorDirection::Stop, duty_pct: 0 }]
            &&& paused.0.program_timer.deadline is None
            &&& paused.0.phase_timer.deadline is None
            &&& paused.0.blink_on
            &&& paused.0.blink_timer.remaining_at(now) == BLINK_INTERVAL_MS
            &&& BLINK_INTERVAL_MS == 500
            &&& later.micros < now.micros + BLINK_INTERVAL_MS * 1000 ==> {
                &&& blink.0 == paused.0
                &&& blink.1 == Seq::<Command>::empty()
            }
            &&& later.micros >= now.micros + BLINK_INTERVAL_MS * 1000 ==> {
                &&& blink.0.state == paused.0.state
                &&& !blink.0.blink_on
                &&& blink.1 == seq![Command::Display(DisplayContent::Off)]
                &&& blink.0.blink_timer.remaining_at(later) == BLINK_INTERVAL_MS
            }
        }),
{
    lemma_started_timer(now, BLINK_INTERVAL_MS, now);
    lemma_started_timer(now, BLINK_INTERVAL_MS, later);
    lemma_started_timer(later, BLINK_INTERVAL_MS, later);
}

/// Every timer this poll may arm fits the clock when the clock has ten
/// minutes of headroom and a paused program keeps at most ten minutes: the
/// precondition of a poll asks no more than the clock's range.
pub proof fn lemma_step_fits_with_headroom(c: Controller, now: Instant, event: Option<ButtonEvent>)
    requires
        now.micros + 600_000 * 1000 <= u64::MAX,
        c.state matches RunState::Paused { remaining_ms, phase_remaining_ms, .. } ==> remaining_ms
            <= 600_000 && phase_remaining_ms <= 600_000,
    ensures
        c.step_fits(now, event),
{
}

} // verus!
