//! Properties of the controller that hold over every poll and every run.
use crate::app::controller::{
    countdown_command, is_long, is_short, phase_command, stop_command, Controller,
};
use crate::app::event::{Command, DisplayContent};
use crate::app::state::RunState;
use crate::app::timing::{lemma_started_timer, Instant, SoftTimer};
use crate::domain::time::{lemma_countdown_is_exact, RemainingTime};
use crate::config::{DEBOUNCE_MS, MOTOR_DIRECTION_CHANGE_GUARD_MS};
use crate::domain::mode::WashMode;
use crate::domain::phase::MotorPhase;
use crate::drivers::motor::MotorDirection;
use crate::drivers::touch::{
    lemma_short_presses_debounced, lemma_spacing_weakens, poll_run, samples_in_order,
    short_presses_spaced, ButtonEvent, TouchButton,
};
use vstd::prelude::*;

verus! {

/// The motor command that state `s` keeps in force: the running phase's
/// drive at the program's duty, and a stop in every other state.
pub open spec fn motor_output(s: RunState) -> Command {
    match s {
        RunState::Running { mode, phase, .. } => phase_command(phase, mode.duty_pct()),
        _ => stop_command(),
    }
}

/// The direction the motor turns in state `s`.
pub open spec fn driven_direction(s: RunState) -> MotorDirection {
    match s {
        RunState::Running { phase: MotorPhase::Forward, .. } => MotorDirection::Forward,
        RunState::Running { phase: MotorPhase::Reverse, .. } => MotorDirection::Reverse,
        _ => MotorDirection::Stop,
    }
}

/// Whether `cmd` orders the motor.
pub open spec fn is_motor(cmd: Command) -> bool {
    cmd is Motor
}

/// The direction that a motor command orders.
pub open spec fn direction_of(cmd: Command) -> MotorDirection {
    match cmd {
        Command::Motor { direction, .. } => direction,
        _ => MotorDirection::Stop,
    }
}

/// Whether, with the motor last told `prev`, the commands `cmds` never tell
/// it to turn the opposite way of the motor command just before.
pub open spec fn reversal_free(prev: MotorDirection, cmds: Seq<Command>) -> bool
    decreases cmds.len(),
{
    if cmds.len() == 0 {
        true
    } else if is_motor(cmds[0]) {
        !prev.opposes(direction_of(cmds[0])) && reversal_free(
            direction_of(cmds[0]),
            cmds.drop_first(),
        )
    } else {
        reversal_free(prev, cmds.drop_first())
    }
}

/// The last direction ordered by `cmds`, or `prev` when they order none.
pub open spec fn last_direction(prev: MotorDirection, cmds: Seq<Command>) -> MotorDirection
    decreases cmds.len(),
{
    if cmds.len() == 0 {
        prev
    } else if is_motor(cmds[0]) {
        last_direction(direction_of(cmds[0]), cmds.drop_first())
    } else {
        last_direction(prev, cmds.drop_first())
    }
}

/// The controller after the polls `polls` (time and button event of each),
/// and every command issued on the way, in order.
pub open spec fn run(c: Controller, polls: Seq<(Instant, Option<ButtonEvent>)>) -> (
    Controller,
    Seq<Command>,
)
    decreases polls.len(),
{
    if polls.len() == 0 {
        (c, seq![])
    } else {
        let first = c.step_result(polls[0].0, polls[0].1);
        let rest = run(first.0, polls.drop_first());
        (rest.0, first.1 + rest.1)
    }
}

impl Controller {
    /// Consistency of the controller: while waiting for the wake-up press it
    /// is asleep; a running program has its program and phase timers armed;
    /// a paused one has them disarmed and blinks; selection has its idle
    /// timer armed.
    pub open spec fn wf(self) -> bool {
        &&& self.waiting_for_wake ==> self.state is Sleeping && self.wake_timer.deadline is Some
        &&& self.state is Selecting ==> self.idle_timer.deadline is Some
        &&& self.state is Running ==> {
            &&& self.program_timer.deadline is Some
            &&& self.phase_timer.deadline is Some
        }
        &&& self.state is Paused ==> {
            &&& self.program_timer.deadline is None
            &&& self.phase_timer.deadline is None
            &&& self.blink_timer.deadline is Some
        }
    }
}

/// The controller is consistent right after power-on.
pub proof fn lemma_initial_wf(now: Instant)
    ensures
        Controller::initial(now).wf(),
{
}

/// Each poll keeps the controller consistent, issues at most one motor
/// command, and that command is the one the new state keeps in force; a
/// poll that issues none leaves the motor's order unchanged; and no poll
/// turns the motor directly from one direction to the other.
pub proof fn lemma_motor_follows_state(c: Controller, now: Instant, event: Option<ButtonEvent>)
    requires
        c.wf(),
    ensures
        c.step_result(now, event).0.wf(),
        forall|i: int|
            0 <= i < c.step_result(now, event).1.len() && is_motor(
                #[trigger] c.step_result(now, event).1[i],
            ) ==> c.step_result(now, event).1[i] == motor_output(c.step_result(now, event).0.state),
        forall|i: int, j: int|
            0 <= i < j < c.step_result(now, event).1.len() && is_motor(
                #[trigger] c.step_result(now, event).1[i],
            ) ==> !is_motor(#[trigger] c.step_result(now, event).1[j]),
        (forall|i: int|
            0 <= i < c.step_result(now, event).1.len() ==> !is_motor(
                #[trigger] c.step_result(now, event).1[i],
            )) ==> motor_output(c.step_result(now, event).0.state) == motor_output(c.state),
        !driven_direction(c.state).opposes(driven_direction(c.step_result(now, event).0.state)),
        direction_of(motor_output(c.state)) == driven_direction(c.state),
        direction_of(motor_output(c.step_result(now, event).0.state)) == driven_direction(
            c.step_result(now, event).0.state,
        ),
{
    let r = c.step_result(now, event);
    let cmds = r.1;
    assert(cmds.len() <= 2);
    if motor_output(r.0.state) != motor_output(c.state) {
        assert(cmds.len() > 0);
        assert(is_motor(cmds[0]) || is_motor(cmds[cmds.len() - 1]));
    }
}

/// Checking a stream of commands for reversals splits at any point: the
/// second part is checked from the last direction ordered by the first.
pub proof fn lemma_reversal_free_split(p: MotorDirection, a: Seq<Command>, b: Seq<Command>)
    ensures
        reversal_free(p, a + b) == (reversal_free(p, a) && reversal_free(last_direction(p, a), b)),
        last_direction(p, a + b) == last_direction(last_direction(p, a), b),
    decreases a.len(),
{
    if a.len() == 0 {
        assert(a + b =~= b);
    } else {
        assert((a + b)[0] == a[0]);
        assert((a + b).drop_first() =~= a.drop_first() + b);
        if is_motor(a[0]) {
            lemma_reversal_free_split(direction_of(a[0]), a.drop_first(), b);
        } else {
            lemma_reversal_free_split(p, a.drop_first(), b);
        }
    }
}

/// Commands whose motor orders all name one direction `x`, which does not
/// oppose `p`, are free of reversals, and leave the motor on `x` (or on `p`
/// when they hold no motor order).
proof fn lemma_single_direction(p: MotorDirection, x: MotorDirection, cmds: Seq<Command>)
    requires
        !p.opposes(x),
        forall|i: int| 0 <= i < cmds.len() && is_motor(#[trigger] cmds[i]) ==> direction_of(cmds[i]) == x,
    ensures
        reversal_free(p, cmds),
        last_direction(p, cmds) == x || (last_direction(p, cmds) == p && forall|i: int|
            0 <= i < cmds.len() ==> !is_motor(#[trigger] cmds[i])),
    decreases cmds.len(),
{
    if cmds.len() > 0 {
        let rest = cmds.drop_first();
        assert forall|i: int| 0 <= i < rest.len() && is_motor(#[trigger] rest[i]) implies direction_of(
            rest[i],
        ) == x by {
            assert(rest[i] == cmds[i + 1]);
        }
        if is_motor(cmds[0]) {
            lemma_single_direction(x, x, rest);
        } else {
            lemma_single_direction(p, x, rest);
            if last_direction(p, rest) != x {
                assert forall|i: int| 0 <= i < cmds.len() implies !is_motor(#[trigger] cmds[i]) by {
                    if i > 0 {
                        assert(cmds[i] == rest[i - 1]);
                    }
                }
            }
        }
    }
}

/// One poll is free of reversals when checked from the direction the old
/// state drives, and leaves the motor on the direction the new state drives.
pub proof fn lemma_step_reversal_free(c: Controller, now: Instant, event: Option<ButtonEvent>)
    requires
        c.wf(),
    ensures
        reversal_free(driven_direction(c.state), c.step_result(now, event).1),
        last_direction(driven_direction(c.state), c.step_result(now, event).1) == driven_direction(
            c.step_result(now, event).0.state,
        ),
{
    lemma_motor_follows_state(c, now, event);
    let r = c.step_result(now, event);
    let x = driven_direction(r.0.state);
    assert forall|i: int| 0 <= i < r.1.len() && is_motor(#[trigger] r.1[i]) implies direction_of(
        r.1[i],
    ) == x by {}
    lemma_single_direction(driven_direction(c.state), x, r.1);
}

/// Over any run of polls from a consistent controller, the motor is never
/// ordered straight from one direction into the other, and the controller
/// stays consistent.
pub proof fn lemma_run_reversal_free(c: Controller, polls: Seq<(Instant, Option<ButtonEvent>)>)
    requires
        c.wf(),
    ensures
        reversal_free(driven_direction(c.state), run(c, polls).1),
        last_direction(driven_direction(c.state), run(c, polls).1) == driven_direction(
            run(c, polls).0.state,
        ),
        run(c, polls).0.wf(),
    decreases polls.len(),
{
    if polls.len() > 0 {
        let first = c.step_result(polls[0].0, polls[0].1);
        lemma_step_reversal_free(c, polls[0].0, polls[0].1);
        lemma_motor_follows_state(c, polls[0].0, polls[0].1);
        lemma_run_reversal_free(first.0, polls.drop_first());
        lemma_reversal_free_split(
            driven_direction(c.state),
            first.1,
            run(first.0, polls.drop_first()).1,
        );
    }
}

/// From power-on, whatever the button does and whenever the polls come,
/// the motor is never switched directly between forward and reverse: a
/// stop order always comes between two opposite drive orders.
pub proof fn lemma_no_direct_reversal(
    power_on: Instant,
    polls: Seq<(Instant, Option<ButtonEvent>)>,
    prev: MotorDirection,
)
    ensures
        reversal_free(prev, Controller::power_on_commands() + run(Controller::initial(power_on), polls).1),
{
    let c = Controller::initial(power_on);
    let boot = Controller::power_on_commands();
    lemma_run_reversal_free(c, polls);
    reveal_with_fuel(reversal_free, 3);
    reveal_with_fuel(last_direction, 3);
    assert(boot.drop_first().drop_first() =~= Seq::<Command>::empty());
    assert(reversal_free(prev, boot));
    assert(last_direction(prev, boot) == MotorDirection::Stop);
    lemma_reversal_free_split(prev, boot, run(c, polls).1);
}

/// Pausing and resuming keeps the program: a short press while running
/// stops the motor and remembers the whole milliseconds left of the program
/// and of the phase; the next short press restarts the same phase of the
/// same program with exactly that much time left, drives the motor as that
/// phase does, and shows the countdown.
pub proof fn lemma_pause_keeps_time(c: Controller, t_pause: Instant, t_resume: Instant)
    requires
        !c.waiting_for_wake,
        c.state is Running,
        !c.program_timer.expired_at(t_pause),
        c.step_result(t_pause, Some(ButtonEvent::ShortPress)).0.step_fits(
            t_resume,
            Some(ButtonEvent::ShortPress),
        ),
    ensures
        ({
            let (mode, phase) = (c.state->Running_mode, c.state->Running_phase);
            let rem = c.program_timer.remaining_at(t_pause);
            let phase_rem = c.phase_timer.remaining_at(t_pause);
            let paused = c.step_result(t_pause, Some(ButtonEvent::ShortPress));
            let resumed = paused.0.step_result(t_resume, Some(ButtonEvent::ShortPress));
            &&& paused.1 == seq![stop_command()]
            &&& paused.0.state == RunState::Paused {
                mode,
                remaining_ms: rem,
                phase,
                phase_remaining_ms: phase_rem,
            }
            &&& resumed.0.state == RunState::Running { mode, phase, startup_step: 0 }
            &&& resumed.0.program_timer.remaining_at(t_resume) == rem
            &&& resumed.0.phase_timer.remaining_at(t_resume) == phase_rem
            &&& resumed.1 == seq![phase_command(phase, mode.duty_pct()), countdown_command(rem)]
        }),
{
    let rem = c.program_timer.remaining_at(t_pause);
    let phase_rem = c.phase_timer.remaining_at(t_pause);
    lemma_started_timer(t_resume, rem, t_resume);
    lemma_started_timer(t_resume, phase_rem, t_resume);
}

/// A long press while a program runs or is paused ends it at once: the
/// motor is stopped, both program timers are disarmed, and the next poll
/// blanks the display and puts the machine to sleep, whatever happens then.
pub proof fn lemma_long_press_ends_program(
    c: Controller,
    now: Instant,
    later: Instant,
    next_event: Option<ButtonEvent>,
)
    requires
        !c.waiting_for_wake,
        c.state is Running || c.state is Paused,
    ensures
        ({
            let ended = c.step_result(now, Some(ButtonEvent::LongPress));
            let slept = ended.0.step_result(later, next_event);
            &&& ended.0.state is Finishing
            &&& ended.1 == seq![stop_command()]
            &&& ended.0.phase_timer == SoftTimer::idle()
            &&& ended.0.program_timer == SoftTimer::idle()
            &&& slept.0.asleep()
            &&& slept.1 == seq![stop_command(), Command::Display(DisplayContent::Off)]
        }),
{
}

/// When the program timer runs out, the program ends at the next poll,
/// whatever the button does: the motor is stopped, and the poll after that
/// blanks the display and puts the machine to sleep.
pub proof fn lemma_program_completes(
    c: Controller,
    now: Instant,
    event: Option<ButtonEvent>,
    later: Instant,
    next_event: Option<ButtonEvent>,
)
    requires
        !c.waiting_for_wake,
        c.state is Running,
        c.program_timer.expired_at(now),
    ensures
        ({
            let ended = c.step_result(now, event);
            let slept = ended.0.step_result(later, next_event);
            &&& ended.0.state is Finishing
            &&& ended.1 == seq![stop_command()]
            &&& slept.0.asleep()
            &&& slept.1 == seq![stop_command(), Command::Display(DisplayContent::Off)]
        }),
{
}

/// Left alone, the machine goes back to sleep. While it waits for the
/// wake-up press, any poll before the wake timer runs out that is not a
/// short press changes nothing and issues nothing, and the first poll at or
/// after the timeout puts it to sleep without a command, whatever the
/// button does. While selecting, it sleeps with the display blanked once the
/// idle timer runs out.
pub proof fn lemma_idle_sleeps(c: Controller, now: Instant, event: Option<ButtonEvent>)
    requires
        c.wf(),
    ensures
        c.waiting_for_wake && !c.wake_timer.expired_at(now) && !is_short(event) ==> {
            &&& c.step_result(now, event).0 == c
            &&& c.step_result(now, event).1 == Seq::<Command>::empty()
        },
        c.waiting_for_wake && c.wake_timer.expired_at(now) ==> {
            &&& c.step_result(now, event).0.asleep()
            &&& c.step_result(now, event).1 == Seq::<Command>::empty()
        },
        !c.waiting_for_wake && c.state is Selecting && c.idle_timer.expired_at(now) ==> {
            &&& c.step_result(now, None).0.asleep()
            &&& c.step_result(now, None).1 == seq![Command::Display(DisplayContent::Off)]
        },
{
}

/// Whether `s` runs a program whose mode drives the motor at `duty`.
pub open spec fn runs_at_duty(s: RunState, duty: u8) -> bool {
    match s {
        RunState::Running { mode, .. } => duty == mode.duty_pct(),
        _ => false,
    }
}

/// The mode of the program that `s` runs or holds paused.
pub open spec fn program_mode(s: RunState) -> Option<WashMode> {
    match s {
        RunState::Running { mode, .. } | RunState::Paused { mode, .. } => Some(mode),
        _ => None,
    }
}

/// Motor orders: the brake is never used, a stop order has duty 0, and a
/// drive order is given only in a running program, at its mode's duty. A
/// program runs or pauses only after a long press while selecting (which
/// starts the selected mode forward) and keeps its mode until it ends.
pub proof fn lemma_drive_orders(c: Controller, now: Instant, event: Option<ButtonEvent>)
    requires
        c.wf(),
    ensures
        forall|i: int|
            0 <= i < c.step_result(now, event).1.len() ==> match #[trigger] c.step_result(
                now,
                event,
            ).1[i] {
                Command::Motor { direction, duty_pct } => {
                    &&& !(direction is Brake)
                    &&& direction is Stop ==> duty_pct == 0
                    &&& (direction is Forward || direction is Reverse) ==> runs_at_duty(
                        c.step_result(now, event).0.state,
                        duty_pct,
                    )
                },
                _ => true,
            },
        program_mode(c.step_result(now, event).0.state) matches Some(m) ==> {
            ||| program_mode(c.state) == Some(m)
            ||| {
                &&& c.state == RunState::Selecting { mode: m }
                &&& is_long(event)
                &&& c.step_result(now, event).0.state == RunState::Running {
                    mode: m,
                    phase: MotorPhase::Forward,
                    startup_step: 0,
                }
            }
        },
{
    lemma_motor_follows_state(c, now, event);
    if !(event is None) && !is_short(event) {
        assert(event == Some(ButtonEvent::LongPress));
    }
}

/// Once asleep, the machine stays asleep and issues nothing.
pub proof fn lemma_asleep_is_final(c: Controller, now: Instant, event: Option<ButtonEvent>)
    requires
        c.asleep(),
    ensures
        c.step_result(now, event).0 == c,
        c.step_result(now, event).1 == Seq::<Command>::empty(),
{
}

/// What the motor has been told so far: the last drive direction (`Stop`
/// while it has never been driven), whether it is being driven now, and
/// since when (microseconds) it has stood still.
pub struct MotorHistory {
    pub last_drive: MotorDirection,
    pub driving: bool,
    pub stopped_since: u64,
}

impl MotorHistory {
    /// Before any drive order.
    pub open spec fn fresh() -> MotorHistory {
        MotorHistory { last_drive: MotorDirection::Stop, driving: false, stopped_since: 0 }
    }
}

/// The history after `cmd` is carried out at `t`.
pub open spec fn record(h: MotorHistory, t: Instant, cmd: Command) -> MotorHistory {
    match cmd {
        Command::Motor { direction, .. } => {
            if direction is Forward || direction is Reverse {
                MotorHistory { last_drive: direction, driving: true, stopped_since: h.stopped_since }
            } else if h.driving {
                MotorHistory { driving: false, stopped_since: t.micros, ..h }
            } else {
                h
            }
        },
        _ => h,
    }
}

/// Whether carrying out `cmd` at `t` respects the direction-change guard: an
/// order to turn the other way than the last drive comes only after the
/// motor has stood still for `MOTOR_DIRECTION_CHANGE_GUARD_MS`.
pub open spec fn respects_guard(h: MotorHistory, t: Instant, cmd: Command) -> bool {
    match cmd {
        Command::Motor { direction, .. } => h.last_drive.opposes(direction) ==> {
            &&& !h.driving
            &&& t.micros - h.stopped_since >= MOTOR_DIRECTION_CHANGE_GUARD_MS * 1000
        },
        _ => true,
    }
}

/// Whether the commands `cmds`, carried out in order at `t`, all respect the
/// guard.
pub open spec fn guarded(h: MotorHistory, t: Instant, cmds: Seq<Command>) -> bool
    decreases cmds.len(),
{
    if cmds.len() == 0 {
        true
    } else {
        respects_guard(h, t, cmds[0]) && guarded(record(h, t, cmds[0]), t, cmds.drop_first())
    }
}

/// The history after the commands `cmds` are carried out at `t`.
pub open spec fn record_all(h: MotorHistory, t: Instant, cmds: Seq<Command>) -> MotorHistory
    decreases cmds.len(),
{
    if cmds.len() == 0 {
        h
    } else {
        record_all(record(h, t, cmds[0]), t, cmds.drop_first())
    }
}

/// Whether every command of the run of `polls` from `c`, each carried out
/// at the time of its poll, respects the guard, given the history `h`.
pub open spec fn guarded_run(
    c: Controller,
    h: MotorHistory,
    polls: Seq<(Instant, Option<ButtonEvent>)>,
) -> bool
    decreases polls.len(),
{
    if polls.len() == 0 {
        true
    } else {
        let first = c.step_result(polls[0].0, polls[0].1);
        &&& guarded(h, polls[0].0, first.1)
        &&& guarded_run(first.0, record_all(h, polls[0].0, first.1), polls.drop_first())
    }
}

/// Whether every poll of the run of `polls` from `c` arms its timers within
/// the range of the clock.
pub open spec fn run_fits(c: Controller, polls: Seq<(Instant, Option<ButtonEvent>)>) -> bool
    decreases polls.len(),
{
    if polls.len() == 0 {
        true
    } else {
        &&& c.step_fits(polls[0].0, polls[0].1)
        &&& run_fits(c.step_result(polls[0].0, polls[0].1).0, polls.drop_first())
    }
}

/// How the history of the motor's orders matches the controller's state.
/// In a stop phase the phase timer (running) or the time left of the phase
/// plus a millisecond after the pausing press (paused) reaches at least the
/// guard past the moment the motor stopped.
pub open spec fn guard_inv(c: Controller, h: MotorHistory, last_short: Option<u64>) -> bool {
    let guard = MOTOR_DIRECTION_CHANGE_GUARD_MS * 1000;
    &&& c.wf()
    &&& (c.waiting_for_wake || c.state is Selecting) ==> h.last_drive == MotorDirection::Stop
        && !h.driving
    &&& match c.state {
        RunState::Running { phase, .. } => match phase {
            MotorPhase::Forward => h.driving && h.last_drive == MotorDirection::Forward,
            MotorPhase::Reverse => h.driving && h.last_drive == MotorDirection::Reverse,
            MotorPhase::StopAfterForward => {
                &&& !h.driving
                &&& h.last_drive == MotorDirection::Forward
                &&& c.phase_timer.deadline.unwrap().micros >= h.stopped_since + guard
            },
            MotorPhase::StopAfterReverse => {
                &&& !h.driving
                &&& h.last_drive == MotorDirection::Reverse
                &&& c.phase_timer.deadline.unwrap().micros >= h.stopped_since + guard
            },
        },
        RunState::Paused { phase, phase_remaining_ms, .. } => {
            &&& !h.driving
            &&& match phase {
                MotorPhase::Forward => h.last_drive == MotorDirection::Forward,
                MotorPhase::Reverse => h.last_drive == MotorDirection::Reverse,
                MotorPhase::StopAfterForward => {
                    &&& h.last_drive == MotorDirection::Forward
                    &&& last_short is Some
                    &&& last_short.unwrap() + 1000 + phase_remaining_ms * 1000 >= h.stopped_since
                        + guard
                },
                MotorPhase::StopAfterReverse => {
                    &&& h.last_drive == MotorDirection::Reverse
                    &&& last_short is Some
                    &&& last_short.unwrap() + 1000 + phase_remaining_ms * 1000 >= h.stopped_since
                        + guard
                },
            }
        },
        _ => !h.driving,
    }
}

/// Whole milliseconds lose less than one millisecond.
proof fn lemma_whole_ms(x: int)
    requires
        x >= 0,
    ensures
        (x / 1000) * 1000 > x - 1000,
{
}

/// One poll keeps the guard invariant and respects the guard.
pub proof fn lemma_step_guard(
    c: Controller,
    h: MotorHistory,
    last_short: Option<u64>,
    now: Instant,
    event: Option<ButtonEvent>,
)
    requires
        guard_inv(c, h, last_short),
        c.step_fits(now, event),
        is_short(event) ==> (last_short matches Some(ls) ==> now.micros >= ls + 1000),
    ensures
        guarded(h, now, c.step_result(now, event).1),
        guard_inv(
            c.step_result(now, event).0,
            record_all(h, now, c.step_result(now, event).1),
            if is_short(event) {
                Some(now.micros)
            } else {
                last_short
            },
        ),
{
    let r = c.step_result(now, event);
    lemma_motor_follows_state(c, now, event);
    reveal_with_fuel(guarded, 3);
    reveal_with_fuel(record_all, 3);
    assert(r.1.len() <= 2);
    if r.1.len() == 2 {
        assert(r.1.drop_first().drop_first() =~= Seq::<Command>::empty());
        assert(r.1.drop_first()[0] == r.1[1]);
    } else if r.1.len() == 1 {
        assert(r.1.drop_first() =~= Seq::<Command>::empty());
    }
    if let Some(d) = c.phase_timer.deadline {
        if now.micros < d.micros {
            lemma_whole_ms(d.micros - now.micros);
        }
    }
    if !(event is None) && !is_short(event) {
        assert(event == Some(ButtonEvent::LongPress));
    }
}

/// Over a run whose timers fit the clock and whose short presses come at
/// least a millisecond apart, every command respects the guard.
pub proof fn lemma_run_guard(
    c: Controller,
    h: MotorHistory,
    last_short: Option<u64>,
    polls: Seq<(Instant, Option<ButtonEvent>)>,
)
    requires
        guard_inv(c, h, last_short),
        run_fits(c, polls),
        short_presses_spaced(polls, last_short, 1),
    ensures
        guarded_run(c, h, polls),
    decreases polls.len(),
{
    if polls.len() > 0 {
        let (now, event) = polls[0];
        lemma_step_guard(c, h, last_short, now, event);
        let r = c.step_result(now, event);
        let next_short = if is_short(event) {
            Some(now.micros)
        } else {
            last_short
        };
        lemma_run_guard(r.0, record_all(h, now, r.1), next_short, polls.drop_first());
    }
}

/// From power-on, the motor is never driven the other way than its last
/// drive before it has stood still for `MOTOR_DIRECTION_CHANGE_GUARD_MS`
/// (the stop phase of the wash cycle), also when the stop phase is paused
/// and resumed — provided the clock can hold every deadline and two short
/// presses come at least a millisecond apart (a touch must last
/// `DEBOUNCE_MS` to count as a short press).
pub proof fn lemma_reversal_waits_for_guard(
    power_on: Instant,
    polls: Seq<(Instant, Option<ButtonEvent>)>,
)
    requires
        run_fits(Controller::initial(power_on), polls),
        short_presses_spaced(polls, None, 1),
    ensures
        guarded(MotorHistory::fresh(), power_on, Controller::power_on_commands()),
        guarded_run(
            Controller::initial(power_on),
            record_all(MotorHistory::fresh(), power_on, Controller::power_on_commands()),
            polls,
        ),
{
    let boot = Controller::power_on_commands();
    reveal_with_fuel(guarded, 3);
    reveal_with_fuel(record_all, 3);
    assert(boot.drop_first().drop_first() =~= Seq::<Command>::empty());
    assert(record_all(MotorHistory::fresh(), power_on, boot) == MotorHistory::fresh());
    lemma_run_guard(Controller::initial(power_on), MotorHistory::fresh(), None, polls);
}

/// Whether the poll times never go backwards, starting from `prev`.
pub open spec fn polls_in_order(polls: Seq<(Instant, Option<ButtonEvent>)>, prev: u64) -> bool
    decreases polls.len(),
{
    if polls.len() == 0 {
        true
    } else {
        prev <= polls[0].0.micros && polls_in_order(polls.drop_first(), polls[0].0.micros)
    }
}

/// The time of the last of `polls`, or `prev` when there are none.
pub open spec fn last_poll_time(polls: Seq<(Instant, Option<ButtonEvent>)>, prev: u64) -> u64 {
    if polls.len() == 0 {
        prev
    } else {
        polls.last().0.micros
    }
}

/// Whether every countdown among `cmds` shows at most ten minutes and
/// fewer than sixty seconds (so it fits the four digits).
pub open spec fn countdowns_in_range(cmds: Seq<Command>) -> bool {
    forall|i: int|
        0 <= i < cmds.len() ==> match #[trigger] cmds[i] {
            Command::Display(DisplayContent::Countdown { minutes, seconds }) => minutes <= 10
                && seconds < 60,
            _ => true,
        }
}

/// No program has more time left than its mode's length: at time `t` (or
/// later), a running program's deadlines lie at most the program's and the
/// phase's length ahead, and a paused program keeps at most those lengths.
pub open spec fn time_left_bounded(c: Controller, t: u64) -> bool {
    match c.state {
        RunState::Running { mode, phase, .. } => {
            &&& c.program_timer.deadline is Some
            &&& c.program_timer.deadline.unwrap().micros <= t + mode.program_ms() * 1000
            &&& c.phase_timer.deadline is Some
            &&& c.phase_timer.deadline.unwrap().micros <= t + phase.length_ms() * 1000
        },
        RunState::Paused { mode, remaining_ms, phase, phase_remaining_ms } => {
            &&& remaining_ms <= mode.program_ms()
            &&& phase_remaining_ms <= phase.length_ms()
        },
        _ => true,
    }
}

/// Under the bound, from `t` on, a running program reports at most its
/// mode's length left, and its phase at most the phase's length.
pub proof fn lemma_time_left_at_most_length(c: Controller, t: u64, now: Instant)
    requires
        time_left_bounded(c, t),
        t <= now.micros,
    ensures
        c.state matches RunState::Running { mode, phase, .. } ==> {
            &&& c.program_timer.remaining_at(now) <= mode.program_ms()
            &&& c.phase_timer.remaining_at(now) <= phase.length_ms()
        },
{
}

/// The countdown of at most a program's length shows at most ten minutes.
proof fn lemma_countdown_of_program(rem: u64)
    requires
        rem <= 600_000,
    ensures
        RemainingTime::of_ms(rem).minutes <= 10,
        RemainingTime::of_ms(rem).seconds < 60,
{
    lemma_countdown_is_exact(rem);
}

/// Joining command lists keeps their countdowns in range.
proof fn lemma_countdowns_concat(a: Seq<Command>, b: Seq<Command>)
    requires
        countdowns_in_range(a),
        countdowns_in_range(b),
    ensures
        countdowns_in_range(a + b),
{
    assert forall|i: int| 0 <= i < (a + b).len() implies match #[trigger] (a + b)[i] {
        Command::Display(DisplayContent::Countdown { minutes, seconds }) => minutes <= 10
            && seconds < 60,
        _ => true,
    } by {
        if i < a.len() {
            assert((a + b)[i] == a[i]);
        } else {
            assert((a + b)[i] == b[i - a.len()]);
        }
    }
}

/// A poll at a time no earlier than `t` keeps the bound on the time left
/// and only shows countdowns within ten minutes.
pub proof fn lemma_step_time_left(c: Controller, t: u64, now: Instant, event: Option<ButtonEvent>)
    requires
        time_left_bounded(c, t),
        t <= now.micros,
        c.step_fits(now, event),
    ensures
        time_left_bounded(c.step_result(now, event).0, now.micros),
        countdowns_in_range(c.step_result(now, event).1),
{
    lemma_time_left_at_most_length(c, t, now);
    match c.state {
        RunState::Selecting { mode } => {
            lemma_countdown_of_program(mode.program_ms());
        },
        RunState::Running { mode, .. } => {
            lemma_countdown_of_program(c.program_timer.remaining_at(now));
        },
        RunState::Paused { mode, remaining_ms, .. } => {
            lemma_countdown_of_program(remaining_ms);
        },
        _ => {},
    }
    if !(event is None) && !is_short(event) {
        assert(event == Some(ButtonEvent::LongPress));
    }
}

/// Over a run whose polls come in time order and whose timers fit the
/// clock, the bound on the time left holds at every poll and every
/// countdown shown stays within ten minutes.
pub proof fn lemma_run_time_left(
    c: Controller,
    t: u64,
    polls: Seq<(Instant, Option<ButtonEvent>)>,
)
    requires
        time_left_bounded(c, t),
        polls_in_order(polls, t),
        run_fits(c, polls),
    ensures
        time_left_bounded(run(c, polls).0, last_poll_time(polls, t)),
        countdowns_in_range(run(c, polls).1),
    decreases polls.len(),
{
    if polls.len() > 0 {
        let (now, event) = polls[0];
        lemma_step_time_left(c, t, now, event);
        let first = c.step_result(now, event);
        let rest = polls.drop_first();
        lemma_run_time_left(first.0, now.micros, rest);
        lemma_countdowns_concat(first.1, run(first.0, rest).1);
        if rest.len() > 0 {
            assert(rest.last() == polls.last());
        }
    }
}

/// From power-on, with polls in time order and timers that fit the clock,
/// no running or paused program ever has more time left than its mode's
/// length (the phase likewise), so every countdown shown reads at most
/// 10:00 and fits the display's digits.
pub proof fn lemma_countdown_stays_in_range(
    power_on: Instant,
    polls: Seq<(Instant, Option<ButtonEvent>)>,
)
    requires
        polls_in_order(polls, power_on.micros),
        run_fits(Controller::initial(power_on), polls),
    ensures
        time_left_bounded(
            run(Controller::initial(power_on), polls).0,
            last_poll_time(polls, power_on.micros),
        ),
        countdowns_in_range(run(Controller::initial(power_on), polls).1),
{
    lemma_run_time_left(Controller::initial(power_on), power_on.micros, polls);
}

/// The button's reports come at the times of its samples, so they are in
/// time order when the samples are.
pub proof fn lemma_reports_in_order(b: TouchButton, samples: Seq<(bool, Instant)>, prev: u64)
    requires
        samples_in_order(samples, prev),
    ensures
        polls_in_order(poll_run(b, samples).1, prev),
    decreases samples.len(),
{
    if samples.len() > 0 {
        let first = b.poll_result(samples[0].0, samples[0].1);
        lemma_reports_in_order(first.0, samples.drop_first(), samples[0].1.micros);
        assert(poll_run(b, samples).1.drop_first() =~= poll_run(first.0, samples.drop_first()).1);
    }
}

/// The whole machine, from power-on at `power_on`: each sample of the touch
/// pad (level and time, never going backwards) is fed to the button, and
/// the time and the button's report to the controller. Whatever the user
/// does, as long as the clock can hold every deadline: the motor never
/// turns the other way before it has stood still for
/// `MOTOR_DIRECTION_CHANGE_GUARD_MS`, and every countdown shown reads at most
/// 10:00.
pub proof fn lemma_machine_respects_guard(power_on: Instant, samples: Seq<(bool, Instant)>)
    requires
        samples_in_order(samples, power_on.micros),
        run_fits(
            Controller::initial(power_on),
            poll_run(TouchButton { pressed_at: None, was_pressed: false, long_fired: false }, samples).1,
        ),
    ensures
        guarded_run(
            Controller::initial(power_on),
            MotorHistory::fresh(),
            poll_run(TouchButton { pressed_at: None, was_pressed: false, long_fired: false }, samples).1,
        ),
        countdowns_in_range(
            run(
                Controller::initial(power_on),
                poll_run(
                    TouchButton { pressed_at: None, was_pressed: false, long_fired: false },
                    samples,
                ).1,
            ).1,
        ),
{
    let b = TouchButton { pressed_at: None, was_pressed: false, long_fired: false };
    let polls = poll_run(b, samples).1;
    lemma_short_presses_debounced(b, None, power_on.micros, samples);
    lemma_spacing_weakens(polls, None, DEBOUNCE_MS, 1);
    lemma_reversal_waits_for_guard(power_on, polls);
    reveal_with_fuel(record_all, 3);
    let boot = Controller::power_on_commands();
    assert(boot.drop_first().drop_first() =~= Seq::<Command>::empty());
    lemma_reports_in_order(b, samples, power_on.micros);
    lemma_countdown_stays_in_range(power_on, polls);
}

} // verus!
