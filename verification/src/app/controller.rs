use crate::app::event::{Command, DisplayContent};
use crate::app::state::RunState;
use crate::app::timing::{start_fits, Instant, SoftTimer};
use crate::config::IDLE_TIMEOUT_MS;
use crate::domain::mode::WashMode;
use crate::domain::phase::MotorPhase;
use crate::domain::time::RemainingTime;
use crate::drivers::motor::MotorDirection;
use crate::drivers::touch::ButtonEvent;
use vstd::prelude::*;

verus! {

/// Blink period of the paused countdown.
pub const BLINK_INTERVAL_MS: u64 = 500;

/// The decisions of the main loop: everything the machine remembers between
/// two polls. Each poll hands it the time and the button event, and it
/// answers with the commands for the motor and the display.
pub struct Controller {
    pub state: RunState,
    /// Still waiting for the press that wakes the machine up.
    pub waiting_for_wake: bool,
    pub wake_timer: SoftTimer,
    pub idle_timer: SoftTimer,
    pub phase_timer: SoftTimer,
    pub program_timer: SoftTimer,
    pub blink_timer: SoftTimer,
    /// Whether the blinking paused countdown is currently shown.
    pub blink_on: bool,
    /// Whole seconds last put on the countdown display.
    pub last_displayed_second: u16,
}

/// Stop the motor.
pub open spec fn stop_command() -> Command {
    Command::Motor { direction: MotorDirection::Stop, duty_pct: 0 }
}

/// The motor command of `phase` at the program's `duty`.
pub open spec fn phase_command(phase: MotorPhase, duty: u8) -> Command {
    match phase {
        MotorPhase::Forward => Command::Motor { direction: MotorDirection::Forward, duty_pct: duty },
        MotorPhase::Reverse => Command::Motor { direction: MotorDirection::Reverse, duty_pct: duty },
        MotorPhase::StopAfterForward | MotorPhase::StopAfterReverse => stop_command(),
    }
}

/// Show the countdown for `ms` remaining milliseconds.
pub open spec fn countdown_command(ms: u64) -> Command {
    Command::Display(
        DisplayContent::Countdown {
            minutes: RemainingTime::of_ms(ms).minutes,
            seconds: RemainingTime::of_ms(ms).seconds,
        },
    )
}

/// Whether `event` is a short press.
pub open spec fn is_short(event: Option<ButtonEvent>) -> bool {
    event == Some(ButtonEvent::ShortPress)
}

/// Whether `event` is a long press.
pub open spec fn is_long(event: Option<ButtonEvent>) -> bool {
    event == Some(ButtonEvent::LongPress)
}

impl Controller {
    /// The controller right after power-on at `now`: asleep, waiting for the
    /// wake-up press for `IDLE_TIMEOUT_MS`.
    pub open spec fn initial(now: Instant) -> Controller {
        Controller {
            state: RunState::Sleeping,
            waiting_for_wake: true,
            wake_timer: SoftTimer::started(now, IDLE_TIMEOUT_MS),
            idle_timer: SoftTimer::idle(),
            phase_timer: SoftTimer::idle(),
            program_timer: SoftTimer::idle(),
            blink_timer: SoftTimer::idle(),
            blink_on: true,
            last_displayed_second: u16::MAX,
        }
    }

    /// Commands issued at power-on: blank display, motor stopped.
    pub open spec fn power_on_commands() -> Seq<Command> {
        seq![Command::Display(DisplayContent::Off), stop_command()]
    }

    /// Whether the machine is done and should go to deep sleep.
    pub open spec fn asleep(self) -> bool {
        !self.waiting_for_wake && self.state is Sleeping
    }

    /// End the program: stop the motor and both program timers.
    pub open spec fn finish_result(self) -> (Controller, Seq<Command>) {
        (
            Controller {
                state: RunState::Finishing,
                phase_timer: SoftTimer::idle(),
                program_timer: SoftTimer::idle(),
                ..self
            },
            seq![stop_command()],
        )
    }

    /// Start program `mode` at `now`: forward phase, motor on, full countdown.
    pub open spec fn start_program_result(self, mode: WashMode, now: Instant) -> (
        Controller,
        Seq<Command>,
    ) {
        (
            Controller {
                state: RunState::Running { mode, phase: MotorPhase::Forward, startup_step: 0 },
                program_timer: SoftTimer::started(now, mode.program_ms()),
                phase_timer: SoftTimer::started(now, MotorPhase::Forward.length_ms()),
                ..self
            },
            seq![
                phase_command(MotorPhase::Forward, mode.duty_pct()),
                countdown_command(mode.program_ms()),
            ],
        )
    }

    /// Waiting for the wake-up press: give up when the wake timer expires,
    /// start selecting on a short press.
    pub open spec fn wake_result(self, now: Instant, event: Option<ButtonEvent>) -> (
        Controller,
        Seq<Command>,
    ) {
        if self.wake_timer.expired_at(now) {
            (Controller { waiting_for_wake: false, state: RunState::Sleeping, ..self }, seq![])
        } else if is_short(event) {
            (
                Controller {
                    waiting_for_wake: false,
                    state: RunState::Selecting { mode: WashMode::Min5Lo },
                    idle_timer: SoftTimer::started(now, IDLE_TIMEOUT_MS),
                    ..self
                },
                seq![Command::Display(DisplayContent::ModeLabel(WashMode::Min5Lo))],
            )
        } else {
            (self, seq![])
        }
    }

    /// Selecting `mode`: a short press moves to the next mode, a long press
    /// starts the program, and idling past the timeout puts the machine to
    /// sleep.
    pub open spec fn selecting_result(
        self,
        mode: WashMode,
        now: Instant,
        event: Option<ButtonEvent>,
    ) -> (Controller, Seq<Command>) {
        if is_short(event) {
            (
                Controller {
                    state: RunState::Selecting { mode: mode.spec_next() },
                    idle_timer: SoftTimer::started(now, IDLE_TIMEOUT_MS),
                    ..self
                },
                seq![Command::Display(DisplayContent::ModeLabel(mode.spec_next()))],
            )
        } else if is_long(event) {
            Controller { idle_timer: SoftTimer::idle(), ..self }.start_program_result(mode, now)
        } else if self.idle_timer.expired_at(now) {
            (
                Controller { state: RunState::Sleeping, ..self },
                seq![Command::Display(DisplayContent::Off)],
            )
        } else {
            (self, seq![])
        }
    }

    /// Running `mode` in `phase`: the program ends when its timer expires or
    /// on a long press; a short press pauses it, keeping the time left of the
    /// program and of the phase; otherwise the countdown is refreshed once
    /// per second and the motor moves to the next phase when the phase
    /// timer expires.
    pub open spec fn running_result(
        self,
        mode: WashMode,
        phase: MotorPhase,
        startup_step: u8,
        now: Instant,
        event: Option<ButtonEvent>,
    ) -> (Controller, Seq<Command>) {
        let rem = self.program_timer.remaining_at(now);
        if self.program_timer.expired_at(now) || is_long(event) {
            Controller { last_displayed_second: u16::MAX, ..self }.finish_result()
        } else if is_short(event) {
            (
                Controller {
                    state: RunState::Paused {
                        mode,
                        remaining_ms: rem,
                        phase,
                        phase_remaining_ms: self.phase_timer.remaining_at(now),
                    },
                    phase_timer: SoftTimer::idle(),
                    program_timer: SoftTimer::idle(),
                    blink_on: true,
                    blink_timer: SoftTimer::started(now, BLINK_INTERVAL_MS),
                    ..self
                },
                seq![stop_command()],
            )
        } else {
            let secs = ((rem / 1000) % 65536) as u16;
            let shown = if secs != self.last_displayed_second {
                seq![countdown_command(rem)]
            } else {
                seq![]
            };
            let c = Controller { last_displayed_second: secs, ..self };
            if self.phase_timer.expired_at(now) {
                let next = phase.spec_next();
                (
                    Controller {
                        state: RunState::Running { mode, phase: next, startup_step },
                        phase_timer: SoftTimer::started(now, next.length_ms()),
                        ..c
                    },
                    shown.push(phase_command(next, mode.duty_pct())),
                )
            } else {
                (c, shown)
            }
        }
    }

    /// Paused with `remaining_ms` of the program and `phase_remaining_ms` of
    /// `phase` left: a short press resumes, a long press ends the program,
    /// and otherwise the countdown blinks.
    pub open spec fn paused_result(
        self,
        mode: WashMode,
        remaining_ms: u64,
        phase: MotorPhase,
        phase_remaining_ms: u64,
        now: Instant,
        event: Option<ButtonEvent>,
    ) -> (Controller, Seq<Command>) {
        if is_short(event) {
            (
                Controller {
                    state: RunState::Running { mode, phase, startup_step: 0 },
                    blink_timer: SoftTimer::idle(),
                    program_timer: SoftTimer::started(now, remaining_ms),
                    phase_timer: SoftTimer::started(now, phase_remaining_ms),
                    ..self
                },
                seq![phase_command(phase, mode.duty_pct()), countdown_command(remaining_ms)],
            )
        } else if is_long(event) {
            Controller { blink_timer: SoftTimer::idle(), ..self }.finish_result()
        } else if self.blink_timer.expired_at(now) {
            let on = !self.blink_on;
            (
                Controller {
                    blink_on: on,
                    blink_timer: SoftTimer::started(now, BLINK_INTERVAL_MS),
                    ..self
                },
                seq![
                    if on {
                        countdown_command(remaining_ms)
                    } else {
                        Command::Display(DisplayContent::Off)
                    },
                ],
            )
        } else {
            (self, seq![])
        }
    }

    /// Finishing: stop the motor, blank the display, go to sleep.
    pub open spec fn finishing_result(self) -> (Controller, Seq<Command>) {
        (
            Controller { state: RunState::Sleeping, ..self },
            seq![stop_command(), Command::Display(DisplayContent::Off)],
        )
    }

    /// The new controller and the commands, in order, of one poll at `now`
    /// that saw `event`.
    pub open spec fn step_result(self, now: Instant, event: Option<ButtonEvent>) -> (
        Controller,
        Seq<Command>,
    ) {
        if self.waiting_for_wake {
            self.wake_result(now, event)
        } else {
            match self.state {
                RunState::Sleeping => (self, seq![]),
                RunState::Selecting { mode } => self.selecting_result(mode, now, event),
                RunState::Running { mode, phase, startup_step } => self.running_result(
                    mode,
                    phase,
                    startup_step,
                    now,
                    event,
                ),
                RunState::Paused { mode, remaining_ms, phase, phase_remaining_ms } =>
                    self.paused_result(mode, remaining_ms, phase, phase_remaining_ms, now, event),
                RunState::Finishing => self.finishing_result(),
            }
        }
    }

    /// Every timer that the poll at `now` with `event` arms gets a deadline
    /// that the microsecond clock can hold.
    pub open spec fn step_fits(self, now: Instant, event: Option<ButtonEvent>) -> bool {
        if self.waiting_for_wake {
            !self.wake_timer.expired_at(now) && is_short(event) ==> start_fits(now, IDLE_TIMEOUT_MS)
        } else {
            match self.state {
                RunState::Selecting { mode } => {
                    &&& is_short(event) ==> start_fits(now, IDLE_TIMEOUT_MS)
                    &&& is_long(event) ==> start_fits(now, mode.program_ms()) && start_fits(
                        now,
                        MotorPhase::Forward.length_ms(),
                    )
                },
                RunState::Running { phase, .. } => !self.program_timer.expired_at(now) ==> {
                    &&& is_short(event) ==> start_fits(now, BLINK_INTERVAL_MS)
                    &&& event is None && self.phase_timer.expired_at(now) ==> start_fits(
                        now,
                        phase.spec_next().length_ms(),
                    )
                },
                RunState::Paused { remaining_ms, phase_remaining_ms, .. } => {
                    &&& is_short(event) ==> start_fits(now, remaining_ms) && start_fits(
                        now,
                        phase_remaining_ms,
                    )
                    &&& event is None && self.blink_timer.expired_at(now) ==> start_fits(
                        now,
                        BLINK_INTERVAL_MS,
                    )
                },
                _ => true,
            }
        }
    }
}

/// The motor command of `phase` at `duty`.
fn apply_motor_phase(phase: MotorPhase, duty: u8) -> (c: Command)
    ensures
        c == phase_command(phase, duty),
{
    match phase {
        MotorPhase::Forward => Command::Motor { direction: MotorDirection::Forward, duty_pct: duty },
        MotorPhase::Reverse => Command::Motor { direction: MotorDirection::Reverse, duty_pct: duty },
        MotorPhase::StopAfterForward | MotorPhase::StopAfterReverse => Command::Motor {
            direction: MotorDirection::Stop,
            duty_pct: 0,
        },
    }
}

/// The display command for a countdown of `ms` milliseconds.
fn show_countdown(ms: u64) -> (c: Command)
    ensures
        c == countdown_command(ms),
{
    let time = RemainingTime::from_ms(ms);
    Command::Display(DisplayContent::Countdown { minutes: time.minutes, seconds: time.seconds })
}

impl Controller {
    /// Power on at `now`: blank the display, stop the motor, and wait
    /// `IDLE_TIMEOUT_MS` for the wake-up press.
    pub fn new(now: Instant) -> (r: (Controller, Vec<Command>))
        requires
            start_fits(now, IDLE_TIMEOUT_MS),
        ensures
            r.0 == Controller::initial(now),
            r.1@ == Controller::power_on_commands(),
    {
        let mut cmds: Vec<Command> = Vec::new();
        cmds.push(Command::Display(DisplayContent::Off));
        cmds.push(Command::Motor { direction: MotorDirection::Stop, duty_pct: 0 });
        let mut wake_timer = SoftTimer::new();
        wake_timer.start(now, IDLE_TIMEOUT_MS);
        let c = Controller {
            state: RunState::Sleeping,
            waiting_for_wake: true,
            wake_timer,
            idle_timer: SoftTimer::new(),
            phase_timer: SoftTimer::new(),
            program_timer: SoftTimer::new(),
            blink_timer: SoftTimer::new(),
            blink_on: true,
            last_displayed_second: u16::MAX,
        };
        (c, cmds)
    }

    /// Whether the machine is done and should enter deep sleep.
    pub fn is_asleep(&self) -> (a: bool)
        ensures
            a == self.asleep(),
    {
        !self.waiting_for_wake && match self.state {
            RunState::Sleeping => true,
            _ => false,
        }
    }

    /// Whether the poll at `now` with `event` can arm all its timers within
    /// the range of the microsecond clock (the precondition of `step`).
    pub fn can_step(&self, now: Instant, event: Option<ButtonEvent>) -> (ok: bool)
        ensures
            ok == self.step_fits(now, event),
    {
        let headroom: u64 = u64::MAX - now.micros;
        if self.waiting_for_wake {
            return match event {
                Some(ButtonEvent::ShortPress) => self.wake_timer.is_expired(now) || IDLE_TIMEOUT_MS
                    * 1000 <= headroom,
                _ => true,
            };
        }
        match self.state {
            RunState::Selecting { mode } => match event {
                Some(ButtonEvent::ShortPress) => IDLE_TIMEOUT_MS * 1000 <= headroom,
                Some(ButtonEvent::LongPress) => mode.duration_ms() * 1000 <= headroom
                    && MotorPhase::Forward.duration_ms() * 1000 <= headroom,
                None => true,
            },
            RunState::Running { phase, .. } => {
                if self.program_timer.is_expired(now) {
                    true
                } else {
                    match event {
                        Some(ButtonEvent::ShortPress) => BLINK_INTERVAL_MS * 1000 <= headroom,
                        Some(ButtonEvent::LongPress) => true,
                        None => !self.phase_timer.is_expired(now) || phase.next().duration_ms()
                            * 1000 <= headroom,
                    }
                }
            },
            RunState::Paused { remaining_ms, phase_remaining_ms, .. } => match event {
                Some(ButtonEvent::ShortPress) => remaining_ms <= headroom / 1000
                    && phase_remaining_ms <= headroom / 1000,
                Some(ButtonEvent::LongPress) => true,
                None => !self.blink_timer.is_expired(now) || BLINK_INTERVAL_MS * 1000 <= headroom,
            },
            _ => true,
        }
    }

    /// One poll of the main loop at `now`, with the button `event` seen at
    /// that poll: updates the state and returns the motor and display
    /// commands to carry out, in order.
    pub fn step(&mut self, now: Instant, event: Option<ButtonEvent>) -> (cmds: Vec<Command>)
        requires
            old(self).step_fits(now, event),
        ensures
            *final(self) == old(self).step_result(now, event).0,
            cmds@ == old(self).step_result(now, event).1,
    {
        if self.waiting_for_wake {
            return self.handle_wake(event, now);
        }
        match self.state {
            RunState::Sleeping => Vec::new(),
            RunState::Selecting { mode } => self.handle_selecting(event, mode, now),
            RunState::Running { mode, phase, startup_step } => self.handle_running(
                event,
                mode,
                phase,
                startup_step,
                now,
            ),
            RunState::Paused { mode, remaining_ms, phase, phase_remaining_ms } => self.handle_paused(
                event,
                mode,
                remaining_ms,
                phase,
                phase_remaining_ms,
                now,
            ),
            RunState::Finishing => self.handle_finishing(),
        }
    }

    fn handle_wake(&mut self, event: Option<ButtonEvent>, now: Instant) -> (cmds: Vec<Command>)
        requires
            old(self).waiting_for_wake,
            old(self).step_fits(now, event),
        ensures
            *final(self) == old(self).wake_result(now, event).0,
            cmds@ == old(self).wake_result(now, event).1,
    {
        let mut cmds: Vec<Command> = Vec::new();
        if self.wake_timer.is_expired(now) {
            self.waiting_for_wake = false;
            self.state = RunState::Sleeping;
            return cmds;
        }
        if let Some(ButtonEvent::ShortPress) = event {
            let mode = WashMode::Min5Lo;
            cmds.push(Command::Display(DisplayContent::ModeLabel(mode)));
            self.idle_timer.start(now, IDLE_TIMEOUT_MS);
            self.waiting_for_wake = false;
            self.state = RunState::Selecting { mode };
        }
        cmds
    }

    fn handle_selecting(&mut self, event: Option<ButtonEvent>, mode: WashMode, now: Instant) -> (cmds:
        Vec<Command>)
        requires
            !old(self).waiting_for_wake,
            old(self).state == (RunState::Selecting { mode }),
            old(self).step_fits(now, event),
        ensures
            *final(self) == old(self).selecting_result(mode, now, event).0,
            cmds@ == old(self).selecting_result(mode, now, event).1,
    {
        match event {
            Some(ButtonEvent::ShortPress) => {
                let mut cmds: Vec<Command> = Vec::new();
                let next = mode.next();
                cmds.push(Command::Display(DisplayContent::ModeLabel(next)));
                self.idle_timer.start(now, IDLE_TIMEOUT_MS);
                self.state = RunState::Selecting { mode: next };
                cmds
            },
            Some(ButtonEvent::LongPress) => {
                self.idle_timer.cancel();
                self.start_program(mode, now)
            },
            None => {
                let mut cmds: Vec<Command> = Vec::new();
                if self.idle_timer.is_expired(now) {
                    cmds.push(Command::Display(DisplayContent::Off));
                    self.state = RunState::Sleeping;
                }
                cmds
            },
        }
    }

    fn handle_running(
        &mut self,
        event: Option<ButtonEvent>,
        mode: WashMode,
        phase: MotorPhase,
        startup_step: u8,
        now: Instant,
    ) -> (cmds: Vec<Command>)
        requires
            !old(self).waiting_for_wake,
            old(self).state == (RunState::Running { mode, phase, startup_step }),
            old(self).step_fits(now, event),
        ensures
            *final(self) == old(self).running_result(mode, phase, startup_step, now, event).0,
            cmds@ == old(self).running_result(mode, phase, startup_step, now, event).1,
    {
        if self.program_timer.is_expired(now) {
            self.last_displayed_second = u16::MAX;
            return self.finish();
        }
        let prog_remaining = self.program_timer.remaining_ms(now);
        match event {
            Some(ButtonEvent::ShortPress) => {
                let mut cmds: Vec<Command> = Vec::new();
                cmds.push(Command::Motor { direction: MotorDirection::Stop, duty_pct: 0 });
                let pr = self.phase_timer.remaining_ms(now);
                self.phase_timer.cancel();
                self.program_timer.cancel();
                self.blink_on = true;
                self.blink_timer.start(now, BLINK_INTERVAL_MS);
                self.state = RunState::Paused {
                    mode,
                    remaining_ms: prog_remaining,
                    phase,
                    phase_remaining_ms: pr,
                };
                return cmds;
            },
            Some(ButtonEvent::LongPress) => {
                self.last_displayed_second = u16::MAX;
                return self.finish();
            },
            None => {},
        }
        let mut cmds: Vec<Command> = Vec::new();
        let total_secs: u16 = ((prog_remaining / 1_000) % 65536) as u16;
        if total_secs != self.last_displayed_second {
            self.last_displayed_second = total_secs;
            cmds.push(show_countdown(prog_remaining));
        }
        if self.phase_timer.is_expired(now) {
            let next_phase = phase.next();
            cmds.push(apply_motor_phase(next_phase, mode.duty()));
            self.phase_timer.start(now, next_phase.duration_ms());
            self.state = RunState::Running { mode, phase: next_phase, startup_step };
        }
        cmds
    }

    fn handle_paused(
        &mut self,
        event: Option<ButtonEvent>,
        mode: WashMode,
        remaining_ms: u64,
        phase: MotorPhase,
        phase_remaining_ms: u64,
        now: Instant,
    ) -> (cmds: Vec<Command>)
        requires
            !old(self).waiting_for_wake,
            old(self).state == (RunState::Paused { mode, remaining_ms, phase, phase_remaining_ms }),
            old(self).step_fits(now, event),
        ensures
            *final(self) == old(self).paused_result(
                mode,
                remaining_ms,
                phase,
                phase_remaining_ms,
                now,
                event,
            ).0,
            cmds@ == old(self).paused_result(
                mode,
                remaining_ms,
                phase,
                phase_remaining_ms,
                now,
                event,
            ).1,
    {
        match event {
            Some(ButtonEvent::ShortPress) => {
                let mut cmds: Vec<Command> = Vec::new();
                self.blink_timer.cancel();
                self.program_timer.start(now, remaining_ms);
                self.phase_timer.start(now, phase_remaining_ms);
                cmds.push(apply_motor_phase(phase, mode.duty()));
                cmds.push(show_countdown(remaining_ms));
                self.state = RunState::Running { mode, phase, startup_step: 0 };
                cmds
            },
            Some(ButtonEvent::LongPress) => {
                self.blink_timer.cancel();
                self.finish()
            },
            None => {
                let mut cmds: Vec<Command> = Vec::new();
                if self.blink_timer.is_expired(now) {
                    self.blink_on = !self.blink_on;
                    if self.blink_on {
                        cmds.push(show_countdown(remaining_ms));
                    } else {
                        cmds.push(Command::Display(DisplayContent::Off));
                    }
                    self.blink_timer.start(now, BLINK_INTERVAL_MS);
                }
                cmds
            },
        }
    }

    fn handle_finishing(&mut self) -> (cmds: Vec<Command>)
        ensures
            *final(self) == old(self).finishing_result().0,
            cmds@ == old(self).finishing_result().1,
    {
        let mut cmds: Vec<Command> = Vec::new();
        cmds.push(Command::Motor { direction: MotorDirection::Stop, duty_pct: 0 });
        cmds.push(Command::Display(DisplayContent::Off));
        self.state = RunState::Sleeping;
        cmds
    }

    fn start_program(&mut self, mode: WashMode, now: Instant) -> (cmds: Vec<Command>)
        requires
            start_fits(now, mode.program_ms()),
            start_fits(now, MotorPhase::Forward.length_ms()),
        ensures
            *final(self) == old(self).start_program_result(mode, now).0,
            cmds@ == old(self).start_program_result(mode, now).1,
    {
        let mut cmds: Vec<Command> = Vec::new();
        let phase = MotorPhase::Forward;
        self.program_timer.start(now, mode.duration_ms());
        self.phase_timer.start(now, phase.duration_ms());
        cmds.push(apply_motor_phase(phase, mode.duty()));
        cmds.push(show_countdown(mode.duration_ms()));
        self.state = RunState::Running { mode, phase, startup_step: 0 };
        cmds
    }

    fn finish(&mut self) -> (cmds: Vec<Command>)
        ensures
            *final(self) == old(self).finish_result().0,
            cmds@ == old(self).finish_result().1,
    {
        let mut cmds: Vec<Command> = Vec::new();
        cmds.push(Command::Motor { direction: MotorDirection::Stop, duty_pct: 0 });
        self.phase_timer.cancel();
        self.program_timer.cancel();
        self.state = RunState::Finishing;
        cmds
    }
}

} // verus!
