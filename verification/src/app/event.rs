use crate::domain::mode::WashMode;
use crate::drivers::motor::MotorDirection;
use vstd::prelude::*;

verus! {

/// Things that can happen to the machine.
#[derive(Debug, Clone, Copy, PartialEq, Eq, Structural)]
pub enum Event {
    ShortPress,
    LongPress,
    IdleTimeout,
    PhaseElapsed,
    ProgramComplete,
}

/// What the four-digit display shows.
#[derive(Debug, Clone, Copy, PartialEq, Eq, Structural)]
pub enum DisplayContent {
    ModeLabel(WashMode),
    Countdown { minutes: u8, seconds: u8 },
    Off,
}

/// An order from the controller to the hardware.
#[derive(Debug, Clone, Copy, PartialEq, Eq, Structural)]
pub enum Command {
    /// Drive the motor in `direction` at `duty_pct` percent duty.
    Motor { direction: MotorDirection, duty_pct: u8 },
    /// Put `DisplayContent` on the display.
    Display(DisplayContent),
}

} // verus!
