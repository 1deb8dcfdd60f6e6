use vstd::prelude::*;

verus! {

/// How the H-bridge drives the motor.
#[derive(Debug, Clone, Copy, PartialEq, Eq, Structural)]
pub enum MotorDirection {
    Forward,
    Reverse,
    Stop,
    Brake,
}

impl MotorDirection {
    /// The PWM duty (percent) of the driver's two inputs, IN1 and IN2, that
    /// drives the motor this way at `duty_pct`.
    pub open spec fn input_duties(self, duty_pct: u8) -> (u8, u8) {
        match self {
            MotorDirection::Forward => (duty_pct, 0),
            MotorDirection::Reverse => (0, duty_pct),
            MotorDirection::Stop => (0, 0),
            MotorDirection::Brake => (100, 100),
        }
    }

    /// Whether the two directions turn the motor opposite ways.
    pub open spec fn opposes(self, other: MotorDirection) -> bool {
        (self is Forward && other is Reverse) || (self is Reverse && other is Forward)
    }

    /// Duties for the driver's IN1 and IN2 channels, as the motor driver
    /// applies them when told to drive this way at `duty_pct`.
    pub fn channel_duties(self, duty_pct: u8) -> (d: (u8, u8))
        ensures
            d == self.input_duties(duty_pct),
    {
        match self {
            MotorDirection::Forward => (duty_pct, 0),
            MotorDirection::Reverse => (0, duty_pct),
            MotorDirection::Stop => (0, 0),
            MotorDirection::Brake => (100, 100),
        }
    }
}

/// The driver's inputs carry the requested duty unchanged: forward puts it
/// on IN1 and reverse mirrors it on IN2 with the other input off, stop
/// turns both off, and brake turns both fully on.
pub proof fn lemma_channel_duties(duty_pct: u8)
    ensures
        MotorDirection::Forward.input_duties(duty_pct) == (duty_pct, 0u8),
        MotorDirection::Reverse.input_duties(duty_pct) == (0u8, duty_pct),
        MotorDirection::Forward.input_duties(duty_pct).0 == MotorDirection::Reverse.input_duties(
            duty_pct,
        ).1,
        MotorDirection::Stop.input_duties(duty_pct) == (0u8, 0u8),
        MotorDirection::Brake.input_duties(duty_pct) == (100u8, 100u8),
{
}

} // verus!
