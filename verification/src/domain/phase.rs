use crate::config::{
    DRIVER_MIN_REVERSAL_GAP_MS, MOTOR_DIRECTION_CHANGE_GUARD_MS, MOTOR_FORWARD_MS, MOTOR_REVERSE_MS,
    MOTOR_STOP_MS,
};
use vstd::prelude::*;

verus! {

/// Motor phase within one wash cycle (forward → stop → reverse → stop).
#[derive(Debug, Clone, Copy, PartialEq, Eq, Structural)]
pub enum MotorPhase {
    Forward,
    StopAfterForward,
    Reverse,
    StopAfterReverse,
}

impl MotorPhase {
    /// Whether the motor stands still during this phase.
    pub open spec fn is_stop(self) -> bool {
        self is StopAfterForward || self is StopAfterReverse
    }

    /// Length of the phase in milliseconds.
    pub open spec fn length_ms(self) -> u64 {
        match self {
            MotorPhase::Forward => MOTOR_FORWARD_MS,
            MotorPhase::Reverse => MOTOR_REVERSE_MS,
            MotorPhase::StopAfterForward | MotorPhase::StopAfterReverse => MOTOR_STOP_MS,
        }
    }

    /// The phase that follows this one.
    pub open spec fn spec_next(self) -> MotorPhase {
        match self {
            MotorPhase::Forward => MotorPhase::StopAfterForward,
            MotorPhase::StopAfterForward => MotorPhase::Reverse,
            MotorPhase::Reverse => MotorPhase::StopAfterReverse,
            MotorPhase::StopAfterReverse => MotorPhase::Forward,
        }
    }

    /// Duration of this phase in milliseconds.
    pub fn duration_ms(self) -> (ms: u64)
        ensures
            ms == self.length_ms(),
    {
        match self {
            MotorPhase::Forward => MOTOR_FORWARD_MS,
            MotorPhase::StopAfterForward => MOTOR_STOP_MS,
            MotorPhase::Reverse => MOTOR_REVERSE_MS,
            MotorPhase::StopAfterReverse => MOTOR_STOP_MS,
        }
    }

    /// Advance to the next phase (wraps around).
    pub fn next(self) -> (n: MotorPhase)
        ensures
            n == self.spec_next(),
    {
        match self {
            MotorPhase::Forward => MotorPhase::StopAfterForward,
            MotorPhase::StopAfterForward => MotorPhase::Reverse,
            MotorPhase::Reverse => MotorPhase::StopAfterReverse,
            MotorPhase::StopAfterReverse => MotorPhase::Forward,
        }
    }
}

/// The wash cycle has period four, alternates driving and stopping, drives
/// forward and reverse in turn, and every stop lasts the direction-change
/// guard, which is at least what the motor driver requires.
pub proof fn lemma_phase_cycle(p: MotorPhase)
    ensures
        p.spec_next().spec_next().spec_next().spec_next() == p,
        p.is_stop() != p.spec_next().is_stop(),
        !p.is_stop() ==> p.spec_next().spec_next() != p && !p.spec_next().spec_next().is_stop(),
        p.is_stop() ==> p.length_ms() == MOTOR_DIRECTION_CHANGE_GUARD_MS,
        MOTOR_DIRECTION_CHANGE_GUARD_MS >= DRIVER_MIN_REVERSAL_GAP_MS,
        p.length_ms() > 0,
        p is Forward ==> p.length_ms() == MOTOR_FORWARD_MS,
        p is Reverse ==> p.length_ms() == MOTOR_REVERSE_MS,
        p.is_stop() ==> p.length_ms() == MOTOR_STOP_MS,
        p is Forward ==> p.spec_next() is StopAfterForward,
        p is StopAfterForward ==> p.spec_next() is Reverse,
        p is Reverse ==> p.spec_next() is StopAfterReverse,
        p is StopAfterReverse ==> p.spec_next() is Forward,
{
}

} // verus!
