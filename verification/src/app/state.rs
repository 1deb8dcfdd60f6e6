use crate::domain::mode::WashMode;
use crate::domain::phase::MotorPhase;
use vstd::prelude::*;

verus! {

/// Where the washing machine is in its life: choosing a program, running
/// it, paused, winding down, or asleep.
#[derive(Debug, Clone, Copy, PartialEq, Eq, Structural)]
pub enum RunState {
    Sleeping,
    Selecting { mode: WashMode },
    Running { mode: WashMode, phase: MotorPhase, startup_step: u8 },
    Paused { mode: WashMode, remaining_ms: u64, phase: MotorPhase, phase_remaining_ms: u64 },
    Finishing,
}

} // verus!
