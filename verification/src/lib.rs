//! Control logic of a small washing machine: wash programs, the motor's
//! forward/stop/reverse cycle, the touch button, the countdown display and
//! the state machine that ties them together.

pub mod app;
pub mod config;
pub mod domain;
pub mod drivers;
