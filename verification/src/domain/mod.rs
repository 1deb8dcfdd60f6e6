pub mod mode;
pub mod phase;
pub mod time;
