pub mod display;
pub mod motor;
pub mod touch;
