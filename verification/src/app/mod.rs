pub mod controller;
pub mod event;
pub mod state;
pub mod timing;
pub mod properties;
pub mod behaviour;
