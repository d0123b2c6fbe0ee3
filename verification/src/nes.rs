//! The windowed emulator's session state and its reaction to input.

pub mod event;
pub mod messages;
