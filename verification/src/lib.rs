//! The verified core of a NES emulator and of its front end.
//!
//! The console side: cartridge images and mapper boards, the processor's
//! view of memory, its registers under resets and interrupts, the picture
//! unit's position in the frame, the console as a whole with its resets,
//! and its saved states. The
//! host side: access tracing, and the input state machines that turn
//! keyboard, gamepad and mouse events into controller state and commands
//! for the console.

pub mod apu;
pub mod audio;
pub mod bus;
pub mod cpu;
pub mod deck;
pub mod input;
pub mod mapper;
pub mod nes;
pub mod ppu;
pub mod savestate;
pub mod trace;
pub mod ui;
