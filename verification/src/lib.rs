//! An interpreter for the CHIP-8 virtual machine.
//!
//! The machine itself — 4KB of memory, sixteen 8-bit registers, a call
//! stack, two countdown timers, a 64x32 monochrome framebuffer and a
//! 16-key pad — lives in [`Chip8`], whose `emulate_cycle` runs one
//! fetch/decode/execute step per call. Everything the machine needs from
//! its host (a screen, a speaker, a keyboard, a source of random bytes)
//! is reached through the four capability traits in [`traits`], so a
//! frontend supplies those and drives the loop.

pub mod chip8;
pub mod errors;
pub mod font;
pub mod frontend;
pub mod laws;
pub mod model;
pub mod rng;
pub mod test_utils;
pub mod traits;

pub use chip8::{Chip8, State};
pub use errors::Chip8Error;
pub use frontend::{HostEvent, HostKey, PixelRect, SdlGraphics, SdlKeyboard};
pub use rng::RandomNumberGenerator;
pub use test_utils::set_initial_opcode_to;
pub use traits::{Audio, Graphics, Keyboard, NumberGenerator};
