//! The four capability interfaces the interpreter calls outward through.
//! A frontend implements each one; the machine holds one value of each
//! and never names a concrete device.

use vstd::prelude::*;

use crate::errors::Chip8Error;

verus! {

/// The keyboard source: mirrors host key events into the sixteen key
/// states, and blocks for the next key press when an instruction waits.
pub trait Keyboard {
    /// Updates the current state of the sixteen keys from the host's
    /// pending events. Returns true when the user asked to quit.
    fn update_state(&mut self, keyboard: &mut [u8; 16]) -> bool;

    /// Blocks until a key is pressed and returns its code, 0 through 15.
    fn wait_next_key_press(&mut self) -> (key: u8)
        ensures
            key < 16,
    ;
}

/// The number source: one pseudo-random byte per call, or a failure when
/// the host's entropy source is unavailable.
pub trait NumberGenerator {
    /// Draws one byte. Nothing is promised of the value.
    fn generate(&self) -> Result<u8, Chip8Error>;
}

/// The audio device behind the sound timer.
pub trait Audio {
    /// Start the tone.
    fn play(&self) -> Result<(), Chip8Error>;

    /// Stop the tone.
    fn stop(&self) -> Result<(), Chip8Error>;
}

/// The graphics sink the framebuffer is handed to once per cycle.
pub trait Graphics {
    /// Renders the 64x32 framebuffer, one cell per byte, row-major.
    fn draw(&mut self, graphics: &[u8; 2048]) -> Result<(), Chip8Error>;
}

} // verus!
