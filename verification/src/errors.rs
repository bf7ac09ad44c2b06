//! Error conditions surfaced by the interpreter.

use vstd::prelude::*;

verus! {

/// Everything that can abort a load or a cycle, returned to the host loop.
#[derive(Debug, PartialEq, Eq)]
pub enum Chip8Error {
    /// The program handed to `load_program` does not fit in memory.
    UnableToLoadProgram,
    /// Dispatch met a 16-bit pattern that is no instruction; carries the raw opcode.
    InvalidOpcode(u16),
    /// The graphics sink failed to render a frame.
    GraphicsError(String),
    /// A call pushed beyond the sixteen stack slots.
    StackExhausted,
    /// A return popped an empty stack.
    StackUnderflow,
}

} // verus!
