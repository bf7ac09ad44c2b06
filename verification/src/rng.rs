//! The number source backed by the rand crate.

use vstd::prelude::*;

use crate::errors::Chip8Error;
use crate::traits::NumberGenerator;
use rand::Rng;

verus! {

/// Relies on rand::thread_rng and Rng::gen with the Standard
/// distribution: one pseudo-random byte. Nothing is promised of the
/// value.
#[verifier::external_body]
fn sample_byte() -> u8 {
    rand::thread_rng().gen()
}

/// A number source drawing from the thread-local generator. It never
/// fails.
pub struct RandomNumberGenerator;

impl NumberGenerator for RandomNumberGenerator {
    fn generate(&self) -> (r: Result<u8, Chip8Error>)
        ensures
            r is Ok,
    {
        Ok(sample_byte())
    }
}

} // verus!
