//! The source of randomness: the process-wide generator of `macroquad::rand`.

use vstd::prelude::*;

verus! {

/// Draws the next number from `macroquad::rand::rand`, the process-wide
/// pseudo-random generator. Nothing is claimed of the number drawn beyond
/// its type: any `u32` may come back, and two draws need not agree.
#[verifier::external_body]
pub(crate) fn random_u32() -> (roll: u32) {
    macroquad::rand::rand()
}

} // verus!
