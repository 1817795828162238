//! The shape of a step that a frame applies to the state of a game.

use vstd::prelude::*;

verus! {

/// A step of a frame: it takes the state of the game and gives it back,
/// changed as the step sees fit.
pub trait GameManager<S> {
    fn process_state(&mut self, state: S) -> S;
}

} // verus!
