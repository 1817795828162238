//! The entities that stand on the board.

use crate::algebra_basics::{Coordinates, Size};
use vstd::prelude::*;

verus! {

/// What an entity is to the game. Only `Static` entities are obstacles.
#[derive(Clone, Copy, Debug, PartialEq, Eq, Hash, Structural)]
pub enum GameObjectType {
    Static,
    Interactable,
    Selectable,
}

/// An axis-aligned rectangular entity: its kind, its upper-left vertex and
/// its size.
#[derive(Clone, Copy, Debug, PartialEq, Eq, Structural)]
pub struct GameObject {
    pub object_type: GameObjectType,
    pub position: Coordinates,
    pub size: Size,
}

impl GameObject {
    pub fn new(object_type: GameObjectType, position: Coordinates, size: Size) -> (r: GameObject)
        ensures
            r == (GameObject { object_type, position, size }),
    {
        GameObject { object_type, position, size }
    }
}

} // verus!
