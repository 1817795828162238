//! A stand-in entity and a board that holds it.

use crate::algebra_basics::{Coordinates, Size};
use crate::game_data::game_object::GameObjectType;
use crate::gameboard::{Gameboard, GameboardObject, GameboardObjectOperation};
use crate::scalar::{Scalar, ONE_RAW};
use vstd::prelude::*;

verus! {

/// An entity at the origin, fifty units wide and high, that takes every
/// operation and never changes.
pub struct MockGameObject {
    position: Coordinates,
    size: Size,
}

impl MockGameObject {
    pub fn new() -> (r: MockGameObject)
        ensures
            r.position() == (Coordinates { x: Scalar { raw: 0 }, y: Scalar { raw: 0 } }),
            r.size() == (Size {
                width: Scalar { raw: (50 * ONE_RAW) as i64 },
                height: Scalar { raw: (50 * ONE_RAW) as i64 },
            }),
    {
        MockGameObject {
            position: Coordinates::new(Scalar::from_int(0), Scalar::from_int(0)),
            size: Size::new(Scalar::from_int(50), Scalar::from_int(50)),
        }
    }
}

impl GameboardObject for MockGameObject {
    closed spec fn position(&self) -> Coordinates {
        self.position
    }

    closed spec fn size(&self) -> Size {
        self.size
    }

    /// Every operation succeeds and changes nothing.
    open spec fn executes(
        &self,
        operation: GameboardObjectOperation,
        result: Result<(), String>,
        position: Coordinates,
        size: Size,
    ) -> bool {
        result is Ok && position == self.position() && size == self.size()
    }

    fn execute_operation(&mut self, operation: GameboardObjectOperation) -> (r: Result<(), String>) {
        Ok(())
    }

    fn get_position(&self) -> (r: &Coordinates) {
        &self.position
    }

    fn get_size(&self) -> (r: &Size) {
        &self.size
    }
}

/// A board that holds one stand-in entity, selectable, under the
/// identifier one.
pub fn setup_board_with_one_selectable_object() -> (r: Gameboard<MockGameObject>)
    ensures
        r.wf(),
        r.last_id() == 1,
        r.kinds() == Map::<u32, GameObjectType>::empty().insert(1, GameObjectType::Selectable),
        r.objects_of(GameObjectType::Selectable).dom() == Set::<u32>::empty().insert(1),
{
    let mut gameboard = Gameboard::new();
    let mock_object = MockGameObject::new();
    gameboard.add_object(GameObjectType::Selectable, mock_object);
    assert(gameboard.objects_of(GameObjectType::Selectable).dom() =~= Set::<u32>::empty().insert(
        1,
    ));
    gameboard
}

} // verus!
