//! A board with one selectable entity, and a game state round it.

use crate::algebra_basics::{Coordinates, Size};
use crate::game_controller::game_managers::{BasicState, BasicStateContainer, UserInput};
use crate::game_data::game_object::{GameObject, GameObjectType};
use crate::game_data::gameboard::Gameboard;
use crate::scalar::{Scalar, ONE_RAW};
use std::collections::HashMap;
use vstd::prelude::*;

verus! {

/// The entity of the ready-made board: selectable, at the origin, fifty
/// units wide and high.
pub open spec fn selectable_object() -> GameObject {
    GameObject {
        object_type: GameObjectType::Selectable,
        position: Coordinates { x: Scalar { raw: 0 }, y: Scalar { raw: 0 } },
        size: Size {
            width: Scalar { raw: (50 * ONE_RAW) as i64 },
            height: Scalar { raw: (50 * ONE_RAW) as i64 },
        },
    }
}

/// A selectable entity at the origin, fifty units wide and high.
pub fn setup_selectable_object() -> (r: GameObject)
    ensures
        r == selectable_object(),
{
    GameObject::new(
        GameObjectType::Selectable,
        Coordinates::new(Scalar::from_int(0), Scalar::from_int(0)),
        Size::new(Scalar::from_int(50), Scalar::from_int(50)),
    )
}

/// A board that holds the selectable entity alone, under the identifier
/// zero.
pub fn setup_gameboard_with_selectable_object() -> (r: Gameboard)
    ensures
        r.wf(),
        r@ == Map::<u32, GameObject>::empty().insert(0, selectable_object()),
        r.next_id() == 1,
{
    let mut gameboard = Gameboard::new();
    gameboard.add_object(setup_selectable_object());
    gameboard
}

/// A game state and nothing else.
pub struct MockMainState {
    pub basic_state: BasicState,
}

impl BasicStateContainer for MockMainState {
    open spec fn basic_state(&self) -> BasicState {
        self.basic_state
    }

    fn get_basic_state(&mut self) -> (r: &mut BasicState) {
        &mut self.basic_state
    }
}

/// The state of a game with the ready-made board: the entity zero is
/// selected, the cursor rests at the origin and nothing moves.
pub fn setup_game_state_with_one_object() -> (r: MockMainState)
    ensures
        r.basic_state.wf(),
        r.basic_state.current_selected_id == 0,
        r.basic_state.external_event == UserInput::NoInputCursorPos(
            Coordinates { x: Scalar { raw: 0 }, y: Scalar { raw: 0 } },
        ),
        r.basic_state.gameboard@ == Map::<u32, GameObject>::empty().insert(0, selectable_object()),
        r.basic_state.gameboard.next_id() == 1,
        r.basic_state.movements@ == Map::<
            u32,
            crate::game_controller::movement_manager::MovementHandler,
        >::empty(),
{
    let gameboard = setup_gameboard_with_selectable_object();
    let basic = BasicState {
        current_selected_id: 0,
        external_event: UserInput::NoInputCursorPos(
            Coordinates::new(Scalar::from_int(0), Scalar::from_int(0)),
        ),
        gameboard,
        movements: HashMap::new(),
    };
    MockMainState { basic_state: basic }
}

} // verus!
