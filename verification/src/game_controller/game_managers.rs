//! The state of a game between two frames, and the steps that one frame
//! applies to it: selection, start of a movement, advance of the movements.

use crate::algebra_basics::Coordinates;
use crate::game_controller::movement_manager::{MovementHandler, MovementState};
use crate::game_data::game_object::GameObject;
use crate::game_data::gameboard::{
    area_contains,
    check_if_object_area_contains_coordinates,
    Gameboard,
    GameboardObjectOperation,
};
use std::collections::HashMap;
use vstd::prelude::*;

verus! {

/// What the user did since the last frame.
#[derive(Clone, Copy, Debug, PartialEq, Eq, Structural)]
pub enum UserInput {
    /// Nothing but, perhaps, moving the cursor, which is at the given point.
    NoInputCursorPos(Coordinates),
    /// A press of the left mouse button at the given point.
    LeftMouse(Coordinates),
    /// A press of the right mouse button at the given point.
    RightMouse(Coordinates),
    /// A press of the key D.
    D,
    /// A press of the key C.
    C,
}

impl UserInput {
    /// Where the cursor was, for the inputs that carry a point.
    pub fn get_coordinates_if_mouse_input(&self) -> (r: Option<&Coordinates>)
        ensures
            match *self {
                UserInput::NoInputCursorPos(coordinates) => r == Some(&coordinates),
                UserInput::LeftMouse(coordinates) => r == Some(&coordinates),
                UserInput::RightMouse(coordinates) => r == Some(&coordinates),
                _ => r is None,
            },
    {
        match self {
            UserInput::NoInputCursorPos(coordinates) => Some(coordinates),
            UserInput::LeftMouse(coordinates) => Some(coordinates),
            UserInput::RightMouse(coordinates) => Some(coordinates),
            _ => None,
        }
    }
}

/// The state that every game shares.
pub struct BasicState {
    pub current_selected_id: u32,
    pub external_event: UserInput,
    pub gameboard: Gameboard,
    pub movements: HashMap<u32, MovementHandler>,
}

/// The movements by the identifier of the entity that moves, each as what
/// its stepper holds.
pub open spec fn movement_states(movements: Map<u32, MovementHandler>) -> Map<u32, MovementState> {
    Map::new(|id: u32| movements.contains_key(id), |id: u32| movements[id]@)
}

impl BasicState {
    /// The board is well formed, and only identifiers that the board has
    /// handed out move.
    pub open spec fn wf(&self) -> bool {
        &&& self.gameboard.wf()
        &&& forall|id: u32| #[trigger]
            self.movements@.contains_key(id) ==> id < self.gameboard.next_id()
    }

    /// The movements under way.
    pub open spec fn moving(&self) -> Map<u32, MovementState> {
        movement_states(self.movements@)
    }

    /// The identifier selected after a left click at `position`: that of
    /// the first entity, in the order of identifiers, whose area holds the
    /// point; the one selected before where there is none.
    pub open spec fn selection_after_click(&self, position: Coordinates) -> u32 {
        if exists|id: u32| self.clicked(id, position) {
            choose|id: u32|
                self.clicked(id, position) && forall|lower: u32|
                    lower < id ==> !self.clicked(lower, position)
        } else {
            self.current_selected_id
        }
    }

    /// The entity under `id` exists and its area holds `position`.
    pub open spec fn clicked(&self, id: u32, position: Coordinates) -> bool {
        self.gameboard@.contains_key(id) && area_contains(self.gameboard@[id], position)
    }
}

/// What holds a [`BasicState`] and lends it out.
pub trait BasicStateContainer {
    /// The state held.
    spec fn basic_state(&self) -> BasicState;

    /// Lends the state held: what the borrower leaves in it is held
    /// afterwards.
    fn get_basic_state(&mut self) -> (r: &mut BasicState)
        ensures
            *r == old(self).basic_state(),
            final(self).basic_state() == *final(r),
    ;
}

/// The entity with its upper-left vertex put at `position`.
pub open spec fn moved_to(object: GameObject, position: Coordinates) -> GameObject {
    GameObject { object_type: object.object_type, position, size: object.size }
}

/// The board after one tick of the movements with identifiers below
/// `limit`: each entity whose movement yields a position stands there.
spec fn board_after_tick_below(
    board: Map<u32, GameObject>,
    moving: Map<u32, MovementState>,
    limit: nat,
) -> Map<u32, GameObject> {
    Map::new(
        |id: u32| board.contains_key(id),
        |id: u32|
            if id < limit && moving.contains_key(id) && moving[id].step().1 is Some {
                moved_to(board[id], moving[id].step().1->0)
            } else {
                board[id]
            },
    )
}

/// The board after one tick of every movement: each entity whose movement
/// yields a position stands there.
pub open spec fn board_after_tick(
    board: Map<u32, GameObject>,
    moving: Map<u32, MovementState>,
) -> Map<u32, GameObject> {
    Map::new(
        |id: u32| board.contains_key(id),
        |id: u32|
            if moving.contains_key(id) && moving[id].step().1 is Some {
                moved_to(board[id], moving[id].step().1->0)
            } else {
                board[id]
            },
    )
}

/// Every movement one tick further, those that have come to rest too.
pub open spec fn movements_stepped(moving: Map<u32, MovementState>) -> Map<u32, MovementState> {
    Map::new(|id: u32| moving.contains_key(id), |id: u32| moving[id].step().0)
}

/// The movements with an identifier below `limit` one tick further, the
/// others as they are.
spec fn movements_stepped_below(
    moving: Map<u32, MovementState>,
    limit: nat,
) -> Map<u32, MovementState> {
    Map::new(
        |id: u32| moving.contains_key(id),
        |id: u32|
            if id < limit {
                moving[id].step().0
            } else {
                moving[id]
            },
    )
}

/// `id` is among the first `count` of `ids`.
spec fn listed_before(ids: Seq<u32>, count: int, id: u32) -> bool {
    exists|j: int| 0 <= j < count && ids[j] == id
}

/// The movements but those whose identifier is among the first `count` of
/// `ids`.
spec fn without_listed(
    moving: Map<u32, MovementState>,
    ids: Seq<u32>,
    count: int,
) -> Map<u32, MovementState> {
    Map::new(
        |id: u32| moving.contains_key(id) && !listed_before(ids, count, id),
        |id: u32| moving[id],
    )
}

/// The movement under `id` comes to rest at its next tick.
pub open spec fn comes_to_rest(moving: Map<u32, MovementState>, id: u32) -> bool {
    moving.contains_key(id) && moving[id].step().1 is None
}

/// The movements after one tick of each: those that yielded a position,
/// each one tick further.
pub open spec fn movements_after_tick(moving: Map<u32, MovementState>) -> Map<u32, MovementState> {
    Map::new(
        |id: u32| moving.contains_key(id) && moving[id].step().1 is Some,
        |id: u32| moving[id].step().0,
    )
}

/// Selects the entity under a left click; any other input selects nothing
/// new.
pub fn select(basic_state: &mut BasicState)
    requires
        old(basic_state).wf(),
    ensures
        final(basic_state).wf(),
        final(basic_state).gameboard == old(basic_state).gameboard,
        final(basic_state).movements == old(basic_state).movements,
        final(basic_state).external_event == old(basic_state).external_event,
        final(basic_state).current_selected_id == match old(basic_state).external_event {
            UserInput::LeftMouse(position) => old(basic_state).selection_after_click(position),
            _ => old(basic_state).current_selected_id,
        },
{
    let position = match basic_state.external_event {
        UserInput::LeftMouse(position) => position,
        _ => {
            return ;
        },
    };
    let querry = |id: u32, object: &GameObject| -> (hit: bool)
        ensures
            hit == area_contains(*object, position),
        { check_if_object_area_contains_coordinates(object, &position) };
    let found = basic_state.gameboard.querry_object(querry);
    match found {
        Some((id, object)) => {
            assert(basic_state.clicked(id, position));
            assert(forall|lower: u32| lower < id ==> !basic_state.clicked(lower, position));
            basic_state.current_selected_id = id;
        },
        None => {
            assert(forall|id: u32| !basic_state.clicked(id, position));
        },
    }
}

/// Selects the entity under a left click; any other input selects nothing
/// new.
pub fn process_selection<S: BasicStateContainer>(state: S) -> (r: S)
    requires
        state.basic_state().wf(),
    ensures
        r.basic_state().wf(),
        r.basic_state().gameboard == state.basic_state().gameboard,
        r.basic_state().movements == state.basic_state().movements,
        r.basic_state().external_event == state.basic_state().external_event,
        r.basic_state().current_selected_id == match state.basic_state().external_event {
            UserInput::LeftMouse(position) => state.basic_state().selection_after_click(position),
            _ => state.basic_state().current_selected_id,
        },
{
    let mut state = state;
    let basic_state = state.get_basic_state();
    select(basic_state);
    state
}

/// On a right click, starts the selected entity on its way to the point
/// clicked, round the static entities of the board; a movement of that
/// entity under way is replaced. Any other input starts nothing.
pub fn start_movement(basic_state: &mut BasicState)
    requires
        old(basic_state).wf(),
        old(basic_state).external_event is RightMouse ==> old(basic_state).gameboard@.contains_key(
            old(basic_state).current_selected_id,
        ),
    ensures
        final(basic_state).wf(),
        final(basic_state).gameboard == old(basic_state).gameboard,
        final(basic_state).external_event == old(basic_state).external_event,
        final(basic_state).current_selected_id == old(basic_state).current_selected_id,
        final(basic_state).moving() == match old(basic_state).external_event {
            UserInput::RightMouse(destination) => old(basic_state).moving().insert(
                old(basic_state).current_selected_id,
                MovementState::initial(
                    old(basic_state).gameboard@[old(basic_state).current_selected_id].position,
                    destination,
                    Gameboard::in_order(
                        old(basic_state).gameboard@,
                        old(basic_state).gameboard.next_id() as nat,
                    ),
                ),
            ),
            _ => old(basic_state).moving(),
        },
{
    broadcast use vstd::std_specs::hash::group_hash_axioms;

    let destination = match basic_state.external_event {
        UserInput::RightMouse(destination) => destination,
        _ => {
            return ;
        },
    };
    let start = match basic_state.gameboard.get_object_by_id(basic_state.current_selected_id) {
        Some(selected) => selected.position,
        None => {
            return ;
        },
    };
    let obstacles = basic_state.gameboard.get_all_objects();
    let movement_manager = MovementHandler::start(start, destination, &obstacles);
    basic_state.movements.insert(basic_state.current_selected_id, movement_manager);
    assert(basic_state.moving() =~= old(basic_state).moving().insert(
        old(basic_state).current_selected_id,
        movement_manager@,
    ));
}

/// On a right click, starts the selected entity on its way to the point
/// clicked.
pub fn process_player_movement<S: BasicStateContainer>(state: S) -> (r: S)
    requires
        state.basic_state().wf(),
        state.basic_state().external_event is RightMouse
            ==> state.basic_state().gameboard@.contains_key(
            state.basic_state().current_selected_id,
        ),
    ensures
        r.basic_state().wf(),
        r.basic_state().gameboard == state.basic_state().gameboard,
        r.basic_state().external_event == state.basic_state().external_event,
        r.basic_state().current_selected_id == state.basic_state().current_selected_id,
        r.basic_state().moving() == match state.basic_state().external_event {
            UserInput::RightMouse(destination) => state.basic_state().moving().insert(
                state.basic_state().current_selected_id,
                MovementState::initial(
                    state.basic_state().gameboard@[state.basic_state().current_selected_id].position,
                    destination,
                    Gameboard::in_order(
                        state.basic_state().gameboard@,
                        state.basic_state().gameboard.next_id() as nat,
                    ),
                ),
            ),
            _ => state.basic_state().moving(),
        },
{
    let mut state = state;
    let basic_state = state.get_basic_state();
    start_movement(basic_state);
    state
}

/// Gives every movement one tick and puts each entity where its movement
/// says. Returns the identifiers of the movements that have come to rest,
/// in ascending order; they are still held.
pub fn proces_movement_apply(state: &mut BasicState) -> (ids_to_remove: Vec<u32>)
    requires
        old(state).wf(),
    ensures
        final(state).wf(),
        final(state).gameboard.next_id() == old(state).gameboard.next_id(),
        final(state).external_event == old(state).external_event,
        final(state).current_selected_id == old(state).current_selected_id,
        final(state).gameboard@ == board_after_tick(old(state).gameboard@, old(state).moving()),
        final(state).moving() == movements_stepped(old(state).moving()),
        forall|id: u32| #[trigger]
            ids_to_remove@.contains(id) <==> comes_to_rest(old(state).moving(), id),
        forall|i: int, j: int|
            0 <= i < j < ids_to_remove@.len() ==> ids_to_remove@[i] < ids_to_remove@[j],
{
    broadcast use vstd::std_specs::hash::group_hash_axioms;

    let ghost moving = state.moving();
    let ghost board = state.gameboard@;
    let limit = state.gameboard.upcoming_id();
    let mut ids_to_remove: Vec<u32> = Vec::new();
    let mut id: u32 = 0;
    assert(state.moving() =~= movements_stepped_below(moving, 0));
    assert(state.gameboard@ =~= board_after_tick_below(board, moving, 0));
    while id < limit
        invariant
            id <= limit,
            limit == state.gameboard.next_id(),
            state.wf(),
            state.external_event == old(state).external_event,
            state.current_selected_id == old(state).current_selected_id,
            moving == old(state).moving(),
            board == old(state).gameboard@,
            state.gameboard@ == board_after_tick_below(board, moving, id as nat),
            state.moving() == movements_stepped_below(moving, id as nat),
            forall|k: u32| #[trigger]
                ids_to_remove@.contains(k) <==> k < id && comes_to_rest(moving, k),
            forall|i: int| 0 <= i < ids_to_remove@.len() ==> ids_to_remove@[i] < id,
            forall|i: int, j: int|
                0 <= i < j < ids_to_remove@.len() ==> ids_to_remove@[i] < ids_to_remove@[j],
        decreases limit - id,
    {
        let ghost ids_before = ids_to_remove@;
        let ghost moving_before = state.moving();
        assert(state.moving().contains_key(id) == state.movements@.contains_key(id));
        assert(movements_stepped_below(moving, id as nat).contains_key(id) == moving.contains_key(
            id,
        ));
        match state.movements.remove(&id) {
            Some(handler) => {
                let mut movement_handler = handler;
                assert(moving_before[id] == movement_handler@);
                assert(movements_stepped_below(moving, id as nat)[id] == moving[id]);
                match movement_handler.poll_movement() {
                    Some(position) => {
                        state.gameboard.execute_operation(
                            id,
                            GameboardObjectOperation::Move(position),
                        );
                    },
                    None => {
                        ids_to_remove.push(id);
                    },
                }
                state.movements.insert(id, movement_handler);
                assert(state.moving() =~= moving_before.insert(id, moving[id].step().0));
            },
            None => {
                assert(state.moving() =~= moving_before);
            },
        }
        assert(state.moving() =~= movements_stepped_below(moving, (id + 1) as nat));
        assert(state.gameboard@ =~= board_after_tick_below(board, moving, (id + 1) as nat));
        assert forall|k: u32| #[trigger]
            ids_to_remove@.contains(k) <==> k < id + 1 && comes_to_rest(moving, k) by {
            if comes_to_rest(moving, id) {
                assert(ids_to_remove@ == ids_before.push(id));
                assert(ids_to_remove@[ids_before.len() as int] == id);
                if ids_to_remove@.contains(k) && k != id {
                    let i = choose|i: int| 0 <= i < ids_to_remove@.len() && ids_to_remove@[i] == k;
                    assert(ids_before[i] == k);
                }
                if ids_before.contains(k) {
                    let i = choose|i: int| 0 <= i < ids_before.len() && ids_before[i] == k;
                    assert(ids_to_remove@[i] == k);
                }
            } else {
                assert(ids_to_remove@ == ids_before);
            }
        }
        id += 1;
    }
    assert(state.moving() =~= movements_stepped(moving));
    assert(state.gameboard@ =~= board_after_tick(board, moving));
    ids_to_remove
}

/// Gives every movement one tick, puts each entity where its movement says
/// and drops the movements that have come to rest.
pub fn advance_movements(basic_state: &mut BasicState)
    requires
        old(basic_state).wf(),
    ensures
        final(basic_state).wf(),
        final(basic_state).gameboard.next_id() == old(basic_state).gameboard.next_id(),
        final(basic_state).external_event == old(basic_state).external_event,
        final(basic_state).current_selected_id == old(basic_state).current_selected_id,
        final(basic_state).gameboard@ == board_after_tick(
            old(basic_state).gameboard@,
            old(basic_state).moving(),
        ),
        final(basic_state).moving() == movements_after_tick(old(basic_state).moving()),
{
    broadcast use vstd::std_specs::hash::group_hash_axioms;

    let ghost moving = basic_state.moving();
    let ids_to_remove = proces_movement_apply(basic_state);
    let ghost stepped = basic_state.moving();
    let ghost board = basic_state.gameboard@;
    let mut i: usize = 0;
    assert(basic_state.moving() =~= without_listed(stepped, ids_to_remove@, 0));
    while i < ids_to_remove.len()
        invariant
            i <= ids_to_remove.len(),
            basic_state.wf(),
            basic_state.gameboard@ == board,
            basic_state.gameboard.next_id() == old(basic_state).gameboard.next_id(),
            basic_state.external_event == old(basic_state).external_event,
            basic_state.current_selected_id == old(basic_state).current_selected_id,
            basic_state.moving() == without_listed(stepped, ids_to_remove@, i as int),
            stepped == movements_stepped(moving),
            forall|id: u32| #[trigger]
                ids_to_remove@.contains(id) <==> comes_to_rest(moving, id),
        decreases ids_to_remove.len() - i,
    {
        let id = ids_to_remove[i];
        let ghost before = basic_state.moving();
        basic_state.movements.remove(&id);
        assert(basic_state.moving() =~= before.remove(id));
        assert forall|k: u32|
            listed_before(ids_to_remove@, i + 1, k) <==> (listed_before(
                ids_to_remove@,
                i as int,
                k,
            ) || k == id) by {
            if listed_before(ids_to_remove@, i + 1, k) {
                let j = choose|j: int| 0 <= j < i + 1 && ids_to_remove@[j] == k;
                if j < i {
                    assert(listed_before(ids_to_remove@, i as int, k));
                }
            }
            if listed_before(ids_to_remove@, i as int, k) {
                let j = choose|j: int| 0 <= j < i && ids_to_remove@[j] == k;
                assert(0 <= j < i + 1 && ids_to_remove@[j] == k);
            }
            if k == id {
                assert(0 <= i < i + 1 && ids_to_remove@[i as int] == k);
            }
        }
        assert(basic_state.moving() =~= without_listed(stepped, ids_to_remove@, i + 1));
        i += 1;
    }
    assert(i == ids_to_remove@.len());
    assert forall|k: u32| #[trigger]
        listed_before(ids_to_remove@, i as int, k) <==> comes_to_rest(moving, k) by {
        if listed_before(ids_to_remove@, i as int, k) {
            let j = choose|j: int| 0 <= j < i && ids_to_remove@[j] == k;
            assert(ids_to_remove@.contains(k));
        }
        if comes_to_rest(moving, k) {
            assert(ids_to_remove@.contains(k));
            let j = choose|j: int| 0 <= j < ids_to_remove@.len() && ids_to_remove@[j] == k;
            assert(0 <= j < i && ids_to_remove@[j] == k);
        }
    }
    assert forall|k: u32| #[trigger]
        basic_state.moving().contains_key(k) <==> movements_after_tick(moving).contains_key(
            k,
        ) by {
        assert(listed_before(ids_to_remove@, i as int, k) <==> comes_to_rest(moving, k));
    }
    assert(basic_state.moving() =~= movements_after_tick(moving));
}

/// Gives every movement one tick, puts each entity where its movement says
/// and drops the movements that have come to rest.
pub fn proces_movement<S: BasicStateContainer>(state: S) -> (r: S)
    requires
        state.basic_state().wf(),
    ensures
        r.basic_state().wf(),
        r.basic_state().gameboard.next_id() == state.basic_state().gameboard.next_id(),
        r.basic_state().external_event == state.basic_state().external_event,
        r.basic_state().current_selected_id == state.basic_state().current_selected_id,
        r.basic_state().gameboard@ == board_after_tick(
            state.basic_state().gameboard@,
            state.basic_state().moving(),
        ),
        r.basic_state().moving() == movements_after_tick(state.basic_state().moving()),
{
    let mut state = state;
    let basic_state = state.get_basic_state();
    advance_movements(basic_state);
    state
}

} // verus!
