//! What moves the entities: the steps of a frame, path planning and the
//! per-tick stepper, and a controller that drives a board by clicks.

pub mod game_managers;
pub mod movement_manager;
pub mod node_map;
pub mod pathfinding;
pub mod state_framework;
pub mod utils;

use crate::algebra_basics::{two, Coordinates, Size, Vector};
use crate::game_controller::movement_manager::heading;
use crate::game_controller::pathfinding::MovementDirection;
use crate::game_controller::utils::{PressedButton, WindowEvent};
use crate::game_data::game_object::GameObjectType;
use crate::gameboard::{Gameboard, GameboardObject, GameboardObjectOperation};
use crate::scalar::{Scalar, ONE_RAW};
use vstd::prelude::*;

verus! {

/// What is selected on the board.
#[derive(Clone, Copy, Debug, PartialEq, Eq, Structural)]
pub enum SelectionStatus {
    SomethingSelected(u32),
    NothingSelected,
}

/// A movement of one entity along the straight line to its destination, one
/// unit of distance per tick.
#[derive(Clone, Copy, Debug, PartialEq, Eq, Structural)]
pub struct MovementManager {
    pub current_position: Coordinates,
    pub destination: Coordinates,
    /// What is added to the position at each tick.
    pub vector: Coordinates,
    /// How many ticks were asked for; it stops counting at the largest
    /// number.
    pub count: u32,
    pub direction_x: MovementDirection,
    pub direction_y: MovementDirection,
    pub id: u32,
}

/// Whether a coordinate has come as far as its destination: at or below it
/// when travelling backward, at or above it else.
pub open spec fn has_reached(
    direction: MovementDirection,
    current_position: Scalar,
    destination: Scalar,
) -> bool {
    if direction == MovementDirection::Backward {
        current_position@ <= destination@
    } else {
        current_position@ >= destination@
    }
}

/// The point that lies half the size up and to the left of `position`.
pub open spec fn middle_point_of(position: Coordinates, size: Size) -> Coordinates {
    Coordinates {
        x: position.x.spec_minus(size.width.spec_divided_by(two())),
        y: position.y.spec_minus(size.height.spec_divided_by(two())),
    }
}

/// The point that lies half the size up and to the left of `position`:
/// where an entity of that size must stand to have `position` for its
/// centre.
pub fn get_middle_point(position: &Coordinates, size: &Size) -> (r: Coordinates)
    ensures
        r == middle_point_of(*position, *size),
{
    let two = Scalar::from_int(2);
    let x_move = size.width.divided_by(two);
    let y_move = size.height.divided_by(two);
    Coordinates::new(position.x.minus(x_move), position.y.minus(y_move))
}

impl MovementManager {
    /// The movement of the entity `id` from `current_position` to
    /// `destination`, before its first tick.
    pub open spec fn started(
        current_position: Coordinates,
        destination: Coordinates,
        id: u32,
    ) -> MovementManager {
        MovementManager {
            current_position,
            destination,
            vector: Coordinates {
                x: heading(current_position, destination).x,
                y: heading(current_position, destination).y,
            },
            count: 0,
            direction_x: MovementDirection::spec_of(current_position.x, destination.x),
            direction_y: MovementDirection::spec_of(current_position.y, destination.y),
            id,
        }
    }

    /// Both coordinates have come as far as the destination.
    pub open spec fn arrived(self) -> bool {
        &&& has_reached(self.direction_y, self.current_position.y, self.destination.y)
        &&& has_reached(self.direction_x, self.current_position.x, self.destination.x)
    }

    /// One tick: the movement after it and the command it gives. A movement
    /// that has arrived gives none and stays where it is; any other moves
    /// by its vector and tells the entity to go there.
    pub open spec fn pooled(self) -> (MovementManager, Option<GameboardObjectOperation>) {
        let count = if self.count < u32::MAX {
            (self.count + 1) as u32
        } else {
            self.count
        };
        if self.arrived() {
            (MovementManager { count, ..self }, None)
        } else {
            let next = Coordinates {
                x: self.current_position.x.spec_plus(self.vector.x),
                y: self.current_position.y.spec_plus(self.vector.y),
            };
            (
                MovementManager { count, current_position: next, ..self },
                Some(GameboardObjectOperation::Move(next)),
            )
        }
    }

    /// Starts the entity `id` on the straight line from `current_position`
    /// to `destination`.
    pub fn start_move(current_position: Coordinates, destination: Coordinates, id: u32) -> (r:
        MovementManager)
        ensures
            r == MovementManager::started(current_position, destination, id),
    {
        let direction_x = MovementManager::determine_direction(current_position.x, destination.x);
        let direction_y = MovementManager::determine_direction(current_position.y, destination.y);
        let between = Vector::get_vector(&current_position, &destination);
        let vector = if between.magnitude.is_zero() {
            Coordinates::new(Scalar::zero(), Scalar::zero())
        } else {
            let unit = Vector::to_unit_vector(&between);
            Coordinates::new(unit.x, unit.y)
        };
        MovementManager {
            current_position,
            destination,
            vector,
            count: 0,
            direction_x,
            direction_y,
            id,
        }
    }

    /// One tick: the command for the entity, or `None` once it has
    /// arrived.
    pub fn pool_move_command(&mut self) -> (r: Option<GameboardObjectOperation>)
        ensures
            (*final(self), r) == old(self).pooled(),
    {
        if self.count < u32::MAX {
            self.count += 1;
        }
        if self.check_reached_status(self.vector.x) && self.check_reached_status(self.vector.y) {
            return None;
        }
        let next_x = self.current_position.x.plus(self.vector.x);
        let next_y = self.current_position.y.plus(self.vector.y);
        let next_position = Coordinates::new(next_x, next_y);
        self.current_position = next_position;
        Some(GameboardObjectOperation::Move(next_position))
    }

    fn check_reached_status(&self, increment: Scalar) -> (r: bool)
        ensures
            r == self.arrived(),
    {
        MovementManager::is_reached(
            &self.direction_y,
            self.current_position.y,
            self.destination.y,
            increment,
        ) && MovementManager::is_reached(
            &self.direction_x,
            self.current_position.x,
            self.destination.x,
            increment,
        )
    }

    /// Whether a coordinate has come as far as its destination. The
    /// increment does not count.
    pub fn is_reached(
        direction: &MovementDirection,
        current_position: Scalar,
        destination: Scalar,
        increment: Scalar,
    ) -> (r: bool)
        ensures
            r == has_reached(*direction, current_position, destination),
    {
        match direction {
            MovementDirection::Backward => current_position.at_most(destination),
            _ => destination.at_most(current_position),
        }
    }

    /// The sign of a sense of travel: one forward, minus one backward, zero
    /// without travel.
    pub fn get_direction(direction: &MovementDirection) -> (r: Scalar)
        ensures
            r@ == match *direction {
                MovementDirection::Forward => ONE_RAW as int,
                MovementDirection::Backward => -(ONE_RAW as int),
                MovementDirection::Still => 0,
            },
    {
        match direction {
            MovementDirection::Forward => Scalar::from_int(1),
            MovementDirection::Backward => Scalar::from_int(-1),
            MovementDirection::Still => Scalar::from_int(0),
        }
    }

    /// The sense of travel from `current_position` to `destination`.
    pub fn determine_direction(current_position: Scalar, destination: Scalar) -> (r:
        MovementDirection)
        ensures
            r == MovementDirection::spec_of(current_position, destination),
    {
        let movemement_direction;
        if destination.less_than(current_position) {
            movemement_direction = MovementDirection::Backward;
        } else if current_position.less_than(destination) {
            movemement_direction = MovementDirection::Forward;
        } else {
            movemement_direction = MovementDirection::Still;
        }
        movemement_direction
    }
}

/// Drives a board by clicks: the left button selects, the right button
/// sends what is selected on its way.
pub struct GameboardController<O: GameboardObject> {
    pub gameboard: Gameboard<O>,
    pub selection_status: SelectionStatus,
    pub movement_status: Option<MovementManager>,
    pub current_cursor_pos: Coordinates,
}

impl<O: GameboardObject> GameboardController<O> {
    /// The board is well formed and what is selected stands on it.
    pub open spec fn wf(&self) -> bool {
        &&& self.gameboard.wf()
        &&& match self.selection_status {
            SelectionStatus::SomethingSelected(id) => self.gameboard.object(id) is Some,
            SelectionStatus::NothingSelected => true,
        }
    }

    /// What a left click at `cursor_pos` selects: the selectable entity
    /// with the lowest identifier whose rectangle holds the point, or
    /// nothing.
    pub open spec fn selection_at(&self, cursor_pos: Coordinates) -> SelectionStatus {
        if exists|id: u32| self.gameboard.selects(id, cursor_pos) {
            SelectionStatus::SomethingSelected(
                choose|id: u32|
                    self.gameboard.selects(id, cursor_pos) && forall|lower: u32|
                        lower < id ==> !self.gameboard.selects(lower, cursor_pos),
            )
        } else {
            SelectionStatus::NothingSelected
        }
    }

    /// The movement under way after a right click at `cursor_pos`: what is
    /// selected sets out for the place that centres it on the point;
    /// without a selection the movement stays as it is.
    pub open spec fn movement_toward(&self, cursor_pos: Coordinates) -> Option<MovementManager> {
        match self.selection_status {
            SelectionStatus::SomethingSelected(id) => {
                let object = self.gameboard.object(id)->0;
                Some(
                    MovementManager::started(
                        object.position(),
                        middle_point_of(cursor_pos, object.size()),
                        id,
                    ),
                )
            },
            SelectionStatus::NothingSelected => self.movement_status,
        }
    }

    /// A controller of `gameboard`, with nothing selected and nothing on
    /// its way.
    pub fn new(gameboard: Gameboard<O>) -> (r: GameboardController<O>)
        ensures
            r.gameboard == gameboard,
            r.selection_status == SelectionStatus::NothingSelected,
            r.movement_status is None,
            r.current_cursor_pos == (Coordinates { x: Scalar { raw: 0 }, y: Scalar { raw: 0 } }),
    {
        GameboardController {
            gameboard,
            selection_status: SelectionStatus::NothingSelected,
            movement_status: None,
            current_cursor_pos: Coordinates::new(Scalar::from_int(0), Scalar::from_int(0)),
        }
    }

    /// Takes one event of the window: notes where the cursor went, handles
    /// a click, and gives the movement under way one tick, whose command
    /// goes to the board. Returns what the board answers to that command,
    /// and `Ok` where there was none.
    pub fn event(&mut self, e: &WindowEvent) -> (r: Result<(), String>)
        requires
            old(self).wf(),
        ensures
            final(self).wf(),
            final(self).gameboard.last_id() == old(self).gameboard.last_id(),
            final(self).gameboard.kinds() == old(self).gameboard.kinds(),
            forall|kind: GameObjectType|
                kind != GameObjectType::Selectable ==> #[trigger] final(self).gameboard.objects_of(
                    kind,
                ) == old(self).gameboard.objects_of(kind),
            final(self).current_cursor_pos == match e.cursor {
                Some(position) => position,
                None => old(self).current_cursor_pos,
            },
            final(self).selection_status == match e.press {
                Some(PressedButton::MouseLeft) => old(self).selection_at(
                    final(self).current_cursor_pos,
                ),
                _ => old(self).selection_status,
            },
            ({
                let movement = match e.press {
                    Some(PressedButton::MouseRight) => old(self).movement_toward(
                        final(self).current_cursor_pos,
                    ),
                    _ => old(self).movement_status,
                };
                match movement {
                    Some(manager) => {
                        &&& final(self).movement_status == Some(manager.pooled().0)
                        &&& match manager.pooled().1 {
                            Some(command) => Gameboard::<O>::executed(
                                old(self).gameboard.objects_of(GameObjectType::Selectable),
                                manager.id,
                                command,
                                final(self).gameboard.objects_of(GameObjectType::Selectable),
                                r,
                            ),
                            None => r is Ok && final(self).gameboard == old(self).gameboard,
                        }
                    },
                    None => {
                        &&& final(self).movement_status is None
                        &&& r is Ok
                        &&& final(self).gameboard == old(self).gameboard
                    },
                }
            }),
    {
        if let Some(cursor_pos) = e.cursor {
            self.current_cursor_pos = cursor_pos;
        }
        if let Some(button) = e.press {
            match button {
                PressedButton::MouseLeft | PressedButton::MouseRight => {
                    let pos = Coordinates::new(self.current_cursor_pos.x, self.current_cursor_pos.y);
                    self.onClick(pos, button);
                },
                _ => (),
            }
        }
        let mut answer: Result<(), String> = Ok(());
        if let Some(manager) = self.movement_status {
            let mut movement_manager = manager;
            if let Some(move_command) = movement_manager.pool_move_command() {
                answer =
                self.gameboard.execute_operation(
                    movement_manager.id,
                    move_command,
                    GameObjectType::Selectable,
                );
            }
            self.movement_status = Some(movement_manager);
        }
        proof {
            self.lemma_selection_survives(*old(self));
        }
        answer
    }

    /// What is selected on a board stays on it while the board keeps the
    /// same identifiers in each kind.
    proof fn lemma_selection_survives(&self, before: GameboardController<O>)
        requires
            self.gameboard.wf(),
            self.gameboard.kinds() == before.gameboard.kinds(),
            forall|kind: GameObjectType| #[trigger]
                self.gameboard.objects_of(kind).dom() == before.gameboard.objects_of(kind).dom(),
        ensures
            forall|id: u32|
                before.gameboard.object(id) is Some ==> self.gameboard.object(id) is Some,
    {
        assert forall|id: u32| before.gameboard.object(id) is Some implies self.gameboard.object(
            id,
        ) is Some by {
            let kind = before.gameboard.kinds()[id];
            assert(before.gameboard.objects_of(kind).dom().contains(id));
            assert(self.gameboard.objects_of(kind).dom().contains(id));
        }
    }

    /// Handles a click: the left button selects, the right button sends
    /// what is selected on its way, any other does nothing.
    #[allow(non_snake_case)]
    pub fn onClick(&mut self, coordinates: Coordinates, button: PressedButton)
        requires
            old(self).wf(),
        ensures
            final(self).wf(),
            final(self).gameboard == old(self).gameboard,
            final(self).current_cursor_pos == old(self).current_cursor_pos,
            final(self).selection_status == match button {
                PressedButton::MouseLeft => old(self).selection_at(coordinates),
                _ => old(self).selection_status,
            },
            final(self).movement_status == match button {
                PressedButton::MouseRight => old(self).movement_toward(coordinates),
                _ => old(self).movement_status,
            },
    {
        match button {
            PressedButton::MouseLeft => self.leftClick(coordinates),
            PressedButton::MouseRight => self.rightClick(coordinates),
            _ => {},
        }
    }

    #[allow(non_snake_case)]
    fn leftClick(&mut self, cursor_pos: Coordinates)
        requires
            old(self).gameboard.wf(),
        ensures
            final(self).wf(),
            final(self).gameboard == old(self).gameboard,
            final(self).current_cursor_pos == old(self).current_cursor_pos,
            final(self).movement_status == old(self).movement_status,
            final(self).selection_status == old(self).selection_at(cursor_pos),
    {
        if let Some(id) = self.gameboard.is_selected(cursor_pos) {
            assert(self.gameboard.selects(id, cursor_pos));
            self.selection_status = SelectionStatus::SomethingSelected(id);
        } else {
            self.selection_status = SelectionStatus::NothingSelected;
        }
    }

    #[allow(non_snake_case)]
    fn rightClick(&mut self, cursor_pos: Coordinates)
        requires
            old(self).wf(),
        ensures
            final(self).wf(),
            final(self).gameboard == old(self).gameboard,
            final(self).current_cursor_pos == old(self).current_cursor_pos,
            final(self).selection_status == old(self).selection_status,
            final(self).movement_status == old(self).movement_toward(cursor_pos),
    {
        match self.selection_status {
            SelectionStatus::SomethingSelected(id) => {
                if let Some(object) = self.gameboard.get_object(id) {
                    let current_pos = object.get_position();
                    let size = object.get_size();
                    let destination = get_middle_point(&cursor_pos, size);
                    let movement_manager = MovementManager::start_move(
                        *current_pos,
                        destination,
                        id,
                    );
                    self.movement_status = Some(movement_manager);
                }
            },
            SelectionStatus::NothingSelected => (),
        }
    }
}

} // verus!
