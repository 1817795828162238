//! The movement stepper: it walks a point along a list of waypoints, one
//! unit of distance per tick.

use crate::algebra_basics::{Coordinates, Vector};
use crate::game_controller::pathfinding::{find_path, path_between};
use crate::game_data::game_object::GameObject;
use crate::scalar::{trunc_div, Scalar, ONE_RAW};
use vstd::prelude::*;

verus! {

/// What a stepper holds, as a value of specifications.
pub struct MovementState {
    /// The waypoints still to reach, the next one first.
    pub path: Seq<Coordinates>,
    /// Where the moving point is.
    pub current_position: Coordinates,
    /// What is added to the position at each tick.
    pub current_vector: Vector,
}

/// Two points are taken for the same place where their coordinates agree
/// once truncated to whole numbers: the fraction is dropped and the sign
/// kept.
pub open spec fn same_place(a: Coordinates, b: Coordinates) -> bool {
    &&& trunc_div(a.x@, ONE_RAW as int) == trunc_div(b.x@, ONE_RAW as int)
    &&& trunc_div(a.y@, ONE_RAW as int) == trunc_div(b.y@, ONE_RAW as int)
}

/// The step of one unit of distance from `from` toward `to`; the zero
/// vector where the two are too close to tell a direction.
pub open spec fn heading(from: Coordinates, to: Coordinates) -> Vector {
    let vector = Vector::between(from, to);
    if vector.magnitude@ == 0 {
        Vector { x: Scalar { raw: 0 }, y: Scalar { raw: 0 }, magnitude: Scalar { raw: 0 } }
    } else {
        vector.unit()
    }
}

/// The waypoints with which a stepper starts: the planned path, the
/// destination alone where the point already stands on it, and none where
/// no path is found.
pub open spec fn initial_path(
    current_position: Coordinates,
    destination: Coordinates,
    objects: Seq<GameObject>,
) -> Seq<Coordinates> {
    if current_position == destination {
        seq![destination]
    } else {
        match path_between(current_position, destination, objects) {
            Some(path) => path,
            None => Seq::empty(),
        }
    }
}

impl MovementState {
    /// The state in which a stepper starts.
    pub open spec fn initial(
        current_position: Coordinates,
        destination: Coordinates,
        objects: Seq<GameObject>,
    ) -> MovementState {
        let path = initial_path(current_position, destination, objects);
        MovementState {
            path,
            current_position,
            current_vector: if path.len() == 0 {
                heading(current_position, current_position)
            } else {
                heading(current_position, path[0])
            },
        }
    }

    /// The state has come to rest: no waypoint is left.
    pub open spec fn finished(self) -> bool {
        self.path.len() == 0
    }

    /// The position moved by the vector.
    pub open spec fn advanced(position: Coordinates, vector: Vector) -> Coordinates {
        Coordinates { x: position.x.spec_plus(vector.x), y: position.y.spec_plus(vector.y) }
    }

    /// One tick: the state after it and the position it yields.
    ///
    /// Without waypoints nothing changes and nothing is yielded. Where the
    /// position is at the next waypoint, that waypoint is dropped; if it was
    /// the last, nothing is yielded, else the vector is turned toward the
    /// one after it. In every other case the position moves by the vector
    /// and is yielded.
    pub open spec fn step(self) -> (MovementState, Option<Coordinates>) {
        if self.path.len() == 0 {
            (self, None)
        } else if same_place(self.current_position, self.path[0]) {
            let rest = self.path.subrange(1, self.path.len() as int);
            if rest.len() == 0 {
                (
                    MovementState {
                        path: rest,
                        current_position: self.current_position,
                        current_vector: self.current_vector,
                    },
                    None,
                )
            } else {
                let vector = heading(self.current_position, rest[0]);
                let position = MovementState::advanced(self.current_position, vector);
                (
                    MovementState { path: rest, current_position: position, current_vector: vector },
                    Some(position),
                )
            }
        } else {
            let position = MovementState::advanced(self.current_position, self.current_vector);
            (
                MovementState {
                    path: self.path,
                    current_position: position,
                    current_vector: self.current_vector,
                },
                Some(position),
            )
        }
    }
}

/// Walks a point along its waypoints, one unit of distance per tick.
pub struct MovementHandler {
    path: Vec<Coordinates>,
    current_position: Coordinates,
    current_vector: Vector,
}

impl View for MovementHandler {
    type V = MovementState;

    closed spec fn view(&self) -> MovementState {
        MovementState {
            path: self.path@,
            current_position: self.current_position,
            current_vector: self.current_vector,
        }
    }
}

fn head_toward(from: &Coordinates, to: &Coordinates) -> (r: Vector)
    ensures
        r == heading(*from, *to),
{
    let vector = Vector::get_vector(from, to);
    if vector.magnitude.is_zero() {
        Vector { x: Scalar::zero(), y: Scalar::zero(), magnitude: Scalar::zero() }
    } else {
        Vector::to_unit_vector(&vector)
    }
}

fn is_same_place(a: &Coordinates, b: &Coordinates) -> (r: bool)
    ensures
        r == same_place(*a, *b),
{
    a.x.truncated_to_whole() == b.x.truncated_to_whole() && a.y.truncated_to_whole()
        == b.y.truncated_to_whole()
}

impl MovementHandler {
    /// A stepper at `current_position` that will walk to `destination`
    /// round the static entities among `game_objects`.
    pub fn start(
        current_position: Coordinates,
        destination: Coordinates,
        game_objects: &Vec<GameObject>,
    ) -> (r: MovementHandler)
        ensures
            r@ == MovementState::initial(current_position, destination, game_objects@),
    {
        let mut path: Vec<Coordinates> = Vec::new();
        if current_position == destination {
            path.push(destination);
            assert(path@ == seq![destination]);
        } else {
            match find_path(&current_position, &destination, game_objects) {
                Some(found) => {
                    path = found;
                },
                None => {},
            }
        }
        let current_vector = if path.len() == 0 {
            head_toward(&current_position, &current_position)
        } else {
            head_toward(&current_position, &path[0])
        };
        MovementHandler { path, current_position, current_vector }
    }

    /// One tick. Returns the new position, or `None` once the last waypoint
    /// is reached.
    pub fn poll_movement(&mut self) -> (r: Option<Coordinates>)
        ensures
            (final(self)@, r) == old(self)@.step(),
            r is None ==> final(self)@.finished(),
            old(self)@.finished() ==> r is None && final(self)@ == old(self)@,
    {
        if self.path.len() == 0 {
            return None;
        }
        if self.is_reached() {
            self.path.remove(0);
            assert(self.path@ == old(self).path@.subrange(1, old(self).path@.len() as int));
            if self.path.len() == 0 {
                return None;
            }
            self.current_vector = head_toward(&self.current_position, &self.path[0]);
        }
        self.current_position.x = self.current_position.x.plus(self.current_vector.x);
        self.current_position.y = self.current_position.y.plus(self.current_vector.y);
        Some(self.current_position)
    }

    /// Whether the position is at the next waypoint, or no waypoint is
    /// left.
    pub fn is_reached(&self) -> (r: bool)
        ensures
            r == (self@.finished() || same_place(self@.current_position, self@.path[0])),
    {
        if self.path.len() == 0 {
            return true;
        }
        is_same_place(&self.current_position, &self.path[0])
    }

    /// Where the moving point is.
    pub fn position(&self) -> (r: Coordinates)
        ensures
            r == self@.current_position,
    {
        self.current_position
    }

    /// How many waypoints are left.
    pub fn waypoints_left(&self) -> (r: usize)
        ensures
            r == self@.path.len(),
    {
        self.path.len()
    }
}

/// Once a tick has yielded nothing, the stepper is at rest: every later
/// tick yields nothing and changes nothing.
pub proof fn law_rest_is_final(state: MovementState)
    requires
        state.step().1 is None,
    ensures
        state.step().0.finished(),
        state.step().0.step().1 is None,
        state.step().0.step().0 == state.step().0,
{
}

} // verus!
