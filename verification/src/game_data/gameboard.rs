//! The board: entities stored under the identifiers it hands out.

use crate::algebra_basics::{lower_right_of, Coordinates};
use crate::game_data::game_object::GameObject;
use std::collections::HashMap;
use vstd::prelude::*;

verus! {

/// What can be done to an entity on the board.
#[derive(Clone, Copy, Debug, PartialEq, Eq, Structural)]
pub enum GameboardObjectOperation {
    /// Put the entity's upper-left vertex at the given point.
    Move(Coordinates),
}

/// The entities of the board, each under its identifier. Identifiers are
/// handed out in ascending order, starting at zero, and never reused.
pub struct Gameboard {
    game_objects: HashMap<u32, GameObject>,
    next_id: u32,
}

impl View for Gameboard {
    type V = Map<u32, GameObject>;

    /// The entities by identifier.
    closed spec fn view(&self) -> Map<u32, GameObject> {
        self.game_objects@
    }
}

/// `coordinates` lies in the entity's rectangle, boundary included.
pub open spec fn area_contains(object: GameObject, coordinates: Coordinates) -> bool {
    &&& object.position.x@ <= coordinates.x@ <= lower_right_of(object.position, object.size).x@
    &&& object.position.y@ <= coordinates.y@ <= lower_right_of(object.position, object.size).y@
}

/// Whether `coordinates` lies in the entity's rectangle, boundary included.
pub fn check_if_object_area_contains_coordinates(
    object: &GameObject,
    coordinates: &Coordinates,
) -> (r: bool)
    ensures
        r == area_contains(*object, *coordinates),
{
    let bottom_x = object.position.x.plus(object.size.width);
    let bottom_y = object.position.y.plus(object.size.height);
    object.position.x.at_most(coordinates.x) && coordinates.x.at_most(bottom_x)
        && object.position.y.at_most(coordinates.y) && coordinates.y.at_most(bottom_y)
}

impl Gameboard {
    /// The identifier that the next entity will get.
    pub closed spec fn next_id(&self) -> u32 {
        self.next_id
    }

    /// Every identifier in use was handed out before.
    pub open spec fn wf(&self) -> bool {
        forall|id: u32| #[trigger] self@.contains_key(id) ==> id < self.next_id()
    }

    /// The empty board.
    pub fn new() -> (r: Gameboard)
        ensures
            r.wf(),
            r@ == Map::<u32, GameObject>::empty(),
            r.next_id() == 0,
    {
        Gameboard { game_objects: HashMap::new(), next_id: 0 }
    }

    /// Whether another entity can be added: identifiers are left.
    pub fn has_room(&self) -> (r: bool)
        ensures
            r == (self.next_id() < u32::MAX),
    {
        self.next_id < u32::MAX
    }

    /// Stores `object` under a fresh identifier and returns it.
    pub fn add_object(&mut self, object: GameObject) -> (id: u32)
        requires
            old(self).wf(),
            old(self).next_id() < u32::MAX,
        ensures
            final(self).wf(),
            id == old(self).next_id(),
            !old(self)@.contains_key(id),
            final(self)@ == old(self)@.insert(id, object),
            final(self).next_id() == id + 1,
    {
        broadcast use vstd::std_specs::hash::group_hash_axioms;

        self.game_objects.insert(self.next_id, object);
        let current_id = self.next_id;
        self.next_id += 1;
        assert forall|id: u32| #[trigger] self@.contains_key(id) implies id < self.next_id() by {
            if id != current_id {
                assert(old(self)@.contains_key(id));
            }
        }
        current_id
    }

    /// Removes the entity stored under `id`, if there is one.
    pub fn remove_object(&mut self, id: u32)
        requires
            old(self).wf(),
        ensures
            final(self).wf(),
            final(self)@ == old(self)@.remove(id),
            final(self).next_id() == old(self).next_id(),
    {
        broadcast use vstd::std_specs::hash::group_hash_axioms;

        self.game_objects.remove(&id);
        assert forall|other: u32| #[trigger] self@.contains_key(other) implies other
            < self.next_id() by {
            assert(old(self)@.contains_key(other));
        }
    }

    /// The entity stored under `id`.
    pub fn get_object_by_id(&self, id: u32) -> (r: Option<&GameObject>)
        ensures
            match r {
                Some(object) => self@.contains_key(id) && *object == self@[id],
                None => !self@.contains_key(id),
            },
    {
        broadcast use vstd::std_specs::hash::group_hash_axioms;

        self.game_objects.get(&id)
    }

    /// Applies `operation` to the entity stored under `id`; without such an
    /// entity nothing changes.
    pub fn execute_operation(&mut self, id: u32, operation: GameboardObjectOperation)
        requires
            old(self).wf(),
        ensures
            final(self).wf(),
            final(self).next_id() == old(self).next_id(),
            final(self)@ == Gameboard::after_operation(old(self)@, id, operation),
    {
        broadcast use vstd::std_specs::hash::group_hash_axioms;

        let moved = match self.game_objects.get(&id) {
            Some(object) => match operation {
                GameboardObjectOperation::Move(new_position) => Some(
                    GameObject {
                        object_type: object.object_type,
                        position: new_position,
                        size: object.size,
                    },
                ),
            },
            None => None,
        };
        if let Some(object) = moved {
            self.game_objects.insert(id, object);
        }
        assert(final(self)@ =~= Gameboard::after_operation(old(self)@, id, operation));
    }

    /// The first entity, in the order of identifiers, of which `querry`
    /// holds, with its identifier.
    pub fn querry_object<Q: Fn(u32, &GameObject) -> bool>(&self, querry: Q) -> (r: Option<
        (u32, GameObject),
    >)
        requires
            self.wf(),
            forall|id: u32, object: GameObject| #[trigger] querry.requires((id, &object)),
        ensures
            match r {
                Some((id, object)) => {
                    &&& self@.contains_key(id)
                    &&& self@[id] == object
                    &&& querry.ensures((id, &object), true)
                    &&& forall|lower: u32|
                        lower < id && #[trigger] self@.contains_key(lower) ==> querry.ensures(
                            (lower, &self@[lower]),
                            false,
                        )
                },
                None => forall|id: u32| #[trigger]
                    self@.contains_key(id) ==> querry.ensures((id, &self@[id]), false),
            },
    {
        broadcast use vstd::std_specs::hash::group_hash_axioms;

        let mut id: u32 = 0;
        while id < self.next_id
            invariant
                self.wf(),
                id <= self.next_id,
                forall|id: u32, object: GameObject| #[trigger] querry.requires((id, &object)),
                forall|lower: u32|
                    lower < id && #[trigger] self@.contains_key(lower) ==> querry.ensures(
                        (lower, &self@[lower]),
                        false,
                    ),
            decreases self.next_id - id,
        {
            if let Some(object) = self.game_objects.get(&id) {
                if querry(id, object) {
                    return Some((id, *object));
                }
            }
            id += 1;
        }
        None
    }

    /// All entities, in the order of their identifiers.
    pub fn get_all_objects(&self) -> (r: Vec<GameObject>)
        requires
            self.wf(),
        ensures
            r@ == Gameboard::in_order(self@, self.next_id() as nat),
    {
        broadcast use vstd::std_specs::hash::group_hash_axioms;

        let mut objects: Vec<GameObject> = Vec::new();
        let mut id: u32 = 0;
        while id < self.next_id
            invariant
                id <= self.next_id,
                objects@ == Gameboard::in_order(self@, id as nat),
            decreases self.next_id - id,
        {
            if let Some(object) = self.game_objects.get(&id) {
                objects.push(*object);
            }
            id += 1;
        }
        objects
    }

    /// The entities stored under identifiers below `limit`, in the order
    /// of their identifiers.
    pub open spec fn in_order(objects: Map<u32, GameObject>, limit: nat) -> Seq<GameObject>
        decreases limit,
    {
        if limit == 0 {
            Seq::empty()
        } else {
            let before = Gameboard::in_order(objects, (limit - 1) as nat);
            if objects.contains_key((limit - 1) as u32) {
                before.push(objects[(limit - 1) as u32])
            } else {
                before
            }
        }
    }

    /// All entities with their identifiers, in ascending order of these.
    pub fn get_all_entries(&self) -> (r: Vec<(u32, GameObject)>)
        requires
            self.wf(),
        ensures
            r@ == Gameboard::entries_in_order(self@, self.next_id() as nat),
    {
        broadcast use vstd::std_specs::hash::group_hash_axioms;

        let mut entries: Vec<(u32, GameObject)> = Vec::new();
        let mut id: u32 = 0;
        while id < self.next_id
            invariant
                id <= self.next_id,
                entries@ == Gameboard::entries_in_order(self@, id as nat),
            decreases self.next_id - id,
        {
            if let Some(object) = self.game_objects.get(&id) {
                entries.push((id, *object));
            }
            id += 1;
        }
        entries
    }

    /// The entities stored under identifiers below `limit`, each with its
    /// identifier, in ascending order of these.
    pub open spec fn entries_in_order(objects: Map<u32, GameObject>, limit: nat) -> Seq<
        (u32, GameObject),
    >
        decreases limit,
    {
        if limit == 0 {
            Seq::empty()
        } else {
            let before = Gameboard::entries_in_order(objects, (limit - 1) as nat);
            if objects.contains_key((limit - 1) as u32) {
                before.push(((limit - 1) as u32, objects[(limit - 1) as u32]))
            } else {
                before
            }
        }
    }

    /// The identifier that the next entity would get.
    pub fn upcoming_id(&self) -> (r: u32)
        ensures
            r == self.next_id(),
    {
        self.next_id
    }

    /// The entities after `operation` on the one stored under `id`.
    pub open spec fn after_operation(
        objects: Map<u32, GameObject>,
        id: u32,
        operation: GameboardObjectOperation,
    ) -> Map<u32, GameObject> {
        if objects.contains_key(id) {
            match operation {
                GameboardObjectOperation::Move(new_position) => objects.insert(
                    id,
                    GameObject {
                        object_type: objects[id].object_type,
                        position: new_position,
                        size: objects[id].size,
                    },
                ),
            }
        } else {
            objects
        }
    }
}

} // verus!
