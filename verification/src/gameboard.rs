//! A board of entities of one making of the caller's choice, kept apart by
//! kind.
//!
//! What stands on this board is anything that has a position and a size and
//! takes operations. The board hands out identifiers from one on and
//! remembers of each the kind under which it was added.

use crate::algebra_basics::lower_right_of;
pub use crate::algebra_basics::{Coordinates, Size};
pub use crate::game_data::game_object::GameObjectType;
use std::collections::HashMap;
use vstd::prelude::*;
use vstd::string::*;

verus! {

/// What can be done to an entity on the board.
#[derive(Clone, Copy, Debug, PartialEq, Eq, Structural)]
pub enum GameboardObjectOperation {
    /// Nothing at all.
    Idle,
    /// Put the entity's upper-left vertex at the given point.
    Move(Coordinates),
}

/// An entity that can stand on the board.
pub trait GameboardObject {
    /// The upper-left vertex.
    spec fn position(&self) -> Coordinates;

    /// The extent.
    spec fn size(&self) -> Size;

    /// Whether `operation` on this entity may end with `result` and leave
    /// it with the given position and size. Each kind of entity says so for
    /// itself.
    spec fn executes(
        &self,
        operation: GameboardObjectOperation,
        result: Result<(), String>,
        position: Coordinates,
        size: Size,
    ) -> bool;

    fn execute_operation(&mut self, operation: GameboardObjectOperation) -> (r: Result<(), String>)
        ensures
            old(self).executes(operation, r, final(self).position(), final(self).size()),
    ;

    fn get_position(&self) -> (r: &Coordinates)
        ensures
            *r == self.position(),
    ;

    fn get_size(&self) -> (r: &Size)
        ensures
            *r == self.size(),
    ;
}

/// An entity that moves where it is told.
pub struct CharacterObject {
    position: Coordinates,
    size: Size,
}

impl CharacterObject {
    pub fn new(position: Coordinates, size: Size) -> (r: CharacterObject)
        ensures
            r.position() == position,
            r.size() == size,
    {
        CharacterObject { position, size }
    }

    fn change_position(&mut self, new_position: Coordinates)
        ensures
            final(self).position == new_position,
            final(self).size == old(self).size,
    {
        self.position.change(new_position);
    }
}

impl GameboardObject for CharacterObject {
    closed spec fn position(&self) -> Coordinates {
        self.position
    }

    closed spec fn size(&self) -> Size {
        self.size
    }

    /// Every operation succeeds; a move puts the entity at its point, and
    /// nothing else changes.
    open spec fn executes(
        &self,
        operation: GameboardObjectOperation,
        result: Result<(), String>,
        position: Coordinates,
        size: Size,
    ) -> bool {
        &&& result is Ok
        &&& size == self.size()
        &&& position == match operation {
            GameboardObjectOperation::Move(coordinates) => coordinates,
            GameboardObjectOperation::Idle => self.position(),
        }
    }

    fn execute_operation(&mut self, operation: GameboardObjectOperation) -> (r: Result<(), String>) {
        match operation {
            GameboardObjectOperation::Move(coordinates) => {
                self.change_position(coordinates);
                Ok(())
            },
            _ => Ok(()),
        }
    }

    fn get_position(&self) -> (r: &Coordinates) {
        &self.position
    }

    fn get_size(&self) -> (r: &Size) {
        &self.size
    }
}

/// `coordinates` lies in the rectangle at `position` of extent `size`,
/// boundary included.
pub open spec fn covers(position: Coordinates, size: Size, coordinates: Coordinates) -> bool {
    &&& position.x@ <= coordinates.x@ <= lower_right_of(position, size).x@
    &&& position.y@ <= coordinates.y@ <= lower_right_of(position, size).y@
}

/// Whether `coordinates` lies in the entity's rectangle, boundary included.
pub fn check_if_gameboard_object_is_selected<O: GameboardObject>(
    object: &O,
    coordinates: &Coordinates,
) -> (r: bool)
    ensures
        r == covers(object.position(), object.size(), *coordinates),
{
    let object_size = object.get_size();
    let object_coordinates = object.get_position();
    let bottom_x = object_coordinates.x.plus(object_size.width);
    let bottom_y = object_coordinates.y.plus(object_size.height);
    object_coordinates.x.at_most(coordinates.x) && coordinates.x.at_most(bottom_x)
        && object_coordinates.y.at_most(coordinates.y) && coordinates.y.at_most(bottom_y)
}

/// The entities of the board, kept apart by kind.
pub struct Gameboard<O: GameboardObject> {
    static_objects: HashMap<u32, O>,
    interactable_objects: HashMap<u32, O>,
    selectable_objects: HashMap<u32, O>,
    id_to_object_type: HashMap<u32, GameObjectType>,
    last_id: u32,
}

impl<O: GameboardObject> Gameboard<O> {
    /// The entities of the given kind, by identifier.
    pub closed spec fn objects_of(&self, object_type: GameObjectType) -> Map<u32, O> {
        match object_type {
            GameObjectType::Static => self.static_objects@,
            GameObjectType::Interactable => self.interactable_objects@,
            GameObjectType::Selectable => self.selectable_objects@,
        }
    }

    /// The kind under which each identifier was handed out. An identifier
    /// keeps its kind when its entity is removed.
    pub closed spec fn kinds(&self) -> Map<u32, GameObjectType> {
        self.id_to_object_type@
    }

    /// The identifier handed out last; zero before the first.
    pub closed spec fn last_id(&self) -> u32 {
        self.last_id
    }

    /// The entity under `id`, where the board knows the identifier and
    /// still holds its entity.
    pub open spec fn object(&self, id: u32) -> Option<O> {
        if self.kinds().contains_key(id) && self.objects_of(self.kinds()[id]).contains_key(id) {
            Some(self.objects_of(self.kinds()[id])[id])
        } else {
            None
        }
    }

    /// Identifiers are handed out once: every one in use is at most the
    /// last one, and every entity is kept under the kind that the board
    /// remembers for its identifier.
    pub open spec fn wf(&self) -> bool {
        &&& forall|id: u32| #[trigger] self.kinds().contains_key(id) ==> 0 < id <= self.last_id()
        &&& forall|object_type: GameObjectType, id: u32| #[trigger]
            self.objects_of(object_type).contains_key(id) ==> self.kinds().contains_key(id)
                && self.kinds()[id] == object_type
    }

    /// The empty board.
    pub fn new() -> (r: Gameboard<O>)
        ensures
            r.wf(),
            r.last_id() == 0,
            r.kinds() == Map::<u32, GameObjectType>::empty(),
            forall|object_type: GameObjectType| #[trigger]
                r.objects_of(object_type) == Map::<u32, O>::empty(),
    {
        Gameboard {
            static_objects: HashMap::new(),
            interactable_objects: HashMap::new(),
            selectable_objects: HashMap::new(),
            id_to_object_type: HashMap::new(),
            last_id: 0,
        }
    }

    fn get_object_type(id_to_object_type: &HashMap<u32, GameObjectType>, id: u32) -> (r: Option<
        &GameObjectType,
    >)
        ensures
            match r {
                Some(object_type) => id_to_object_type@.contains_key(id) && *object_type
                    == id_to_object_type@[id],
                None => !id_to_object_type@.contains_key(id),
            },
    {
        broadcast use vstd::std_specs::hash::group_hash_axioms;

        id_to_object_type.get(&id)
    }

    /// Whether another entity can be added: identifiers are left.
    pub fn has_room(&self) -> (r: bool)
        ensures
            r == (self.last_id() < u32::MAX),
    {
        self.last_id < u32::MAX
    }

    /// Stores `object` under the next identifier, as an entity of the given
    /// kind, and returns the identifier.
    pub fn add_object(&mut self, object_type: GameObjectType, object: O) -> (id: u32)
        requires
            old(self).wf(),
            old(self).last_id() < u32::MAX,
        ensures
            final(self).wf(),
            id == old(self).last_id() + 1,
            final(self).last_id() == id,
            final(self).kinds() == old(self).kinds().insert(id, object_type),
            final(self).objects_of(object_type) == old(self).objects_of(object_type).insert(
                id,
                object,
            ),
            forall|other: GameObjectType|
                other != object_type ==> #[trigger] final(self).objects_of(other) == old(
                    self,
                ).objects_of(other),
    {
        broadcast use vstd::std_specs::hash::group_hash_axioms;

        self.last_id += 1;
        self.id_to_object_type.insert(self.last_id, object_type);
        match object_type {
            GameObjectType::Static => {
                self.static_objects.insert(self.last_id, object);
            },
            GameObjectType::Interactable => {
                self.interactable_objects.insert(self.last_id, object);
            },
            GameObjectType::Selectable => {
                self.selectable_objects.insert(self.last_id, object);
            },
        }
        assert forall|id: u32| #[trigger] self.kinds().contains_key(id) implies 0 < id
            <= self.last_id() by {
            if id != self.last_id {
                assert(old(self).kinds().contains_key(id));
            }
        }
        assert forall|kind: GameObjectType, id: u32| #[trigger]
            self.objects_of(kind).contains_key(id) implies self.kinds().contains_key(id)
            && self.kinds()[id] == kind by {
            if id != self.last_id {
                assert(old(self).objects_of(kind).contains_key(id));
            } else if kind != object_type {
                assert(old(self).objects_of(kind).contains_key(id));
                assert(old(self).kinds().contains_key(id));
            }
        }
        self.last_id
    }

    /// Removes the entity under `id`, if the board knows the identifier.
    pub fn remove_object(&mut self, id: u32)
        requires
            old(self).wf(),
        ensures
            final(self).wf(),
            final(self).last_id() == old(self).last_id(),
            final(self).kinds() == old(self).kinds(),
            final(self).object(id) is None,
            forall|object_type: GameObjectType| #[trigger]
                final(self).objects_of(object_type) == old(self).objects_of(object_type).remove(
                    id,
                ),
    {
        broadcast use vstd::std_specs::hash::group_hash_axioms;

        let object_type = match Gameboard::<O>::get_object_type(&self.id_to_object_type, id) {
            Some(object_type) => *object_type,
            None => {
                assert forall|kind: GameObjectType| #[trigger]
                    self.objects_of(kind) == old(self).objects_of(kind).remove(id) by {
                    assert(!old(self).objects_of(kind).contains_key(id));
                    assert(self.objects_of(kind) =~= old(self).objects_of(kind).remove(id));
                }
                assert forall|kind: GameObjectType, other: u32| #[trigger]
                    self.objects_of(kind).contains_key(other) implies self.kinds().contains_key(
                    other,
                ) && self.kinds()[other] == kind by {
                    assert(old(self).objects_of(kind).contains_key(other));
                }
                assert forall|other: u32| #[trigger] self.kinds().contains_key(other) implies 0
                    < other <= self.last_id() by {
                    assert(old(self).kinds().contains_key(other));
                }
                return ;
            },
        };
        match object_type {
            GameObjectType::Static => {
                self.static_objects.remove(&id);
            },
            GameObjectType::Interactable => {
                self.interactable_objects.remove(&id);
            },
            GameObjectType::Selectable => {
                self.selectable_objects.remove(&id);
            },
        }
        assert forall|kind: GameObjectType| #[trigger]
            self.objects_of(kind) == old(self).objects_of(kind).remove(id) by {
            if kind != object_type {
                assert(!old(self).objects_of(kind).contains_key(id));
            }
            assert(self.objects_of(kind) =~= old(self).objects_of(kind).remove(id));
        }
        assert forall|kind: GameObjectType, other: u32| #[trigger]
            self.objects_of(kind).contains_key(other) implies self.kinds().contains_key(other)
            && self.kinds()[other] == kind by {
            assert(old(self).objects_of(kind).contains_key(other));
        }
        assert forall|other: u32| #[trigger] self.kinds().contains_key(other) implies 0 < other
            <= self.last_id() by {
            assert(old(self).kinds().contains_key(other));
        }
    }

    /// The entity under `id`.
    pub fn get_object(&self, id: u32) -> (r: Option<&O>)
        ensures
            match r {
                Some(object) => self.object(id) == Some(*object),
                None => self.object(id) is None,
            },
    {
        broadcast use vstd::std_specs::hash::group_hash_axioms;

        if let Some(object_type) = Gameboard::<O>::get_object_type(&self.id_to_object_type, id) {
            return match object_type {
                GameObjectType::Static => self.static_objects.get(&id),
                GameObjectType::Interactable => self.interactable_objects.get(&id),
                GameObjectType::Selectable => self.selectable_objects.get(&id),
            };
        }
        None
    }

    /// Applies `operation` to the entity that is kept under `id` among
    /// those of the given kind, and hands on what the entity answers.
    /// Without such an entity the answer is the error `No such object`.
    pub fn execute_operation(
        &mut self,
        id: u32,
        operation: GameboardObjectOperation,
        object_type: GameObjectType,
    ) -> (r: Result<(), String>)
        requires
            old(self).wf(),
        ensures
            final(self).wf(),
            final(self).last_id() == old(self).last_id(),
            final(self).kinds() == old(self).kinds(),
            forall|other: GameObjectType|
                other != object_type ==> #[trigger] final(self).objects_of(other) == old(
                    self,
                ).objects_of(other),
            Gameboard::<O>::executed(
                old(self).objects_of(object_type),
                id,
                operation,
                final(self).objects_of(object_type),
                r,
            ),
    {
        let r = match object_type {
            GameObjectType::Static => Gameboard::<O>::try_to_execute_for_object_type(
                id,
                operation,
                &mut self.static_objects,
            ),
            GameObjectType::Interactable => Gameboard::<O>::try_to_execute_for_object_type(
                id,
                operation,
                &mut self.interactable_objects,
            ),
            GameObjectType::Selectable => Gameboard::<O>::try_to_execute_for_object_type(
                id,
                operation,
                &mut self.selectable_objects,
            ),
        };
        assert forall|kind: GameObjectType, other: u32| #[trigger]
            self.objects_of(kind).contains_key(other) implies self.kinds().contains_key(other)
            && self.kinds()[other] == kind by {
            if kind == object_type {
                assert(self.objects_of(kind).dom() == old(self).objects_of(kind).dom());
                assert(old(self).objects_of(kind).dom().contains(other));
            }
            assert(old(self).objects_of(kind).contains_key(other));
        }
        assert forall|other: u32| #[trigger] self.kinds().contains_key(other) implies 0 < other
            <= self.last_id() by {
            assert(old(self).kinds().contains_key(other));
        }
        r
    }

    /// What an operation on the entity under `id` makes of a collection:
    /// the same identifiers, the other entities untouched, and the entity
    /// itself as it says that the operation leaves it. Without the entity
    /// nothing changes and the result is the error `No such object`.
    pub open spec fn executed(
        before: Map<u32, O>,
        id: u32,
        operation: GameboardObjectOperation,
        after: Map<u32, O>,
        result: Result<(), String>,
    ) -> bool {
        if before.contains_key(id) {
            &&& after.dom() == before.dom()
            &&& forall|other: u32|
                other != id && before.contains_key(other) ==> #[trigger] after[other]
                    == before[other]
            &&& before[id].executes(operation, result, after[id].position(), after[id].size())
        } else {
            &&& after == before
            &&& result is Err
            &&& result->Err_0@ == "No such object"@
        }
    }

    fn try_to_execute_for_object_type(
        id: u32,
        operation: GameboardObjectOperation,
        object_collection: &mut HashMap<u32, O>,
    ) -> (r: Result<(), String>)
        ensures
            Gameboard::<O>::executed(
                old(object_collection)@,
                id,
                operation,
                final(object_collection)@,
                r,
            ),
    {
        broadcast use vstd::std_specs::hash::group_hash_axioms;

        match object_collection.remove(&id) {
            Some(found) => {
                let mut object = found;
                let result = object.execute_operation(operation);
                object_collection.insert(id, object);
                assert(object_collection@.dom() =~= old(object_collection)@.dom());
                assert(object_collection@[id] == object);
                assert(old(object_collection)@[id] == found);
                result
            },
            None => {
                assert(object_collection@ =~= old(object_collection)@);
                Err(String::from_str("No such object"))
            },
        }
    }

    /// `id` names a selectable entity whose rectangle holds `cursor_pos`.
    pub open spec fn selects(&self, id: u32, cursor_pos: Coordinates) -> bool {
        let selectable = self.objects_of(GameObjectType::Selectable);
        selectable.contains_key(id) && covers(
            selectable[id].position(),
            selectable[id].size(),
            cursor_pos,
        )
    }

    /// The selectable entity under the cursor: of those whose rectangle,
    /// boundary included, holds `cursor_pos`, the one with the lowest
    /// identifier.
    pub fn is_selected(&self, cursor_pos: Coordinates) -> (r: Option<u32>)
        requires
            self.wf(),
        ensures
            match r {
                Some(id) => self.selects(id, cursor_pos) && forall|lower: u32|
                    lower < id ==> !self.selects(lower, cursor_pos),
                None => forall|id: u32| !self.selects(id, cursor_pos),
            },
    {
        broadcast use vstd::std_specs::hash::group_hash_axioms;

        let mut id: u32 = 0;
        while id < self.last_id
            invariant
                self.wf(),
                id <= self.last_id,
                forall|lower: u32| lower <= id ==> !self.selects(lower, cursor_pos),
            decreases self.last_id - id,
        {
            id += 1;
            if let Some(object) = self.selectable_objects.get(&id) {
                if check_if_gameboard_object_is_selected(object, &cursor_pos) {
                    return Some(id);
                }
            }
        }
        assert forall|any: u32| !self.selects(any, cursor_pos) by {
            if self.objects_of(GameObjectType::Selectable).contains_key(any) {
                assert(self.kinds().contains_key(any));
            }
        }
        None
    }
}

} // verus!
