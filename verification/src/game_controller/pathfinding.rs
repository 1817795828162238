//! The obstacle-avoiding path planner.
//!
//! A path is planned along the straight line from a point to the
//! destination. Where a static entity stands on that line, the planner goes
//! on from two corners of the entity, chosen by the sense of travel, and
//! joins what it finds from both.

use crate::algebra_basics::{
    Coordinates,
    LineEquation,
    RectangleIntersectionPoints,
    RectangleLineEquations,
    RectangleVertexes,
};
use crate::game_data::game_object::{GameObject, GameObjectType};
use crate::game_data::gameboard::{area_contains, check_if_object_area_contains_coordinates};
use crate::scalar::Scalar;
use vstd::prelude::*;

verus! {

/// How many obstacles deep a detour may nest before the planner gives up.
pub const MAX_DETOUR_DEPTH: u32 = 12;

/// The sense of travel along one axis.
#[derive(Clone, Copy, Debug, PartialEq, Eq, Structural)]
pub enum MovementDirection {
    /// The destination's coordinate is greater.
    Forward,
    /// The destination's coordinate is less.
    Backward,
    /// Both coordinates are equal.
    Still,
}

impl MovementDirection {
    /// The sense of travel from `current` to `destination`, as a value of
    /// specifications.
    pub open spec fn spec_of(current: Scalar, destination: Scalar) -> MovementDirection {
        if current@ > destination@ {
            MovementDirection::Backward
        } else if current@ < destination@ {
            MovementDirection::Forward
        } else {
            MovementDirection::Still
        }
    }

    /// The sense of travel from `current` to `destination`.
    pub fn of(current: Scalar, destination: Scalar) -> (r: MovementDirection)
        ensures
            r == MovementDirection::spec_of(current, destination),
    {
        if destination.less_than(current) {
            MovementDirection::Backward
        } else if current.less_than(destination) {
            MovementDirection::Forward
        } else {
            MovementDirection::Still
        }
    }

    /// Whether `anchor` lies ahead of `current` and before `destination` in
    /// this sense of travel. Without travel along the axis every anchor
    /// does.
    pub open spec fn spec_holds_between(
        self,
        anchor: Scalar,
        current: Scalar,
        destination: Scalar,
    ) -> bool {
        match self {
            MovementDirection::Forward => current@ < anchor@ < destination@,
            MovementDirection::Backward => destination@ < anchor@ < current@,
            MovementDirection::Still => true,
        }
    }

    /// Whether `anchor` lies ahead of `current` and before `destination` in
    /// this sense of travel.
    pub fn holds_between(self, anchor: Scalar, current: Scalar, destination: Scalar) -> (r: bool)
        ensures
            r == self.spec_holds_between(anchor, current, destination),
    {
        match self {
            MovementDirection::Forward => current.less_than(anchor) && anchor.less_than(
                destination,
            ),
            MovementDirection::Backward => destination.less_than(anchor) && anchor.less_than(
                current,
            ),
            MovementDirection::Still => true,
        }
    }
}

/// A vertex of an axis-aligned rectangle.
#[derive(Clone, Copy, Debug, PartialEq, Eq, Structural)]
pub enum Corner {
    UpperLeft,
    LowerLeft,
    UpperRight,
    LowerRight,
}

impl Corner {
    /// The vertex of `vertexes` that this corner names, as a value of
    /// specifications.
    pub open spec fn spec_point(self, vertexes: RectangleVertexes) -> Coordinates {
        match self {
            Corner::UpperLeft => vertexes.upper_left,
            Corner::LowerLeft => vertexes.lower_left,
            Corner::UpperRight => vertexes.upper_right,
            Corner::LowerRight => vertexes.lower_right,
        }
    }

    /// The vertex of `vertexes` that this corner names.
    pub fn point(self, vertexes: &RectangleVertexes) -> (r: Coordinates)
        ensures
            r == self.spec_point(*vertexes),
    {
        match self {
            Corner::UpperLeft => vertexes.upper_left,
            Corner::LowerLeft => vertexes.lower_left,
            Corner::UpperRight => vertexes.upper_right,
            Corner::LowerRight => vertexes.lower_right,
        }
    }
}

/// The two corners by which an obstacle is passed, for each sense of travel.
///
/// Travel along one axis alone meets the edge that faces it, and passes by
/// the two ends of that edge. Travel along both axes meets the corner that
/// faces it, and passes by the two corners next to that one.
pub open spec fn detour_corners(
    direction_x: MovementDirection,
    direction_y: MovementDirection,
) -> (Corner, Corner)
    recommends
        !(direction_x is Still && direction_y is Still),
{
    match (direction_x, direction_y) {
        (MovementDirection::Forward, MovementDirection::Still) => (
            Corner::UpperLeft,
            Corner::LowerLeft,
        ),
        (MovementDirection::Backward, MovementDirection::Still) => (
            Corner::LowerRight,
            Corner::UpperRight,
        ),
        (MovementDirection::Still, MovementDirection::Forward) => (
            Corner::UpperRight,
            Corner::UpperLeft,
        ),
        (MovementDirection::Still, MovementDirection::Backward) => (
            Corner::LowerLeft,
            Corner::LowerRight,
        ),
        (MovementDirection::Forward, MovementDirection::Forward) => (
            Corner::UpperRight,
            Corner::LowerLeft,
        ),
        (MovementDirection::Forward, MovementDirection::Backward) => (
            Corner::UpperLeft,
            Corner::LowerRight,
        ),
        (MovementDirection::Backward, MovementDirection::Forward) => (
            Corner::LowerRight,
            Corner::UpperLeft,
        ),
        (MovementDirection::Backward, MovementDirection::Backward) => (
            Corner::LowerLeft,
            Corner::UpperRight,
        ),
        (MovementDirection::Still, MovementDirection::Still) => (
            Corner::UpperLeft,
            Corner::UpperLeft,
        ),
    }
}

/// The two corners by which an obstacle is passed when travelling in the
/// given sense. There is no such pair without travel.
pub fn select_detour_corners(
    direction_x: MovementDirection,
    direction_y: MovementDirection,
) -> (r: (Corner, Corner))
    requires
        !(direction_x is Still && direction_y is Still),
    ensures
        r == detour_corners(direction_x, direction_y),
        r.0 != r.1,
{
    match (direction_x, direction_y) {
        (MovementDirection::Forward, MovementDirection::Still) => (
            Corner::UpperLeft,
            Corner::LowerLeft,
        ),
        (MovementDirection::Backward, MovementDirection::Still) => (
            Corner::LowerRight,
            Corner::UpperRight,
        ),
        (MovementDirection::Still, MovementDirection::Forward) => (
            Corner::UpperRight,
            Corner::UpperLeft,
        ),
        (MovementDirection::Still, MovementDirection::Backward) => (
            Corner::LowerLeft,
            Corner::LowerRight,
        ),
        (MovementDirection::Forward, MovementDirection::Forward) => (
            Corner::UpperRight,
            Corner::LowerLeft,
        ),
        (MovementDirection::Forward, MovementDirection::Backward) => (
            Corner::UpperLeft,
            Corner::LowerRight,
        ),
        (MovementDirection::Backward, MovementDirection::Forward) => (
            Corner::LowerRight,
            Corner::UpperLeft,
        ),
        (MovementDirection::Backward, MovementDirection::Backward) => (
            Corner::LowerLeft,
            Corner::UpperRight,
        ),
        (MovementDirection::Still, MovementDirection::Still) => (
            Corner::UpperLeft,
            Corner::UpperLeft,
        ),
    }
}

/// The entity's upper-left vertex lies between `current` and `destination`
/// on both axes, in the given sense of travel.
pub open spec fn on_the_path(
    object: GameObject,
    current: Coordinates,
    destination: Coordinates,
    direction_x: MovementDirection,
    direction_y: MovementDirection,
) -> bool {
    &&& direction_x.spec_holds_between(object.position.x, current.x, destination.x)
    &&& direction_y.spec_holds_between(object.position.y, current.y, destination.y)
}

/// Whether the entity's upper-left vertex lies between `current` and
/// `destination` on both axes, in the given sense of travel.
pub fn is_on_the_path(
    object: &GameObject,
    current: &Coordinates,
    destination: &Coordinates,
    direction_x: MovementDirection,
    direction_y: MovementDirection,
) -> (r: bool)
    ensures
        r == on_the_path(*object, *current, *destination, direction_x, direction_y),
{
    direction_x.holds_between(object.position.x, current.x, destination.x)
        && direction_y.holds_between(object.position.y, current.y, destination.y)
}

/// A meeting point counts for the crossing test where the line meets the
/// edge line inside the entity's rectangle, boundary included, or does not
/// meet it at all.
pub open spec fn meets_within(object: GameObject, point: Option<Coordinates>) -> bool {
    match point {
        Some(p) => area_contains(object, p),
        None => true,
    }
}

/// The line from `current` to `destination` crosses the entity: it meets
/// each of the four edge lines inside the entity's rectangle, where it
/// meets them.
pub open spec fn crosses(object: GameObject, current: Coordinates, destination: Coordinates) -> bool {
    let points = RectangleIntersectionPoints::of(
        LineEquation::through(current, destination),
        RectangleLineEquations::of(object.position, object.size),
    );
    &&& meets_within(object, points.x_0)
    &&& meets_within(object, points.x_1)
    &&& meets_within(object, points.y_0)
    &&& meets_within(object, points.y_1)
}

fn check_meets_within(object: &GameObject, point: &Option<Coordinates>) -> (r: bool)
    ensures
        r == meets_within(*object, *point),
{
    match point {
        Some(p) => check_if_object_area_contains_coordinates(object, p),
        None => true,
    }
}

/// Whether the line from `current` to `destination` crosses the entity.
pub fn intersects_path(object: &GameObject, current: &Coordinates, destination: &Coordinates) -> (r:
    bool)
    ensures
        r == crosses(*object, *current, *destination),
{
    let edges = RectangleLineEquations::get_square_line_equations(&object.position, &object.size);
    let line = LineEquation::get_line_equation(current, destination);
    let points = RectangleIntersectionPoints::get(&line, &edges);
    check_meets_within(object, &points.x_0) && check_meets_within(object, &points.x_1)
        && check_meets_within(object, &points.y_0) && check_meets_within(object, &points.y_1)
}

/// The entity is an obstacle in the way from `current` to `destination`: it
/// is static, stands on the path and is crossed by the line.
pub open spec fn blocks(
    object: GameObject,
    current: Coordinates,
    destination: Coordinates,
    direction_x: MovementDirection,
    direction_y: MovementDirection,
) -> bool {
    &&& object.object_type == GameObjectType::Static
    &&& on_the_path(object, current, destination, direction_x, direction_y)
    &&& crosses(object, current, destination)
}

/// The index of the first entity from `from` on that blocks.
pub open spec fn first_blocking(
    objects: Seq<GameObject>,
    from: int,
    current: Coordinates,
    destination: Coordinates,
    direction_x: MovementDirection,
    direction_y: MovementDirection,
) -> Option<int>
    decreases objects.len() - from,
{
    if from < 0 || from >= objects.len() {
        None
    } else if blocks(objects[from], current, destination, direction_x, direction_y) {
        Some(from)
    } else {
        first_blocking(objects, from + 1, current, destination, direction_x, direction_y)
    }
}

/// The waypoints from `current` to `destination`, or `None` where detours
/// nest deeper than `depth`.
///
/// Without a blocking entity this is the destination alone. Otherwise it is
/// `current`, then the waypoints from the first detour corner of the first
/// blocking entity, then those from its second detour corner.
pub open spec fn planned(
    current: Coordinates,
    destination: Coordinates,
    objects: Seq<GameObject>,
    direction_x: MovementDirection,
    direction_y: MovementDirection,
    depth: nat,
) -> Option<Seq<Coordinates>>
    decreases depth,
{
    match first_blocking(objects, 0, current, destination, direction_x, direction_y) {
        None => Some(seq![destination]),
        Some(i) => {
            if depth == 0 {
                None
            } else {
                let corners = detour_corners(direction_x, direction_y);
                let vertexes = RectangleVertexes::of(objects[i].position, objects[i].size);
                let first = planned(
                    corners.0.spec_point(vertexes),
                    destination,
                    objects,
                    direction_x,
                    direction_y,
                    (depth - 1) as nat,
                );
                let second = planned(
                    corners.1.spec_point(vertexes),
                    destination,
                    objects,
                    direction_x,
                    direction_y,
                    (depth - 1) as nat,
                );
                if first is Some && second is Some {
                    Some(seq![current] + first->0 + second->0)
                } else {
                    None
                }
            }
        },
    }
}

/// The waypoints from `start` to `destination` round the static entities
/// among `objects`, with the sense of travel fixed by these two points.
pub open spec fn path_between(
    start: Coordinates,
    destination: Coordinates,
    objects: Seq<GameObject>,
) -> Option<Seq<Coordinates>> {
    planned(
        start,
        destination,
        objects,
        MovementDirection::spec_of(start.x, destination.x),
        MovementDirection::spec_of(start.y, destination.y),
        MAX_DETOUR_DEPTH as nat,
    )
}

/// A planned path is never empty and ends at the destination.
pub proof fn law_path_ends_at_destination(
    current: Coordinates,
    destination: Coordinates,
    objects: Seq<GameObject>,
    direction_x: MovementDirection,
    direction_y: MovementDirection,
    depth: nat,
)
    requires
        planned(current, destination, objects, direction_x, direction_y, depth) is Some,
    ensures
        planned(current, destination, objects, direction_x, direction_y, depth)->0.len() >= 1,
        planned(current, destination, objects, direction_x, direction_y, depth)->0.last()
            == destination,
    decreases depth,
{
    match first_blocking(objects, 0, current, destination, direction_x, direction_y) {
        None => {},
        Some(i) => {
            let corners = detour_corners(direction_x, direction_y);
            let vertexes = RectangleVertexes::of(objects[i].position, objects[i].size);
            law_path_ends_at_destination(
                corners.0.spec_point(vertexes),
                destination,
                objects,
                direction_x,
                direction_y,
                (depth - 1) as nat,
            );
            law_path_ends_at_destination(
                corners.1.spec_point(vertexes),
                destination,
                objects,
                direction_x,
                direction_y,
                (depth - 1) as nat,
            );
            let first = planned(
                corners.0.spec_point(vertexes),
                destination,
                objects,
                direction_x,
                direction_y,
                (depth - 1) as nat,
            )->0;
            let second = planned(
                corners.1.spec_point(vertexes),
                destination,
                objects,
                direction_x,
                direction_y,
                (depth - 1) as nat,
            )->0;
            let whole = seq![current] + first + second;
            assert(whole.len() == 1 + first.len() + second.len());
            assert(whole[whole.len() - 1] == second[second.len() - 1]);
        },
    }
}

/// `point` is a vertex of a static entity among `objects`.
pub open spec fn is_obstacle_corner(objects: Seq<GameObject>, point: Coordinates) -> bool {
    exists|i: int, corner: Corner|
        0 <= i < objects.len() && objects[i].object_type == GameObjectType::Static && point
            == #[trigger] corner.spec_point(
            RectangleVertexes::of(#[trigger] objects[i].position, objects[i].size),
        )
}

/// A vertex of a static entity among `objects` is an obstacle corner.
proof fn lemma_vertex_is_obstacle_corner(objects: Seq<GameObject>, i: int, corner: Corner)
    requires
        0 <= i < objects.len(),
        objects[i].object_type == GameObjectType::Static,
    ensures
        is_obstacle_corner(
            objects,
            corner.spec_point(RectangleVertexes::of(objects[i].position, objects[i].size)),
        ),
{
}

/// `waypoint` is `current`, the destination or a vertex of a static entity.
spec fn allowed(
    objects: Seq<GameObject>,
    current: Coordinates,
    destination: Coordinates,
    waypoint: Coordinates,
) -> bool {
    waypoint == current || waypoint == destination || is_obstacle_corner(objects, waypoint)
}

/// Where the waypoints planned from two obstacle corners are allowed, so
/// are `current` followed by both lists.
proof fn lemma_joined_are_allowed(
    objects: Seq<GameObject>,
    current: Coordinates,
    destination: Coordinates,
    first_corner: Coordinates,
    first: Seq<Coordinates>,
    second_corner: Coordinates,
    second: Seq<Coordinates>,
)
    requires
        is_obstacle_corner(objects, first_corner),
        is_obstacle_corner(objects, second_corner),
        forall|k: int|
            0 <= k < first.len() ==> allowed(objects, first_corner, destination, #[trigger] first[k]),
        forall|k: int|
            0 <= k < second.len() ==> allowed(
                objects,
                second_corner,
                destination,
                #[trigger] second[k],
            ),
    ensures
        forall|k: int|
            0 <= k < (seq![current] + first + second).len() ==> allowed(
                objects,
                current,
                destination,
                #[trigger] (seq![current] + first + second)[k],
            ),
{
    let whole = seq![current] + first + second;
    assert forall|k: int| 0 <= k < whole.len() implies allowed(
        objects,
        current,
        destination,
        #[trigger] whole[k],
    ) by {
        if k == 0 {
        } else if k < 1 + first.len() {
            assert(whole[k] == first[k - 1]);
        } else {
            assert(whole[k] == second[k - 1 - first.len()]);
        }
    }
}

/// Every waypoint of a planned path is the point the plan set out from, the
/// destination, or a vertex of a static entity.
pub proof fn law_waypoints_are_corners(
    current: Coordinates,
    destination: Coordinates,
    objects: Seq<GameObject>,
    direction_x: MovementDirection,
    direction_y: MovementDirection,
    depth: nat,
)
    requires
        planned(current, destination, objects, direction_x, direction_y, depth) is Some,
    ensures
        forall|k: int|
            0 <= k < planned(
                current,
                destination,
                objects,
                direction_x,
                direction_y,
                depth,
            )->0.len() ==> {
                let waypoint = #[trigger] planned(
                    current,
                    destination,
                    objects,
                    direction_x,
                    direction_y,
                    depth,
                )->0[k];
                waypoint == current || waypoint == destination || is_obstacle_corner(
                    objects,
                    waypoint,
                )
            },
    decreases depth,
{
    match first_blocking(objects, 0, current, destination, direction_x, direction_y) {
        None => {},
        Some(i) => {
            lemma_first_blocking_blocks(objects, 0, current, destination, direction_x, direction_y);
            let corners = detour_corners(direction_x, direction_y);
            let vertexes = RectangleVertexes::of(objects[i].position, objects[i].size);
            let first_corner = corners.0.spec_point(vertexes);
            let second_corner = corners.1.spec_point(vertexes);
            lemma_vertex_is_obstacle_corner(objects, i, corners.0);
            lemma_vertex_is_obstacle_corner(objects, i, corners.1);
            law_waypoints_are_corners(
                first_corner,
                destination,
                objects,
                direction_x,
                direction_y,
                (depth - 1) as nat,
            );
            law_waypoints_are_corners(
                second_corner,
                destination,
                objects,
                direction_x,
                direction_y,
                (depth - 1) as nat,
            );
            let first = planned(
                first_corner,
                destination,
                objects,
                direction_x,
                direction_y,
                (depth - 1) as nat,
            )->0;
            let second = planned(
                second_corner,
                destination,
                objects,
                direction_x,
                direction_y,
                (depth - 1) as nat,
            )->0;
            lemma_joined_are_allowed(
                objects,
                current,
                destination,
                first_corner,
                first,
                second_corner,
                second,
            );
        },
    }
}

proof fn lemma_first_blocking_blocks(
    objects: Seq<GameObject>,
    from: int,
    current: Coordinates,
    destination: Coordinates,
    direction_x: MovementDirection,
    direction_y: MovementDirection,
)
    requires
        first_blocking(objects, from, current, destination, direction_x, direction_y) is Some,
    ensures
        ({
            let i = first_blocking(
                objects,
                from,
                current,
                destination,
                direction_x,
                direction_y,
            )->0;
            &&& from <= i < objects.len()
            &&& blocks(objects[i], current, destination, direction_x, direction_y)
        }),
    decreases objects.len() - from,
{
    if 0 <= from < objects.len() && !blocks(
        objects[from],
        current,
        destination,
        direction_x,
        direction_y,
    ) {
        lemma_first_blocking_blocks(
            objects,
            from + 1,
            current,
            destination,
            direction_x,
            direction_y,
        );
    }
}

/// Without a static entity among them, the entities are no obstacle: the
/// path is the destination alone.
pub proof fn law_path_without_obstacles(
    current: Coordinates,
    destination: Coordinates,
    objects: Seq<GameObject>,
    direction_x: MovementDirection,
    direction_y: MovementDirection,
    depth: nat,
)
    requires
        forall|i: int| 0 <= i < objects.len() ==> objects[i].object_type != GameObjectType::Static,
    ensures
        planned(current, destination, objects, direction_x, direction_y, depth) == Some(
            seq![destination],
        ),
{
    lemma_none_blocks(objects, 0, current, destination, direction_x, direction_y);
}

proof fn lemma_none_blocks(
    objects: Seq<GameObject>,
    from: int,
    current: Coordinates,
    destination: Coordinates,
    direction_x: MovementDirection,
    direction_y: MovementDirection,
)
    requires
        0 <= from,
        forall|i: int|
            from <= i < objects.len() ==> !blocks(
                objects[i],
                current,
                destination,
                direction_x,
                direction_y,
            ),
    ensures
        first_blocking(objects, from, current, destination, direction_x, direction_y) is None,
    decreases objects.len() - from,
{
    if from < objects.len() {
        lemma_none_blocks(objects, from + 1, current, destination, direction_x, direction_y);
    }
}

fn find_first_blocking(
    current: &Coordinates,
    destination: &Coordinates,
    game_objects: &Vec<GameObject>,
    direction_x: MovementDirection,
    direction_y: MovementDirection,
) -> (r: Option<usize>)
    ensures
        match r {
            Some(i) => first_blocking(
                game_objects@,
                0,
                *current,
                *destination,
                direction_x,
                direction_y,
            ) == Some(i as int) && i < game_objects.len(),
            None => first_blocking(
                game_objects@,
                0,
                *current,
                *destination,
                direction_x,
                direction_y,
            ) is None,
        },
{
    let mut i: usize = 0;
    while i < game_objects.len()
        invariant
            i <= game_objects.len(),
            first_blocking(game_objects@, 0, *current, *destination, direction_x, direction_y)
                == first_blocking(
                game_objects@,
                i as int,
                *current,
                *destination,
                direction_x,
                direction_y,
            ),
        decreases game_objects.len() - i,
    {
        let object = &game_objects[i];
        let is_static = match object.object_type {
            GameObjectType::Static => true,
            _ => false,
        };
        if is_static && is_on_the_path(object, current, destination, direction_x, direction_y)
            && intersects_path(object, current, destination) {
            return Some(i);
        }
        i += 1;
    }
    None
}

fn append_all(path: &mut Vec<Coordinates>, tail: &Vec<Coordinates>)
    ensures
        final(path)@ == old(path)@ + tail@,
{
    let mut i: usize = 0;
    while i < tail.len()
        invariant
            i <= tail.len(),
            path@ == old(path)@ + tail@.subrange(0, i as int),
        decreases tail.len() - i,
    {
        path.push(tail[i]);
        i += 1;
    }
    assert(tail@.subrange(0, tail.len() as int) == tail@);
}

/// Plans from `current` to `destination` with the sense of travel already
/// fixed, nesting detours at most `depth` deep.
pub fn find_path_from(
    current: &Coordinates,
    destination: &Coordinates,
    game_objects: &Vec<GameObject>,
    direction_x: MovementDirection,
    direction_y: MovementDirection,
    depth: u32,
) -> (r: Option<Vec<Coordinates>>)
    requires
        !(direction_x is Still && direction_y is Still),
    ensures
        match r {
            Some(path) => planned(
                *current,
                *destination,
                game_objects@,
                direction_x,
                direction_y,
                depth as nat,
            ) == Some(path@),
            None => planned(
                *current,
                *destination,
                game_objects@,
                direction_x,
                direction_y,
                depth as nat,
            ) is None,
        },
    decreases depth,
{
    match find_first_blocking(current, destination, game_objects, direction_x, direction_y) {
        None => {
            let mut path: Vec<Coordinates> = Vec::new();
            path.push(*destination);
            assert(path@ == seq![*destination]);
            Some(path)
        },
        Some(i) => {
            if depth == 0 {
                return None;
            }
            let corners = select_detour_corners(direction_x, direction_y);
            let object = &game_objects[i];
            let vertexes = RectangleVertexes::get(&object.position, &object.size);
            let first_corner = corners.0.point(&vertexes);
            let second_corner = corners.1.point(&vertexes);
            let first = find_path_from(
                &first_corner,
                destination,
                game_objects,
                direction_x,
                direction_y,
                depth - 1,
            );
            let second = find_path_from(
                &second_corner,
                destination,
                game_objects,
                direction_x,
                direction_y,
                depth - 1,
            );
            match (first, second) {
                (Some(first_path), Some(second_path)) => {
                    let mut path: Vec<Coordinates> = Vec::new();
                    path.push(*current);
                    assert(path@ == seq![*current]);
                    append_all(&mut path, &first_path);
                    append_all(&mut path, &second_path);
                    Some(path)
                },
                _ => None,
            }
        },
    }
}

/// The waypoints from `start` to `destination` round the static entities
/// among `game_objects`; `None` where detours nest deeper than
/// [`MAX_DETOUR_DEPTH`]. The two points must differ: without travel there
/// is no side by which to pass an obstacle.
pub fn find_path(
    start: &Coordinates,
    destination: &Coordinates,
    game_objects: &Vec<GameObject>,
) -> (r: Option<Vec<Coordinates>>)
    requires
        *start != *destination,
    ensures
        match r {
            Some(path) => path_between(*start, *destination, game_objects@) == Some(path@),
            None => path_between(*start, *destination, game_objects@) is None,
        },
        r is Some ==> r->0@.len() >= 1 && r->0@.last() == *destination,
{
    let direction_x = MovementDirection::of(start.x, destination.x);
    let direction_y = MovementDirection::of(start.y, destination.y);
    let r = find_path_from(
        start,
        destination,
        game_objects,
        direction_x,
        direction_y,
        MAX_DETOUR_DEPTH,
    );
    proof {
        if r is Some {
            law_path_ends_at_destination(
                *start,
                *destination,
                game_objects@,
                direction_x,
                direction_y,
                MAX_DETOUR_DEPTH as nat,
            );
        }
    }
    r
}

} // verus!
