//! A grid of nodes laid over an area of the board, each marked as free or
//! as blocked by an entity.

use crate::algebra_basics::{get_middle, middle_of, Coordinates, RectangleVertexes, Size};
use crate::game_data::game_object::GameObject;
use crate::game_data::gameboard::{area_contains, check_if_object_area_contains_coordinates};
use crate::scalar::{whole_part, Scalar};
use vstd::prelude::*;

verus! {

/// A node of the grid, with the point at which it is anchored.
#[derive(Clone, Copy, Debug, PartialEq, Eq, Structural)]
pub enum Node {
    Blocked(Coordinates),
    Free(Coordinates),
}

/// The nodes of a grid, row after row.
#[derive(Debug, PartialEq, Eq)]
pub struct NodeMap {
    pub nodes: Vec<Node>,
}

/// An axis-aligned rectangular part of the board.
#[derive(Clone, Copy, Debug, PartialEq, Eq, Structural)]
pub struct Area {
    pub upper_left_vertex: Coordinates,
    pub size: Size,
}

impl Area {
    pub fn new(upper_left_vertex: Coordinates, size: Size) -> (r: Area)
        ensures
            r == (Area { upper_left_vertex, size }),
    {
        Area { upper_left_vertex, size }
    }
}

/// The entity's area holds one of the four vertices, boundary included.
pub open spec fn holds_a_vertex(vertexes: RectangleVertexes, object: GameObject) -> bool {
    ||| area_contains(object, vertexes.lower_left)
    ||| area_contains(object, vertexes.lower_right)
    ||| area_contains(object, vertexes.upper_left)
    ||| area_contains(object, vertexes.upper_right)
}

/// Whether the entity's area holds one of the four vertices, boundary
/// included.
pub fn check_if_object_contains_rectanlge(
    rectangle_vertexes: &RectangleVertexes,
    object: &GameObject,
) -> (r: bool)
    ensures
        r == holds_a_vertex(*rectangle_vertexes, *object),
{
    check_if_object_area_contains_coordinates(object, &rectangle_vertexes.lower_left)
        || check_if_object_area_contains_coordinates(object, &rectangle_vertexes.lower_right)
        || check_if_object_area_contains_coordinates(object, &rectangle_vertexes.upper_left)
        || check_if_object_area_contains_coordinates(object, &rectangle_vertexes.upper_right)
}

/// The entity counts for the grid: its area holds one of its own vertices.
pub open spec fn counts_for_grid(object: GameObject) -> bool {
    holds_a_vertex(RectangleVertexes::of(object.position, object.size), object)
}

/// One of the entities that count for the grid holds a vertex of the
/// rectangle.
pub open spec fn blocked_by_any(objects: Seq<GameObject>, vertexes: RectangleVertexes) -> bool {
    exists|n: int|
        0 <= n < objects.len() && counts_for_grid(#[trigger] objects[n]) && holds_a_vertex(
            vertexes,
            objects[n],
        )
}

/// `start` after `count` additions of `step`.
pub open spec fn stepped(start: Scalar, step: Scalar, count: nat) -> Scalar
    decreases count,
{
    if count == 0 {
        start
    } else {
        stepped(start, step, (count - 1) as nat).spec_plus(step)
    }
}

/// How many nodes of the given extent fit into the given extent of the
/// area.
pub open spec fn fitting(extent: Scalar, node_extent: Scalar) -> nat
    recommends
        node_extent@ != 0,
{
    whole_part(extent.spec_divided_by(node_extent)@) as nat
}

/// The node in the given row and column of the grid.
///
/// A node is anchored at the centre of its cell. It is blocked where an
/// entity holds a vertex of the rectangle of the node's size that has the
/// anchor for its upper-left vertex.
pub open spec fn node_at(
    area: Area,
    objects: Seq<GameObject>,
    node_size: Size,
    row: nat,
    column: nat,
) -> Node {
    let corner = Coordinates {
        x: stepped(area.upper_left_vertex.x, node_size.width, column),
        y: stepped(area.upper_left_vertex.y, node_size.height, row),
    };
    let anchor = middle_of(corner, node_size);
    if blocked_by_any(objects, RectangleVertexes::of(anchor, node_size)) {
        Node::Blocked(anchor)
    } else {
        Node::Free(anchor)
    }
}

fn is_blocked_by_any(game_objects: &Vec<GameObject>, vertexes: &RectangleVertexes) -> (r: bool)
    ensures
        r == blocked_by_any(game_objects@, *vertexes),
{
    let mut n: usize = 0;
    while n < game_objects.len()
        invariant
            n <= game_objects.len(),
            forall|m: int|
                0 <= m < n ==> !(counts_for_grid(#[trigger] game_objects@[m]) && holds_a_vertex(
                    *vertexes,
                    game_objects@[m],
                )),
        decreases game_objects.len() - n,
    {
        let object = &game_objects[n];
        let own = RectangleVertexes::get(&object.position, &object.size);
        if check_if_object_contains_rectanlge(&own, object) && check_if_object_contains_rectanlge(
            vertexes,
            object,
        ) {
            return true;
        }
        n += 1;
    }
    false
}

impl NodeMap {
    /// The grid laid over `area` with nodes of `node_size`: the width of
    /// the area gives the number of rows and its height the number of
    /// nodes in a row, each as the whole part of the quotient by the node's
    /// extent. The node's extents must not be zero.
    pub fn get(area: Area, game_objects: Vec<GameObject>, node_size: &Size) -> (r: NodeMap)
        requires
            node_size.width@ != 0,
            node_size.height@ != 0,
        ensures
            r.nodes@.len() == fitting(area.size.width, node_size.width) * fitting(
                area.size.height,
                node_size.height,
            ),
            forall|row: nat, column: nat|
                row < fitting(area.size.width, node_size.width) && column < fitting(
                    area.size.height,
                    node_size.height,
                ) ==> r.nodes@[(row * fitting(area.size.height, node_size.height) + column) as int]
                    == #[trigger] node_at(area, game_objects@, *node_size, row, column),
    {
        let cols: u32 = area.size.height.divided_by(node_size.height).truncated();
        let rows: u32 = area.size.width.divided_by(node_size.width).truncated();
        let mut current_y = area.upper_left_vertex.y;
        let mut nodes: Vec<Node> = Vec::new();
        let mut row: u32 = 0;
        while row < rows
            invariant
                row <= rows,
                cols == fitting(area.size.height, node_size.height),
                rows == fitting(area.size.width, node_size.width),
                current_y == stepped(area.upper_left_vertex.y, node_size.height, row as nat),
                nodes@.len() == row * cols,
                forall|r: nat, c: nat|
                    r < row && c < cols ==> nodes@[(r * cols + c) as int] == #[trigger] node_at(
                        area,
                        game_objects@,
                        *node_size,
                        r,
                        c,
                    ),
            decreases rows - row,
        {
            let mut current_x = area.upper_left_vertex.x;
            let mut column: u32 = 0;
            while column < cols
                invariant
                    row < rows,
                    column <= cols,
                    current_y == stepped(area.upper_left_vertex.y, node_size.height, row as nat),
                    current_x == stepped(area.upper_left_vertex.x, node_size.width, column as nat),
                    nodes@.len() == row * cols + column,
                    forall|r: nat, c: nat|
                        (r < row && c < cols) || (r == row && c < column) ==> nodes@[(r * cols
                            + c) as int] == #[trigger] node_at(area, game_objects@, *node_size, r, c),
                decreases cols - column,
            {
                let node_coordinates = get_middle(
                    &Coordinates::new(current_x, current_y),
                    node_size,
                );
                let node_vertexes = RectangleVertexes::get(&node_coordinates, node_size);
                let ghost before = nodes@;
                if is_blocked_by_any(&game_objects, &node_vertexes) {
                    nodes.push(Node::Blocked(node_coordinates));
                } else {
                    nodes.push(Node::Free(node_coordinates));
                }
                assert forall|r: nat, c: nat|
                    (r < row && c < cols) || (r == row && c < column + 1) implies nodes@[(r
                        * cols + c) as int] == #[trigger] node_at(area, game_objects@, *node_size, r, c) by {
                    if r < row {
                        assert(r * cols + c < row * cols) by (nonlinear_arith)
                            requires
                                r < row,
                                c < cols,
                        ;
                        assert(nodes@[(r * cols + c) as int] == before[(r * cols + c) as int]);
                    } else if c < column {
                        assert(nodes@[(r * cols + c) as int] == before[(r * cols + c) as int]);
                    }
                }
                current_x = current_x.plus(node_size.width);
                column += 1;
            }
            current_y = current_y.plus(node_size.height);
            assert((row + 1) * cols == row * cols + cols) by (nonlinear_arith);
            row += 1;
        }
        NodeMap { nodes }
    }
}

} // verus!
