//! Points, extents, vectors and infinite lines in the plane, and the
//! geometry of axis-aligned rectangles built on them.
//!
//! The y axis points down: the upper-left vertex of a rectangle has the
//! smallest `x` and the smallest `y`.

use crate::scalar::{
    abs,
    lemma_length_positive,
    lemma_trunc_div_remainder,
    trunc_div,
    Scalar,
    ONE_RAW,
};
use vstd::prelude::*;

verus! {

/// A point of the plane.
#[derive(Clone, Copy, Debug, PartialEq, Eq, Structural)]
pub struct Coordinates {
    pub x: Scalar,
    pub y: Scalar,
}

impl Coordinates {
    pub fn new(x: Scalar, y: Scalar) -> (r: Coordinates)
        ensures
            r == (Coordinates { x, y }),
    {
        Coordinates { x, y }
    }

    /// Replaces both coordinates at once.
    pub fn change(&mut self, new_coordinates: Coordinates)
        ensures
            *final(self) == new_coordinates,
    {
        self.x = new_coordinates.x;
        self.y = new_coordinates.y;
    }

    pub fn get(&self) -> (r: (Scalar, Scalar))
        ensures
            r == (self.x, self.y),
    {
        (self.x, self.y)
    }
}

/// The extent of an axis-aligned rectangle, anchored at its upper-left
/// vertex.
#[derive(Clone, Copy, Debug, PartialEq, Eq, Structural)]
pub struct Size {
    pub width: Scalar,
    pub height: Scalar,
}

impl Size {
    pub fn new(width: Scalar, height: Scalar) -> (r: Size)
        ensures
            r == (Size { width, height }),
    {
        Size { width, height }
    }
}

/// The vertex opposite to the upper-left one.
pub open spec fn lower_right_of(upper_left: Coordinates, size: Size) -> Coordinates {
    Coordinates { x: upper_left.x.spec_plus(size.width), y: upper_left.y.spec_plus(size.height) }
}

/// `point` lies strictly inside the rectangle: no point of the boundary does.
pub open spec fn strictly_inside(point: Coordinates, upper_left: Coordinates, size: Size) -> bool {
    &&& upper_left.x@ < point.x@ < lower_right_of(upper_left, size).x@
    &&& upper_left.y@ < point.y@ < lower_right_of(upper_left, size).y@
}

/// Whether `point` lies strictly inside the rectangle.
pub fn check_if_point_is_contained_within_rectangle(
    point: &Coordinates,
    rectangle_upper_vertex: &Coordinates,
    size: &Size,
) -> (r: bool)
    ensures
        r == strictly_inside(*point, *rectangle_upper_vertex, *size),
{
    let bottom_x = rectangle_upper_vertex.x.plus(size.width);
    let bottom_y = rectangle_upper_vertex.y.plus(size.height);
    rectangle_upper_vertex.x.less_than(point.x) && point.x.less_than(bottom_x)
        && rectangle_upper_vertex.y.less_than(point.y) && point.y.less_than(bottom_y)
}

/// The scalar two.
pub open spec fn two() -> Scalar {
    Scalar { raw: 8589934592 }
}

/// The centre of the rectangle.
pub open spec fn middle_of(position: Coordinates, size: Size) -> Coordinates {
    Coordinates {
        x: position.x.spec_plus(size.width.spec_divided_by(two())),
        y: position.y.spec_plus(size.height.spec_divided_by(two())),
    }
}

/// The centre of the rectangle.
pub fn get_middle(position: &Coordinates, size: &Size) -> (r: Coordinates)
    ensures
        r == middle_of(*position, *size),
{
    let two = Scalar::from_int(2);
    let x = position.x.plus(size.width.divided_by(two));
    let y = position.y.plus(size.height.divided_by(two));
    Coordinates::new(x, y)
}

/// The four vertices of an axis-aligned rectangle.
#[derive(Clone, Copy, Debug, PartialEq, Eq, Structural)]
pub struct RectangleVertexes {
    pub upper_left: Coordinates,
    pub lower_left: Coordinates,
    pub upper_right: Coordinates,
    pub lower_right: Coordinates,
}

impl RectangleVertexes {
    /// The vertices of the rectangle, as a value of specifications.
    pub open spec fn of(upper_left: Coordinates, size: Size) -> RectangleVertexes {
        RectangleVertexes {
            upper_left,
            lower_left: Coordinates {
                x: upper_left.x,
                y: upper_left.y.spec_plus(size.height),
            },
            upper_right: Coordinates {
                x: upper_left.x.spec_plus(size.width),
                y: upper_left.y,
            },
            lower_right: lower_right_of(upper_left, size),
        }
    }

    /// The vertices of the rectangle with the given upper-left vertex and
    /// size.
    pub fn get(upper_left_vertex: &Coordinates, size: &Size) -> (r: RectangleVertexes)
        ensures
            r == RectangleVertexes::of(*upper_left_vertex, *size),
    {
        let right = upper_left_vertex.x.plus(size.width);
        let bottom = upper_left_vertex.y.plus(size.height);
        RectangleVertexes {
            upper_left: *upper_left_vertex,
            lower_left: Coordinates::new(upper_left_vertex.x, bottom),
            upper_right: Coordinates::new(right, upper_left_vertex.y),
            lower_right: Coordinates::new(right, bottom),
        }
    }
}

/// An infinite line of the plane.
#[derive(Clone, Copy, Debug, PartialEq, Eq, Structural)]
pub enum LineEquation {
    /// x = constant
    Vertical(Scalar),
    /// y = constant
    Horizontal(Scalar),
    /// y = slope * x + y_intercept
    Curve { slope: Scalar, y_intercept: Scalar },
}

/// The value at `x` of the line with the given slope and intercept.
pub open spec fn curve_at(slope: Scalar, y_intercept: Scalar, x: Scalar) -> Scalar {
    slope.spec_times(x).spec_plus(y_intercept)
}

/// The `x` at which the line with the given slope and intercept reaches `y`.
pub open spec fn curve_reaches(slope: Scalar, y_intercept: Scalar, y: Scalar) -> Scalar
    recommends
        slope@ != 0,
{
    y_intercept.spec_minus(y).spec_divided_by(slope.spec_negated())
}

/// The `x` at which two lines of different slope meet.
pub open spec fn curves_meet_at(
    slope_a: Scalar,
    y_intercept_a: Scalar,
    slope_b: Scalar,
    y_intercept_b: Scalar,
) -> Scalar
    recommends
        slope_a != slope_b,
{
    y_intercept_a.spec_minus(y_intercept_b).spec_divided_by(
        slope_a.spec_minus(slope_b).spec_negated(),
    )
}

impl LineEquation {
    /// The line through `a` and `b`: vertical where they share their `x`
    /// (also where `a == b`), else horizontal where they share their `y`,
    /// else the sloped line with `slope = (a.y - b.y) / (a.x - b.x)` and
    /// `y_intercept = a.y - slope * a.x`.
    pub open spec fn through(a: Coordinates, b: Coordinates) -> LineEquation {
        if a.x == b.x {
            LineEquation::Vertical(a.x)
        } else if a.y == b.y {
            LineEquation::Horizontal(a.y)
        } else {
            let slope = a.y.spec_minus(b.y).spec_divided_by(a.x.spec_minus(b.x));
            LineEquation::Curve { slope, y_intercept: a.y.spec_minus(slope.spec_times(a.x)) }
        }
    }

    /// Whether two lines have the same direction. A sloped line of slope
    /// zero has the direction of a horizontal line.
    pub open spec fn parallel(self, other: LineEquation) -> bool {
        match (self, other) {
            (LineEquation::Vertical(_), LineEquation::Vertical(_)) => true,
            (LineEquation::Horizontal(_), LineEquation::Horizontal(_)) => true,
            (LineEquation::Horizontal(_), LineEquation::Curve { slope, .. }) => slope@ == 0,
            (LineEquation::Curve { slope, .. }, LineEquation::Horizontal(_)) => slope@ == 0,
            (
                LineEquation::Curve { slope: slope_a, .. },
                LineEquation::Curve { slope: slope_b, .. },
            ) => slope_a == slope_b,
            _ => false,
        }
    }

    /// The point where two lines meet; `None` where they are parallel.
    pub open spec fn intersection(self, other: LineEquation) -> Option<Coordinates> {
        match (self, other) {
            (LineEquation::Vertical(_), LineEquation::Vertical(_)) => None,
            (LineEquation::Vertical(x), LineEquation::Horizontal(y)) => Some(
                Coordinates { x, y },
            ),
            (LineEquation::Vertical(x), LineEquation::Curve { slope, y_intercept }) => Some(
                Coordinates { x, y: curve_at(slope, y_intercept, x) },
            ),
            (LineEquation::Horizontal(y), LineEquation::Vertical(x)) => Some(
                Coordinates { x, y },
            ),
            (LineEquation::Horizontal(_), LineEquation::Horizontal(_)) => None,
            (LineEquation::Horizontal(y), LineEquation::Curve { slope, y_intercept }) => {
                if slope@ == 0 {
                    None
                } else {
                    Some(Coordinates { x: curve_reaches(slope, y_intercept, y), y })
                }
            },
            (LineEquation::Curve { slope, y_intercept }, LineEquation::Vertical(x)) => Some(
                Coordinates { x, y: curve_at(slope, y_intercept, x) },
            ),
            (LineEquation::Curve { slope, y_intercept }, LineEquation::Horizontal(y)) => {
                if slope@ == 0 {
                    None
                } else {
                    Some(Coordinates { x: curve_reaches(slope, y_intercept, y), y })
                }
            },
            (
                LineEquation::Curve { slope: slope_a, y_intercept: y_intercept_a },
                LineEquation::Curve { slope: slope_b, y_intercept: y_intercept_b },
            ) => {
                if slope_a == slope_b {
                    None
                } else {
                    let x = curves_meet_at(slope_a, y_intercept_a, slope_b, y_intercept_b);
                    Some(Coordinates { x, y: curve_at(slope_a, y_intercept_a, x) })
                }
            },
        }
    }

    /// Whether `point` satisfies the line's equation.
    pub open spec fn passes_through(self, point: Coordinates) -> bool {
        match self {
            LineEquation::Vertical(x) => point.x == x,
            LineEquation::Horizontal(y) => point.y == y,
            LineEquation::Curve { slope, y_intercept } => point.y == curve_at(
                slope,
                y_intercept,
                point.x,
            ),
        }
    }

    /// The constant of a vertical line.
    pub fn unwrap_to_vertical(&self) -> (r: Scalar)
        requires
            self is Vertical,
        ensures
            *self == LineEquation::Vertical(r),
    {
        match self {
            LineEquation::Vertical(x) => *x,
            _ => Scalar::zero(),
        }
    }

    /// The constant of a horizontal line.
    pub fn unwrap_to_horizontal(&self) -> (r: Scalar)
        requires
            self is Horizontal,
        ensures
            *self == LineEquation::Horizontal(r),
    {
        match self {
            LineEquation::Horizontal(y) => *y,
            _ => Scalar::zero(),
        }
    }

    /// The line through two points.
    pub fn get_line_equation(a: &Coordinates, b: &Coordinates) -> (r: LineEquation)
        ensures
            r == LineEquation::through(*a, *b),
    {
        if a.x == b.x {
            return LineEquation::Vertical(a.x);
        }
        if a.y == b.y {
            return LineEquation::Horizontal(a.y);
        }
        let slope = a.y.minus(b.y).divided_by(a.x.minus(b.x));
        let y_intercept = a.y.minus(slope.times(a.x));
        LineEquation::Curve { slope, y_intercept }
    }

    /// The point where two lines meet, or `None` exactly where they are
    /// parallel.
    pub fn get_point_of_intersection(line_a: &LineEquation, line_b: &LineEquation) -> (r: Option<
        Coordinates,
    >)
        ensures
            r == line_a.intersection(*line_b),
            r is None <==> line_a.parallel(*line_b),
    {
        match line_a {
            LineEquation::Vertical(x) => LineEquation::calculate_intersection_for_vertical(
                *x,
                line_b,
            ),
            LineEquation::Horizontal(y) => LineEquation::calculate_intersection_for_horizontal(
                *y,
                line_b,
            ),
            LineEquation::Curve { slope, y_intercept } => {
                LineEquation::calculate_intersection_for_curve(*slope, *y_intercept, line_b)
            },
        }
    }

    fn calculate_intersection_for_vertical(x: Scalar, line_b: &LineEquation) -> (r: Option<
        Coordinates,
    >)
        ensures
            r == LineEquation::Vertical(x).intersection(*line_b),
    {
        match line_b {
            LineEquation::Vertical(_) => None,
            LineEquation::Horizontal(y) => Some(Coordinates::new(x, *y)),
            LineEquation::Curve { slope, y_intercept } => Some(
                LineEquation::curve_x_intersection(*slope, *y_intercept, x),
            ),
        }
    }

    fn calculate_intersection_for_horizontal(y: Scalar, line_b: &LineEquation) -> (r: Option<
        Coordinates,
    >)
        ensures
            r == LineEquation::Horizontal(y).intersection(*line_b),
    {
        match line_b {
            LineEquation::Vertical(x) => Some(Coordinates::new(*x, y)),
            LineEquation::Horizontal(_) => None,
            LineEquation::Curve { slope, y_intercept } => LineEquation::curve_y_intersection(
                *slope,
                *y_intercept,
                y,
            ),
        }
    }

    fn calculate_intersection_for_curve(
        slope_a: Scalar,
        y_intercept_a: Scalar,
        line_b: &LineEquation,
    ) -> (r: Option<Coordinates>)
        ensures
            r == (LineEquation::Curve { slope: slope_a, y_intercept: y_intercept_a }).intersection(
                *line_b,
            ),
    {
        match line_b {
            LineEquation::Vertical(x) => Some(
                LineEquation::curve_x_intersection(slope_a, y_intercept_a, *x),
            ),
            LineEquation::Horizontal(y) => LineEquation::curve_y_intersection(
                slope_a,
                y_intercept_a,
                *y,
            ),
            LineEquation::Curve { slope, y_intercept } => LineEquation::curve_curve_intersection(
                slope_a,
                y_intercept_a,
                *slope,
                *y_intercept,
            ),
        }
    }

    fn curve_curve_intersection(
        slope_a: Scalar,
        y_intercept_a: Scalar,
        slope_b: Scalar,
        y_intercept_b: Scalar,
    ) -> (r: Option<Coordinates>)
        ensures
            r == if slope_a == slope_b {
                None
            } else {
                let x = curves_meet_at(slope_a, y_intercept_a, slope_b, y_intercept_b);
                Some(Coordinates { x, y: curve_at(slope_a, y_intercept_a, x) })
            },
    {
        if slope_a == slope_b {
            return None;
        }
        let x = y_intercept_a.minus(y_intercept_b).divided_by(slope_a.minus(slope_b).negated());
        let y = slope_a.times(x).plus(y_intercept_a);
        Some(Coordinates::new(x, y))
    }

    fn curve_x_intersection(slope: Scalar, y_intercept: Scalar, x: Scalar) -> (r: Coordinates)
        ensures
            r == (Coordinates { x, y: curve_at(slope, y_intercept, x) }),
    {
        let y = slope.times(x).plus(y_intercept);
        Coordinates::new(x, y)
    }

    fn curve_y_intersection(slope: Scalar, y_intercept: Scalar, y: Scalar) -> (r: Option<
        Coordinates,
    >)
        ensures
            r == if slope@ == 0 {
                None
            } else {
                Some(Coordinates { x: curve_reaches(slope, y_intercept, y), y })
            },
    {
        if slope.is_zero() {
            return None;
        }
        let x = y_intercept.minus(y).divided_by(slope.negated());
        Some(Coordinates::new(x, y))
    }
}

/// The four infinite lines that hold the edges of an axis-aligned rectangle:
/// left, right, top, bottom.
#[derive(Clone, Copy, Debug, PartialEq, Eq, Structural)]
pub struct RectangleLineEquations {
    pub x_0: LineEquation,
    pub x_1: LineEquation,
    pub y_0: LineEquation,
    pub y_1: LineEquation,
}

impl RectangleLineEquations {
    /// The edge lines of the rectangle, as a value of specifications.
    pub open spec fn of(position: Coordinates, size: Size) -> RectangleLineEquations {
        RectangleLineEquations {
            x_0: LineEquation::Vertical(position.x),
            x_1: LineEquation::Vertical(position.x.spec_plus(size.width)),
            y_0: LineEquation::Horizontal(position.y),
            y_1: LineEquation::Horizontal(position.y.spec_plus(size.height)),
        }
    }

    /// Two vertical and two horizontal lines, in this order.
    pub open spec fn axis_aligned(self) -> bool {
        &&& self.x_0 is Vertical
        &&& self.x_1 is Vertical
        &&& self.y_0 is Horizontal
        &&& self.y_1 is Horizontal
    }

    /// The edge lines of the rectangle with the given upper-left vertex and
    /// size.
    pub fn get_square_line_equations(position: &Coordinates, size: &Size) -> (r:
        RectangleLineEquations)
        ensures
            r == RectangleLineEquations::of(*position, *size),
    {
        RectangleLineEquations {
            x_0: LineEquation::Vertical(position.x),
            x_1: LineEquation::Vertical(position.x.plus(size.width)),
            y_0: LineEquation::Horizontal(position.y),
            y_1: LineEquation::Horizontal(position.y.plus(size.height)),
        }
    }

    /// The constants of the four lines: left, right, top, bottom.
    pub fn to_floats(&self) -> (r: (Scalar, Scalar, Scalar, Scalar))
        requires
            self.axis_aligned(),
        ensures
            self.x_0 == LineEquation::Vertical(r.0),
            self.x_1 == LineEquation::Vertical(r.1),
            self.y_0 == LineEquation::Horizontal(r.2),
            self.y_1 == LineEquation::Horizontal(r.3),
    {
        (
            self.x_0.unwrap_to_vertical(),
            self.x_1.unwrap_to_vertical(),
            self.y_0.unwrap_to_horizontal(),
            self.y_1.unwrap_to_horizontal(),
        )
    }
}

/// Where a line meets each of the four edge lines of a rectangle.
#[derive(Clone, Copy, Debug, PartialEq, Eq, Structural)]
pub struct RectangleIntersectionPoints {
    pub x_0: Option<Coordinates>,
    pub x_1: Option<Coordinates>,
    pub y_0: Option<Coordinates>,
    pub y_1: Option<Coordinates>,
}

impl RectangleIntersectionPoints {
    /// The four meeting points, as a value of specifications.
    pub open spec fn of(
        line_equation: LineEquation,
        rectangle_line_equations: RectangleLineEquations,
    ) -> RectangleIntersectionPoints {
        RectangleIntersectionPoints {
            x_0: line_equation.intersection(rectangle_line_equations.x_0),
            x_1: line_equation.intersection(rectangle_line_equations.x_1),
            y_0: line_equation.intersection(rectangle_line_equations.y_0),
            y_1: line_equation.intersection(rectangle_line_equations.y_1),
        }
    }

    /// Where `line_equation` meets each of the four edge lines.
    pub fn get(
        line_equation: &LineEquation,
        rectangle_line_equations: &RectangleLineEquations,
    ) -> (r: RectangleIntersectionPoints)
        ensures
            r == RectangleIntersectionPoints::of(*line_equation, *rectangle_line_equations),
    {
        let x_0 = LineEquation::get_point_of_intersection(
            line_equation,
            &rectangle_line_equations.x_0,
        );
        let x_1 = LineEquation::get_point_of_intersection(
            line_equation,
            &rectangle_line_equations.x_1,
        );
        let y_0 = LineEquation::get_point_of_intersection(
            line_equation,
            &rectangle_line_equations.y_0,
        );
        let y_1 = LineEquation::get_point_of_intersection(
            line_equation,
            &rectangle_line_equations.y_1,
        );
        RectangleIntersectionPoints { x_0, x_1, y_0, y_1 }
    }
}

/// A direction with its length.
#[derive(Clone, Copy, Debug, PartialEq, Eq, Structural)]
pub struct Vector {
    pub x: Scalar,
    pub y: Scalar,
    pub magnitude: Scalar,
}

impl Vector {
    /// The vector from `a` to `b`, as a value of specifications.
    pub open spec fn between(a: Coordinates, b: Coordinates) -> Vector {
        let x = b.x.spec_minus(a.x);
        let y = b.y.spec_minus(a.y);
        Vector { x, y, magnitude: Scalar::spec_hypotenuse(x, y) }
    }

    /// The vector of length one with the direction of `self`, as a value of
    /// specifications.
    pub open spec fn unit(self) -> Vector
        recommends
            self.magnitude@ != 0,
    {
        Vector {
            x: self.x.spec_divided_by(self.magnitude),
            y: self.y.spec_divided_by(self.magnitude),
            magnitude: Scalar { raw: ONE_RAW },
        }
    }

    /// The vector from `a` to `b`, with its length.
    pub fn get_vector(a: &Coordinates, b: &Coordinates) -> (r: Vector)
        ensures
            r == Vector::between(*a, *b),
    {
        let x = b.x.minus(a.x);
        let y = b.y.minus(a.y);
        let magnitude = Scalar::hypotenuse(x, y);
        Vector { x, y, magnitude }
    }

    /// The vector rescaled to length one: each component divided by the
    /// magnitude, and the magnitude exactly one.
    pub fn to_unit_vector(vector: &Vector) -> (r: Vector)
        requires
            vector.magnitude@ != 0,
        ensures
            r == vector.unit(),
    {
        let x = vector.x.divided_by(vector.magnitude);
        let y = vector.y.divided_by(vector.magnitude);
        Vector { x, y, magnitude: Scalar::one() }
    }
}

/// The line through two different points is vertical where they share their
/// `x`, horizontal where they share their `y` only, and else sloped, with
/// `slope = (a.y - b.y) / (a.x - b.x)` and `y_intercept = a.y - slope * a.x`.
pub proof fn law_line_through_two_points(a: Coordinates, b: Coordinates)
    requires
        a != b,
    ensures
        a.x == b.x ==> LineEquation::through(a, b) == LineEquation::Vertical(a.x),
        a.x != b.x && a.y == b.y ==> LineEquation::through(a, b) == LineEquation::Horizontal(a.y),
        a.x != b.x && a.y != b.y ==> ({
            let slope = a.y.spec_minus(b.y).spec_divided_by(a.x.spec_minus(b.x));
            let y_intercept = a.y.spec_minus(slope.spec_times(a.x));
            LineEquation::through(a, b) == (LineEquation::Curve { slope, y_intercept })
        }),
{
}

/// Whether the difference of two scalars and that of the same two in the
/// other order are both exact.
pub open spec fn differ_exactly(a: Scalar, b: Scalar) -> bool {
    -i64::MAX <= a@ - b@ <= i64::MAX
}

/// Two lines meet in the same point in whichever order they are given.
///
/// Of two sloped lines this holds where the point found for one order lies
/// on the other line too and the difference of the intercepts is exact: the
/// second coordinate is computed on the first line, and rounding may part
/// the two.
pub proof fn law_intersection_symmetric(line_a: LineEquation, line_b: LineEquation)
    requires
        match (line_a, line_b) {
            (
                LineEquation::Curve { slope: slope_a, y_intercept: y_intercept_a },
                LineEquation::Curve { slope: slope_b, y_intercept: y_intercept_b },
            ) => slope_a != slope_b ==> {
                &&& differ_exactly(y_intercept_a, y_intercept_b)
                &&& line_b.passes_through(line_a.intersection(line_b)->0)
            },
            _ => true,
        },
    ensures
        line_a.intersection(line_b) == line_b.intersection(line_a),
{
    match (line_a, line_b) {
        (
            LineEquation::Curve { slope: slope_a, y_intercept: y_intercept_a },
            LineEquation::Curve { slope: slope_b, y_intercept: y_intercept_b },
        ) => {
            if slope_a != slope_b {
                assert(slope_a@ != slope_b@);
                let x_ab = curves_meet_at(slope_a, y_intercept_a, slope_b, y_intercept_b);
                let x_ba = curves_meet_at(slope_b, y_intercept_b, slope_a, y_intercept_a);
                let n = y_intercept_a@ - y_intercept_b@;
                assert((n * ONE_RAW < 0) == (n < 0) && ((-n) * ONE_RAW < 0) == (-n < 0)
                    && (-n) * ONE_RAW == -(n * ONE_RAW)) by (nonlinear_arith);
                assert(x_ab == x_ba);
            }
        },
        _ => {},
    }
}

/// Two sloped lines of different slope meet at the same first coordinate in
/// whichever order they are given, where the difference of their intercepts
/// is exact.
pub proof fn law_meeting_abscissa_symmetric(
    slope_a: Scalar,
    y_intercept_a: Scalar,
    slope_b: Scalar,
    y_intercept_b: Scalar,
)
    requires
        slope_a != slope_b,
        differ_exactly(y_intercept_a, y_intercept_b),
    ensures
        curves_meet_at(slope_a, y_intercept_a, slope_b, y_intercept_b) == curves_meet_at(
            slope_b,
            y_intercept_b,
            slope_a,
            y_intercept_a,
        ),
{
    let n = y_intercept_a@ - y_intercept_b@;
    assert(slope_a@ != slope_b@);
    assert((n * ONE_RAW < 0) == (n < 0) && ((-n) * ONE_RAW < 0) == (-n < 0) && (-n) * ONE_RAW == -(n
        * ONE_RAW)) by (nonlinear_arith);
}

/// `v` is a raw value that negation keeps exact.
pub open spec fn unclamped(v: int) -> bool {
    -i64::MAX <= v <= i64::MAX
}

/// The value at `x` of the line with the given slope and intercept is
/// computed without clamping.
pub open spec fn curve_at_unclamped(slope: Scalar, y_intercept: Scalar, x: Scalar) -> bool {
    &&& unclamped(trunc_div(slope@ * x@, ONE_RAW as int))
    &&& unclamped(trunc_div(slope@ * x@, ONE_RAW as int) + y_intercept@)
}

/// The point where two sloped lines meet is computed without clamping, on
/// either of them.
pub open spec fn meet_unclamped(
    slope_a: Scalar,
    y_intercept_a: Scalar,
    slope_b: Scalar,
    y_intercept_b: Scalar,
) -> bool {
    let x = curves_meet_at(slope_a, y_intercept_a, slope_b, y_intercept_b);
    &&& differ_exactly(slope_a, slope_b)
    &&& differ_exactly(y_intercept_a, y_intercept_b)
    &&& unclamped(
        trunc_div((y_intercept_a@ - y_intercept_b@) * ONE_RAW, slope_b@ - slope_a@),
    )
    &&& curve_at_unclamped(slope_a, y_intercept_a, x)
    &&& curve_at_unclamped(slope_b, y_intercept_b, x)
}

/// Where two sloped lines of different slope meet, the second coordinates
/// computed on the one and on the other agree up to rounding: they differ by
/// less than the difference of the slopes plus two units of 2^-32, as long
/// as nothing on the way is clamped. So do the points found for the two
/// orders of the lines, which share their first coordinate.
pub proof fn law_meeting_ordinates_agree(
    slope_a: Scalar,
    y_intercept_a: Scalar,
    slope_b: Scalar,
    y_intercept_b: Scalar,
)
    requires
        slope_a != slope_b,
        meet_unclamped(slope_a, y_intercept_a, slope_b, y_intercept_b),
    ensures
        ({
            let line_a = LineEquation::Curve { slope: slope_a, y_intercept: y_intercept_a };
            let line_b = LineEquation::Curve { slope: slope_b, y_intercept: y_intercept_b };
            let first = line_a.intersection(line_b)->0;
            let second = line_b.intersection(line_a)->0;
            &&& line_a.intersection(line_b) is Some
            &&& line_b.intersection(line_a) is Some
            &&& first.x == second.x
            &&& ONE_RAW * abs(first.y@ - second.y@) < abs(slope_a@ - slope_b@) + 2 * ONE_RAW
        }),
{
    law_meeting_abscissa_symmetric(slope_a, y_intercept_a, slope_b, y_intercept_b);
    let n = y_intercept_a@ - y_intercept_b@;
    let d = slope_b@ - slope_a@;
    assert(d != 0);
    let x = trunc_div(n * ONE_RAW, d);
    assert(curves_meet_at(slope_a, y_intercept_a, slope_b, y_intercept_b)@ == x);
    let q_a = trunc_div(slope_a@ * x, ONE_RAW as int);
    let q_b = trunc_div(slope_b@ * x, ONE_RAW as int);
    lemma_trunc_div_remainder(n * ONE_RAW, d);
    lemma_trunc_div_remainder(slope_a@ * x, ONE_RAW as int);
    lemma_trunc_div_remainder(slope_b@ * x, ONE_RAW as int);
    let r = n * ONE_RAW - d * x;
    let r_a = slope_a@ * x - ONE_RAW * q_a;
    let r_b = slope_b@ * x - ONE_RAW * q_b;
    let y_a = q_a + y_intercept_a@;
    let y_b = q_b + y_intercept_b@;
    assert(ONE_RAW * (y_a - y_b) == r - r_a + r_b) by (nonlinear_arith)
        requires
            r == n * ONE_RAW - d * x,
            r_a == slope_a@ * x - ONE_RAW * q_a,
            r_b == slope_b@ * x - ONE_RAW * q_b,
            y_a == q_a + y_intercept_a@,
            y_b == q_b + y_intercept_b@,
            n == y_intercept_a@ - y_intercept_b@,
            d == slope_b@ - slope_a@,
    ;
    assert(ONE_RAW * abs(y_a - y_b) == abs(ONE_RAW * (y_a - y_b))) by (nonlinear_arith);
    assert(abs(d) == abs(slope_a@ - slope_b@));
    assert(curve_at(slope_a, y_intercept_a, Scalar { raw: x as i64 })@ == y_a);
    assert(curve_at(slope_b, y_intercept_b, Scalar { raw: x as i64 })@ == y_b);
}

/// The point where two lines meet lies on each of them that is vertical or
/// horizontal, and on a sloped line wherever its second coordinate was
/// computed on that line: for a sloped first line unless the second is
/// horizontal, for a sloped second line if the first is vertical.
pub proof fn law_meeting_point_on_lines(line_a: LineEquation, line_b: LineEquation)
    requires
        line_a.intersection(line_b) is Some,
    ensures
        ({
            let point = line_a.intersection(line_b)->0;
            &&& !(line_a is Curve) ==> line_a.passes_through(point)
            &&& !(line_b is Curve) ==> line_b.passes_through(point)
            &&& line_a is Curve && !(line_b is Horizontal) ==> line_a.passes_through(point)
            &&& line_b is Curve && line_a is Vertical ==> line_b.passes_through(point)
        }),
{
}

/// Two lines are found parallel in whichever order they are given.
pub proof fn law_parallel_symmetric(line_a: LineEquation, line_b: LineEquation)
    ensures
        line_a.parallel(line_b) == line_b.parallel(line_a),
        line_a.intersection(line_b) is None <==> line_a.parallel(line_b),
        line_a.intersection(line_b) is None <==> line_b.intersection(line_a) is None,
{
}

/// The vector between two different points has a length other than zero,
/// and its unit vector has the magnitude one and each component of the
/// vector divided by that length.
pub proof fn law_unit_vector(a: Coordinates, b: Coordinates)
    requires
        a != b,
    ensures
        Vector::between(a, b).magnitude@ != 0,
        Vector::between(a, b).unit().magnitude@ == ONE_RAW,
        Vector::between(a, b).unit().x == Vector::between(a, b).x.spec_divided_by(
            Vector::between(a, b).magnitude,
        ),
        Vector::between(a, b).unit().y == Vector::between(a, b).y.spec_divided_by(
            Vector::between(a, b).magnitude,
        ),
{
    let vector = Vector::between(a, b);
    assert(a.x@ != b.x@ || a.y@ != b.y@);
    lemma_length_positive(vector.x@, vector.y@);
}

/// One where `line` passes through `point`, else zero.
pub open spec fn counts(line: LineEquation, point: Coordinates) -> nat {
    if line.passes_through(point) {
        1
    } else {
        0
    }
}

/// How many of the four edge lines pass through `point`.
pub open spec fn edge_lines_through(edges: RectangleLineEquations, point: Coordinates) -> nat {
    counts(edges.x_0, point) + counts(edges.x_1, point) + counts(edges.y_0, point) + counts(
        edges.y_1,
        point,
    )
}

/// Each vertex of a rectangle lies on exactly two of its four edge lines,
/// provided that the rectangle has a width and a height, so that opposite
/// edge lines differ.
pub proof fn law_vertexes_on_edge_lines(upper_left: Coordinates, size: Size)
    requires
        lower_right_of(upper_left, size).x != upper_left.x,
        lower_right_of(upper_left, size).y != upper_left.y,
    ensures
        ({
            let vertexes = RectangleVertexes::of(upper_left, size);
            let edges = RectangleLineEquations::of(upper_left, size);
            &&& edge_lines_through(edges, vertexes.upper_left) == 2
            &&& edge_lines_through(edges, vertexes.lower_left) == 2
            &&& edge_lines_through(edges, vertexes.upper_right) == 2
            &&& edge_lines_through(edges, vertexes.lower_right) == 2
            &&& edges.x_0.passes_through(vertexes.upper_left)
            &&& edges.y_0.passes_through(vertexes.upper_left)
            &&& edges.x_0.passes_through(vertexes.lower_left)
            &&& edges.y_1.passes_through(vertexes.lower_left)
            &&& edges.x_1.passes_through(vertexes.upper_right)
            &&& edges.y_0.passes_through(vertexes.upper_right)
            &&& edges.x_1.passes_through(vertexes.lower_right)
            &&& edges.y_1.passes_through(vertexes.lower_right)
        }),
{
}

} // verus!
