use vstd::prelude::*;

verus! {

/// The largest coordinate a point can hold.
pub const COORD_MAX: i32 = 1073741823;

/// The smallest coordinate a point can hold.
pub const COORD_MIN: i32 = -1073741824;

/// The coordinate nearest to `v` that a point can hold.
pub open spec fn clamp_coordinate(v: int) -> int {
    if v > COORD_MAX {
        COORD_MAX as int
    } else if v < COORD_MIN {
        COORD_MIN as int
    } else {
        v
    }
}

/// A position on the canvas. Two points are equal when their coordinates
/// are. Both coordinates lie between `COORD_MIN` and `COORD_MAX`, half the
/// range of `i32`, so that snapping a point to a grid and measuring the
/// distance between two points never overflow.
#[derive(Clone, Copy, Debug, PartialEq, Eq, Structural, Hash)]
pub struct Point {
    x: i32,
    y: i32,
}

impl Point {
    #[verifier::type_invariant]
    closed spec fn in_range(self) -> bool {
        COORD_MIN <= self.x <= COORD_MAX && COORD_MIN <= self.y <= COORD_MAX
    }

    /// The horizontal coordinate.
    pub closed spec fn spec_x(self) -> i32 {
        self.x
    }

    /// The vertical coordinate.
    pub closed spec fn spec_y(self) -> i32 {
        self.y
    }

    /// The point that `new` makes of `x` and `y`.
    pub closed spec fn at(x: int, y: int) -> Point {
        Point { x: clamp_coordinate(x) as i32, y: clamp_coordinate(y) as i32 }
    }

    /// `at` clamps each coordinate on its own.
    pub proof fn lemma_at(x: int, y: int)
        ensures
            Point::at(x, y).x() == clamp_coordinate(x),
            Point::at(x, y).y() == clamp_coordinate(y),
    {
    }

    /// A point is its two coordinates and nothing more.
    pub proof fn lemma_equal_by_coordinates(p: Point, q: Point)
        requires
            p.x() == q.x(),
            p.y() == q.y(),
        ensures
            p == q,
    {
    }

    /// The point at `(x, y)`, each coordinate clamped to the range a point
    /// can hold.
    pub fn new(x: i32, y: i32) -> (p: Point)
        ensures
            p == Point::at(x as int, y as int),
            p.x() == clamp_coordinate(x as int),
            p.y() == clamp_coordinate(y as int),
    {
        let cx: i32 = if x > COORD_MAX {
            COORD_MAX
        } else if x < COORD_MIN {
            COORD_MIN
        } else {
            x
        };
        let cy: i32 = if y > COORD_MAX {
            COORD_MAX
        } else if y < COORD_MIN {
            COORD_MIN
        } else {
            y
        };
        Point { x: cx, y: cy }
    }

    /// The horizontal coordinate.
    #[verifier::when_used_as_spec(spec_x)]
    pub fn x(self) -> (r: i32)
        ensures
            r == self.x(),
            COORD_MIN <= r <= COORD_MAX,
    {
        proof {
            use_type_invariant(self);
        }
        self.x
    }

    /// The vertical coordinate.
    #[verifier::when_used_as_spec(spec_y)]
    pub fn y(self) -> (r: i32)
        ensures
            r == self.y(),
            COORD_MIN <= r <= COORD_MAX,
    {
        proof {
            use_type_invariant(self);
        }
        self.y
    }

    /// The square of the distance between two points.
    pub open spec fn distance_squared(self, other: Point) -> int {
        (self.x() - other.x()) * (self.x() - other.x()) + (self.y() - other.y()) * (self.y()
            - other.y())
    }

    /// The square of the distance from `self` to `other`.
    pub fn relative_distance(&self, other: &Point) -> (d: i64)
        ensures
            d == self.distance_squared(*other),
    {
        let dx: i64 = self.x() as i64 - other.x() as i64;
        let dy: i64 = self.y() as i64 - other.y() as i64;
        assert(0 <= dx * dx <= 0x3fff_ffff_0000_0001) by (nonlinear_arith)
            requires
                -0x7fff_ffff <= dx <= 0x7fff_ffff,
        ;
        assert(0 <= dy * dy <= 0x3fff_ffff_0000_0001) by (nonlinear_arith)
            requires
                -0x7fff_ffff <= dy <= 0x7fff_ffff,
        ;
        dx * dx + dy * dy
    }
}

} // verus!
