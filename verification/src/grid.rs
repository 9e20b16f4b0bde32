use vstd::prelude::*;
use vstd::arithmetic::div_mod::{
    lemma_fundamental_div_mod,
    lemma_fundamental_div_mod_converse,
    lemma_mod_bound,
};
use crate::point::{clamp_coordinate, Point, COORD_MAX, COORD_MIN};

verus! {

/// The quotient of `i` by `size`, rounded toward zero.
pub open spec fn truncated_quotient(i: int, size: int) -> int {
    if i >= 0 {
        i / size
    } else {
        -((-i) / size)
    }
}

/// What is left of `i` after `truncated_quotient`: it has the sign of `i`.
pub open spec fn truncated_remainder(i: int, size: int) -> int {
    if i >= 0 {
        i % size
    } else {
        -((-i) % size)
    }
}

/// The grid line that `i` snaps to on a grid of cells `size` wide: the
/// line below the truncated quotient's, or the next one when the remainder
/// reaches half a cell.
pub open spec fn nearest_on_axis(size: int, i: int) -> int {
    if truncated_remainder(i, size) < size / 2 {
        truncated_quotient(i, size) * size
    } else {
        (truncated_quotient(i, size) + 1) * size
    }
}

/// Half a cell, rounded up.
pub open spec fn half_cell(size: int) -> int {
    (size + 1) / 2
}

/// The number of grid lines at 0, `size`, 2 `size`, ... that lie below
/// `extent`.
pub open spec fn line_count(size: int, extent: int) -> nat {
    if extent <= 0 {
        0
    } else {
        ((extent - 1) / size + 1) as nat
    }
}

/// How far `at` lies below `extent`; 0 once it has reached it.
pub open spec fn distance_below(at: int, extent: int) -> nat {
    if at < extent {
        (extent - at) as nat
    } else {
        0
    }
}

/// A line segment of the grid.
#[derive(Clone, Copy, Debug, PartialEq, Eq, Structural)]
pub struct Line {
    pub start: Point,
    pub end: Point,
}

/// A square grid of cells `size()` wide; the size is positive and never
/// changes.
#[derive(Clone, Copy, Debug, PartialEq, Eq, Structural)]
pub struct Grid {
    size: i32,
}

/// The point of a grid of cells `size` wide that `p` snaps to.
pub open spec fn snap(size: int, p: Point) -> Point {
    Point::at(nearest_on_axis(size, p.x() as int), nearest_on_axis(size, p.y() as int))
}

/// The `k`-th vertical line of the grid, down to `max_height`.
pub open spec fn vertical_line(size: int, k: int, max_height: int) -> Line {
    Line { start: Point::at(k * size, 0), end: Point::at(k * size, max_height) }
}

/// The `k`-th horizontal line of the grid, across to `max_width`.
pub open spec fn horizontal_line(size: int, k: int, max_width: int) -> Line {
    Line { start: Point::at(0, k * size), end: Point::at(max_width, k * size) }
}

/// The vertical lines left of `max_width`, from the left.
pub open spec fn vertical_lines(size: int, max_width: int, max_height: int) -> Seq<Line> {
    Seq::new(line_count(size, max_width), |k: int| vertical_line(size, k, max_height))
}

/// The horizontal lines above `max_height`, from the top.
pub open spec fn horizontal_lines(size: int, max_width: int, max_height: int) -> Seq<Line> {
    Seq::new(line_count(size, max_height), |k: int| horizontal_line(size, k, max_width))
}

/// The lines of the grid over a canvas: the vertical ones, then the
/// horizontal ones.
pub open spec fn grid_lines(size: int, max_width: int, max_height: int) -> Seq<Line> {
    vertical_lines(size, max_width, max_height) + horizontal_lines(size, max_width, max_height)
}

/// Truncated division splits `i` into a multiple of `size` and a remainder
/// on the side of `i`.
pub proof fn lemma_truncated_division(i: int, size: int)
    requires
        size > 0,
    ensures
        i == truncated_quotient(i, size) * size + truncated_remainder(i, size),
        i >= 0 ==> 0 <= truncated_remainder(i, size) < size,
        i >= 0 ==> truncated_quotient(i, size) >= 0,
        i < 0 ==> -size < truncated_remainder(i, size) <= 0,
        i < 0 ==> truncated_quotient(i, size) <= 0,
{
    let a = if i >= 0 { i } else { -i };
    lemma_fundamental_div_mod(a, size);
    lemma_mod_bound(a, size);
    let q = a / size;
    assert(size * q == q * size) by (nonlinear_arith);
    assert((-q) * size == -(q * size)) by (nonlinear_arith);
    assert(q >= 0) by (nonlinear_arith)
        requires
            a >= 0,
            size > 0,
            a == q * size + a % size,
            a % size < size,
    ;
}

/// Snapping lands on a grid line.
pub proof fn lemma_nearest_aligned(size: int, i: int)
    requires
        size > 0,
    ensures
        nearest_on_axis(size, i) % size == 0,
{
    let q = truncated_quotient(i, size);
    lemma_fundamental_div_mod_converse(q * size, size, q, 0);
    lemma_fundamental_div_mod_converse((q + 1) * size, size, q + 1, 0);
}

/// A grid line snaps to itself, on a grid whose cells are at least 2 wide.
pub proof fn lemma_grid_line_is_fixed(size: int, k: int)
    requires
        size >= 2,
    ensures
        nearest_on_axis(size, k * size) == k * size,
{
    let m = k * size;
    if m >= 0 {
        lemma_fundamental_div_mod_converse(m, size, k, 0);
    } else {
        assert(-m == (-k) * size) by (nonlinear_arith)
            requires
                m == k * size,
        ;
        lemma_fundamental_div_mod_converse(-m, size, -k, 0);
    }
    assert(truncated_quotient(m, size) == k);
    assert(truncated_remainder(m, size) == 0);
    assert(size / 2 >= 1);
}

/// Snapping twice is snapping once, on a grid whose cells are at least 2
/// wide.
pub proof fn lemma_nearest_idempotent(size: int, i: int)
    requires
        size >= 2,
    ensures
        nearest_on_axis(size, nearest_on_axis(size, i)) == nearest_on_axis(size, i),
{
    let q = truncated_quotient(i, size);
    lemma_grid_line_is_fixed(size, q);
    lemma_grid_line_is_fixed(size, q + 1);
}

/// Snapping moves a coordinate by at most half a cell, rounded up, when
/// the coordinate is not negative or lies no further than that below the
/// grid line that truncation gives.
pub proof fn lemma_nearest_bounded(size: int, i: int)
    requires
        size > 0,
        i >= 0 || -truncated_remainder(i, size) <= half_cell(size),
    ensures
        -half_cell(size) <= nearest_on_axis(size, i) - i <= half_cell(size),
{
    lemma_truncated_division(i, size);
    let q = truncated_quotient(i, size);
    assert((q + 1) * size == q * size + size) by (nonlinear_arith);
}

/// A coordinate that is not negative snaps by rounding to the nearest
/// multiple of `size`, halves up.
pub proof fn lemma_nearest_rounds_half_up(size: int, i: int)
    requires
        size > 0,
        i >= 0,
    ensures
        nearest_on_axis(size, i) == ((i + half_cell(size)) / size) * size,
{
    lemma_truncated_division(i, size);
    let q = truncated_quotient(i, size);
    let r = truncated_remainder(i, size);
    assert(size / 2 + half_cell(size) == size);
    assert((q + 1) * size == q * size + size) by (nonlinear_arith);
    if r < size / 2 {
        lemma_fundamental_div_mod_converse(i + half_cell(size), size, q, r + half_cell(size));
    } else {
        lemma_fundamental_div_mod_converse(
            i + half_cell(size),
            size,
            q + 1,
            r + half_cell(size) - size,
        );
    }
}

/// A negative coordinate snaps to the multiple of `size` next to it on the
/// side of zero, on a grid whose cells are at least 2 wide.
pub proof fn lemma_nearest_of_negative(size: int, i: int)
    requires
        size >= 2,
        i < 0,
    ensures
        nearest_on_axis(size, i) == -(((-i) / size) * size),
{
    lemma_truncated_division(i, size);
    let q = (-i) / size;
    assert((-q) * size == -(q * size)) by (nonlinear_arith);
}

/// A negative coordinate snaps toward zero, or up by one on a grid of
/// cells 1 wide; one that is not negative never snaps below itself by more
/// than it is.
pub proof fn lemma_nearest_range(size: int, i: int)
    requires
        size > 0,
    ensures
        i < 0 ==> i <= nearest_on_axis(size, i) <= i + size,
        i < 0 ==> nearest_on_axis(size, i) <= 0,
        i >= 0 ==> 0 <= nearest_on_axis(size, i) <= i + half_cell(size),
{
    lemma_truncated_division(i, size);
    let q = truncated_quotient(i, size);
    assert((q + 1) * size == q * size + size) by (nonlinear_arith);
    assert(q >= 0 ==> q * size >= 0) by (nonlinear_arith)
        requires
            size > 0,
    ;
    assert(q <= 0 ==> q * size <= 0) by (nonlinear_arith)
        requires
            size > 0,
    ;
}

/// A point snaps onto grid lines in both directions, unless the grid line
/// lies outside the range of a point's coordinates.
pub proof fn lemma_snap_aligned(size: int, p: Point)
    requires
        size > 0,
        COORD_MIN <= nearest_on_axis(size, p.x() as int) <= COORD_MAX,
        COORD_MIN <= nearest_on_axis(size, p.y() as int) <= COORD_MAX,
    ensures
        snap(size, p).x() as int % size == 0,
        snap(size, p).y() as int % size == 0,
{
    lemma_nearest_aligned(size, p.x() as int);
    lemma_nearest_aligned(size, p.y() as int);
    Point::lemma_at(nearest_on_axis(size, p.x() as int), nearest_on_axis(size, p.y() as int));
}

impl Grid {
    #[verifier::type_invariant]
    closed spec fn positive(self) -> bool {
        self.size > 0
    }

    /// The width of a cell.
    pub closed spec fn spec_size(self) -> i32 {
        self.size
    }

    /// The grid of cells `size` wide, when `size` is positive.
    pub fn new(size: i32) -> (grid: Option<Grid>)
        ensures
            grid.is_some() <==> size > 0,
            grid.is_some() ==> grid.unwrap().size() == size,
    {
        if size > 0 {
            Some(Grid { size })
        } else {
            None
        }
    }

    /// The width of a cell.
    #[verifier::when_used_as_spec(spec_size)]
    pub fn size(self) -> (size: i32)
        ensures
            size == self.size(),
            size > 0,
    {
        proof {
            use_type_invariant(self);
        }
        self.size
    }

    /// The grid coordinate nearest to `i`.
    pub fn nearest(&self, i: i32) -> (r: i32)
        requires
            nearest_on_axis(self.size() as int, i as int) <= i32::MAX,
        ensures
            r == nearest_on_axis(self.size() as int, i as int),
            r as int % self.size() as int == 0,
            i >= 0 ==> -half_cell(self.size() as int) <= r - i <= half_cell(self.size() as int),
            i < 0 ==> i <= r <= 0,
    {
        proof {
            use_type_invariant(self);
            lemma_nearest_aligned(self.size as int, i as int);
            if i >= 0 {
                lemma_nearest_bounded(self.size as int, i as int);
            }
        }
        let div: i32 = i / self.size;
        let rem: i32 = i % self.size;
        proof {
            lemma_truncated_division(i as int, self.size as int);
            lemma_nearest_range(self.size as int, i as int);
            assert((div + 1) * self.size == div * self.size + self.size) by (nonlinear_arith);
            assert(div == truncated_quotient(i as int, self.size as int));
            assert(rem == truncated_remainder(i as int, self.size as int));
        }
        if rem < self.size / 2 {
            div * self.size
        } else {
            assert(div + 1 <= (div + 1) * self.size || div + 1 <= 0) by (nonlinear_arith)
                requires
                    self.size > 0,
            ;
            (div + 1) * self.size
        }
    }

    /// The grid point nearest to `point`.
    pub fn nearest_vertex(&self, point: &Point) -> (r: Point)
        ensures
            r == snap(self.size() as int, *point),
            r.x() == clamp_coordinate(nearest_on_axis(self.size() as int, point.x() as int)),
            r.y() == clamp_coordinate(nearest_on_axis(self.size() as int, point.y() as int)),
    {
        proof {
            use_type_invariant(self);
        }
        let x: i32 = point.x();
        let y: i32 = point.y();
        proof {
            lemma_nearest_range(self.size as int, x as int);
            lemma_nearest_range(self.size as int, y as int);
        }
        Point::new(self.nearest(x), self.nearest(y))
    }

    /// The grid's lines over a canvas `max_width` wide and `max_height`
    /// high: the vertical ones from the left, then the horizontal ones from
    /// the top.
    pub fn lines(&self, max_width: i32, max_height: i32) -> (result: Vec<Line>)
        ensures
            result@ == grid_lines(self.size() as int, max_width as int, max_height as int),
    {
        proof {
            use_type_invariant(self);
        }
        let mut result: Vec<Line> = Vec::new();
        let mut i: i64 = 0;
        let ghost mut k: int = 0;
        while i < max_width as i64
            invariant
                self.size > 0,
                0 <= k,
                i == k * self.size,
                k > 0 ==> (k - 1) * self.size < max_width,
                result@ == Seq::new(
                    k as nat,
                    |j: int| vertical_line(self.size as int, j, max_height as int),
                ),
            decreases distance_below(i as int, max_width as int),
        {
            let x: i32 = i as i32;
            result.push(Line { start: Point::new(x, 0), end: Point::new(x, max_height) });
            proof {
                assert((k + 1) * self.size == k * self.size + self.size) by (nonlinear_arith);
                assert(result@ =~= Seq::new(
                    (k + 1) as nat,
                    |j: int| vertical_line(self.size as int, j, max_height as int),
                ));
                k = k + 1;
            }
            i = i + self.size as i64;
        }
        proof {
            lemma_line_count(self.size as int, max_width as int, k);
        }
        let ghost verticals = result@;
        let mut j: i64 = 0;
        let ghost mut m: int = 0;
        while j < max_height as i64
            invariant
                self.size > 0,
                0 <= m,
                j == m * self.size,
                m > 0 ==> (m - 1) * self.size < max_height,
                result@ == verticals + Seq::new(
                    m as nat,
                    |n: int| horizontal_line(self.size as int, n, max_width as int),
                ),
            decreases distance_below(j as int, max_height as int),
        {
            let y: i32 = j as i32;
            result.push(Line { start: Point::new(0, y), end: Point::new(max_width, y) });
            proof {
                assert((m + 1) * self.size == m * self.size + self.size) by (nonlinear_arith);
                assert(result@ =~= verticals + Seq::new(
                    (m + 1) as nat,
                    |n: int| horizontal_line(self.size as int, n, max_width as int),
                ));
                m = m + 1;
            }
            j = j + self.size as i64;
        }
        proof {
            lemma_line_count(self.size as int, max_height as int, m);
        }
        result
    }
}

/// `k` lines were counted when the `k`-th would lie at or beyond `extent`
/// and the one before it does not.
pub proof fn lemma_line_count(size: int, extent: int, k: int)
    requires
        size > 0,
        0 <= k,
        k * size >= extent,
        k > 0 ==> (k - 1) * size < extent,
    ensures
        k == line_count(size, extent),
{
    if k > 0 {
        assert(k * size == (k - 1) * size + size) by (nonlinear_arith);
        lemma_fundamental_div_mod_converse(
            extent - 1,
            size,
            k - 1,
            extent - 1 - (k - 1) * size,
        );
    } else {
        assert(0 * size == 0);
    }
}

} // verus!
