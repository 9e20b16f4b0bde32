use vstd::prelude::*;
use vstd::view::View as _;
use crate::grid::{grid_lines, snap, Grid};
use crate::point::Point;
use crate::svg::{document, document_string};
use crate::view::{
    circle_at,
    grid_drawing,
    marker_drawing,
    shape_drawing,
    Colour,
    Draw,
    View,
    VERTEX_SIZE,
};

verus! {

/// The width of a cell of the grid that a new model snaps to.
pub const CELL_SIZE: i32 = 40;

/// Where `p` first occurs in `s`; the length of `s` when it does not.
pub open spec fn position(s: Seq<Point>, p: Point) -> int
    decreases s.len(),
{
    if s.len() == 0 || s[0] == p {
        0
    } else {
        1 + position(s.drop_first(), p)
    }
}

/// `position` is the index of the first element equal to `p`.
pub proof fn lemma_position(s: Seq<Point>, p: Point)
    ensures
        0 <= position(s, p) <= s.len(),
        position(s, p) < s.len() ==> s[position(s, p)] == p,
        forall|j: int| 0 <= j < position(s, p) ==> s[j] != p,
        position(s, p) < s.len() <==> s.contains(p),
    decreases s.len(),
{
    if s.len() == 0 || s[0] == p {
    } else {
        let rest = s.drop_first();
        lemma_position(rest, p);
        assert forall|j: int| 0 <= j < position(s, p) implies s[j] != p by {
            if j > 0 {
                assert(s[j] == rest[j - 1]);
            }
        }
        if position(s, p) < s.len() {
            assert(s[position(s, p)] == rest[position(rest, p)]);
        }
        if s.contains(p) {
            let k = choose|k: int| 0 <= k < s.len() && s[k] == p;
            assert(rest[k - 1] == p);
        }
    }
}

/// An index at which `p` stands, with no `p` before it, is `position`.
pub proof fn lemma_position_is(s: Seq<Point>, p: Point, i: int)
    requires
        0 <= i <= s.len(),
        i < s.len() ==> s[i] == p,
        forall|j: int| 0 <= j < i ==> s[j] != p,
    ensures
        position(s, p) == i,
{
    lemma_position(s, p);
    let k = position(s, p);
    if k < i {
        assert(s[k] != p);
    }
}

/// Whether the pointer at `p` hits the vertex `v`: the marker round `v`
/// reaches `p`.
pub open spec fn within_reach(v: Point, p: Point) -> bool {
    v.distance_squared(p) <= VERTEX_SIZE * VERTEX_SIZE
}

/// Whether `s[k]` is the vertex that the pointer at `p` picks: within
/// reach, no further from `p` than any other vertex within reach, and
/// nearer than each one before it.
pub open spec fn is_nearest_hit(s: Seq<Point>, p: Point, k: int) -> bool {
    &&& 0 <= k < s.len()
    &&& within_reach(s[k], p)
    &&& forall|j: int|
        0 <= j < s.len() && within_reach(#[trigger] s[j], p) ==> s[k].distance_squared(p)
            <= s[j].distance_squared(p)
    &&& forall|j: int|
        0 <= j < k && within_reach(#[trigger] s[j], p) ==> s[k].distance_squared(p)
            < s[j].distance_squared(p)
}

/// At most one vertex is the one that the pointer picks.
pub proof fn lemma_nearest_hit_unique(s: Seq<Point>, p: Point, k1: int, k2: int)
    requires
        is_nearest_hit(s, p, k1),
        is_nearest_hit(s, p, k2),
    ensures
        k1 == k2,
{
    if k1 < k2 {
        assert(within_reach(s[k1], p));
    } else if k2 < k1 {
        assert(within_reach(s[k2], p));
    }
}

/// The index of the vertex that the pointer at `p` picks, if it picks one.
pub open spec fn nearest_hit(s: Seq<Point>, p: Point) -> Option<int> {
    if exists|k: int| is_nearest_hit(s, p, k) {
        Some(choose|k: int| is_nearest_hit(s, p, k))
    } else {
        None
    }
}

/// What the editor knows of the shape being drawn.
pub struct ModelState {
    /// The vertices of the shape, in the order of its edges.
    pub vertices: Seq<Point>,
    /// Where the pointer last was, snapped to the grid.
    pub cursor: Point,
    /// The vertex last found under the pointer.
    pub highlighted: Option<Point>,
    /// The vertex that follows the pointer, by its value.
    pub dragging: Option<Point>,
    /// The width of a cell of the grid that vertices snap to.
    pub cell_size: int,
}

impl ModelState {
    /// The state in which editing starts, on a grid of cells `cell_size`
    /// wide.
    pub open spec fn initial(cell_size: int) -> ModelState {
        ModelState {
            vertices: Seq::empty(),
            cursor: Point::at(0, 0),
            highlighted: None,
            dragging: None,
            cell_size,
        }
    }

    /// A vertex is added at the grid point nearest to `point`.
    pub open spec fn add_point(self, point: Point) -> ModelState {
        ModelState { vertices: self.vertices.push(snap(self.cell_size, point)), ..self }
    }

    /// The first vertex equal to `vertex` is removed, if there is one.
    pub open spec fn delete_vertex(self, vertex: Point) -> ModelState {
        if self.vertices.contains(vertex) {
            ModelState {
                vertices: self.vertices.remove(position(self.vertices, vertex)),
                ..self
            }
        } else {
            self
        }
    }

    /// The first vertex equal to the dragged one moves to the grid point
    /// nearest to `point`, and is the dragged one from then on; nothing
    /// changes when no vertex is dragged or none is equal to it.
    pub open spec fn drag_to_point_near(self, point: Point) -> ModelState {
        match self.dragging {
            Some(dragged) if self.vertices.contains(dragged) => ModelState {
                vertices: self.vertices.update(
                    position(self.vertices, dragged),
                    snap(self.cell_size, point),
                ),
                dragging: Some(snap(self.cell_size, point)),
                ..self
            },
            _ => self,
        }
    }

    /// `point` is the vertex under the pointer.
    pub open spec fn highlight(self, point: Point) -> ModelState {
        ModelState { highlighted: Some(point), ..self }
    }

    /// The cursor moves to the grid point nearest to `point`.
    pub open spec fn set_cursor(self, point: Point) -> ModelState {
        ModelState { cursor: snap(self.cell_size, point), ..self }
    }

    /// `point` is the vertex that follows the pointer.
    pub open spec fn start_dragging(self, point: Point) -> ModelState {
        ModelState { dragging: Some(point), ..self }
    }

    /// No vertex follows the pointer.
    pub open spec fn stop_dragging(self) -> ModelState {
        ModelState { dragging: None, ..self }
    }

    /// The vertex that the pointer at `point` picks, if it picks one.
    pub open spec fn vertex_near(self, point: Point) -> Option<Point> {
        match nearest_hit(self.vertices, point) {
            Some(k) => Some(self.vertices[k]),
            None => None,
        }
    }

    /// The marker at the cursor: blue when the cursor lies on the
    /// highlighted vertex, grey otherwise.
    pub open spec fn cursor_marker(self) -> Draw {
        if self.highlighted == Some(self.cursor) {
            circle_at(self.cursor, Colour::Blue)
        } else {
            circle_at(self.cursor, Colour::Grey)
        }
    }

    /// The steps that draw the model on a cleared canvas `width` wide and
    /// `height` high: the grid, the shape's edges, a marker on each vertex,
    /// then the cursor.
    pub open spec fn drawing(self, width: int, height: int) -> Seq<Draw> {
        seq![Draw::SetColour(Colour::Grey)] + grid_drawing(
            grid_lines(self.cell_size, width, height),
        ) + shape_drawing(self.vertices) + marker_drawing(self.vertices).push(
            self.cursor_marker(),
        )
    }

    /// The steps of a whole frame.
    pub open spec fn frame(self, width: int, height: int) -> Seq<Draw> {
        (seq![Draw::SetColour(Colour::Black), Draw::Clear] + self.drawing(width, height)).push(
            Draw::Present,
        )
    }
}

/// Deleting a point that is no vertex changes nothing.
pub proof fn lemma_delete_absent(state: ModelState, point: Point)
    requires
        !state.vertices.contains(point),
    ensures
        state.delete_vertex(point) == state,
{
}

/// Deleting a vertex takes out its first occurrence: the vertices before
/// it and after it keep their order.
pub proof fn lemma_delete_present(state: ModelState, point: Point)
    requires
        state.vertices.contains(point),
    ensures
        ({
            let k = position(state.vertices, point);
            let after = state.delete_vertex(point).vertices;
            &&& 0 <= k < state.vertices.len()
            &&& state.vertices[k] == point
            &&& after.len() == state.vertices.len() - 1
            &&& forall|j: int| 0 <= j < k ==> after[j] == state.vertices[j] && after[j] != point
            &&& forall|j: int| k <= j < after.len() ==> after[j] == state.vertices[j + 1]
        }),
{
    lemma_position(state.vertices, point);
}

/// Starting to drag `vertex` and then dragging to `point` puts the grid
/// point nearest to `point` where `vertex` first stood, leaves every other
/// vertex where it was, and drags that grid point from then on; when
/// `vertex` is no vertex of the shape, the drag moves nothing.
pub proof fn lemma_drag_moves_first_occurrence(state: ModelState, vertex: Point, point: Point)
    ensures
        state.vertices.contains(vertex) ==> ({
            let k = position(state.vertices, vertex);
            let after = state.start_dragging(vertex).drag_to_point_near(point);
            &&& 0 <= k < state.vertices.len()
            &&& state.vertices[k] == vertex
            &&& forall|j: int| 0 <= j < k ==> state.vertices[j] != vertex
            &&& after.vertices.len() == state.vertices.len()
            &&& after.vertices[k] == snap(state.cell_size, point)
            &&& forall|j: int|
                0 <= j < state.vertices.len() && j != k ==> after.vertices[j] == state.vertices[j]
            &&& after.dragging == Some(snap(state.cell_size, point))
            &&& after.cursor == state.cursor
            &&& after.highlighted == state.highlighted
            &&& after.cell_size == state.cell_size
        }),
        !state.vertices.contains(vertex) ==> state.start_dragging(vertex).drag_to_point_near(
            point,
        ) == state.start_dragging(vertex),
{
    lemma_position(state.vertices, vertex);
}

/// The editor's model: the shape, the cursor and the canvas it draws on.
pub struct Model {
    cursor: Point,
    dragging: Option<Point>,
    grid: Grid,
    highlighted_vertex: Option<Point>,
    shape: Vec<Point>,
    view: View,
}

impl vstd::view::View for Model {
    type V = ModelState;

    closed spec fn view(&self) -> ModelState {
        ModelState {
            vertices: self.shape@,
            cursor: self.cursor,
            highlighted: self.highlighted_vertex,
            dragging: self.dragging,
            cell_size: self.grid.size() as int,
        }
    }
}

/// The index of the first element of `vertices` equal to `vertex`.
pub fn first_index_of(vertices: &Vec<Point>, vertex: &Point) -> (found: Option<usize>)
    ensures
        match found {
            Some(i) => i == position(vertices@, *vertex) && i < vertices.len(),
            None => position(vertices@, *vertex) == vertices.len(),
        },
        found.is_some() <==> vertices@.contains(*vertex),
{
    let mut i: usize = 0;
    while i < vertices.len()
        invariant
            i <= vertices.len(),
            forall|j: int| 0 <= j < i ==> vertices@[j] != *vertex,
        decreases vertices.len() - i,
    {
        if vertices[i] == *vertex {
            proof {
                lemma_position_is(vertices@, *vertex, i as int);
                lemma_position(vertices@, *vertex);
            }
            return Some(i);
        }
        i = i + 1;
    }
    proof {
        lemma_position_is(vertices@, *vertex, i as int);
        lemma_position(vertices@, *vertex);
    }
    None
}

impl Model {
    /// The canvas and what has been recorded on it.
    pub closed spec fn canvas(&self) -> View {
        self.view
    }

    /// A model with no vertices that draws on `view`, with the cursor at
    /// the origin and a grid of cells `CELL_SIZE` wide.
    pub fn new(view: View) -> (model: Model)
        ensures
            model@ == ModelState::initial(CELL_SIZE as int),
            model.canvas() == view,
    {
        Model::with_grid(view, Grid::new(CELL_SIZE).unwrap())
    }

    /// A model with no vertices that draws on `view` and snaps to `grid`,
    /// with the cursor at the origin.
    pub fn with_grid(view: View, grid: Grid) -> (model: Model)
        ensures
            model@ == ModelState::initial(grid.size() as int),
            model.canvas() == view,
    {
        Model {
            view,
            cursor: Point::new(0, 0),
            dragging: None,
            grid,
            highlighted_vertex: None,
            shape: Vec::new(),
        }
    }

    /// Adds a vertex at the grid point nearest to `point`.
    pub fn add_point(&mut self, point: Point)
        ensures
            final(self)@ == old(self)@.add_point(point),
            final(self).canvas() == old(self).canvas(),
    {
        let vertex = self.grid.nearest_vertex(&point);
        self.shape.push(vertex);
    }

    /// Removes the first vertex equal to `vertex`; `None` when there is
    /// none, and then nothing changes.
    pub fn delete_vertex(&mut self, vertex: &Point) -> (removed: Option<()>)
        ensures
            final(self)@ == old(self)@.delete_vertex(*vertex),
            final(self).canvas() == old(self).canvas(),
            removed.is_some() <==> old(self)@.vertices.contains(*vertex),
            !old(self)@.vertices.contains(*vertex) ==> final(self)@ == old(self)@,
    {
        match first_index_of(&self.shape, vertex) {
            None => None,
            Some(pos) => {
                self.shape.remove(pos);
                Some(())
            },
        }
    }

    /// Moves the dragged vertex to the grid point nearest to `point`.
    pub fn drag_to_point_near(&mut self, point: &Point)
        ensures
            final(self)@ == old(self)@.drag_to_point_near(*point),
            final(self).canvas() == old(self).canvas(),
    {
        if let Some(dragging) = self.dragging {
            let maybe_index = first_index_of(&self.shape, &dragging);
            let destination = self.grid.nearest_vertex(point);
            match maybe_index {
                None => {},
                Some(index) => {
                    self.shape.set(index, destination);
                    self.dragging = Some(destination);
                },
            }
        }
    }

    /// The vertex nearest to `point` among those whose marker reaches
    /// `point`, the first of them where several are equally near; `None`
    /// when no marker reaches `point`.
    pub fn get_vertex_near(&self, point: &Point) -> (found: Option<&Point>)
        ensures
            match found {
                Some(vertex) => exists|k: int|
                    is_nearest_hit(self@.vertices, *point, k) && *vertex == self@.vertices[k],
                None => forall|j: int|
                    0 <= j < self@.vertices.len() ==> !within_reach(
                        #[trigger] self@.vertices[j],
                        *point,
                    ),
            },
            match found {
                Some(vertex) => self@.vertex_near(*point) == Some(*vertex),
                None => self@.vertex_near(*point).is_none(),
            },
    {
        let reach: i64 = (VERTEX_SIZE as i64) * (VERTEX_SIZE as i64);
        let mut best_vertex: Option<&Point> = None;
        let mut best_distance: Option<i64> = None;
        let ghost mut best: int = 0;
        let mut i: usize = 0;
        while i < self.shape.len()
            invariant
                i <= self.shape.len(),
                reach == VERTEX_SIZE * VERTEX_SIZE,
                best_vertex.is_none() == best_distance.is_none(),
                best_vertex.is_none() ==> forall|j: int|
                    0 <= j < i ==> !within_reach(#[trigger] self.shape@[j], *point),
                best_vertex.is_some() ==> {
                    &&& 0 <= best < i
                    &&& *best_vertex.unwrap() == self.shape@[best]
                    &&& best_distance.unwrap() == self.shape@[best].distance_squared(*point)
                    &&& is_nearest_hit(self.shape@.take(i as int), *point, best)
                },
            decreases self.shape.len() - i,
        {
            let vertex = &self.shape[i];
            let dist_squared = vertex.relative_distance(point);
            let ghost before = self.shape@.take(i as int);
            let ghost now = self.shape@.take(i + 1);
            proof {
                assert(forall|j: int| 0 <= j < i ==> now[j] == before[j]);
                assert(now[i as int] == *vertex);
            }
            if dist_squared <= reach {
                let nearer = match best_distance {
                    None => true,
                    Some(distance) => dist_squared < distance,
                };
                if nearer {
                    best_distance = Some(dist_squared);
                    best_vertex = Some(vertex);
                    proof {
                        best = i as int;
                        assert(is_nearest_hit(now, *point, best));
                    }
                } else {
                    assert(is_nearest_hit(now, *point, best));
                }
            } else {
                assert(best_vertex.is_some() ==> is_nearest_hit(now, *point, best));
            }
            i = i + 1;
        }
        proof {
            assert(self.shape@.take(self.shape.len() as int) =~= self.shape@);
            if best_vertex.is_some() {
                assert(is_nearest_hit(self@.vertices, *point, best));
                assert(*best_vertex.unwrap() == self@.vertices[best]);
                let chosen = choose|k: int| is_nearest_hit(self@.vertices, *point, k);
                lemma_nearest_hit_unique(self@.vertices, *point, best, chosen);
            } else {
                assert forall|k: int| !is_nearest_hit(self@.vertices, *point, k) by {
                    if 0 <= k < self@.vertices.len() {
                        assert(!within_reach(self@.vertices[k], *point));
                    }
                }
            }
        }
        best_vertex
    }

    /// Remembers `point` as the vertex under the pointer.
    pub fn highlight(&mut self, point: Point)
        ensures
            final(self)@ == old(self)@.highlight(point),
            final(self).canvas() == old(self).canvas(),
    {
        self.highlighted_vertex = Some(point);
    }

    /// Whether a vertex follows the pointer.
    pub fn is_dragging(&self) -> (dragging: bool)
        ensures
            dragging == self@.dragging.is_some(),
    {
        self.dragging.is_some()
    }

    /// Moves the cursor to the grid point nearest to `point`.
    pub fn set_cursor(&mut self, point: Point)
        ensures
            final(self)@ == old(self)@.set_cursor(point),
            final(self).canvas() == old(self).canvas(),
    {
        self.cursor = self.grid.nearest_vertex(&point);
    }

    /// Makes `point` the vertex that follows the pointer.
    pub fn start_dragging(&mut self, point: Point)
        ensures
            final(self)@ == old(self)@.start_dragging(point),
            final(self).canvas() == old(self).canvas(),
    {
        self.dragging = Some(point);
    }

    /// Lets go of the dragged vertex.
    pub fn stop_dragging(&mut self)
        ensures
            final(self)@ == old(self)@.stop_dragging(),
            final(self).canvas() == old(self).canvas(),
    {
        self.dragging = None;
    }

    /// The shape as an SVG document with one polygon.
    pub fn to_svg(&self) -> (svg: String)
        ensures
            svg@ == document(
                self.canvas().width as int,
                self.canvas().height as int,
                self@.vertices,
            ),
    {
        document_string(self.view.width, self.view.height, &self.shape)
    }

    /// Records the steps of a whole frame on the canvas, in place of what
    /// was recorded before; the shape, the cursor and the canvas's size
    /// stay as they are.
    pub fn update(&mut self)
        ensures
            final(self)@ == old(self)@,
            final(self).canvas().width == old(self).canvas().width,
            final(self).canvas().height == old(self).canvas().height,
            final(self).canvas().drawn() == old(self)@.frame(
                old(self).canvas().width as int,
                old(self).canvas().height as int,
            ),
    {
        self.view.reset();
        self.update_frame();
        self.view.update();
    }

    /// Records the steps that draw the model after what the canvas holds.
    pub fn update_frame(&mut self)
        ensures
            final(self)@ == old(self)@,
            final(self).canvas().width == old(self).canvas().width,
            final(self).canvas().height == old(self).canvas().height,
            final(self).canvas().drawn() == old(self).canvas().drawn() + old(self)@.drawing(
                old(self).canvas().width as int,
                old(self).canvas().height as int,
            ),
    {
        self.view.grid(&self.grid);
        self.view.shape(self.shape.as_slice());
        let ghost before = self.view.commands@;
        let mut i: usize = 0;
        while i < self.shape.len()
            invariant
                i <= self.shape.len(),
                self@ == old(self)@,
                self.view.width == old(self).view.width,
                self.view.height == old(self).view.height,
                self.view.commands@ == before + marker_drawing(self.shape@.take(i as int)),
            decreases self.shape.len() - i,
        {
            let circle = self.shape[i];
            self.view.circle(&circle);
            proof {
                assert(self.view.commands@ =~= before + marker_drawing(
                    self.shape@.take(i + 1),
                ));
            }
            i = i + 1;
        }
        proof {
            assert(self.shape@.take(self.shape.len() as int) =~= self.shape@);
        }
        let on_vertex = match self.highlighted_vertex {
            None => false,
            Some(highlighted) => highlighted == self.cursor,
        };
        let cursor = self.cursor;
        if on_vertex {
            self.view.highlighted_circle(&cursor);
        } else {
            self.view.cursor_circle(&cursor);
        }
        proof {
            assert(self.view.commands@ =~= old(self).view.commands@ + old(self)@.drawing(
                old(self).view.width as int,
                old(self).view.height as int,
            ));
        }
    }

    /// The vertices of the shape, in order.
    pub fn vertices(&self) -> (vertices: &Vec<Point>)
        ensures
            vertices@ == self@.vertices,
    {
        &self.shape
    }

    /// Where the pointer last was, snapped to the grid.
    pub fn cursor(&self) -> (cursor: Point)
        ensures
            cursor == self@.cursor,
    {
        self.cursor
    }

    /// The vertex last found under the pointer.
    pub fn highlighted_vertex(&self) -> (highlighted: Option<Point>)
        ensures
            highlighted == self@.highlighted,
    {
        self.highlighted_vertex
    }

    /// The vertex that follows the pointer.
    pub fn dragging(&self) -> (dragging: Option<Point>)
        ensures
            dragging == self@.dragging,
    {
        self.dragging
    }

    /// The grid that vertices snap to.
    pub fn grid(&self) -> (grid: Grid)
        ensures
            grid.size() == self@.cell_size,
    {
        self.grid
    }

    /// The canvas, with the steps recorded on it.
    pub fn display(&self) -> (view: &View)
        ensures
            *view == self.canvas(),
    {
        &self.view
    }
}

} // verus!
