use vstd::prelude::*;
use vstd::view::View as _;
use crate::grid::{grid_lines, Grid, Line};
use crate::point::Point;

verus! {

/// The radius of the marker drawn round a vertex, and the distance within
/// which the pointer hits a vertex.
pub const VERTEX_SIZE: i16 = 20;

/// The colours the editor draws in.
#[derive(Clone, Copy, Debug, PartialEq, Eq, Structural)]
pub enum Colour {
    Black,
    Blue,
    Grey,
    Green,
}

impl Colour {
    /// The red, green and blue parts of the colour.
    pub open spec fn spec_rgb(self) -> (u8, u8, u8) {
        match self {
            Colour::Black => (0u8, 0u8, 0u8),
            Colour::Blue => (0u8, 0u8, 255u8),
            Colour::Grey => (100u8, 100u8, 100u8),
            Colour::Green => (0u8, 255u8, 0u8),
        }
    }

    /// The red, green and blue parts of the colour.
    #[verifier::when_used_as_spec(spec_rgb)]
    pub fn rgb(self) -> (c: (u8, u8, u8))
        ensures
            c == self.rgb(),
    {
        match self {
            Colour::Black => (0, 0, 0),
            Colour::Blue => (0, 0, 255),
            Colour::Grey => (100, 100, 100),
            Colour::Green => (0, 255, 0),
        }
    }
}

/// One step of drawing a frame, with the coordinates as the canvas takes
/// them.
#[derive(Clone, Copy, Debug, PartialEq, Eq, Structural)]
pub enum Draw {
    /// Make `0` the colour that `Clear` fills with.
    SetColour(Colour),
    /// Fill the canvas.
    Clear,
    /// An anti-aliased circle round `(x, y)`.
    Circle { x: i16, y: i16, radius: i16, colour: Colour },
    /// An anti-aliased line from `(x1, y1)` to `(x2, y2)`.
    Line { x1: i16, y1: i16, x2: i16, y2: i16, colour: Colour },
    /// Show what has been drawn.
    Present,
}

/// The vertex marker round `p`.
pub open spec fn circle_at(p: Point, colour: Colour) -> Draw {
    Draw::Circle { x: p.x() as i16, y: p.y() as i16, radius: VERTEX_SIZE, colour }
}

/// The line from `start` to `end`.
pub open spec fn line_between(start: Point, end: Point, colour: Colour) -> Draw {
    Draw::Line {
        x1: start.x() as i16,
        y1: start.y() as i16,
        x2: end.x() as i16,
        y2: end.y() as i16,
        colour,
    }
}

/// The grid's lines, as they are drawn.
pub open spec fn grid_drawing(lines: Seq<Line>) -> Seq<Draw> {
    Seq::new(lines.len(), |i: int| line_between(lines[i].start, lines[i].end, Colour::Grey))
}

/// The edges of the shape: one from each vertex to the next, none back to
/// the first.
pub open spec fn shape_drawing(points: Seq<Point>) -> Seq<Draw> {
    Seq::new(
        if points.len() == 0 {
            0nat
        } else {
            (points.len() - 1) as nat
        },
        |i: int| line_between(points[i], points[i + 1], Colour::Green),
    )
}

/// The markers of the shape's vertices, in their order.
pub open spec fn marker_drawing(points: Seq<Point>) -> Seq<Draw> {
    Seq::new(points.len(), |i: int| circle_at(points[i], Colour::Green))
}

/// The canvas as the editor sees it: its size, and the steps recorded for
/// the frame being drawn, which the program then performs in order.
pub struct View {
    pub commands: Vec<Draw>,
    pub height: i32,
    pub width: i32,
}

impl View {
    /// The steps recorded so far.
    pub open spec fn drawn(&self) -> Seq<Draw> {
        self.commands@
    }

    /// A canvas `width` wide and `height` high, with nothing recorded.
    pub fn new(width: i32, height: i32) -> (v: View)
        ensures
            v.width == width,
            v.height == height,
            v.drawn() == Seq::<Draw>::empty(),
    {
        View { commands: Vec::new(), height, width }
    }

    /// Records the neutral cursor marker round `point`.
    pub fn cursor_circle(&mut self, point: &Point)
        ensures
            final(self).drawn() == old(self).drawn().push(circle_at(*point, Colour::Grey)),
            final(self).width == old(self).width,
            final(self).height == old(self).height,
    {
        self.mark(point, Colour::Grey);
    }

    /// Records a vertex marker round `point`.
    pub fn circle(&mut self, point: &Point)
        ensures
            final(self).drawn() == old(self).drawn().push(circle_at(*point, Colour::Green)),
            final(self).width == old(self).width,
            final(self).height == old(self).height,
    {
        self.mark(point, Colour::Green);
    }

    /// Records the grid's lines over the canvas, after setting the colour
    /// to grey.
    pub fn grid(&mut self, grid: &Grid)
        ensures
            final(self).drawn() == old(self).drawn().push(Draw::SetColour(Colour::Grey))
                + grid_drawing(
                grid_lines(grid.size() as int, old(self).width as int, old(self).height as int),
            ),
            final(self).width == old(self).width,
            final(self).height == old(self).height,
    {
        self.commands.push(Draw::SetColour(Colour::Grey));
        let lines = grid.lines(self.width, self.height);
        let ghost before = self.commands@;
        let mut i: usize = 0;
        while i < lines.len()
            invariant
                i <= lines.len(),
                self.width == old(self).width,
                self.height == old(self).height,
                self.commands@ == before + grid_drawing(lines@.take(i as int)),
            decreases lines.len() - i,
        {
            let Line { start, end } = lines[i];
            self.line(&start, &end, Colour::Grey);
            proof {
                assert(self.commands@ =~= before + grid_drawing(lines@.take(i + 1)));
            }
            i = i + 1;
        }
        proof {
            assert(lines@.take(lines.len() as int) =~= lines@);
            assert(before + grid_drawing(lines@.take(0)) =~= before);
        }
    }

    /// Records the cursor marker round `point` in the colour that shows it
    /// lies on a vertex.
    pub fn highlighted_circle(&mut self, point: &Point)
        ensures
            final(self).drawn() == old(self).drawn().push(circle_at(*point, Colour::Blue)),
            final(self).width == old(self).width,
            final(self).height == old(self).height,
    {
        self.mark(point, Colour::Blue);
    }

    fn mark(&mut self, point: &Point, colour: Colour)
        ensures
            final(self).drawn() == old(self).drawn().push(circle_at(*point, colour)),
            final(self).width == old(self).width,
            final(self).height == old(self).height,
    {
        self.commands.push(
            Draw::Circle {
                x: #[verifier::truncate] (point.x() as i16),
                y: #[verifier::truncate] (point.y() as i16),
                radius: VERTEX_SIZE,
                colour,
            },
        );
    }

    /// Records a line from `start` to `end`.
    pub fn line(&mut self, start: &Point, end: &Point, colour: Colour)
        ensures
            final(self).drawn() == old(self).drawn().push(line_between(*start, *end, colour)),
            final(self).width == old(self).width,
            final(self).height == old(self).height,
    {
        self.commands.push(
            Draw::Line {
                x1: #[verifier::truncate] (start.x() as i16),
                y1: #[verifier::truncate] (start.y() as i16),
                x2: #[verifier::truncate] (end.x() as i16),
                y2: #[verifier::truncate] (end.y() as i16),
                colour,
            },
        );
    }

    /// Records the edges of the shape through `points`.
    pub fn shape(&mut self, points: &[Point])
        ensures
            final(self).drawn() == old(self).drawn() + shape_drawing(points@),
            final(self).width == old(self).width,
            final(self).height == old(self).height,
    {
        let ghost before = self.commands@;
        let mut last_point: Option<&Point> = None;
        let mut i: usize = 0;
        while i < points.len()
            invariant
                i <= points.len(),
                self.width == old(self).width,
                self.height == old(self).height,
                i == 0 ==> last_point.is_none(),
                i > 0 ==> last_point == Some(&points@[i - 1]),
                self.commands@ == before + shape_drawing(points@.take(i as int)),
            decreases points.len() - i,
        {
            let point = &points[i];
            match last_point {
                None => (),
                Some(last) => {
                    self.line(last, point, Colour::Green);
                },
            }
            proof {
                assert(self.commands@ =~= before + shape_drawing(points@.take(i + 1)));
            }
            last_point = Some(point);
            i = i + 1;
        }
        proof {
            assert(points@.take(points.len() as int) =~= points@);
            assert(before + shape_drawing(points@.take(0)) =~= before);
        }
    }

    /// Starts a frame: what was recorded is dropped, and the canvas is to
    /// be filled with black.
    pub fn reset(&mut self)
        ensures
            final(self).drawn() == seq![Draw::SetColour(Colour::Black), Draw::Clear],
            final(self).width == old(self).width,
            final(self).height == old(self).height,
    {
        self.commands = Vec::new();
        self.commands.push(Draw::SetColour(Colour::Black));
        self.commands.push(Draw::Clear);
        proof {
            assert(self.commands@ =~= seq![Draw::SetColour(Colour::Black), Draw::Clear]);
        }
    }

    /// Ends a frame: what was drawn is to be shown.
    pub fn update(&mut self)
        ensures
            final(self).drawn() == old(self).drawn().push(Draw::Present),
            final(self).width == old(self).width,
            final(self).height == old(self).height,
    {
        self.commands.push(Draw::Present);
    }
}

} // verus!
