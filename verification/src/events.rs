use vstd::prelude::*;
use vstd::view::View as _;
use crate::model::{Model, ModelState};
use crate::point::Point;
use crate::svg::document;

verus! {

/// What the user did, as the window reports it.
#[derive(Clone, Copy, Debug, PartialEq, Eq, Structural)]
pub enum Input {
    /// The window was closed, or Escape was pressed.
    Quit,
    /// The primary mouse button went down at `(x, y)`.
    PrimaryDown { x: i32, y: i32 },
    /// The secondary mouse button went down at `(x, y)`.
    SecondaryDown { x: i32, y: i32 },
    /// The pointer moved to `(x, y)`.
    Motion { x: i32, y: i32 },
    /// The key S was released, with the control keys held as given.
    SaveKey { left_ctrl: bool, right_ctrl: bool },
    /// Anything else.
    Other,
}

/// What the program is to do after an input.
#[derive(Debug)]
pub enum Reaction {
    /// Go on.
    Continue,
    /// Leave the event loop.
    Quit,
    /// Save the document that `0` holds.
    Save(String),
}

impl ModelState {
    /// The state after `input`: the primary button adds a vertex, the
    /// secondary button deletes the vertex under the pointer, and a move
    /// highlights the vertex under the pointer, moves the cursor and drags
    /// the dragged vertex along.
    pub open spec fn handle(self, input: Input) -> ModelState {
        match input {
            Input::PrimaryDown { x, y } => self.add_point(Point::at(x as int, y as int)),
            Input::SecondaryDown { x, y } => match self.vertex_near(
                Point::at(x as int, y as int),
            ) {
                Some(vertex) => self.delete_vertex(vertex),
                None => self,
            },
            Input::Motion { x, y } => {
                let pointer = Point::at(x as int, y as int);
                let highlighted = match self.vertex_near(pointer) {
                    Some(vertex) => self.highlight(vertex),
                    None => self,
                };
                highlighted.set_cursor(pointer).drag_to_point_near(pointer)
            },
            _ => self,
        }
    }
}

/// Whether `input` asks for the shape to be saved: S with a control key.
pub open spec fn asks_to_save(input: Input) -> bool {
    match input {
        Input::SaveKey { left_ctrl, right_ctrl } => left_ctrl || right_ctrl,
        _ => false,
    }
}

impl Model {
    /// Takes one input: changes the model as the input asks and says what
    /// the program is to do next.
    pub fn handle(&mut self, input: Input) -> (reaction: Reaction)
        ensures
            final(self)@ == old(self)@.handle(input),
            final(self).canvas() == old(self).canvas(),
            input == Input::Quit <==> reaction is Quit,
            asks_to_save(input) <==> reaction is Save,
            reaction matches Reaction::Save(svg) ==> svg@ == document(
                old(self).canvas().width as int,
                old(self).canvas().height as int,
                old(self)@.vertices,
            ),
    {
        match input {
            Input::Quit => Reaction::Quit,
            Input::PrimaryDown { x, y } => {
                self.add_point(Point::new(x, y));
                Reaction::Continue
            },
            Input::SecondaryDown { x, y } => {
                let pointer = Point::new(x, y);
                let point_to_remove = match self.get_vertex_near(&pointer) {
                    Some(vertex) => Some(*vertex),
                    None => None,
                };
                match point_to_remove {
                    None => {},
                    Some(vertex) => {
                        self.delete_vertex(&vertex);
                    },
                }
                Reaction::Continue
            },
            Input::Motion { x, y } => {
                let pointer = Point::new(x, y);
                let existing_vertex = match self.get_vertex_near(&pointer) {
                    Some(vertex) => Some(*vertex),
                    None => None,
                };
                match existing_vertex {
                    None => {},
                    Some(vertex) => {
                        self.highlight(vertex);
                    },
                }
                self.set_cursor(pointer);
                self.drag_to_point_near(&pointer);
                Reaction::Continue
            },
            Input::SaveKey { left_ctrl, right_ctrl } => {
                if left_ctrl || right_ctrl {
                    Reaction::Save(self.to_svg())
                } else {
                    Reaction::Continue
                }
            },
            Input::Other => Reaction::Continue,
        }
    }
}

} // verus!
