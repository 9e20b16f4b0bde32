//! A grid-snapping shape editor's model: the ordered vertices of the shape
//! being drawn, the grid they snap to, hit-testing, the display list of a
//! frame and the shape's SVG markup.

pub mod point;
pub mod grid;
pub mod view;
pub mod svg;
pub mod model;
pub mod events;
