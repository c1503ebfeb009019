//! Colors and the canvas they are written to.

pub mod canvas;
pub mod colors;

pub use canvas::{Axis, Canvas, CanvasError};
pub use colors::Color;
