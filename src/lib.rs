//! Drawing-state management for a small windowed graphics layer: colors and
//! paint, a canvas that records nested drawing sections, content screens, and
//! the decisions of the event loop that drives them.

pub mod canvas;
pub mod color;
pub mod lifecycle;
pub mod paint;
pub mod screen;
pub mod system;
