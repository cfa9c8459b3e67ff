//! The core of a small terminal text editor: a line buffer, a cursor with a
//! sticky column, a scrolling viewport and a planner that turns dirty lines
//! into screen instructions.
pub mod command;
pub mod editor;
pub mod laws;
pub mod model;
