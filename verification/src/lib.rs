//! Verified core of a whiteboard editor: the undo/redo history, the tool
//! set and its shortcuts, selection-driven reordering of the paint order,
//! the theme palette, and the text helpers used when writing SVG.

pub mod arrange;
pub mod history;
pub mod interaction;
pub mod io;
pub mod model;
pub mod theme;
pub mod tools;
