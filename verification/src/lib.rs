//! A viewer and editor for one text file in a terminal: the buffer of lines,
//! the window that scrolls over it, the cursor, and the frames drawn from
//! them.

pub mod buffer;
pub mod editor;
pub mod escape;
pub mod event;
pub mod laws;
pub mod state;
pub mod viewport;
