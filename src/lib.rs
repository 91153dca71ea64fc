//! Control core of a raw-mode terminal screen editor: the cursor state
//! machine, the output stage that gathers a frame for one write, the key
//! dispatch of the render loop, and the terminal-mode guard.

pub mod ansi;
pub mod buffer;
pub mod cursor;
pub mod error;
pub mod editor;
pub mod key;
pub mod guard;
