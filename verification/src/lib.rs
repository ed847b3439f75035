//! The session controller of a terminal task board: the task store, the
//! add/edit form and the screen state machine that key presses drive.
//!
//! Everything here is plain data and verified transitions. Drawing, reading
//! the terminal and writing the task file belong to the program around it.

pub mod form;
pub mod grouping;
pub mod keys;
pub mod priority;
pub mod scroll;
pub mod session;
pub mod state;
pub mod store;
pub mod task;
pub mod text;
