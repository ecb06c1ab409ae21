//! The controller of a small terminal to-do list: the tasks, the ordered list
//! with its selection cursor, and the mode state machine that key presses
//! drive.
//!
//! Every type has a mathematical model as its view, and every operation says
//! in its contract what it does to that model. `machine` holds the state
//! machine as mathematics and what holds of all its runs; `app` holds the
//! state as the program keeps it. The terminal, the event source and the
//! storage are left to the program that uses this library.

pub mod app;
pub mod keys;
pub mod list;
pub mod machine;
pub mod screen;
pub mod task;
pub mod text;
