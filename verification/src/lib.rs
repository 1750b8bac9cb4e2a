//! State, decisions and display rules of the launcher's main window and of its
//! component version rows, written as verified functions over plain values.
//!
//! The widgets, the threads and the calls into the game SDK live with the
//! caller: the library tells it what to show and what to do next.

pub mod launcher;
pub mod version;
pub mod main_window;
pub mod layout;
pub mod changes;
pub mod startup;
