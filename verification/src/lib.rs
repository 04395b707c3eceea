//! In-memory model of an interactive terminal task manager.
//!
//! The library holds the task list, the current selection, the mode state
//! machine (list navigation vs. free-text form input) and the input
//! dispatcher, together with a pure description of what each frame shows.
//! Terminal acquisition, event reading and the actual painting live outside
//! the library.

pub mod key;
pub mod render;
pub mod session;
pub mod store;
