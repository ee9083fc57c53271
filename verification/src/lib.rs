//! A small todo-list engine: an ordered task list with selection tracking,
//! an interaction-mode state machine, priority-based stable ordering, and
//! case-insensitive search filtering.

pub mod app;
pub mod order;
pub mod search;
pub mod task;
pub mod text;

pub use task::{Priority, TaskView, Todo};
