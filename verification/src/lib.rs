//! A personal task journal: an ordered list of text entries kept in one file
//! as a JSON array.
//!
//! Every operation is a function from the bytes of the journal file (and an
//! argument) to the bytes that replace them or to the lines to show. Opening,
//! reading and writing the file is left to the caller.

pub mod clock;
pub mod codec;
pub mod error;
pub mod json;
pub mod laws;
pub mod task;
pub mod tasks;
pub mod text;

pub use error::JournalError;
pub use task::Task;
pub use tasks::{add_task, collect_tasks, complete_task, list_tasks};
