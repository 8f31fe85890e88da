//! A personal task tracker: the task record, the ordered store that holds
//! the records, the three commands that act on it, and the text that each
//! command prints.

pub mod command;
pub mod dispatch;
pub mod error;
pub mod laws;
pub mod record;
pub mod render;
pub mod store;
pub mod task;
pub mod timestamp;
