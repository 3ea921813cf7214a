//! A todo list kept as an ordered collection of tasks, with verified
//! operations to add, edit, complete, delete and list them.

pub mod todo;
pub mod table;
pub mod decimal;
pub mod listing;
pub mod collection;
pub mod clock;
pub mod command;
pub mod storage;
