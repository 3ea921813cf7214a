//! What is made of the stored collection when it is read.

use vstd::prelude::*;
use crate::todo::{Todo, TodoView};

verus! {

/// What reading the store gave.
#[derive(Clone, Debug, PartialEq, Eq)]
pub enum Stored {
    /// Nothing is stored, or the store cannot be opened.
    Absent,
    /// Something is stored that is not a collection.
    Malformed,
    /// The collection that is stored.
    Tasks(Vec<Todo>),
}

/// Why the stored collection cannot be used.
#[derive(Clone, Copy, Debug, PartialEq, Eq)]
pub enum StorageError {
    /// The store holds something that is not a collection.
    Malformed,
}

/// The collection to work on. A store that is absent stands for the empty
/// collection; one that is malformed is an error, so that it is never
/// written over.
pub fn collection_from(stored: Stored) -> (result: Result<Vec<Todo>, StorageError>)
    ensures
        match stored {
            Stored::Absent => result matches Ok(todos) && todos.deep_view()
                == Seq::<TodoView>::empty(),
            Stored::Malformed => result == Err::<Vec<Todo>, StorageError>(StorageError::Malformed),
            Stored::Tasks(tasks) => result == Ok::<Vec<Todo>, StorageError>(tasks),
        },
{
    match stored {
        Stored::Absent => Ok(Vec::new()),
        Stored::Malformed => Err(StorageError::Malformed),
        Stored::Tasks(tasks) => Ok(tasks),
    }
}

} // verus!
