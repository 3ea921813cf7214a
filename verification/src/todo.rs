//! The task record and its mathematical view.

use vstd::prelude::*;

verus! {

/// One task: what to do, whether it is done, and when it was created and
/// last modified.
#[derive(Clone, Debug, PartialEq, Eq)]
pub struct Todo {
    pub title: String,
    pub completed: bool,
    pub created_at: String,
    pub modified_at: String,
}

/// The abstract value of a [`Todo`]: its texts as sequences of characters.
pub struct TodoView {
    pub title: Seq<char>,
    pub completed: bool,
    pub created_at: Seq<char>,
    pub modified_at: Seq<char>,
}

impl View for Todo {
    type V = TodoView;

    open spec fn view(&self) -> TodoView {
        TodoView {
            title: self.title@,
            completed: self.completed,
            created_at: self.created_at@,
            modified_at: self.modified_at@,
        }
    }
}

impl DeepView for Todo {
    type V = TodoView;

    open spec fn deep_view(&self) -> TodoView {
        self@
    }
}

/// The text that stands in `modified_at` until a task is modified.
pub open spec fn unmodified_mark() -> Seq<char> {
    "--- --- ---"@
}

/// The value of a task that has just been created.
pub open spec fn fresh_todo(title: Seq<char>, created_at: Seq<char>) -> TodoView {
    TodoView { title, completed: false, created_at, modified_at: unmodified_mark() }
}

impl Todo {
    /// Creates a task that is not completed and was never modified.
    pub fn new(title: String, created_at: String) -> (todo: Todo)
        ensures
            todo@ == fresh_todo(title@, created_at@),
    {
        Todo { title, completed: false, created_at, modified_at: String::from_str("--- --- ---") }
    }
}

} // verus!
