//! The operations that change a collection of tasks.
//!
//! A collection is a `Vec<Todo>`; a task is addressed by its position,
//! counted from zero. Each operation is stated over the sequence of the
//! tasks' values, `todos.deep_view()`.

use vstd::prelude::*;
use crate::todo::{fresh_todo, Todo, TodoView};

verus! {

/// Why an operation on a collection did nothing.
#[derive(Clone, Copy, Debug, PartialEq, Eq)]
pub enum TodoError {
    /// No task stands at the position that was given.
    NotFound,
}

/// Whether a task stands at position `index`.
pub open spec fn has_position(todos: Seq<TodoView>, index: int) -> bool {
    0 <= index < todos.len()
}

/// A task under a new title.
pub open spec fn retitled(todo: TodoView, title: Seq<char>) -> TodoView {
    TodoView { title, ..todo }
}

/// A task, completed.
pub open spec fn marked_completed(todo: TodoView) -> TodoView {
    TodoView { completed: true, ..todo }
}

/// The collection with a new task at its end.
pub open spec fn added(todos: Seq<TodoView>, title: Seq<char>, created_at: Seq<char>) -> Seq<
    TodoView,
> {
    todos.push(fresh_todo(title, created_at))
}

/// The collection with the task at `index` under a new title; the
/// collection itself where no task stands there.
pub open spec fn edited(todos: Seq<TodoView>, index: int, title: Seq<char>) -> Seq<TodoView> {
    if has_position(todos, index) {
        todos.update(index, retitled(todos[index], title))
    } else {
        todos
    }
}

/// The collection with the task at `index` completed; the collection itself
/// where no task stands there.
pub open spec fn completed(todos: Seq<TodoView>, index: int) -> Seq<TodoView> {
    if has_position(todos, index) {
        todos.update(index, marked_completed(todos[index]))
    } else {
        todos
    }
}

/// The collection without the task at `index`; the collection itself where
/// no task stands there.
pub open spec fn deleted(todos: Seq<TodoView>, index: int) -> Seq<TodoView> {
    if has_position(todos, index) {
        todos.remove(index)
    } else {
        todos
    }
}

/// Appends a new task, not completed and never modified, to the collection.
pub fn add_new_todo(todos: &mut Vec<Todo>, title: String, created_at: String)
    ensures
        final(todos).deep_view() == added(old(todos).deep_view(), title@, created_at@),
{
    let new_todo = Todo::new(title, created_at);
    todos.push(new_todo);
}

/// Gives the task at `todo_index` a new title. Where no task stands there,
/// the collection is left as it is and the result is `NotFound`.
pub fn edit_todo(todos: &mut Vec<Todo>, todo_index: usize, title: &str) -> (result: Result<
    (),
    TodoError,
>)
    ensures
        result is Ok <==> has_position(old(todos).deep_view(), todo_index as int),
        final(todos).deep_view() == edited(old(todos).deep_view(), todo_index as int, title@),
{
    if todo_index < todos.len() {
        todos[todo_index].title = String::from_str(title);
        Ok(())
    } else {
        Err(TodoError::NotFound)
    }
}

/// Marks the task at `todo_index` as completed; a task that is completed
/// already stays so. Where no task stands there, the collection is left as
/// it is and the result is `NotFound`.
pub fn mark_as_completed(todos: &mut Vec<Todo>, todo_index: usize) -> (result: Result<
    (),
    TodoError,
>)
    ensures
        result is Ok <==> has_position(old(todos).deep_view(), todo_index as int),
        final(todos).deep_view() == completed(old(todos).deep_view(), todo_index as int),
{
    if todo_index < todos.len() {
        todos[todo_index].completed = true;
        Ok(())
    } else {
        Err(TodoError::NotFound)
    }
}

/// Removes the task at `todo_index`; the tasks behind it move up by one.
/// Where no task stands there, the collection is left as it is and the
/// result is `NotFound`.
pub fn delete_todo(todos: &mut Vec<Todo>, todo_index: usize) -> (result: Result<(), TodoError>)
    ensures
        result is Ok <==> has_position(old(todos).deep_view(), todo_index as int),
        final(todos).deep_view() == deleted(old(todos).deep_view(), todo_index as int),
{
    if todo_index < todos.len() {
        todos.remove(todo_index);
        Ok(())
    } else {
        Err(TodoError::NotFound)
    }
}

/// Removes every task.
pub fn clear_todos(todos: &mut Vec<Todo>)
    ensures
        final(todos).deep_view() == Seq::<TodoView>::empty(),
{
    todos.clear();
}

/// Adding appends: the collection grows by exactly one task, the tasks that
/// were there stay as and where they were, and the new task stands last and
/// is not completed.
pub proof fn lemma_add_appends(todos: Seq<TodoView>, title: Seq<char>, created_at: Seq<char>)
    ensures
        added(todos, title, created_at).len() == todos.len() + 1,
        added(todos, title, created_at).drop_last() == todos,
        added(todos, title, created_at).last() == fresh_todo(title, created_at),
        !added(todos, title, created_at).last().completed,
{
}

/// Editing changes the title of the one task and nothing else: the
/// collection keeps its length, every other task stays as it was, and the
/// edited task keeps its flag and its dates.
pub proof fn lemma_edit_changes_only_title(todos: Seq<TodoView>, index: int, title: Seq<char>)
    requires
        has_position(todos, index),
    ensures
        edited(todos, index, title).len() == todos.len(),
        forall|j: int|
            0 <= j < todos.len() && j != index ==> edited(todos, index, title)[j] == todos[j],
        edited(todos, index, title)[index].title == title,
        edited(todos, index, title)[index].completed == todos[index].completed,
        edited(todos, index, title)[index].created_at == todos[index].created_at,
        edited(todos, index, title)[index].modified_at == todos[index].modified_at,
{
}

/// Completing changes the flag of the one task and nothing else.
pub proof fn lemma_complete_changes_only_flag(todos: Seq<TodoView>, index: int)
    requires
        has_position(todos, index),
    ensures
        completed(todos, index).len() == todos.len(),
        forall|j: int|
            0 <= j < todos.len() && j != index ==> completed(todos, index)[j] == todos[j],
        completed(todos, index)[index].completed,
        completed(todos, index)[index].title == todos[index].title,
        completed(todos, index)[index].created_at == todos[index].created_at,
        completed(todos, index)[index].modified_at == todos[index].modified_at,
{
}

/// Completing a task a second time changes nothing.
pub proof fn lemma_complete_idempotent(todos: Seq<TodoView>, index: int)
    ensures
        completed(completed(todos, index), index) == completed(todos, index),
{
}

/// Deleting the task at a position where one stands removes exactly that
/// task: the collection shrinks by one, the tasks before the position stay
/// where they were, and each task behind it moves up by one.
pub proof fn lemma_delete_keeps_order(todos: Seq<TodoView>, index: int)
    requires
        has_position(todos, index),
    ensures
        deleted(todos, index).len() == todos.len() - 1,
        deleted(todos, index) == todos.take(index) + todos.skip(index + 1),
        forall|j: int| 0 <= j < index ==> deleted(todos, index)[j] == todos[j],
        forall|j: int| index <= j < todos.len() - 1 ==> deleted(todos, index)[j] == todos[j + 1],
{
}

/// A position at or beyond the end of the collection addresses no task, and
/// editing, completing or deleting there leaves the collection as it is.
pub proof fn lemma_out_of_range_unchanged(todos: Seq<TodoView>, index: int, title: Seq<char>)
    requires
        index >= todos.len(),
    ensures
        !has_position(todos, index),
        edited(todos, index, title) == todos,
        completed(todos, index) == todos,
        deleted(todos, index) == todos,
{
}

} // verus!
