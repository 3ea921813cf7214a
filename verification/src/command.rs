//! The commands of the todo list, and what each of them does to a
//! collection.

use vstd::prelude::*;
use crate::clock::get_current_time;
use crate::collection::{
    add_new_todo, added, clear_todos, completed, delete_todo, deleted, edit_todo, edited,
    has_position, mark_as_completed,
};
use crate::listing::{empty_listing, list_todos, listing_text};
use crate::todo::{Todo, TodoView};

verus! {

/// What the user asked for.
#[derive(Clone, Debug, PartialEq, Eq)]
pub enum Command {
    /// Append a new task.
    Add { title: String },
    /// Give the task at `todo_id` a new title.
    Edit { todo_id: usize, title: String },
    /// Remove the task at `todo_id`.
    Delete { todo_id: usize },
    /// Mark the task at `todo_id` as completed.
    Done { todo_id: usize },
    /// Show the collection.
    List,
    /// Remove every task.
    Clear,
    /// Not a command, or a command without what it needs; `message` says
    /// what is wrong.
    Invalid { message: String },
}

/// The abstract value of a [`Command`].
pub enum CommandView {
    Add { title: Seq<char> },
    Edit { todo_id: int, title: Seq<char> },
    Delete { todo_id: int },
    Done { todo_id: int },
    List,
    Clear,
    Invalid { message: Seq<char> },
}

impl View for Command {
    type V = CommandView;

    open spec fn view(&self) -> CommandView {
        match *self {
            Command::Add { title } => CommandView::Add { title: title@ },
            Command::Edit { todo_id, title } => CommandView::Edit {
                todo_id: todo_id as int,
                title: title@,
            },
            Command::Delete { todo_id } => CommandView::Delete { todo_id: todo_id as int },
            Command::Done { todo_id } => CommandView::Done { todo_id: todo_id as int },
            Command::List => CommandView::List,
            Command::Clear => CommandView::Clear,
            Command::Invalid { message } => CommandView::Invalid { message: message@ },
        }
    }
}

/// What a command leaves behind: the text to show, and whether the
/// collection is to be stored again.
#[derive(Clone, Debug, PartialEq, Eq)]
pub struct Outcome {
    pub message: String,
    pub save: bool,
}

/// What is shown after a task was added.
pub open spec fn added_message() -> Seq<char> {
    "Todo added successfully"@
}

/// What is shown after a task got a new title.
pub open spec fn updated_message() -> Seq<char> {
    "Todo updated successfully"@
}

/// What is shown after a task was marked as completed.
pub open spec fn completed_message() -> Seq<char> {
    "Todo marked as completed"@
}

/// What is shown after a task was removed.
pub open spec fn deleted_message() -> Seq<char> {
    "Todo deleted successfully"@
}

/// What is shown after the collection was emptied.
pub open spec fn cleared_message() -> Seq<char> {
    "All todos have been cleared"@
}

/// What is shown where a command addresses a position without a task.
pub open spec fn not_found_message() -> Seq<char> {
    "Todo with the specified index does not exist"@
}

/// The position that a command addresses, if it addresses one.
pub open spec fn position_of(command: CommandView) -> Option<int> {
    match command {
        CommandView::Edit { todo_id, .. } => Some(todo_id),
        CommandView::Delete { todo_id } => Some(todo_id),
        CommandView::Done { todo_id } => Some(todo_id),
        _ => None,
    }
}

/// The collection after a command, where `now` is the time at which the
/// command runs.
pub open spec fn next_collection(command: CommandView, todos: Seq<TodoView>, now: Seq<char>) -> Seq<
    TodoView,
> {
    match command {
        CommandView::Add { title } => added(todos, title, now),
        CommandView::Edit { todo_id, title } => edited(todos, todo_id, title),
        CommandView::Delete { todo_id } => deleted(todos, todo_id),
        CommandView::Done { todo_id } => completed(todos, todo_id),
        CommandView::List => todos,
        CommandView::Clear => Seq::empty(),
        CommandView::Invalid { .. } => todos,
    }
}

/// Whether the collection is stored again after a command: after `Add` and
/// `Clear` always, after a command that addresses a position where a task
/// stands there, and otherwise not.
pub open spec fn stores(command: CommandView, todos: Seq<TodoView>) -> bool {
    match command {
        CommandView::Add { .. } => true,
        CommandView::Edit { todo_id, .. } => has_position(todos, todo_id),
        CommandView::Delete { todo_id } => has_position(todos, todo_id),
        CommandView::Done { todo_id } => has_position(todos, todo_id),
        CommandView::List => false,
        CommandView::Clear => true,
        CommandView::Invalid { .. } => false,
    }
}

/// The text that a command shows, where `table` is the text of the table
/// that a listing draws.
pub open spec fn report(command: CommandView, todos: Seq<TodoView>, table: Seq<char>) -> Seq<char> {
    match command {
        CommandView::Add { .. } => added_message(),
        CommandView::Edit { todo_id, .. } => if has_position(todos, todo_id) {
            updated_message()
        } else {
            not_found_message()
        },
        CommandView::Delete { todo_id } => if has_position(todos, todo_id) {
            deleted_message()
        } else {
            not_found_message()
        },
        CommandView::Done { todo_id } => if has_position(todos, todo_id) {
            completed_message()
        } else {
            not_found_message()
        },
        CommandView::List => if todos.len() == 0 {
            empty_listing()
        } else {
            listing_text(table, todos)
        },
        CommandView::Clear => cleared_message(),
        CommandView::Invalid { message } => message,
    }
}

impl Command {
    /// Whether the stored collection is read before the command runs. `Clear`
    /// replaces whatever is stored, and an invalid command touches nothing.
    pub fn reads_collection(&self) -> (reads: bool)
        ensures
            reads == !(self@ is Clear || self@ is Invalid),
    {
        match self {
            Command::Clear => false,
            Command::Invalid { .. } => false,
            _ => true,
        }
    }
}

fn outcome(message: &str, save: bool) -> (outcome: Outcome)
    ensures
        outcome.message@ == message@,
        outcome.save == save,
{
    Outcome { message: String::from_str(message), save }
}

/// Runs one command on the collection. `Add` stamps the new task with the
/// current time, of which only the least length is known here, and `List`
/// has the table drawn by `comfy_table`, of whose text nothing is known.
/// Everything else is as [`next_collection`], [`stores`] and [`report`] say.
pub fn execute(command: Command, todos: &mut Vec<Todo>) -> (outcome: Outcome)
    ensures
        exists|now: Seq<char>|
            now.len() >= 19 && final(todos).deep_view() == next_collection(
                command@,
                old(todos).deep_view(),
                now,
            ),
        outcome.save == stores(command@, old(todos).deep_view()),
        exists|table: Seq<char>|
            outcome.message@ == report(command@, old(todos).deep_view(), table),
{
    let ghost before = todos.deep_view();
    // The time and the table that the command used; blank where it used none.
    let ghost mut now = Seq::new(19, |i: int| ' ');
    let ghost mut table = Seq::<char>::empty();
    let outcome = match command {
        Command::Add { title } => {
            let created_at = get_current_time();
            proof {
                now = created_at@;
            }
            add_new_todo(todos, title, created_at);
            outcome("Todo added successfully", true)
        },
        Command::Edit { todo_id, title } => match edit_todo(todos, todo_id, title.as_str()) {
            Ok(()) => outcome("Todo updated successfully", true),
            Err(_) => outcome("Todo with the specified index does not exist", false),
        },
        Command::Delete { todo_id } => match delete_todo(todos, todo_id) {
            Ok(()) => outcome("Todo deleted successfully", true),
            Err(_) => outcome("Todo with the specified index does not exist", false),
        },
        Command::Done { todo_id } => match mark_as_completed(todos, todo_id) {
            Ok(()) => outcome("Todo marked as completed", true),
            Err(_) => outcome("Todo with the specified index does not exist", false),
        },
        Command::List => {
            let text = list_todos(todos);
            proof {
                if before.len() > 0 {
                    table = choose|drawn: Seq<char>| text@ == listing_text(drawn, before);
                }
            }
            Outcome { message: text, save: false }
        },
        Command::Clear => {
            clear_todos(todos);
            outcome("All todos have been cleared", true)
        },
        Command::Invalid { message } => Outcome { message, save: false },
    };
    assert(todos.deep_view() == next_collection(command@, before, now));
    assert(outcome.message@ == report(command@, before, table));
    outcome
}

/// A command that addresses a position at or beyond the end of the
/// collection changes nothing: the collection stays as it is, it is not
/// stored again, and the text says that no such task exists.
pub proof fn lemma_out_of_range_reports_not_found(
    command: CommandView,
    todos: Seq<TodoView>,
    now: Seq<char>,
    table: Seq<char>,
)
    requires
        position_of(command) matches Some(index) && index >= todos.len(),
    ensures
        next_collection(command, todos, now) == todos,
        !stores(command, todos),
        report(command, todos, table) == not_found_message(),
{
}

/// The collection after a command depends on the time only for `Add`, and
/// the text that is shown depends on the drawn table only for the listing
/// of a collection that is not empty.
pub proof fn lemma_independent_of_time_and_table(
    command: CommandView,
    todos: Seq<TodoView>,
    now: Seq<char>,
    other_now: Seq<char>,
    table: Seq<char>,
    other_table: Seq<char>,
)
    ensures
        !(command is Add) ==> next_collection(command, todos, now) == next_collection(
            command,
            todos,
            other_now,
        ),
        !(command is List && todos.len() > 0) ==> report(command, todos, table) == report(
            command,
            todos,
            other_table,
        ),
{
}

} // verus!
