//! The listing of a collection: a table with one row for each task, and a
//! line of counts below it.

use vstd::prelude::*;
use comfy_table::{Cell, Table};
use crate::decimal::{decimal_digits, decimal_text};
use crate::table::{
    cell_fg, cell_new, cell_view, cells_view, table_add_row, table_new,
    table_set_content_arrangement, table_set_header, table_set_width, table_text, table_view,
    Arrangement, CellView, TableView, Tint,
};
use crate::todo::{Todo, TodoView};

verus! {

/// The width, in columns, that a listing is fitted to.
pub const LISTING_WIDTH: u16 = 120;

/// What a listing says of an empty collection.
pub open spec fn empty_listing() -> Seq<char> {
    "No todos found...Use the add command to add a new todo"@
}

/// The mark that shows whether a task is completed.
pub open spec fn status_mark(completed: bool) -> Seq<char> {
    if completed {
        "✓"@
    } else {
        "☐"@
    }
}

/// The colour of the status mark.
pub open spec fn status_tint(completed: bool) -> Tint {
    if completed {
        Tint::Green
    } else {
        Tint::Yellow
    }
}

/// A cell with a text and a colour.
pub open spec fn tinted(text: Seq<char>, tint: Tint) -> CellView {
    CellView { text, tint: Some(tint) }
}

/// The header of a listing.
pub open spec fn header_cells() -> Seq<CellView> {
    seq![
        tinted("ID"@, Tint::Green),
        tinted("Status"@, Tint::Green),
        tinted("Title"@, Tint::Green),
        tinted("Date created"@, Tint::Green),
        tinted("Date modified"@, Tint::Green),
    ]
}

/// The row of the task at position `index`: the position, the status mark,
/// the title and the two dates.
pub open spec fn row_cells(index: nat, todo: TodoView) -> Seq<CellView> {
    seq![
        tinted(decimal_digits(index), Tint::Blue),
        tinted(status_mark(todo.completed), status_tint(todo.completed)),
        tinted(todo.title, Tint::White),
        tinted(todo.created_at, Tint::Cyan),
        tinted(todo.modified_at, Tint::White),
    ]
}

/// The rows of a listing: one for each task, in the order of the collection.
pub open spec fn listing_rows(todos: Seq<TodoView>) -> Seq<Seq<CellView>> {
    Seq::new(todos.len(), |i: int| row_cells(i as nat, todos[i]))
}

/// The table of a listing.
pub open spec fn listing_table(todos: Seq<TodoView>) -> TableView {
    TableView {
        arrangement: Arrangement::Dynamic,
        width: Some(LISTING_WIDTH),
        header: Some(header_cells()),
        rows: listing_rows(todos),
    }
}

/// The number of completed tasks in a collection.
pub open spec fn count_completed(todos: Seq<TodoView>) -> nat {
    todos.filter(|todo: TodoView| todo.completed).len()
}

/// The line of counts below the table: all tasks, the completed ones, and
/// the rest.
pub open spec fn summary_text(total: nat, completed: nat) -> Seq<char> {
    "\n📊 Total todos: "@ + decimal_digits(total) + " | Completed: "@ + decimal_digits(completed)
        + " | Uncompleted: "@ + decimal_digits((total - completed) as nat) + "\n"@
}

/// The listing of a collection that is not empty, given the text of its
/// table: the table, and the line of counts on a line of its own.
pub open spec fn listing_text(table: Seq<char>, todos: Seq<TodoView>) -> Seq<char> {
    table + "\n"@ + summary_text(todos.len(), count_completed(todos))
}

/// The mark that shows whether a task is completed.
pub fn status_glyph(completed: bool) -> (mark: &'static str)
    ensures
        mark@ == status_mark(completed),
{
    if completed {
        "✓"
    } else {
        "☐"
    }
}

fn cell(text: &str, tint: Tint) -> (cell: Cell)
    ensures
        cell_view(cell) == tinted(text@, tint),
{
    cell_fg(cell_new(text), tint)
}

/// The header of a listing.
pub fn header_row() -> (cells: Vec<Cell>)
    ensures
        cells_view(cells@) == header_cells(),
{
    let mut cells: Vec<Cell> = Vec::new();
    cells.push(cell("ID", Tint::Green));
    cells.push(cell("Status", Tint::Green));
    cells.push(cell("Title", Tint::Green));
    cells.push(cell("Date created", Tint::Green));
    cells.push(cell("Date modified", Tint::Green));
    cells
}

/// The row of `todo`, which stands at position `index`.
pub fn todo_row(index: usize, todo: &Todo) -> (cells: Vec<Cell>)
    ensures
        cells_view(cells@) == row_cells(index as nat, todo@),
{
    let mark_tint = if todo.completed {
        Tint::Green
    } else {
        Tint::Yellow
    };
    let position = decimal_text(index);
    let mut cells: Vec<Cell> = Vec::new();
    cells.push(cell(position.as_str(), Tint::Blue));
    cells.push(cell(status_glyph(todo.completed), mark_tint));
    cells.push(cell(todo.title.as_str(), Tint::White));
    cells.push(cell(todo.created_at.as_str(), Tint::Cyan));
    cells.push(cell(todo.modified_at.as_str(), Tint::White));
    cells
}

/// Builds the table of a listing: the header, then one row for each task in
/// the order of the collection.
pub fn build_table(todos: &Vec<Todo>) -> (table: Table)
    ensures
        table_view(table) == listing_table(todos.deep_view()),
{
    let mut table = table_new();
    table_set_content_arrangement(&mut table, Arrangement::Dynamic);
    table_set_width(&mut table, LISTING_WIDTH);
    let header = header_row();
    table_set_header(&mut table, header);
    let mut index: usize = 0;
    assert(listing_rows(todos.deep_view().take(0)) =~= Seq::empty());
    while index < todos.len()
        invariant
            index <= todos.len(),
            table_view(table) == (TableView {
                rows: listing_rows(todos.deep_view().take(index as int)),
                ..listing_table(todos.deep_view())
            }),
        decreases todos.len() - index,
    {
        let row = todo_row(index, &todos[index]);
        table_add_row(&mut table, row);
        assert(listing_rows(todos.deep_view().take(index as int)).push(cells_view(row@))
            =~= listing_rows(todos.deep_view().take(index + 1)));
        index = index + 1;
    }
    assert(todos.deep_view().take(index as int) =~= todos.deep_view());
    table
}

/// Counts the completed tasks.
pub fn completed_count(todos: &Vec<Todo>) -> (count: usize)
    ensures
        count == count_completed(todos.deep_view()),
{
    let ghost done = |todo: TodoView| todo.completed;
    let mut count: usize = 0;
    let mut index: usize = 0;
    assert(todos.deep_view().take(0).filter(done).len() == 0) by {
        reveal(Seq::filter);
    }
    while index < todos.len()
        invariant
            index <= todos.len(),
            count <= index,
            done == (|todo: TodoView| todo.completed),
            count == todos.deep_view().take(index as int).filter(done).len(),
        decreases todos.len() - index,
    {
        proof {
            let seen = todos.deep_view().take(index as int);
            assert(todos.deep_view().take(index + 1) =~= seen.push(todos[index as int]@));
            seen.lemma_filter_push(todos[index as int]@, done);
        }
        if todos[index].completed {
            count = count + 1;
        }
        index = index + 1;
    }
    assert(todos.deep_view().take(index as int) =~= todos.deep_view());
    count
}

/// Writes the line of counts for a collection.
pub fn summary_line(todos: &Vec<Todo>) -> (text: String)
    ensures
        text@ == summary_text(todos.len() as nat, count_completed(todos.deep_view())),
{
    let total = todos.len();
    let completed = completed_count(todos);
    proof {
        todos.deep_view().lemma_filter_len(|todo: TodoView| todo.completed);
    }
    let uncompleted = total - completed;
    let mut text = String::from_str("\n📊 Total todos: ");
    text.append(decimal_text(total).as_str());
    text.append(" | Completed: ");
    text.append(decimal_text(completed).as_str());
    text.append(" | Uncompleted: ");
    text.append(decimal_text(uncompleted).as_str());
    text.append("\n");
    text
}

/// Puts the text of a table and the line of counts together.
pub fn compose_listing(table: &str, todos: &Vec<Todo>) -> (text: String)
    ensures
        text@ == listing_text(table@, todos.deep_view()),
{
    let mut text = String::from_str(table);
    text.append("\n");
    text.append(summary_line(todos).as_str());
    text
}

/// Lists a collection. An empty collection gives a message that says so.
/// Any other gives its table, as `comfy_table` draws it, and below it the
/// line of counts.
pub fn list_todos(todos: &Vec<Todo>) -> (text: String)
    ensures
        todos.len() == 0 ==> text@ == empty_listing(),
        todos.len() > 0 ==> exists|table: Seq<char>|
            text@ == listing_text(table, todos.deep_view()),
{
    if todos.is_empty() {
        String::from_str("No todos found...Use the add command to add a new todo")
    } else {
        let table = build_table(todos);
        let drawn = table_text(&table);
        compose_listing(drawn.as_str(), todos)
    }
}

} // verus!
