use todo_list::command::{execute, Command, Outcome};
use todo_list::listing::list_todos;
use todo_list::todo::Todo;

const NOT_FOUND: &str = "Todo with the specified index does not exist";
const EMPTY: &str = "No todos found...Use the add command to add a new todo";

fn add(title: &str) -> Command {
    Command::Add { title: title.to_string() }
}

fn run(todos: &mut Vec<Todo>, command: Command) -> Outcome {
    execute(command, todos)
}

fn said(message: &str, save: bool) -> Outcome {
    Outcome { message: message.to_string(), save }
}

#[test]
fn scenario_add_then_list() {
    let mut store: Vec<Todo> = Vec::new();
    assert_eq!(run(&mut store, add("buy milk")), said("Todo added successfully", true));
    assert_eq!(store.len(), 1);
    assert_eq!(store[0].title, "buy milk");
    assert!(!store[0].completed);
    assert_eq!(store[0].modified_at, "--- --- ---");
    assert_eq!(store[0].created_at.chars().count(), 19);

    let before = store.clone();
    let listed = run(&mut store, Command::List);
    assert!(!listed.save);
    assert_eq!(store, before);
    assert_eq!(listed.message, list_todos(&store));
    assert_eq!(listed.message.matches("buy milk").count(), 1);
    assert_eq!(listed.message.matches('☐').count(), 1);
    assert_eq!(listed.message.matches('✓').count(), 0);
    assert!(listed
        .message
        .ends_with("\n\n📊 Total todos: 1 | Completed: 0 | Uncompleted: 1\n"));
}

#[test]
fn scenario_delete_shifts_positions() {
    let mut store: Vec<Todo> = Vec::new();
    run(&mut store, add("a"));
    run(&mut store, add("b"));
    assert_eq!(
        run(&mut store, Command::Delete { todo_id: 0 }),
        said("Todo deleted successfully", true)
    );
    assert_eq!(store.len(), 1);
    assert_eq!(store[0].title, "b");

    let listed = run(&mut store, Command::List);
    let table = todo_list::listing::build_table(&store);
    assert_eq!(table.row_count(), 1);
    let row: Vec<String> =
        table.row(0).expect("one row").cell_iter().map(|cell| cell.content()).collect();
    assert_eq!(row[0], "0");
    assert_eq!(row[2], "b");
    assert!(listed
        .message
        .ends_with("\n\n📊 Total todos: 1 | Completed: 0 | Uncompleted: 1\n"));
}

#[test]
fn scenario_done_twice() {
    let mut store: Vec<Todo> = Vec::new();
    run(&mut store, add("x"));
    assert_eq!(
        run(&mut store, Command::Done { todo_id: 0 }),
        said("Todo marked as completed", true)
    );
    let once = store.clone();
    assert_eq!(
        run(&mut store, Command::Done { todo_id: 0 }),
        said("Todo marked as completed", true)
    );
    assert_eq!(store, once);
    assert_eq!(store.len(), 1);
    assert!(store[0].completed);

    let listed = run(&mut store, Command::List);
    assert_eq!(listed.message.matches('x').count(), 1);
    assert_eq!(listed.message.matches('✓').count(), 1);
    assert_eq!(listed.message.matches('☐').count(), 0);
    assert!(listed
        .message
        .ends_with("\n\n📊 Total todos: 1 | Completed: 1 | Uncompleted: 0\n"));
}

#[test]
fn scenario_edit_out_of_range() {
    let mut store: Vec<Todo> = Vec::new();
    run(&mut store, add("a"));
    run(&mut store, add("b"));
    let before = store.clone();
    let outcome = run(&mut store, Command::Edit { todo_id: 5, title: "y".to_string() });
    assert_eq!(outcome, said(NOT_FOUND, false));
    assert!(outcome.message.contains("does not exist"));
    assert_eq!(store, before);
}

#[test]
fn scenario_clear_then_list() {
    let mut store: Vec<Todo> = Vec::new();
    run(&mut store, add("a"));
    run(&mut store, add("b"));
    assert_eq!(run(&mut store, Command::Clear), said("All todos have been cleared", true));
    assert!(store.is_empty());
    assert_eq!(run(&mut store, Command::List), said(EMPTY, false));
}

#[test]
fn edit_in_range_updates_and_saves() {
    let mut store: Vec<Todo> = Vec::new();
    run(&mut store, add("a"));
    run(&mut store, add("b"));
    let before = store.clone();
    assert_eq!(
        run(&mut store, Command::Edit { todo_id: 1, title: "B".to_string() }),
        said("Todo updated successfully", true)
    );
    assert_eq!(store[0], before[0]);
    assert_eq!(store[1].title, "B");
    assert_eq!(store[1].created_at, before[1].created_at);
    assert_eq!(store[1].modified_at, "--- --- ---");
    assert!(!store[1].completed);
}

#[test]
fn commands_on_a_missing_position_change_nothing() {
    let mut store: Vec<Todo> = Vec::new();
    run(&mut store, add("a"));
    let before = store.clone();
    for todo_id in [1, 2, 100, usize::MAX] {
        assert_eq!(run(&mut store, Command::Delete { todo_id }), said(NOT_FOUND, false));
        assert_eq!(run(&mut store, Command::Done { todo_id }), said(NOT_FOUND, false));
        assert_eq!(
            run(&mut store, Command::Edit { todo_id, title: "z".to_string() }),
            said(NOT_FOUND, false)
        );
        assert_eq!(store, before);
    }
}

#[test]
fn commands_on_an_empty_store() {
    let mut store: Vec<Todo> = Vec::new();
    assert_eq!(run(&mut store, Command::Delete { todo_id: 0 }), said(NOT_FOUND, false));
    assert_eq!(run(&mut store, Command::Done { todo_id: 0 }), said(NOT_FOUND, false));
    assert_eq!(run(&mut store, Command::List), said(EMPTY, false));
    assert_eq!(run(&mut store, Command::Clear), said("All todos have been cleared", true));
    assert!(store.is_empty());
}

#[test]
fn invalid_command_only_shows_its_message() {
    let mut store: Vec<Todo> = Vec::new();
    run(&mut store, add("a"));
    let before = store.clone();
    let outcome = run(&mut store, Command::Invalid { message: "no such command".to_string() });
    assert_eq!(outcome, said("no such command", false));
    assert_eq!(store, before);
}

#[test]
fn only_clear_and_invalid_skip_reading() {
    assert!(add("a").reads_collection());
    assert!(Command::Edit { todo_id: 0, title: "a".to_string() }.reads_collection());
    assert!(Command::Delete { todo_id: 0 }.reads_collection());
    assert!(Command::Done { todo_id: 0 }.reads_collection());
    assert!(Command::List.reads_collection());
    assert!(!Command::Clear.reads_collection());
    assert!(!Command::Invalid { message: String::new() }.reads_collection());
}

#[test]
fn add_stamps_the_task_with_the_current_time() {
    let mut store: Vec<Todo> = Vec::new();
    let before = todo_list::clock::get_current_time();
    run(&mut store, add("a"));
    let after = todo_list::clock::get_current_time();
    assert!(before <= store[0].created_at);
    assert!(store[0].created_at <= after);
}
