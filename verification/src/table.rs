//! The table that a listing is drawn with, and what is assumed of it.
//!
//! Tables and cells are those of `comfy_table`. Verus does not look inside
//! them, so what they hold is described by [`table_view`] and [`cell_view`],
//! and every function in this module states, without proof, what one call
//! into `comfy_table` does to that description.

use vstd::prelude::*;
use comfy_table::{Cell, Color, ContentArrangement, Table};

verus! {

/// The colours that a listing uses.
#[derive(Clone, Copy, Debug, PartialEq, Eq)]
pub enum Tint {
    Green,
    Yellow,
    White,
    Blue,
    Cyan,
}

/// How a table fits its columns to the width it is given.
#[derive(Clone, Copy, Debug, PartialEq, Eq)]
pub enum Arrangement {
    Disabled,
    Dynamic,
    DynamicFullWidth,
}

/// What a cell holds: its text, and its foreground colour if it has one.
pub struct CellView {
    pub text: Seq<char>,
    pub tint: Option<Tint>,
}

/// What a table holds: how it arranges its content, the width it was given,
/// its header and its rows, in the order in which they were added.
pub struct TableView {
    pub arrangement: Arrangement,
    pub width: Option<u16>,
    pub header: Option<Seq<CellView>>,
    pub rows: Seq<Seq<CellView>>,
}

/// `comfy_table::Cell`, taken as it is: a value that Verus carries through
/// without looking inside.
#[verifier::external_type_specification]
#[verifier::external_body]
pub struct ExCell(Cell);

/// `comfy_table::Table`, taken in the same way.
#[verifier::external_type_specification]
#[verifier::external_body]
pub struct ExTable(Table);

/// What a `comfy_table::Cell` holds. Nothing is known of it but what
/// [`cell_new`] and [`cell_fg`] state.
pub uninterp spec fn cell_view(cell: Cell) -> CellView;

/// What a `comfy_table::Table` holds. Nothing is known of it but what the
/// functions below state.
pub uninterp spec fn table_view(table: Table) -> TableView;

/// What a row of cells holds.
pub open spec fn cells_view(cells: Seq<Cell>) -> Seq<CellView> {
    cells.map_values(|cell: Cell| cell_view(cell))
}

/// `Cell::new`: the new cell holds the text and has no colour.
#[verifier::external_body]
pub(crate) fn cell_new(text: &str) -> (cell: Cell)
    ensures
        cell_view(cell) == (CellView { text: text@, tint: None }),
{
    Cell::new(text)
}

/// `Cell::fg`: the cell with the colour as its foreground colour, and its
/// text as it was.
#[verifier::external_body]
pub(crate) fn cell_fg(cell: Cell, tint: Tint) -> (tinted: Cell)
    ensures
        cell_view(tinted) == (CellView { tint: Some(tint), ..cell_view(cell) }),
{
    cell.fg(
        match tint {
            Tint::Green => Color::Green,
            Tint::Yellow => Color::Yellow,
            Tint::White => Color::White,
            Tint::Blue => Color::Blue,
            Tint::Cyan => Color::Cyan,
        },
    )
}

/// `Table::new`: the new table has no header, no rows and no width, and
/// its arrangement is `Disabled`.
#[verifier::external_body]
pub(crate) fn table_new() -> (table: Table)
    ensures
        table_view(table) == (TableView {
            arrangement: Arrangement::Disabled,
            width: None,
            header: None,
            rows: Seq::empty(),
        }),
{
    Table::new()
}

/// `Table::set_content_arrangement`: replaces the arrangement and leaves
/// the rest of the table as it was.
#[verifier::external_body]
pub(crate) fn table_set_content_arrangement(table: &mut Table, arrangement: Arrangement)
    ensures
        table_view(*final(table)) == (TableView { arrangement, ..table_view(*old(table)) }),
{
    table.set_content_arrangement(
        match arrangement {
            Arrangement::Disabled => ContentArrangement::Disabled,
            Arrangement::Dynamic => ContentArrangement::Dynamic,
            Arrangement::DynamicFullWidth => ContentArrangement::DynamicFullWidth,
        },
    );
}

/// `Table::set_width`: replaces the width and leaves the rest of the table
/// as it was.
#[verifier::external_body]
pub(crate) fn table_set_width(table: &mut Table, width: u16)
    ensures
        table_view(*final(table)) == (TableView { width: Some(width), ..table_view(*old(table)) }),
{
    table.set_width(width);
}

/// `Table::set_header`: the cells become the header, and the rest of the
/// table stays as it was.
#[verifier::external_body]
pub(crate) fn table_set_header(table: &mut Table, cells: Vec<Cell>)
    ensures
        table_view(*final(table)) == (TableView {
            header: Some(cells_view(cells@)),
            ..table_view(*old(table))
        }),
{
    table.set_header(cells);
}

/// `Table::add_row`: the cells become the last row, and the rest of the
/// table stays as it was.
#[verifier::external_body]
pub(crate) fn table_add_row(table: &mut Table, cells: Vec<Cell>)
    ensures
        table_view(*final(table)) == (TableView {
            rows: table_view(*old(table)).rows.push(cells_view(cells@)),
            ..table_view(*old(table))
        }),
{
    table.add_row(cells);
}

/// `Table`'s `Display`, through `to_string`: the text that `comfy_table`
/// draws for the table. Nothing is promised of the text: it holds colour
/// codes only where the standard output is a terminal.
#[verifier::external_body]
pub(crate) fn table_text(table: &Table) -> (text: String) {
    table.to_string()
}

} // verus!
