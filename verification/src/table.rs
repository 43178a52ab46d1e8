//! The container table.

use crate::layout::Extent;
use crate::percent::{severity, severity_color};
use crate::rows::{ContainerRow, Sort};
use crate::sizes::{binary_size, format_bytes, usage_of, usage_text};
use crate::style::{
    bold, bold_on, colored, plain, shown, span, Color, Line, LineView, Style,
};
use crate::text::{pad_left, right_aligned};
use vstd::prelude::*;
use vstd::string::*;

verus! {

/// The table, cell by cell; a line holds the cells of one row.
#[derive(Debug, PartialEq, Eq)]
pub struct Table {
    pub title: String,
    pub header: Line,
    pub header_style: Style,
    pub body: Vec<Line>,
    pub widths: Vec<Extent>,
    pub highlight: Style,
    pub marker: String,
}

/// How many characters the readings are aligned to.
pub const READING_WIDTH: usize = 6;

/// The mark of the column that the table is sorted by.
pub open spec fn arrow(sort: Sort, column: Sort) -> Seq<char> {
    if sort == column {
        " ▼"@
    } else {
        ""@
    }
}

fn arrow_mark(sort: Sort, column: Sort) -> (r: &'static str)
    ensures
        r@ == arrow(sort, column),
{
    if sort == column {
        " ▼"
    } else {
        ""
    }
}

/// The column titles; an arrow marks the one that the table is sorted by.
pub open spec fn header_cells(sort: Sort) -> LineView {
    seq![
        span("ID"@, plain()),
        span("NAME"@ + arrow(sort, Sort::Name), plain()),
        span("IMAGE"@, plain()),
        span("STATUS"@, plain()),
        span("CPU%"@ + arrow(sort, Sort::Cpu), colored(Color::Yellow)),
        span("CORES"@, colored(Color::Yellow)),
        span("MEM USAGE / LIMIT"@, plain()),
        span("MEM%"@ + arrow(sort, Sort::Mem), colored(Color::Magenta)),
    ]
}

/// The cells of a row, with its memory written as `usage`.
pub open spec fn row_cells_with(row: ContainerRow, usage: Seq<char>) -> LineView {
    let width = READING_WIDTH as nat;
    seq![
        span(row.id@, plain()),
        span(row.name@, bold()),
        span(row.image@, colored(Color::DarkGray)),
        span(row.status@, plain()),
        span(right_aligned(row.cpu_pct.text@, width), colored(severity(row.cpu_pct.bits))),
        span(right_aligned(row.cores.long@, width), colored(severity(row.cpu_pct.bits))),
        span(usage, plain()),
        span(right_aligned(row.mem_pct.text@, width), colored(severity(row.mem_pct.bits))),
    ]
}

/// The cells of a row.
pub open spec fn row_cells(row: ContainerRow) -> LineView {
    row_cells_with(row, usage_of(binary_size(row.mem_usage), binary_size(row.mem_limit)))
}

/// The widths of the columns.
pub open spec fn column_widths() -> Seq<Extent> {
    seq![
        Extent::Length(12),
        Extent::Percentage(20),
        Extent::Percentage(26),
        Extent::Percentage(18),
        Extent::Length(8),
        Extent::Length(8),
        Extent::Length(22),
        Extent::Length(8),
    ]
}

fn column_title(title: &str, mark: &str) -> (r: String)
    ensures
        r@ == title@ + mark@,
{
    let mut out = title.to_owned();
    out.append(mark);
    out
}

fn header(sort: Sort) -> (r: Line)
    ensures
        r@ == header_cells(sort),
{
    let mut line = Line::new();
    line.put("ID", plain());
    line.add(column_title("NAME", arrow_mark(sort, Sort::Name)), plain());
    line.put("IMAGE", plain());
    line.put("STATUS", plain());
    line.add(column_title("CPU%", arrow_mark(sort, Sort::Cpu)), colored(Color::Yellow));
    line.put("CORES", colored(Color::Yellow));
    line.put("MEM USAGE / LIMIT", plain());
    line.add(column_title("MEM%", arrow_mark(sort, Sort::Mem)), colored(Color::Magenta));
    assert(line@ =~= header_cells(sort));
    line
}

/// Writes the cells of a row, with its memory written as `usage`.
pub fn row_line(row: &ContainerRow, usage: String) -> (r: Line)
    ensures
        r@ == row_cells_with(*row, usage@),
{
    let cpu_color = colored(severity_color(row.cpu_pct.bits));
    let mut line = Line::new();
    line.put(row.id.as_str(), plain());
    line.put(row.name.as_str(), bold());
    line.put(row.image.as_str(), colored(Color::DarkGray));
    line.put(row.status.as_str(), plain());
    line.add(pad_left(row.cpu_pct.text.as_str(), READING_WIDTH), cpu_color);
    line.add(pad_left(row.cores.long.as_str(), READING_WIDTH), cpu_color);
    line.add(usage, plain());
    line.add(
        pad_left(row.mem_pct.text.as_str(), READING_WIDTH),
        colored(severity_color(row.mem_pct.bits)),
    );
    assert(line@ =~= row_cells_with(*row, usage@));
    line
}

/// The table `t` shows the rows in the given order.
pub open spec fn is_table(t: Table, rows: Seq<ContainerRow>, sort: Sort) -> bool {
    &&& t.title@ == " containers "@
    &&& t.header@ == header_cells(sort)
    &&& t.header_style == bold()
    &&& shown(t.body@) == Seq::new(rows.len(), |i: int| row_cells(rows[i]))
    &&& t.widths@ == column_widths()
    &&& t.highlight == bold_on(Color::DarkGray)
    &&& t.marker@ == "▶ "@
}

/// Lays out the table.
pub fn draw_table(rows: &Vec<ContainerRow>, sort: Sort) -> (r: Table)
    ensures
        is_table(r, rows@, sort),
{
    let mut body: Vec<Line> = Vec::new();
    let mut i: usize = 0;
    while i < rows.len()
        invariant
            i <= rows.len(),
            body@.len() == i,
            forall|k: int| 0 <= k < i ==> (#[trigger] body@[k])@ == row_cells(rows@[k]),
        decreases rows.len() - i,
    {
        let row = &rows[i];
        let usage = usage_text(
            format_bytes(row.mem_usage).as_str(),
            format_bytes(row.mem_limit).as_str(),
        );
        body.push(row_line(row, usage));
        i = i + 1;
    }
    assert(shown(body@) =~= Seq::new(rows@.len(), |k: int| row_cells(rows@[k])));
    let widths: Vec<Extent> = vec![
        Extent::Length(12),
        Extent::Percentage(20),
        Extent::Percentage(26),
        Extent::Percentage(18),
        Extent::Length(8),
        Extent::Length(8),
        Extent::Length(22),
        Extent::Length(8),
    ];
    assert(widths@ =~= column_widths());
    Table {
        title: " containers ".to_owned(),
        header: header(sort),
        header_style: bold(),
        body,
        widths,
        highlight: bold_on(Color::DarkGray),
        marker: "▶ ".to_owned(),
    }
}

} // verus!
