//! What callers can count on of the screen: what the table, the panel, the header and the footer
//! show, told of the rows and settings that they are given and of the spans that come out.

use crate::docker::Snapshot;
use crate::footer::{draw_footer, footer_line, opt_line_view};
use crate::header::{draw_header, header_line, millis_since, status_spans, Load};
use crate::layout::{fills, inside_border, may_divide, Area, Axis, Extent};
use crate::listing::{may_stand_above, properly_sorted, sorting_is_proper};
use crate::order::sort_rows;
use crate::panel::{
    cores_of, draw_detail, halves, is_meter, is_panel, make_meter, stacked, Meter, MeterRows, Panel,
};
use crate::percent::Percent;
use crate::readings::{memory_adds_up, memory_of};
use crate::rows::{ContainerRow, Sort};
use crate::sizes::{binary_size, usage_of};
use crate::style::{shown, Color, Line, SpanView, Style};
use crate::table::{draw_table, is_table, row_cells, row_line, Table};
use crate::text::right_aligned;
use crate::ui::{respond, Action, ActionView, KeyCode, KeyEvent, KeyKind, Screen, Ui};
use crate::wording::{decimal_text_is_numeral, numeral, padded, warns};
use vstd::prelude::*;

verus! {

/// The pieces of a line, from left to right.
pub open spec fn pieces(line: Line) -> Seq<SpanView> {
    Seq::new(
        line.spans@.len(),
        |i: int| SpanView { text: line.spans@[i].text@, style: line.spans@[i].style },
    )
}

/// The pieces of several lines.
pub open spec fn all_pieces(lines: Seq<Line>) -> Seq<Seq<SpanView>> {
    Seq::new(lines.len(), |i: int| pieces(lines[i]))
}

/// A line shows its pieces.
pub proof fn pieces_are_shown(line: Line)
    ensures
        pieces(line) == line@,
{
    assert(pieces(line) =~= line@);
}

/// Several lines show their pieces.
pub proof fn all_pieces_are_shown(lines: Seq<Line>)
    ensures
        all_pieces(lines) == shown(lines),
{
    assert forall|i: int| 0 <= i < lines.len() implies all_pieces(lines)[i] == shown(lines)[i] by {
        pieces_are_shown(lines[i]);
    }
    assert(all_pieces(lines) =~= shown(lines));
}

/// A piece with that text in the terminal's own style.
pub open spec fn is_plain(piece: SpanView, text: Seq<char>) -> bool {
    piece.text == text && piece.style == (Style { fg: None, bg: None, bold: false, dim: false })
}

/// A piece with that text in that colour.
pub open spec fn is_colored(piece: SpanView, text: Seq<char>, color: Color) -> bool {
    piece.text == text && piece.style == (Style { fg: Some(color), bg: None, bold: false, dim: false })
}

/// A piece with that text in bold, in that colour if there is one.
pub open spec fn is_bold(piece: SpanView, text: Seq<char>, color: Option<Color>) -> bool {
    piece.text == text && piece.style == (Style { fg: color, bg: None, bold: true, dim: false })
}

/// A piece with that text in bold, in one colour on another.
pub open spec fn is_badge(piece: SpanView, text: Seq<char>, fg: Color, bg: Color) -> bool {
    piece.text == text && piece.style == (Style { fg: Some(fg), bg: Some(bg), bold: true, dim: false })
}

/// A piece in the colour that the percentage with those bits calls for.
pub open spec fn warns_by(piece: SpanView, bits: u64, bold: bool) -> bool {
    &&& piece.style.fg matches Some(color) && warns(bits, color)
    &&& piece.style.bg is None
    &&& piece.style.bold == bold
    &&& !piece.style.dim
}

/// A reading in the table: six cells, in the colour that the percentage calls for.
pub open spec fn is_reading(piece: SpanView, text: Seq<char>, bits: u64) -> bool {
    padded(text, 6, piece.text) && warns_by(piece, bits, false)
}

/// The line of the table tells of the row, column by column.
pub open spec fn line_tells(line: Seq<SpanView>, row: ContainerRow) -> bool {
    &&& line.len() == 8
    &&& is_plain(line[0], row.id@)
    &&& is_bold(line[1], row.name@, None)
    &&& is_colored(line[2], row.image@, Color::DarkGray)
    &&& is_plain(line[3], row.status@)
    &&& is_reading(line[4], row.cpu_pct.text@, row.cpu_pct.bits)
    &&& is_reading(line[5], row.cores.long@, row.cpu_pct.bits)
    &&& is_plain(line[6], binary_size(row.mem_usage) + " / "@ + binary_size(row.mem_limit))
    &&& is_reading(line[7], row.mem_pct.text@, row.mem_pct.bits)
}

/// The titles of the columns; an arrow marks the one that the table is sorted by, and no other.
pub open spec fn titles_tell(line: Seq<SpanView>, sort: Sort) -> bool {
    &&& line.len() == 8
    &&& is_plain(line[0], "ID"@)
    &&& is_plain(line[1], if sort == Sort::Name { "NAME"@ + " ▼"@ } else { "NAME"@ })
    &&& is_plain(line[2], "IMAGE"@)
    &&& is_plain(line[3], "STATUS"@)
    &&& is_colored(line[4], if sort == Sort::Cpu { "CPU%"@ + " ▼"@ } else { "CPU%"@ }, Color::Yellow)
    &&& is_colored(line[5], "CORES"@, Color::Yellow)
    &&& is_plain(line[6], "MEM USAGE / LIMIT"@)
    &&& is_colored(line[7], if sort == Sort::Mem { "MEM%"@ + " ▼"@ } else { "MEM%"@ }, Color::Magenta)
}

/// The table has a line for each row, in the order of the rows, each telling of its row.
pub open spec fn table_tells(t: Table, rows: Seq<ContainerRow>, sort: Sort) -> bool {
    &&& t.body@.len() == rows.len()
    &&& forall|i: int| 0 <= i < rows.len() ==> line_tells(pieces(#[trigger] t.body@[i]), rows[i])
    &&& titles_tell(pieces(t.header), sort)
    &&& t.header_style == (Style { fg: None, bg: None, bold: true, dim: false })
    &&& t.title@ == " containers "@
    &&& t.highlight == (Style { fg: None, bg: Some(Color::DarkGray), bold: true, dim: false })
    &&& t.marker@ == "▶ "@
    &&& t.widths@ == seq![
        Extent::Length(12),
        Extent::Percentage(20),
        Extent::Percentage(26),
        Extent::Percentage(18),
        Extent::Length(8),
        Extent::Length(8),
        Extent::Length(22),
        Extent::Length(8),
    ]
}

proof fn aligned_is_padded(text: Seq<char>, width: nat)
    ensures
        padded(text, width, right_aligned(text, width)),
{
    let out = right_aligned(text, width);
    assert(out.skip(out.len() - text.len()) =~= text);
}

proof fn cells_tell(row: ContainerRow)
    ensures
        line_tells(row_cells(row), row),
{
    aligned_is_padded(row.cpu_pct.text@, 6);
    aligned_is_padded(row.cores.long@, 6);
    aligned_is_padded(row.mem_pct.text@, 6);
}

/// What is a table tells of its rows.
pub proof fn tables_tell(t: Table, rows: Seq<ContainerRow>, sort: Sort)
    requires
        is_table(t, rows, sort),
    ensures
        table_tells(t, rows, sort),
{
    assert(shown(t.body@).len() == rows.len());
    assert forall|i: int| 0 <= i < rows.len() implies line_tells(pieces(#[trigger] t.body@[i]), rows[i]) by {
        assert(shown(t.body@)[i] == row_cells(rows[i]));
        pieces_are_shown(t.body@[i]);
        cells_tell(rows[i]);
    }
    pieces_are_shown(t.header);
    assert("NAME"@ + ""@ =~= "NAME"@ && "CPU%"@ + ""@ =~= "CPU%"@ && "MEM%"@ + ""@ =~= "MEM%"@) by {
        reveal_strlit("");
    }
}

/// The table shows the rows that it is given, line by line in their order: line `i` tells of row
/// `i`, with its identifier, its name and its readings.
pub proof fn table_shows_its_rows(rows: Vec<ContainerRow>, sort: Sort, t: Table)
    requires
        call_ensures(draw_table, (&rows, sort), t),
    ensures
        table_tells(t, rows@, sort),
        t.body@.len() == rows@.len(),
        forall|i: int|
            0 <= i < rows@.len() ==> (#[trigger] t.body@[i]).spans@[0].text@ == rows@[i].id@
                && t.body@[i].spans@[1].text@ == rows@[i].name@,
{
    tables_tell(t, rows@, sort);
    assert forall|i: int| 0 <= i < rows@.len() implies (#[trigger] t.body@[i]).spans@[0].text@
        == rows@[i].id@ && t.body@[i].spans@[1].text@ == rows@[i].name@ by {
        let line = pieces(t.body@[i]);
        assert(line_tells(line, rows@[i]));
        assert(line[0].text == rows@[i].id@ && line[1].text == rows@[i].name@);
    }
}

/// A line of the table tells of its row, with the memory as it is given.
pub proof fn row_lines_tell(row: ContainerRow, usage: String, r: Line)
    requires
        call_ensures(row_line, (&row, usage), r),
        usage@ == binary_size(row.mem_usage) + " / "@ + binary_size(row.mem_limit),
    ensures
        line_tells(pieces(r), row),
{
    pieces_are_shown(r);
    cells_tell(row);
}

/// Rows that were sorted stand in the table in that order: the line of a row that stands above
/// tells of a row that may stand there, and both tell of rows that were sorted.
pub proof fn table_stands_in_order(
    rows: &mut Vec<ContainerRow>,
    sorted: Vec<ContainerRow>,
    sort: Sort,
    t: Table,
    i: int,
    j: int,
)
    requires
        call_ensures(sort_rows, (rows, sort), ()),
        sorted == *final(rows),
        call_ensures(draw_table, (&sorted, sort), t),
        0 <= i < j < sorted@.len(),
    ensures
        properly_sorted(sort, old(rows)@, sorted@),
        line_tells(pieces(t.body@[i]), sorted@[i]),
        line_tells(pieces(t.body@[j]), sorted@[j]),
        may_stand_above(sort, sorted@[i], sorted@[j]),
{
    sorting_is_proper(rows, sort);
    tables_tell(t, sorted@, sort);
}

/// Enter inspects the container whose line the marker stands on.
pub proof fn enter_inspects_the_marked_line(
    ui: &mut Ui,
    key: KeyEvent,
    rows: Vec<ContainerRow>,
    t: Table,
    i: usize,
    r: Action,
)
    requires
        call_ensures(draw_table, (&rows, old(ui).sort), t),
        call_ensures(Ui::handle_key, (ui, key, &rows), r),
        key.kind == KeyKind::Press,
        key.code == KeyCode::Enter,
        old(ui).screen == Screen::Table,
        !old(ui).editing_filter,
        old(ui).selected == Some(i),
        i < rows@.len(),
    ensures
        r matches Action::Inspect { id, name } && id@ == t.body@[i as int].spans@[0].text@ && name@
            == t.body@[i as int].spans@[1].text@,
{
    table_shows_its_rows(rows, old(ui).sort, t);
    assert(r@ == respond(old(ui)@, key, rows@).1);
    assert(r@ == (ActionView::Inspect { id: rows@[i as int].id@, name: rows@[i as int].name@ }));
}

/// The amount of cores in the panel: those in use, out of those that the host has, if it is known
/// how many.
pub open spec fn tells_cores(text: Seq<char>, used: Seq<char>, ncpu: u64) -> bool {
    if ncpu == 0 {
        text.len() == 0
    } else {
        exists|n: Seq<char>| #[trigger] numeral(n, ncpu as int) && text == used + " / "@ + n + " cores"@
    }
}

/// A meter tells of the percentage: its label, its text, its colour, how far the gauge is filled.
pub open spec fn meter_tells(m: Meter, label: Seq<char>, color: Color, pct: Percent) -> bool {
    let value = pieces(m.value);
    &&& pieces(m.label).len() == 1
    &&& is_bold(pieces(m.label)[0], label, Some(color))
    &&& value.len() == 3
    &&& value[0].text == pct.text@ + "%"@
    &&& warns_by(value[0], pct.bits, true)
    &&& is_plain(value[1], "  "@)
    &&& is_colored(value[2], value[2].text, Color::Cyan)
    &&& warns(pct.bits, m.gauge)
    &&& m.bits == pct.bits
}

/// The area that a border of one cell leaves of another one.
pub open spec fn within_border(inner: Area, outer: Area) -> bool {
    &&& inner.width == if outer.width > 2 { outer.width - 2 } else { 0 }
    &&& inner.height == if outer.height > 2 { outer.height - 2 } else { 0 }
    &&& inner.x == if outer.width == 0 || outer.x == u16::MAX { outer.x as int } else { outer.x + 1 }
    &&& inner.y == if outer.height == 0 || outer.y == u16::MAX { outer.y as int } else { outer.y + 1 }
}

/// The rows of a meter stand in one column of the area.
pub open spec fn in_a_column(rows: MeterRows, area: Area) -> bool {
    &&& rows.label.within(area) && rows.value.within(area) && rows.gauge.within(area)
    &&& rows.label.x == rows.value.x == rows.gauge.x
    &&& rows.label.width == rows.value.width == rows.gauge.width
}

/// The meters divide the area inside the border: CPU in the left half and memory in the right one,
/// each with one row for its label, one for its reading and one for its gauge.
pub open spec fn halved(cpu: MeterRows, mem: MeterRows, area: Area) -> bool {
    exists|inner: Area, left: Area, right: Area|
        {
            &&& #[trigger] within_border(inner, area)
            &&& may_divide(
                inner,
                Axis::Horizontal,
                seq![Extent::Percentage(50), Extent::Percentage(50)],
                seq![left, right],
            )
            &&& #[trigger] in_three_rows(cpu, left)
            &&& #[trigger] in_three_rows(mem, right)
        }
}

/// The rows of a meter divide its half from top to bottom.
pub open spec fn in_three_rows(rows: MeterRows, half: Area) -> bool {
    may_divide(
        half,
        Axis::Vertical,
        seq![Extent::Length(1), Extent::Length(1), Extent::Length(1)],
        seq![rows.label, rows.value, rows.gauge],
    )
}

/// The panel tells of the selected row, and of no other; without a selection it says that there is
/// no container, and for a row that is gone it is empty.
pub open spec fn panel_tells(
    p: Panel,
    area: Area,
    rows: Seq<ContainerRow>,
    selected: Option<usize>,
    ncpu: u64,
) -> bool {
    match selected {
        None => {
            &&& p matches Panel::Vacant { line, style, area: place }
            &&& pieces(line).len() == 1
            &&& is_plain(pieces(line)[0], "(no containers running)"@)
            &&& style == (Style { fg: None, bg: None, bold: false, dim: true })
            &&& within_border(place, area)
        },
        Some(i) => if i < rows.len() {
            let row = rows[i as int];
            &&& p matches Panel::Row { cpu, mem }
            &&& meter_tells(cpu, "CPU"@, Color::Yellow, row.cpu_pct)
            &&& tells_cores(pieces(cpu.value)[2].text, row.cores.short@, ncpu)
            &&& meter_tells(mem, "MEM"@, Color::Magenta, row.mem_pct)
            &&& pieces(mem.value)[2].text == binary_size(row.mem_usage) + " / "@ + binary_size(row.mem_limit)
            &&& in_a_column(cpu.rows, area)
            &&& in_a_column(mem.rows, area)
            &&& halved(cpu.rows, mem.rows, area)
        } else {
            p == Panel::Gone
        },
    }
}

proof fn meters_tell(m: Meter, label: Seq<char>, color: Color, pct: Percent, amount: Seq<char>)
    requires
        is_meter(m, label, color, pct.text@, pct.bits, amount),
    ensures
        meter_tells(m, label, color, pct),
        pieces(m.value)[2].text == amount,
{
    pieces_are_shown(m.label);
    pieces_are_shown(m.value);
}

/// What is a panel tells of the selected row.
pub proof fn panels_tell(p: Panel, area: Area, rows: Seq<ContainerRow>, selected: Option<usize>, ncpu: u64)
    requires
        is_panel(p, area, rows, selected, ncpu),
    ensures
        panel_tells(p, area, rows, selected, ncpu),
{
    let inner = inside_border(area);
    assert(within_border(inner, area));
    assert(inner.within(area));
    if let Some(i) = selected {
        if i < rows.len() {
            let row = rows[i as int];
            if let Panel::Row { cpu, mem } = p {
                meters_tell(
                    cpu,
                    "CPU"@,
                    Color::Yellow,
                    row.cpu_pct,
                    cores_of(row.cores.short@, ncpu),
                );
                meters_tell(
                    mem,
                    "MEM"@,
                    Color::Magenta,
                    row.mem_pct,
                    usage_of(binary_size(row.mem_usage), binary_size(row.mem_limit)),
                );
                decimal_text_is_numeral(ncpu as nat);
                let (left, right) = choose|left: Area, right: Area|
                    #[trigger] stacked(left, cpu.rows) && #[trigger] stacked(right, mem.rows) && fills(
                        left,
                        Axis::Horizontal,
                        inner,
                    ) && fills(right, Axis::Horizontal, inner) && may_divide(
                        inner,
                        Axis::Horizontal,
                        halves(),
                        seq![left, right],
                    );
                assert(halved(cpu.rows, mem.rows, area)) by {
                    assert(in_three_rows(cpu.rows, left) && in_three_rows(mem.rows, right));
                    assert(may_divide(
                        inner,
                        Axis::Horizontal,
                        seq![Extent::Percentage(50), Extent::Percentage(50)],
                        seq![left, right],
                    ));
                }
                assert(in_a_column(cpu.rows, area));
                assert(in_a_column(mem.rows, area));
            }
        }
    } else {
        if let Panel::Vacant { line, style, area: place } = p {
            pieces_are_shown(line);
        }
    }
}

/// The panel shows the selected row: its percentages, its cores, its memory, and gauges that are
/// filled as far as these percentages.
pub proof fn panel_shows_the_selected_row(
    area: Area,
    rows: Vec<ContainerRow>,
    selected: Option<usize>,
    ncpu: u64,
    r: Panel,
)
    requires
        call_ensures(draw_detail, (area, &rows, selected, ncpu), r),
    ensures
        panel_tells(r, area, rows@, selected, ncpu),
        selected matches Some(i) ==> i < rows@.len() ==> (r matches Panel::Row { cpu, mem } && cpu.bits
            == rows@[i as int].cpu_pct.bits && mem.bits == rows@[i as int].mem_pct.bits
            && cpu.value.spans@[0].text@ == rows@[i as int].cpu_pct.text@ + "%"@ && mem.value.spans@[0].text@
            == rows@[i as int].mem_pct.text@ + "%"@),
{
    panels_tell(r, area, rows@, selected, ncpu);
    if let Panel::Row { cpu, mem } = r {
        assert(pieces(cpu.value).len() == cpu.value.spans@.len());
        assert(selected matches Some(i) ==> i < rows@.len() ==> pieces(cpu.value)[0].text
            == cpu.value.spans@[0].text@ && pieces(mem.value)[0].text == mem.value.spans@[0].text@);
    }
}

/// Lists of rows that agree on the selected row give panels with the same readings.
pub proof fn panel_depends_on_the_selected_row(
    area: Area,
    rows: Vec<ContainerRow>,
    others: Vec<ContainerRow>,
    i: usize,
    ncpu: u64,
    p: Panel,
    q: Panel,
)
    requires
        call_ensures(draw_detail, (area, &rows, Some(i), ncpu), p),
        call_ensures(draw_detail, (area, &others, Some(i), ncpu), q),
        i < rows@.len(),
        i < others@.len(),
        rows@[i as int] == others@[i as int],
    ensures
        p matches Panel::Row { cpu, mem } && q matches Panel::Row { cpu: c, mem: m } && {
            &&& pieces(cpu.value) == pieces(c.value)
            &&& pieces(mem.value) == pieces(m.value)
            &&& cpu.bits == c.bits
            &&& mem.bits == m.bits
            &&& cpu.gauge == c.gauge
            &&& mem.gauge == m.gauge
        },
{
    if let Panel::Row { cpu, mem } = p {
        pieces_are_shown(cpu.value);
        pieces_are_shown(mem.value);
    }
    if let Panel::Row { cpu, mem } = q {
        pieces_are_shown(cpu.value);
        pieces_are_shown(mem.value);
    }
}

/// A meter shows the percentage that it is given, over the rows that it is given.
pub proof fn meters_show_their_percentage(
    label: &str,
    color: Color,
    pct: Percent,
    text: &str,
    amount: String,
    rows: MeterRows,
    r: Meter,
)
    requires
        call_ensures(make_meter, (label, color, text, pct.bits, amount, rows), r),
        text@ == pct.text@,
    ensures
        meter_tells(r, label@, color, pct),
        pieces(r.value)[2].text == amount@,
        r.rows == rows,
{
    meters_tell(r, label@, color, pct, amount@);
}

/// The count in the header: how many rows are shown, and out of how many if a filter hides some.
pub open spec fn tells_count(text: Seq<char>, shown: nat, all: nat, filter: Seq<char>) -> bool {
    if filter.len() > 0 && shown != all {
        exists|n: Seq<char>, m: Seq<char>|
            #[trigger] numeral(n, shown as int) && #[trigger] numeral(m, all as int) && text
                == "  containers: "@ + n + "/"@ + m
    } else {
        exists|n: Seq<char>| #[trigger] numeral(n, shown as int) && text == "  containers: "@ + n
    }
}

/// The CPU load in the header.
pub open spec fn tells_cpu(text: Seq<char>, load: Load, ncpu: u64) -> bool {
    if ncpu == 0 {
        text == "CPU "@ + load.cpu_pct.text@ + "%"@
    } else {
        exists|n: Seq<char>|
            #[trigger] numeral(n, ncpu as int) && text == "CPU "@ + load.cpu_pct.text@ + "% ("@
                + load.cores_in_use@ + " / "@ + n + " cores)"@
    }
}

/// The memory load in the header: what all rows of the snapshot use together, out of what the host
/// has if that is known.
pub open spec fn tells_memory(text: Seq<char>, snapshot: Snapshot, load: Load) -> bool {
    let used = binary_size(memory_of(snapshot.rows@) as u64);
    if snapshot.host_mem_total == 0 {
        text == "MEM "@ + used
    } else {
        text == "MEM "@ + used + " / "@ + binary_size(snapshot.host_mem_total) + " ("@ + load.mem_pct.text@
            + "%)"@
    }
}

/// An age in milliseconds.
pub open spec fn tells_age(text: Seq<char>, millis: int) -> bool {
    exists|n: Seq<char>| #[trigger] numeral(n, millis) && text == "    updated "@ + n + "ms ago"@
}

/// The end of the header: the error of the snapshot, or else its age in milliseconds.
pub open spec fn tells_state(line: Seq<SpanView>, snapshot: Snapshot, now: u128) -> bool {
    match (snapshot.error, snapshot.fetched_at) {
        (Some(err), _) => line.len() == 2 && is_plain(line[0], "    "@) && is_colored(
            line[1],
            "error: "@ + err@,
            Color::Red,
        ),
        (None, Some(then)) => {
            let age = if now > then {
                (now - then) / 1_000_000
            } else {
                0
            };
            line.len() == 1 && tells_age(line[0].text, age) && is_plain(line[0], line[0].text)
        },
        (None, None) => line.len() == 0,
    }
}

/// The header tells of the snapshot, the load of all its rows, the order, the filter that is in
/// force, and the state of the snapshot.
pub open spec fn header_tells(
    line: Seq<SpanView>,
    snapshot: Snapshot,
    load: Load,
    count: nat,
    sort: Sort,
    filter: Seq<char>,
    editing: bool,
    now: u128,
) -> bool {
    let named = filter.len() > 0 && !editing;
    let end = if named { 9int } else { 7int };
    &&& line.len() >= end
    &&& is_badge(line[0], " dockerwatch "@, Color::Black, Color::Cyan)
    &&& tells_count(line[1].text, count, snapshot.rows@.len(), filter) && is_plain(line[1], line[1].text)
    &&& is_plain(line[2], "    "@)
    &&& tells_cpu(line[3].text, load, snapshot.host_ncpu) && warns_by(line[3], load.cpu_pct.bits, false)
    &&& is_plain(line[4], "    "@)
    &&& tells_memory(line[5].text, snapshot, load) && warns_by(line[5], load.mem_pct.bits, false)
    &&& is_plain(
        line[6],
        "    sort: "@ + match sort {
            Sort::Cpu => "CPU%"@,
            Sort::Mem => "MEM%"@,
            Sort::Name => "NAME"@,
        },
    )
    &&& named ==> is_plain(line[7], "    "@) && is_colored(line[8], "filter: /"@ + filter, Color::Yellow)
    &&& tells_state(line.skip(end), snapshot, now)
}

/// The line of the header tells what it is to tell.
pub proof fn headers_tell(
    snapshot: Snapshot,
    load: Load,
    count: nat,
    sort: Sort,
    filter: Seq<char>,
    editing: bool,
    now: u128,
)
    ensures
        header_tells(
            header_line(snapshot, load, count, sort, filter, editing, now),
            snapshot,
            load,
            count,
            sort,
            filter,
            editing,
            now,
        ),
{
    let line = header_line(snapshot, load, count, sort, filter, editing, now);
    decimal_text_is_numeral(count);
    decimal_text_is_numeral(snapshot.rows@.len());
    decimal_text_is_numeral(snapshot.host_ncpu as nat);
    memory_adds_up(snapshot.rows@);
    let named = filter.len() > 0 && !editing;
    let end = if named { 9int } else { 7int };
    assert(line.skip(end) =~= status_spans(snapshot, now));
    if let Some(then) = snapshot.fetched_at {
        decimal_text_is_numeral(millis_since(then, now));
    }
    let used = binary_size(memory_of(snapshot.rows@) as u64);
    assert(snapshot.host_mem_total > 0 ==> line[5].text =~= "MEM "@ + used + " / "@ + binary_size(
        snapshot.host_mem_total,
    ) + " ("@ + load.mem_pct.text@ + "%)"@);
}

/// The header shows what it is to tell.
pub proof fn header_shows_the_snapshot(
    snapshot: Snapshot,
    load: Load,
    count: usize,
    sort: Sort,
    filter: &str,
    editing: bool,
    now: u128,
    r: Line,
)
    requires
        call_ensures(draw_header, (&snapshot, &load, count, sort, filter, editing, now), r),
    ensures
        header_tells(pieces(r), snapshot, load, count as nat, sort, filter@, editing, now),
{
    pieces_are_shown(r);
    headers_tell(snapshot, load, count as nat, sort, filter@, editing, now);
}

/// The footer shows the filter while it is edited, else the keys of the table, and nothing below a
/// popup.
pub open spec fn footer_tells(footer: Option<Line>, filter: Seq<char>, editing: bool, screen: Screen) -> bool {
    match screen {
        Screen::Detail(_) => footer is None,
        Screen::Table => {
            &&& footer matches Some(l)
            &&& if editing {
                let line = pieces(l);
                &&& line.len() == 9
                &&& is_badge(line[0], " filter "@, Color::Black, Color::Yellow)
                &&& is_plain(line[1], " /"@)
                &&& is_bold(line[2], filter, None)
                &&& is_colored(line[3], "█"@, Color::Yellow)
                &&& is_plain(line[4], "    "@)
                &&& is_colored(line[5], "Enter"@, Color::Cyan)
                &&& is_plain(line[6], " apply  "@)
                &&& is_colored(line[7], "Esc"@, Color::Cyan)
                &&& is_plain(line[8], " clear"@)
            } else {
                let line = pieces(l);
                &&& line.len() == 12
                &&& is_colored(line[0], " q/Esc "@, Color::Cyan) && is_plain(line[1], "quit  "@)
                &&& is_colored(line[2], " ↑/↓ "@, Color::Cyan) && is_plain(line[3], "select  "@)
                &&& is_colored(line[4], " s "@, Color::Cyan) && is_plain(line[5], "cycle  "@)
                &&& is_colored(line[6], " c/m/n "@, Color::Cyan) && is_plain(
                    line[7],
                    "sort cpu/mem/name  "@,
                )
                &&& is_colored(line[8], " / "@, Color::Cyan) && is_plain(line[9], "filter  "@)
                &&& is_colored(line[10], " Enter "@, Color::Cyan) && is_plain(line[11], "details"@)
            }
        },
    }
}

/// The line of the footer tells what it is to tell.
pub proof fn footers_tell(footer: Option<Line>, filter: Seq<char>, editing: bool, screen: Screen)
    requires
        opt_line_view(footer) == footer_line(filter, editing, screen),
    ensures
        footer_tells(footer, filter, editing, screen),
{
    if let Some(line) = footer {
        pieces_are_shown(line);
    }
}

/// The footer shows what it is to tell.
pub proof fn footer_shows_the_keys(filter: &str, editing: bool, screen: Screen, r: Option<Line>)
    requires
        call_ensures(draw_footer, (filter, editing, &screen), r),
    ensures
        footer_tells(r, filter@, editing, screen),
{
    footers_tell(r, filter@, editing, screen);
}

} // verus!
