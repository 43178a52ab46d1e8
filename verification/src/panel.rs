//! The panel below the table: the selected container.

use crate::layout::{divide, fills, inner_area, inside_border, may_divide, Area, Axis, Extent};
use crate::percent::{severity, severity_color};
use crate::rows::ContainerRow;
use crate::sizes::{binary_size, format_bytes, usage_of, usage_text};
use crate::style::{bold_colored, colored, dim, plain, span, Color, Line, LineView, Style};
use crate::text::{decimal, decimal_text};
use vstd::prelude::*;
use vstd::string::*;

verus! {

/// One half of the panel: a label, a reading and a gauge, each in its own row. The gauge
/// is filled to the percentage whose bit pattern is `bits`.
#[derive(Debug, PartialEq, Eq)]
pub struct Meter {
    pub label: Line,
    pub value: Line,
    pub gauge: Color,
    pub bits: u64,
    pub rows: MeterRows,
}

/// The places of a meter's label, reading and gauge.
#[derive(Clone, Copy, Debug, PartialEq, Eq)]
pub struct MeterRows {
    pub label: Area,
    pub value: Area,
    pub gauge: Area,
}

/// The panel.
#[derive(Debug, PartialEq, Eq)]
pub enum Panel {
    /// No row is selected: a line, and the style of the whole area.
    Vacant { line: Line, style: Style, area: Area },
    /// The selected row is gone.
    Gone,
    /// The selected row.
    Row { cpu: Meter, mem: Meter },
}

/// The cores in use out of those that the host has, if that is known.
pub open spec fn cores_of(used: Seq<char>, ncpu: u64) -> Seq<char> {
    if ncpu > 0 {
        used + " / "@ + decimal_text(ncpu as nat) + " cores"@
    } else {
        Seq::empty()
    }
}

/// The label of a meter.
pub open spec fn label_line(text: Seq<char>, color: Color) -> LineView {
    seq![span(text, bold_colored(color))]
}

/// The reading of a meter: the percentage, and what it stands for.
pub open spec fn value_line(pct: Seq<char>, bits: u64, amount: Seq<char>) -> LineView {
    seq![
        span(pct + "%"@, bold_colored(severity(bits))),
        span("  "@, plain()),
        span(amount, colored(Color::Cyan)),
    ]
}

/// The meter shows that label, that percentage and that amount.
pub open spec fn is_meter(
    m: Meter,
    label: Seq<char>,
    color: Color,
    pct: Seq<char>,
    bits: u64,
    amount: Seq<char>,
) -> bool {
    &&& m.label@ == label_line(label, color)
    &&& m.value@ == value_line(pct, bits, amount)
    &&& m.gauge == severity(bits)
    &&& m.bits == bits
}

/// The two halves of the panel.
pub open spec fn halves() -> Seq<Extent> {
    seq![Extent::Percentage(50), Extent::Percentage(50)]
}

/// The three rows of a meter.
pub open spec fn meter_rows() -> Seq<Extent> {
    seq![Extent::Length(1), Extent::Length(1), Extent::Length(1)]
}

/// The rows of a meter divide its column: the label on top, then the reading, then the gauge.
pub open spec fn stacked(column: Area, rows: MeterRows) -> bool {
    &&& may_divide(column, Axis::Vertical, meter_rows(), seq![rows.label, rows.value, rows.gauge])
    &&& fills(rows.label, Axis::Vertical, column)
    &&& fills(rows.value, Axis::Vertical, column)
    &&& fills(rows.gauge, Axis::Vertical, column)
}

/// The meters lie in the two halves of `inner`, CPU on the left.
pub open spec fn side_by_side(inner: Area, cpu: MeterRows, mem: MeterRows) -> bool {
    exists|left: Area, right: Area|
        {
            &&& may_divide(inner, Axis::Horizontal, halves(), seq![left, right])
            &&& fills(left, Axis::Horizontal, inner)
            &&& fills(right, Axis::Horizontal, inner)
            &&& #[trigger] stacked(left, cpu)
            &&& #[trigger] stacked(right, mem)
        }
}

/// The panel `p` in `area` shows the selected row, or that there is none.
pub open spec fn is_panel(
    p: Panel,
    area: Area,
    rows: Seq<ContainerRow>,
    selected: Option<usize>,
    ncpu: u64,
) -> bool {
    match selected {
        None => p matches Panel::Vacant { line, style, area: place } && line@ == seq![
            span("(no containers running)"@, plain()),
        ] && style == dim() && place == inside_border(area),
        Some(i) => if i < rows.len() {
            let row = rows[i as int];
            p matches Panel::Row { cpu, mem } && is_meter(
                cpu,
                "CPU"@,
                Color::Yellow,
                row.cpu_pct.text@,
                row.cpu_pct.bits,
                cores_of(row.cores.short@, ncpu),
            ) && is_meter(
                mem,
                "MEM"@,
                Color::Magenta,
                row.mem_pct.text@,
                row.mem_pct.bits,
                usage_of(binary_size(row.mem_usage), binary_size(row.mem_limit)),
            ) && side_by_side(inside_border(area), cpu.rows, mem.rows)
        } else {
            p is Gone
        },
    }
}

fn describe_cores(used: &str, ncpu: u64) -> (r: String)
    ensures
        r@ == cores_of(used@, ncpu),
{
    let mut out = String::new();
    if ncpu > 0 {
        out = used.to_owned();
        out.append(" / ");
        out.append(decimal(ncpu as u128).as_str());
        out.append(" cores");
    }
    out
}

fn split_halves(inner: Area) -> (r: (Area, Area))
    ensures
        may_divide(inner, Axis::Horizontal, halves(), seq![r.0, r.1]),
        fills(r.0, Axis::Horizontal, inner),
        fills(r.1, Axis::Horizontal, inner),
{
    let extents: Vec<Extent> = vec![Extent::Percentage(50), Extent::Percentage(50)];
    assert(extents@ =~= halves());
    let parts = divide(inner, Axis::Horizontal, &extents);
    assert(parts@ =~= seq![parts@[0], parts@[1]]);
    (parts[0], parts[1])
}

fn split_rows(column: Area) -> (r: MeterRows)
    ensures
        stacked(column, r),
{
    let extents: Vec<Extent> = vec![Extent::Length(1), Extent::Length(1), Extent::Length(1)];
    assert(extents@ =~= meter_rows());
    let parts = divide(column, Axis::Vertical, &extents);
    assert(parts@ =~= seq![parts@[0], parts@[1], parts@[2]]);
    MeterRows { label: parts[0], value: parts[1], gauge: parts[2] }
}

/// A meter over the given rows of the screen.
pub fn make_meter(
    label: &str,
    color: Color,
    pct: &str,
    bits: u64,
    amount: String,
    rows: MeterRows,
) -> (r: Meter)
    ensures
        is_meter(r, label@, color, pct@, bits, amount@),
        r.rows == rows,
{
    let mut title = Line::new();
    title.put(label, bold_colored(color));
    assert(title@ =~= label_line(label@, color));
    let mut percentage = pct.to_owned();
    percentage.append("%");
    let gauge = severity_color(bits);
    let mut value = Line::new();
    value.add(percentage, bold_colored(gauge));
    value.put("  ", plain());
    value.add(amount, colored(Color::Cyan));
    assert(value@ =~= value_line(pct@, bits, amount@));
    Meter { label: title, value, gauge, bits, rows }
}

/// Lays out the panel.
pub fn draw_detail(area: Area, rows: &Vec<ContainerRow>, selected: Option<usize>, ncpu: u64) -> (r: Panel)
    ensures
        is_panel(r, area, rows@, selected, ncpu),
{
    let inner = inner_area(area);
    match selected {
        None => {
            let mut line = Line::new();
            line.put("(no containers running)", plain());
            assert(line@ =~= seq![span("(no containers running)"@, plain())]);
            Panel::Vacant { line, style: dim(), area: inner }
        },
        Some(i) => {
            if i >= rows.len() {
                return Panel::Gone;
            }
            let row = &rows[i];
            let (left, right) = split_halves(inner);
            let cpu_rows = split_rows(left);
            let mem_rows = split_rows(right);
            assert(side_by_side(inner, cpu_rows, mem_rows));
            let cpu = make_meter(
                "CPU",
                Color::Yellow,
                row.cpu_pct.text.as_str(),
                row.cpu_pct.bits,
                describe_cores(row.cores.short.as_str(), ncpu),
                cpu_rows,
            );
            let mem = make_meter(
                "MEM",
                Color::Magenta,
                row.mem_pct.text.as_str(),
                row.mem_pct.bits,
                usage_text(format_bytes(row.mem_usage).as_str(), format_bytes(row.mem_limit).as_str()),
                mem_rows,
            );
            Panel::Row { cpu, mem }
        },
    }
}

} // verus!
