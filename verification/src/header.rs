//! The line at the top of the screen.

use crate::docker::{mem_sum, total_mem, Snapshot};
use crate::percent::{severity, severity_color, Percent};
use crate::rows::Sort;
use crate::sizes::{binary_size, format_bytes, mem_reading, reading_text};
use crate::style::{badge, colored, plain, span, Color, Line, LineView};
use crate::text::{decimal, decimal_text};
use vstd::prelude::*;
use vstd::string::*;

verus! {

/// The load of all containers together: CPU and memory as percentages of the host,
/// and the cores in use as text.
#[derive(Debug, PartialEq, Eq)]
pub struct Load {
    pub cpu_pct: Percent,
    pub cores_in_use: String,
    pub mem_pct: Percent,
}

/// How many containers are shown, and out of how many if a filter hides some.
pub open spec fn count_text(shown: nat, all: nat, filter: Seq<char>) -> Seq<char> {
    if filter.len() > 0 && shown != all {
        "  containers: "@ + decimal_text(shown) + "/"@ + decimal_text(all)
    } else {
        "  containers: "@ + decimal_text(shown)
    }
}

/// Writes how many containers are shown.
pub fn describe_count(shown: usize, all: usize, filter: &str) -> (r: String)
    ensures
        r@ == count_text(shown as nat, all as nat, filter@),
{
    let mut out = "  containers: ".to_owned();
    out.append(decimal(shown as u128).as_str());
    if !filter.is_empty() && shown != all {
        out.append("/");
        out.append(decimal(all as u128).as_str());
    }
    out
}

/// The CPU load, with the cores in use if the number of cores is known.
pub open spec fn cpu_text(load: Load, ncpu: u64) -> Seq<char> {
    if ncpu > 0 {
        "CPU "@ + load.cpu_pct.text@ + "% ("@ + load.cores_in_use@ + " / "@ + decimal_text(ncpu as nat)
            + " cores)"@
    } else {
        "CPU "@ + load.cpu_pct.text@ + "%"@
    }
}

/// Writes the CPU load.
pub fn describe_cpu(load: &Load, ncpu: u64) -> (r: String)
    ensures
        r@ == cpu_text(*load, ncpu),
{
    let mut out = "CPU ".to_owned();
    out.append(load.cpu_pct.text.as_str());
    if ncpu > 0 {
        out.append("% (");
        out.append(load.cores_in_use.as_str());
        out.append(" / ");
        out.append(decimal(ncpu as u128).as_str());
        out.append(" cores)");
    } else {
        out.append("%");
    }
    out
}

/// The memory load: out of what the host has, if that is known.
pub open spec fn mem_text(used: Seq<char>, host: Option<Seq<char>>, pct: Seq<char>) -> Seq<char> {
    match host {
        Some(total) => reading_text(used, total, pct),
        None => "MEM "@ + used,
    }
}

/// Writes the memory load.
pub fn describe_mem(used: &str, host: Option<&str>, pct: &str) -> (r: String)
    ensures
        r@ == mem_text(
            used@,
            match host {
                Some(total) => Some(total@),
                None => None,
            },
            pct@,
        ),
{
    match host {
        Some(total) => mem_reading(used, total, pct),
        None => {
            let mut out = "MEM ".to_owned();
            out.append(used);
            out
        },
    }
}

/// The size of the host's memory, if it is known.
pub open spec fn host_size(host_mem_total: u64) -> Option<Seq<char>> {
    if host_mem_total > 0 {
        Some(binary_size(host_mem_total))
    } else {
        None
    }
}

/// How many milliseconds have passed.
pub open spec fn millis_since(then: u128, now: u128) -> nat {
    if now >= then {
        ((now - then) / 1_000_000) as nat
    } else {
        0
    }
}

/// The spans that name the filter, once it is no longer being edited.
pub open spec fn filter_spans(filter: Seq<char>, editing: bool) -> LineView {
    if filter.len() > 0 && !editing {
        seq![span("    "@, plain()), span("filter: /"@ + filter, colored(Color::Yellow))]
    } else {
        Seq::empty()
    }
}

/// The spans that tell what went wrong, or else how old the snapshot is.
pub open spec fn status_spans(snapshot: Snapshot, now: u128) -> LineView {
    match snapshot.error {
        Some(err) => seq![span("    "@, plain()), span("error: "@ + err@, colored(Color::Red))],
        None => match snapshot.fetched_at {
            Some(then) => seq![
                span("    updated "@ + decimal_text(millis_since(then, now)) + "ms ago"@, plain()),
            ],
            None => Seq::empty(),
        },
    }
}

/// The header, with the memory load written as `mem`: how many containers there are, the
/// load of all of them, the order of the table, the filter, and the state of the snapshot.
pub open spec fn header_line_with(
    snapshot: Snapshot,
    load: Load,
    mem: Seq<char>,
    shown: nat,
    sort: Sort,
    filter: Seq<char>,
    editing: bool,
    now: u128,
) -> LineView {
    seq![
        span(" dockerwatch "@, badge(Color::Black, Color::Cyan)),
        span(count_text(shown, snapshot.rows@.len(), filter), plain()),
        span("    "@, plain()),
        span(cpu_text(load, snapshot.host_ncpu), colored(severity(load.cpu_pct.bits))),
        span("    "@, plain()),
        span(mem, colored(severity(load.mem_pct.bits))),
        span("    sort: "@ + sort.title(), plain()),
    ] + filter_spans(filter, editing) + status_spans(snapshot, now)
}

/// The header.
pub open spec fn header_line(
    snapshot: Snapshot,
    load: Load,
    shown: nat,
    sort: Sort,
    filter: Seq<char>,
    editing: bool,
    now: u128,
) -> LineView {
    header_line_with(
        snapshot,
        load,
        mem_text(
            binary_size(mem_sum(snapshot.rows@) as u64),
            host_size(snapshot.host_mem_total),
            load.mem_pct.text@,
        ),
        shown,
        sort,
        filter,
        editing,
        now,
    )
}

fn add_status(line: &mut Line, snapshot: &Snapshot, now: u128)
    ensures
        final(line)@ == old(line)@ + status_spans(*snapshot, now),
{
    match &snapshot.error {
        Some(err) => {
            line.put("    ", plain());
            let mut told = "error: ".to_owned();
            told.append(err.as_str());
            line.add(told, colored(Color::Red));
        },
        None => {
            if let Some(then) = snapshot.fetched_at {
                let mut told = "    updated ".to_owned();
                let age: u128 = now.saturating_sub(then) / 1_000_000;
                told.append(decimal(age).as_str());
                told.append("ms ago");
                line.add(told, plain());
            }
        },
    }
    assert(line@ =~= old(line)@ + status_spans(*snapshot, now));
}

/// Writes the header, with the memory load written as `mem`; `shown` is the number of rows
/// that the filter leaves.
pub fn header_with(
    snapshot: &Snapshot,
    load: &Load,
    mem: String,
    shown: usize,
    sort: Sort,
    filter: &str,
    editing: bool,
    now: u128,
) -> (r: Line)
    ensures
        r@ == header_line_with(*snapshot, *load, mem@, shown as nat, sort, filter@, editing, now),
{
    let mut line = Line::new();
    line.put(" dockerwatch ", badge(Color::Black, Color::Cyan));
    line.add(describe_count(shown, snapshot.rows.len(), filter), plain());
    line.put("    ", plain());
    line.add(describe_cpu(load, snapshot.host_ncpu), colored(severity_color(load.cpu_pct.bits)));
    line.put("    ", plain());
    line.add(mem, colored(severity_color(load.mem_pct.bits)));
    let mut order = "    sort: ".to_owned();
    order.append(sort.label());
    line.add(order, plain());
    if !filter.is_empty() && !editing {
        line.put("    ", plain());
        let mut named = "filter: /".to_owned();
        named.append(filter);
        line.add(named, colored(Color::Yellow));
    }
    add_status(&mut line, snapshot, now);
    assert(line@ =~= header_line_with(
        *snapshot,
        *load,
        mem@,
        shown as nat,
        sort,
        filter@,
        editing,
        now,
    ));
    line
}

/// Writes the header; `shown` is the number of rows that the filter leaves.
pub fn draw_header(
    snapshot: &Snapshot,
    load: &Load,
    shown: usize,
    sort: Sort,
    filter: &str,
    editing: bool,
    now: u128,
) -> (r: Line)
    requires
        mem_sum(snapshot.rows@) <= u64::MAX,
    ensures
        r@ == header_line(*snapshot, *load, shown as nat, sort, filter@, editing, now),
{
    let used = format_bytes(total_mem(&snapshot.rows));
    let mem = if snapshot.host_mem_total > 0 {
        describe_mem(
            used.as_str(),
            Some(format_bytes(snapshot.host_mem_total).as_str()),
            load.mem_pct.text.as_str(),
        )
    } else {
        describe_mem(used.as_str(), None, load.mem_pct.text.as_str())
    };
    header_with(snapshot, load, mem, shown, sort, filter, editing, now)
}

} // verus!
