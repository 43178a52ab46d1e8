//! The popup over the table: one container in detail.

use crate::detail::{
    build_detail_lines, detail_count, detail_is_short, detail_lines, lines_counted, DetailState,
};
use crate::footer::opt_line_view;
use crate::layout::{
    divide, fills, has_place, inner_area, inside_border, line_count, may_divide, popup_area,
    popup_has_place, popup_place, popup_rows, Area, Axis, Extent,
};
use crate::rows::ContainerRow;
use crate::style::{
    badge, bold_colored, colored, colored_on, plain, shown, span, Color, Line, LineView,
};
use vstd::prelude::*;
use vstd::string::*;

verus! {

/// The popup, with the places of its lines, its message and its hints.
#[derive(Debug, PartialEq, Eq)]
pub struct Popup {
    pub area: Area,
    pub title: String,
    pub border: Color,
    pub info: Vec<Line>,
    pub status: Option<Line>,
    pub hints: Line,
    pub info_area: Area,
    pub status_area: Area,
    pub hints_area: Area,
}

/// The first row with that identifier.
pub open spec fn first_with_id(rows: Seq<ContainerRow>, id: Seq<char>) -> Option<ContainerRow>
    decreases rows.len(),
{
    if rows.len() == 0 {
        None
    } else if rows[0].id@ == id {
        Some(rows[0])
    } else {
        first_with_id(rows.drop_first(), id)
    }
}

/// Finds the first row with that identifier.
pub fn find_row<'a>(rows: &'a Vec<ContainerRow>, id: &String) -> (r: Option<&'a ContainerRow>)
    ensures
        first_with_id(rows@, id@) == match r {
            Some(row) => Some(*row),
            None => None,
        },
{
    let mut i: usize = 0;
    assert(rows@.skip(0) =~= rows@);
    while i < rows.len()
        invariant
            i <= rows.len(),
            first_with_id(rows@, id@) == first_with_id(rows@.skip(i as int), id@),
        decreases rows.len() - i,
    {
        if rows[i].id == *id {
            return Some(&rows[i]);
        }
        assert(rows@.skip(i as int).drop_first() =~= rows@.skip(i + 1));
        i = i + 1;
    }
    None
}

/// The message of the popup, red if it tells of an error.
pub open spec fn status_line(d: DetailState) -> Option<LineView> {
    match d.status_msg {
        Some(message) => Some(
            seq![
                span(
                    message@,
                    bold_colored(
                        if d.is_error {
                            Color::Red
                        } else {
                            Color::Green
                        },
                    ),
                ),
            ],
        ),
        None => None,
    }
}

/// The question whether to kill the container, or else the keys of the popup.
pub open spec fn popup_hints(d: DetailState) -> LineView {
    if d.confirming_kill {
        seq![
            span(" KILL? "@, badge(Color::White, Color::Red)),
            span(" send SIGKILL to "@ + d.name@ + "?   "@, plain()),
            span(" y/Enter "@, colored(Color::Red)),
            span("confirm  "@, plain()),
            span(" n/Esc "@, colored(Color::Cyan)),
            span("cancel"@, plain()),
        ]
    } else {
        seq![
            span(" k "@, colored_on(Color::White, Color::Red)),
            span(" kill   "@, plain()),
            span(" Esc/q "@, colored(Color::Cyan)),
            span("close"@, plain()),
        ]
    }
}

/// The rows inside the popup: its lines, a message if there is one, and the hints.
pub open spec fn body_extents(lines: nat, has_status: bool) -> Seq<Extent> {
    seq![
        Extent::Length((lines % 0x1_0000) as u16),
        Extent::Length(
            if has_status {
                1
            } else {
                0
            },
        ),
        Extent::Length(1),
    ]
}

/// The popup `p` in the middle of the frame shows the given lines of the container.
pub open spec fn is_popup_with(p: Popup, frame: Area, d: DetailState, lines: Seq<LineView>) -> bool {
    let has_status = d.status_msg is Some;
    &&& p.area == popup_place(lines.len(), has_status, frame)
    &&& p.title@ == " container · "@ + d.name@ + " "@
    &&& p.border == Color::Cyan
    &&& shown(p.info@) == lines
    &&& opt_line_view(p.status) == status_line(d)
    &&& p.hints@ == popup_hints(d)
    &&& may_divide(
        inside_border(p.area),
        Axis::Vertical,
        body_extents(lines.len(), has_status),
        seq![p.info_area, p.status_area, p.hints_area],
    )
    &&& fills(p.info_area, Axis::Vertical, inside_border(p.area))
    &&& fills(p.status_area, Axis::Vertical, inside_border(p.area))
    &&& fills(p.hints_area, Axis::Vertical, inside_border(p.area))
}

/// The popup `p` in the middle of the frame tells of the container; its readings come from
/// the rows on the screen.
pub open spec fn is_popup(p: Popup, frame: Area, d: DetailState, rows: Seq<ContainerRow>, ncpu: u64) -> bool {
    is_popup_with(p, frame, d, detail_lines(d, first_with_id(rows, d.id@), ncpu))
}

fn status(d: &DetailState) -> (r: Option<Line>)
    ensures
        opt_line_view(r) == status_line(*d),
{
    match &d.status_msg {
        Some(message) => {
            let color = if d.is_error {
                Color::Red
            } else {
                Color::Green
            };
            let mut line = Line::new();
            line.put(message.as_str(), bold_colored(color));
            assert(line@ =~= status_line(*d)->0);
            Some(line)
        },
        None => None,
    }
}

fn hints(d: &DetailState) -> (r: Line)
    ensures
        r@ == popup_hints(*d),
{
    let mut line = Line::new();
    if d.confirming_kill {
        line.put(" KILL? ", badge(Color::White, Color::Red));
        let mut question = " send SIGKILL to ".to_owned();
        question.append(d.name.as_str());
        question.append("?   ");
        line.add(question, plain());
        line.put(" y/Enter ", colored(Color::Red));
        line.put("confirm  ", plain());
        line.put(" n/Esc ", colored(Color::Cyan));
        line.put("cancel", plain());
    } else {
        line.put(" k ", colored_on(Color::White, Color::Red));
        line.put(" kill   ", plain());
        line.put(" Esc/q ", colored(Color::Cyan));
        line.put("close", plain());
    }
    assert(line@ =~= popup_hints(*d));
    line
}

fn split_body(inner: Area, lines: usize, has_status: bool) -> (r: (Area, Area, Area))
    ensures
        may_divide(
            inner,
            Axis::Vertical,
            body_extents(lines as nat, has_status),
            seq![r.0, r.1, r.2],
        ),
        fills(r.0, Axis::Vertical, inner),
        fills(r.1, Axis::Vertical, inner),
        fills(r.2, Axis::Vertical, inner),
{
    let extents: Vec<Extent> = vec![
        Extent::Length(line_count(lines)),
        Extent::Length(
            if has_status {
                1
            } else {
                0
            },
        ),
        Extent::Length(1),
    ];
    assert(extents@ =~= body_extents(lines as nat, has_status));
    let parts = divide(inner, Axis::Vertical, &extents);
    assert(parts@ =~= seq![parts@[0], parts@[1], parts@[2]]);
    (parts[0], parts[1], parts[2])
}

/// Lays out the popup around the given lines.
pub fn popup_with(frame: Area, d: &DetailState, info: Vec<Line>) -> (r: Popup)
    requires
        popup_rows(info@.len(), d.status_msg is Some) <= u16::MAX,
        popup_has_place(info@.len(), d.status_msg is Some, frame),
    ensures
        is_popup_with(r, frame, *d, shown(info@)),
{
    let has_status = d.status_msg.is_some();
    let area = popup_area(info.len(), has_status, frame);
    let mut title = " container · ".to_owned();
    title.append(d.name.as_str());
    title.append(" ");
    let (info_area, status_area, hints_area) = split_body(inner_area(area), info.len(), has_status);
    Popup {
        area,
        title,
        border: Color::Cyan,
        info,
        status: status(d),
        hints: hints(d),
        info_area,
        status_area,
        hints_area,
    }
}

/// The popup of the container has a place in the frame.
pub open spec fn popup_fits(frame: Area, d: DetailState, rows: Seq<ContainerRow>) -> bool {
    popup_has_place(
        detail_count(d, first_with_id(rows, d.id@) is Some),
        d.status_msg is Some,
        frame,
    )
}

fn count_lines(d: &DetailState, rows: &Vec<ContainerRow>) -> (r: usize)
    ensures
        r == detail_count(*d, first_with_id(rows@, d.id@) is Some),
        r <= 15,
{
    let info = build_detail_lines(d, find_row(rows, &d.id), 0);
    proof {
        lines_counted(info@, *d, first_with_id(rows@, d.id@), 0);
    }
    info.len()
}

/// Whether the popup of the container has a place in the frame.
pub fn can_draw_popup(frame: Area, d: &DetailState, rows: &Vec<ContainerRow>) -> (r: bool)
    ensures
        r == popup_fits(frame, *d, rows@),
{
    let lines: usize = count_lines(d, rows);
    has_place(lines, d.status_msg.is_some(), frame)
}

/// Lays out the popup.
pub fn draw_popup(frame: Area, d: &DetailState, rows: &Vec<ContainerRow>, ncpu: u64) -> (r: Popup)
    requires
        popup_fits(frame, *d, rows@),
    ensures
        is_popup(r, frame, *d, rows@, ncpu),
{
    let live = find_row(rows, &d.id);
    let info = build_detail_lines(d, live, ncpu);
    proof {
        detail_is_short(*d, first_with_id(rows@, d.id@), ncpu);
        assert(shown(info@).len() == info@.len());
    }
    popup_with(frame, d, info)
}

} // verus!
