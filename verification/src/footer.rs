//! The line at the bottom of the screen.

use crate::style::{badge, bold, colored, plain, span, Color, Line, LineView, SpanView};
use crate::ui::Screen;
use vstd::prelude::*;
use vstd::string::*;

verus! {

/// A key in the hints.
pub open spec fn key(text: Seq<char>) -> SpanView {
    span(text, colored(Color::Cyan))
}

/// The filter as it is being edited.
pub open spec fn editor_line(filter: Seq<char>) -> LineView {
    seq![
        span(" filter "@, badge(Color::Black, Color::Yellow)),
        span(" /"@, plain()),
        span(filter, bold()),
        span("█"@, colored(Color::Yellow)),
        span("    "@, plain()),
        key("Enter"@),
        span(" apply  "@, plain()),
        key("Esc"@),
        span(" clear"@, plain()),
    ]
}

/// The keys of the table.
pub open spec fn hints_line() -> LineView {
    seq![
        key(" q/Esc "@),
        span("quit  "@, plain()),
        key(" ↑/↓ "@),
        span("select  "@, plain()),
        key(" s "@),
        span("cycle  "@, plain()),
        key(" c/m/n "@),
        span("sort cpu/mem/name  "@, plain()),
        key(" / "@),
        span("filter  "@, plain()),
        key(" Enter "@),
        span("details"@, plain()),
    ]
}

/// The footer: nothing below a popup, which has hints of its own.
pub open spec fn footer_line(filter: Seq<char>, editing: bool, screen: Screen) -> Option<LineView> {
    if screen is Detail {
        None
    } else if editing {
        Some(editor_line(filter))
    } else {
        Some(hints_line())
    }
}

fn editor(filter: &str) -> (r: Line)
    ensures
        r@ == editor_line(filter@),
{
    let mut line = Line::new();
    line.put(" filter ", badge(Color::Black, Color::Yellow));
    line.put(" /", plain());
    line.put(filter, bold());
    line.put("█", colored(Color::Yellow));
    line.put("    ", plain());
    line.put("Enter", colored(Color::Cyan));
    line.put(" apply  ", plain());
    line.put("Esc", colored(Color::Cyan));
    line.put(" clear", plain());
    assert(line@ =~= editor_line(filter@));
    line
}

fn hints() -> (r: Line)
    ensures
        r@ == hints_line(),
{
    let mut line = Line::new();
    line.put(" q/Esc ", colored(Color::Cyan));
    line.put("quit  ", plain());
    line.put(" ↑/↓ ", colored(Color::Cyan));
    line.put("select  ", plain());
    line.put(" s ", colored(Color::Cyan));
    line.put("cycle  ", plain());
    line.put(" c/m/n ", colored(Color::Cyan));
    line.put("sort cpu/mem/name  ", plain());
    line.put(" / ", colored(Color::Cyan));
    line.put("filter  ", plain());
    line.put(" Enter ", colored(Color::Cyan));
    line.put("details", plain());
    assert(line@ =~= hints_line());
    line
}

/// The view of a line, if there is one.
pub open spec fn opt_line_view(line: Option<Line>) -> Option<LineView> {
    match line {
        Some(l) => Some(l@),
        None => None,
    }
}

/// Writes the footer.
pub fn draw_footer(filter: &str, editing: bool, screen: &Screen) -> (r: Option<Line>)
    ensures
        opt_line_view(r) == footer_line(filter@, editing, *screen),
{
    match screen {
        Screen::Detail(_) => None,
        Screen::Table => if editing {
            Some(editor(filter))
        } else {
            Some(hints())
        },
    }
}

} // verus!
