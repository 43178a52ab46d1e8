//! The whole screen.

use crate::docker::{mem_sum, Snapshot};
use crate::footer::{draw_footer, footer_line, opt_line_view};
use crate::header::{draw_header, header_line, Load};
use crate::layout::{divide, fills, may_divide, Area, Axis, Extent};
use crate::panel::{draw_detail, is_panel, Panel};
use crate::popup::{draw_popup, is_popup, popup_fits, Popup};
use crate::rows::ContainerRow;
use crate::style::Line;
use crate::table::{draw_table, is_table, Table};
use crate::ui::{Screen, Ui};
use vstd::prelude::*;
use vstd::string::*;

verus! {

/// The whole screen: the header, the table, the panel and the footer with their places,
/// and the popup that lies over them.
#[derive(Debug, PartialEq, Eq)]
pub struct Scene {
    pub header_area: Area,
    pub header: Line,
    pub table_area: Area,
    pub table: Table,
    pub panel_area: Area,
    pub panel_title: String,
    pub panel: Panel,
    pub footer_area: Area,
    pub footer: Option<Line>,
    pub popup: Option<Popup>,
}

/// The parts of the screen from top to bottom: the header, the table, the panel, the footer.
pub open spec fn screen_extents() -> Seq<Extent> {
    seq![Extent::Length(1), Extent::Min(5), Extent::Length(5), Extent::Length(1)]
}

/// The scene shows the rows of the snapshot that the user interface picked.
pub open spec fn is_scene(
    s: Scene,
    frame: Area,
    rows: Seq<ContainerRow>,
    snapshot: Snapshot,
    load: Load,
    ui: Ui,
    now: u128,
) -> bool {
    let ncpu = snapshot.host_ncpu;
    &&& may_divide(
        frame,
        Axis::Vertical,
        screen_extents(),
        seq![s.header_area, s.table_area, s.panel_area, s.footer_area],
    )
    &&& fills(s.header_area, Axis::Vertical, frame)
    &&& fills(s.table_area, Axis::Vertical, frame)
    &&& fills(s.panel_area, Axis::Vertical, frame)
    &&& fills(s.footer_area, Axis::Vertical, frame)
    &&& s.header@ == header_line(
        snapshot,
        load,
        rows.len(),
        ui.sort,
        ui.filter@,
        ui.editing_filter,
        now,
    )
    &&& is_table(s.table, rows, ui.sort)
    &&& s.panel_title@ == " selected "@
    &&& is_panel(s.panel, s.panel_area, rows, ui.selected, ncpu)
    &&& opt_line_view(s.footer) == footer_line(ui.filter@, ui.editing_filter, ui.screen)
    &&& match ui.screen {
        Screen::Table => s.popup is None,
        Screen::Detail(d) => s.popup matches Some(p) && is_popup(p, frame, d, rows, ncpu),
    }
}

/// Lays out the screen; `rows` are those rows of the snapshot that are shown, and `load` is
/// the load of all its rows, shown or not.
pub fn draw(
    frame: Area,
    rows: &Vec<ContainerRow>,
    snapshot: &Snapshot,
    load: &Load,
    ui: &Ui,
    now: u128,
) -> (r: Scene)
    requires
        ui.screen matches Screen::Detail(d) ==> popup_fits(frame, d, rows@),
        mem_sum(snapshot.rows@) <= u64::MAX,
    ensures
        is_scene(r, frame, rows@, *snapshot, *load, *ui, now),
{
    let extents: Vec<Extent> = vec![
        Extent::Length(1),
        Extent::Min(5),
        Extent::Length(5),
        Extent::Length(1),
    ];
    assert(extents@ =~= screen_extents());
    let parts = divide(frame, Axis::Vertical, &extents);
    assert(parts@ =~= seq![parts@[0], parts@[1], parts@[2], parts@[3]]);
    let header = draw_header(
        snapshot,
        load,
        rows.len(),
        ui.sort,
        ui.filter.as_str(),
        ui.editing_filter,
        now,
    );
    let table = draw_table(rows, ui.sort);
    let panel = draw_detail(parts[2], rows, ui.selected, snapshot.host_ncpu);
    let footer = draw_footer(ui.filter.as_str(), ui.editing_filter, &ui.screen);
    let popup = match &ui.screen {
        Screen::Table => None,
        Screen::Detail(d) => Some(draw_popup(frame, d, rows, snapshot.host_ncpu)),
    };
    Scene {
        header_area: parts[0],
        header,
        table_area: parts[1],
        table,
        panel_area: parts[2],
        panel_title: " selected ".to_owned(),
        panel,
        footer_area: parts[3],
        footer,
        popup,
    }
}

} // verus!
