//! Areas of the screen and how they are divided.

use ratatui::layout::{Constraint, Direction, Layout, Rect};
use ratatui::widgets::{Block, Borders};
use vstd::prelude::*;

verus! {

/// A rectangle of character cells.
#[derive(Clone, Copy, Debug, PartialEq, Eq)]
pub struct Area {
    pub x: u16,
    pub y: u16,
    pub width: u16,
    pub height: u16,
}

/// The way in which an area is divided.
#[derive(Clone, Copy, Debug, PartialEq, Eq)]
pub enum Axis {
    /// Into parts side by side.
    Horizontal,
    /// Into parts one below the other.
    Vertical,
}

/// How much of the area a part asks for.
#[derive(Clone, Copy, Debug, PartialEq, Eq)]
pub enum Extent {
    /// That many cells.
    Length(u16),
    /// That many cells at least.
    Min(u16),
    /// That much of the area, in percent.
    Percentage(u16),
}

/// `parts` is one of the divisions of `area` that `Layout::split` may give. This is a
/// relation: it does not say that the same arguments always give the same parts.
pub uninterp spec fn may_divide(
    area: Area,
    axis: Axis,
    extents: Seq<Extent>,
    parts: Seq<Area>,
) -> bool;

/// The part fills the area across the axis, and along it lies within the area and ends
/// within the range of coordinates.
pub open spec fn fills(part: Area, axis: Axis, area: Area) -> bool {
    &&& part.within(area)
    &&& match axis {
        Axis::Horizontal => part.y == area.y && part.height == area.height && part.x + part.width
            <= u16::MAX,
        Axis::Vertical => part.x == area.x && part.width == area.width && part.y + part.height
            <= u16::MAX,
    }
}

/// `Layout::split` of ratatui: one part for each extent. Across the axis each part
/// fills the area, and along it the edges of each part are required to lie within the
/// area. How the extents share the length is left unsaid beyond `may_divide`: the solver
/// behind it walks hash maps that are seeded per process.
#[verifier::external_body]
pub(crate) fn divide(area: Area, axis: Axis, extents: &Vec<Extent>) -> (r: Vec<Area>)
    ensures
        may_divide(area, axis, extents@, r@),
        r@.len() == extents@.len(),
        forall|i: int| 0 <= i < r@.len() ==> fills(#[trigger] r@[i], axis, area),
{
    let direction = match axis {
        Axis::Horizontal => Direction::Horizontal,
        Axis::Vertical => Direction::Vertical,
    };
    let constraints = extents.iter().map(|e| match e {
        Extent::Length(n) => Constraint::Length(*n),
        Extent::Min(n) => Constraint::Min(*n),
        Extent::Percentage(n) => Constraint::Percentage(*n),
    });
    let rect = Rect { x: area.x, y: area.y, width: area.width, height: area.height };
    let parts = Layout::default().direction(direction).constraints(constraints).split(rect);
    parts.iter().map(|p| Area { x: p.x, y: p.y, width: p.width, height: p.height }).collect()
}

/// The smaller of two coordinates.
pub open spec fn at_most(a: int, b: int) -> int {
    if a <= b {
        a
    } else {
        b
    }
}

/// The part of an area that a border leaves.
pub open spec fn inside_border(area: Area) -> Area {
    Area {
        x: at_most(at_most(area.x + 1, area.x + area.width), u16::MAX as int) as u16,
        y: at_most(at_most(area.y + 1, area.y + area.height), u16::MAX as int) as u16,
        width: if area.width > 2 {
            (area.width - 2) as u16
        } else {
            0
        },
        height: if area.height > 2 {
            (area.height - 2) as u16
        } else {
            0
        },
    }
}

/// `Block::inner` of ratatui, for a block with all four borders: one cell less on
/// each side, as far as there are cells.
#[verifier::external_body]
pub(crate) fn inner_area(area: Area) -> (r: Area)
    ensures
        r == inside_border(area),
{
    let rect = Rect { x: area.x, y: area.y, width: area.width, height: area.height };
    let inner = Block::default().borders(Borders::ALL).inner(rect);
    Area { x: inner.x, y: inner.y, width: inner.width, height: inner.height }
}

impl Area {
    /// The far edges of the area are coordinates themselves.
    pub open spec fn valid(self) -> bool {
        self.x + self.width <= u16::MAX && self.y + self.height <= u16::MAX
    }

    /// The area lies within another one.
    pub open spec fn within(self, outer: Area) -> bool {
        &&& outer.x <= self.x
        &&& outer.y <= self.y
        &&& self.x + self.width <= outer.x + outer.width
        &&& self.y + self.height <= outer.y + outer.height
    }
}

/// Where something of that length begins when it is put in the middle.
pub open spec fn middle(start: u16, length: u16, wanted: u16) -> int {
    start + (length - at_most(wanted as int, length as int)) / 2
}

/// An area of that size, or as large as fits, in the middle of `r`.
pub open spec fn centered(width: u16, height: u16, r: Area) -> Area {
    Area {
        x: middle(r.x, r.width, width) as u16,
        y: middle(r.y, r.height, height) as u16,
        width: at_most(width as int, r.width as int) as u16,
        height: at_most(height as int, r.height as int) as u16,
    }
}

/// Puts an area of that size, or as large as fits, in the middle of `r`.
pub fn centered_fixed(width: u16, height: u16, r: Area) -> (out: Area)
    requires
        middle(r.x, r.width, width) <= u16::MAX,
        middle(r.y, r.height, height) <= u16::MAX,
    ensures
        out == centered(width, height, r),
{
    let w: u16 = if width <= r.width {
        width
    } else {
        r.width
    };
    let h: u16 = if height <= r.height {
        height
    } else {
        r.height
    };
    Area { x: r.x + (r.width - w) / 2, y: r.y + (r.height - h) / 2, width: w, height: h }
}

/// What is centered in an area lies within it, and leaves on the two sides what differs
/// by one cell at most.
pub proof fn centered_lies_within(width: u16, height: u16, r: Area)
    requires
        middle(r.x, r.width, width) <= u16::MAX,
        middle(r.y, r.height, height) <= u16::MAX,
    ensures
        centered(width, height, r).within(r),
        ({
            let c = centered(width, height, r);
            let left = c.x - r.x;
            let right = r.x + r.width - (c.x + c.width);
            let top = c.y - r.y;
            let bottom = r.y + r.height - (c.y + c.height);
            left <= right <= left + 1 && top <= bottom <= top + 1
        }),
{
}

/// The widest that the popup gets.
pub const POPUP_MAX_WIDTH: u16 = 110;

/// The narrowest that the popup gets in a frame that is wide enough.
pub const POPUP_MIN_WIDTH: u16 = 60;

/// How wide the popup is: two cells are left on each side, within its limits, and
/// never wider than the frame.
pub open spec fn popup_width(frame_width: u16) -> u16 {
    let spare = if frame_width >= 4 {
        frame_width - 4
    } else {
        0
    };
    let capped = at_most(spare, POPUP_MAX_WIDTH as int);
    let wanted = if capped >= POPUP_MIN_WIDTH {
        capped
    } else {
        POPUP_MIN_WIDTH as int
    };
    at_most(wanted, frame_width as int) as u16
}

/// How many rows the popup needs: its lines, counted as the terminal counts, its
/// border, a message if there is one, and the hints.
pub open spec fn popup_rows(lines: nat, has_status: bool) -> int {
    (lines % 0x1_0000) + 2 + (if has_status {
        1int
    } else {
        0int
    }) + 1
}

/// Where the popup lies.
pub open spec fn popup_place(lines: nat, has_status: bool, frame: Area) -> Area {
    centered(
        popup_width(frame.width),
        at_most(popup_rows(lines, has_status), frame.height as int) as u16,
        frame,
    )
}

/// A number of lines as the terminal counts them.
pub fn line_count(lines: usize) -> (r: u16)
    ensures
        r == lines % 0x1_0000,
{
    (lines % 0x1_0000) as u16
}

/// The place of the popup begins within the range of coordinates.
pub open spec fn popup_has_place(lines: nat, has_status: bool, frame: Area) -> bool {
    &&& middle(frame.x, frame.width, popup_width(frame.width)) <= u16::MAX
    &&& middle(
        frame.y,
        frame.height,
        at_most(popup_rows(lines, has_status), frame.height as int) as u16,
    ) <= u16::MAX
}

/// In a frame whose far edges are coordinates the popup has a place.
pub proof fn valid_frames_have_a_place(lines: nat, has_status: bool, frame: Area)
    requires
        frame.valid(),
    ensures
        popup_has_place(lines, has_status, frame),
{
}

fn popup_size(lines: usize, has_status: bool, frame: Area) -> (r: (u16, u16))
    requires
        popup_rows(lines as nat, has_status) <= u16::MAX,
    ensures
        r.0 == popup_width(frame.width),
        r.1 == at_most(popup_rows(lines as nat, has_status), frame.height as int),
{
    let message: u16 = if has_status {
        1
    } else {
        0
    };
    let needed: u16 = line_count(lines) + 2 + message + 1;
    let spare: u16 = frame.width.saturating_sub(4);
    let capped: u16 = if spare <= POPUP_MAX_WIDTH {
        spare
    } else {
        POPUP_MAX_WIDTH
    };
    let wanted: u16 = if capped >= POPUP_MIN_WIDTH {
        capped
    } else {
        POPUP_MIN_WIDTH
    };
    let width: u16 = if wanted <= frame.width {
        wanted
    } else {
        frame.width
    };
    let height: u16 = if needed <= frame.height {
        needed
    } else {
        frame.height
    };
    (width, height)
}

/// Whether the popup has a place in the frame.
pub fn has_place(lines: usize, has_status: bool, frame: Area) -> (r: bool)
    requires
        popup_rows(lines as nat, has_status) <= u16::MAX,
    ensures
        r == popup_has_place(lines as nat, has_status, frame),
{
    let (width, height) = popup_size(lines, has_status, frame);
    let left: u16 = (frame.width - width) / 2;
    let top: u16 = (frame.height - height) / 2;
    frame.x.checked_add(left).is_some() && frame.y.checked_add(top).is_some()
}

/// Finds the place of the popup.
pub fn popup_area(lines: usize, has_status: bool, frame: Area) -> (r: Area)
    requires
        popup_rows(lines as nat, has_status) <= u16::MAX,
        popup_has_place(lines as nat, has_status, frame),
    ensures
        r == popup_place(lines as nat, has_status, frame),
{
    let (width, height) = popup_size(lines, has_status, frame);
    centered_fixed(width, height, frame)
}

} // verus!
