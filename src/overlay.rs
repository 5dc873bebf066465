//! Where the run pill, the bottom pane and the status line sit inside the
//! area given to the bottom of the screen.

use vstd::prelude::*;

verus! {

/// A rectangle of terminal cells.
#[derive(Clone, Copy, Debug, Default, PartialEq, Eq, Structural)]
pub struct Area {
    pub x: u16,
    pub y: u16,
    pub width: u16,
    pub height: u16,
}

/// The three areas of the overlay.
#[derive(Clone, Copy, Debug, PartialEq, Eq, Structural)]
pub struct StatusLineLayout {
    pub pane_area: Area,
    pub run_pill_area: Area,
    pub status_line_area: Area,
}

pub const MARGIN_ABOVE_PILL: u16 = 1;
pub const MARGIN_ABOVE_PANE: u16 = 1;
pub const MARGIN_BELOW_PANE: u16 = 1;
pub const RUN_PILL_HEIGHT: u16 = 1;
pub const STATUS_LINE_HEIGHT: u16 = 1;
pub const MIN_PANE_CONTENT_HEIGHT: u16 = 3;
/// Rows the overlay takes besides the pane itself.
pub const RESERVED_ROWS: u16 = 5;

pub open spec fn sat_add16(a: int, b: int) -> int {
    if a + b > u16::MAX { u16::MAX as int } else { a + b }
}

pub open spec fn sat_sub16(a: int, b: int) -> int {
    if a < b { 0 } else { a - b }
}

/// Rows reserved for margins, the pill and the status line.
pub fn reserved_rows() -> (r: u16)
    ensures
        r == MARGIN_ABOVE_PILL + RUN_PILL_HEIGHT + MARGIN_ABOVE_PANE + MARGIN_BELOW_PANE + STATUS_LINE_HEIGHT,
{
    RESERVED_ROWS
}

/// Splits `area`: a margin row, the pill, a margin row, the pane, and the
/// status line on the bottom row. Nothing while another view is active or
/// when the area is too short for the pane's minimum content.
pub fn layout(area: Area, has_active_view: bool) -> (r: Option<StatusLineLayout>)
    ensures
        (has_active_view || area.height < RESERVED_ROWS + MIN_PANE_CONTENT_HEIGHT) <==> r is None,
        r matches Some(l) ==> ({
            let pill_y = sat_add16(area.y as int, MARGIN_ABOVE_PILL as int);
            &&& l.run_pill_area == Area { x: area.x, y: pill_y as u16, width: area.width, height: RUN_PILL_HEIGHT }
            &&& l.pane_area == Area {
                x: area.x,
                y: sat_add16(sat_add16(pill_y, RUN_PILL_HEIGHT as int), MARGIN_ABOVE_PANE as int) as u16,
                width: area.width,
                height: (area.height - RESERVED_ROWS) as u16,
            }
            &&& l.status_line_area == Area {
                x: area.x,
                y: sat_sub16(sat_add16(area.y as int, area.height as int), STATUS_LINE_HEIGHT as int) as u16,
                width: area.width,
                height: STATUS_LINE_HEIGHT,
            }
        }),
{
    let reserved = reserved_rows();
    if has_active_view || area.height < reserved + MIN_PANE_CONTENT_HEIGHT {
        return None;
    }
    let mut y_cursor = area.y.saturating_add(MARGIN_ABOVE_PILL);
    let run_pill_area = Area { x: area.x, y: y_cursor, width: area.width, height: RUN_PILL_HEIGHT };
    y_cursor = y_cursor.saturating_add(RUN_PILL_HEIGHT).saturating_add(MARGIN_ABOVE_PANE);
    let pane_area = Area {
        x: area.x,
        y: y_cursor,
        width: area.width,
        height: area.height.saturating_sub(reserved),
    };
    let status_line_area = Area {
        x: area.x,
        y: area.y.saturating_add(area.height).saturating_sub(STATUS_LINE_HEIGHT),
        width: area.width,
        height: STATUS_LINE_HEIGHT,
    };
    Some(StatusLineLayout { pane_area, run_pill_area, status_line_area })
}

} // verus!
