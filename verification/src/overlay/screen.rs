//! Keeps the overlay reachable when the display layout changes.
//!
//! Window position is persisted across runs, so a card last left on a second
//! monitor restores to coordinates that no longer exist once that monitor is
//! unplugged. The window is frameless, so there is no titlebar to grab: the
//! card would be invisible and unrecoverable.

use vstd::prelude::*;

verus! {

/// Distance kept between the card and the edges of the work area.
pub const MARGIN: i32 = 24;

/// A rectangle in physical screen coordinates (right and bottom exclusive).
#[derive(Clone, Copy, Debug, PartialEq, Eq, Structural)]
pub struct ScreenRect {
    pub left: i32,
    pub top: i32,
    pub right: i32,
    pub bottom: i32,
}

/// The bottom-right resting place of a `width` x `height` card in `work`,
/// `MARGIN` away from its edges, but never left of or above the work area.
pub open spec fn resting_place(work: ScreenRect, width: u32, height: u32) -> (int, int) {
    let x = work.right - width - MARGIN;
    let y = work.bottom - height - MARGIN;
    (
        if x > work.left {
            x
        } else {
            work.left as int
        },
        if y > work.top {
            y
        } else {
            work.top as int
        },
    )
}

/// Where the card has to move to be reachable, if anywhere: nowhere while it
/// overlaps some display, nowhere when the primary display's work area (the
/// screen minus the taskbar) is unknown, and otherwise the resting place in
/// that work area.
pub fn ensure_on_screen(
    overlaps_a_display: bool,
    primary_work_area: Option<ScreenRect>,
    width: u32,
    height: u32,
) -> (r: Option<(i32, i32)>)
    ensures
        overlaps_a_display ==> r is None,
        !overlaps_a_display ==> match primary_work_area {
            None => r is None,
            Some(work) => r matches Some(p) && (p.0 as int, p.1 as int) == resting_place(
                work,
                width,
                height,
            ),
        },
{
    if overlaps_a_display {
        return None;
    }
    match primary_work_area {
        None => None,
        Some(work) => {
            let x: i64 = work.right as i64 - width as i64 - MARGIN as i64;
            let y: i64 = work.bottom as i64 - height as i64 - MARGIN as i64;
            let x: i32 = if x > work.left as i64 {
                x as i32
            } else {
                work.left
            };
            let y: i32 = if y > work.top as i64 {
                y as i32
            } else {
                work.top
            };
            Some((x, y))
        },
    }
}

} // verus!
