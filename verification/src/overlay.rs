//! Placement of the action-button overlay that follows the selection: an
//! external listener feeds it the crop region after every change
//! notification, and this module decides whether the buttons show and
//! where they go.

use vstd::prelude::*;

use crate::rect::{coord_ok, COORD_LIMIT, MIN_SIZE};

verus! {

/// Margin between the selection and the button container.
pub const BUTTON_MARGIN: i64 = 12;

/// Minimum clearance kept between the button container and the screen
/// edge.
pub const SCREEN_INSET: i64 = 10;

/// Where the button container goes for a crop region `(x, y, w, h)`:
/// centered under the selection, flipped above it when it would run off
/// the bottom, dropped inside it near the bottom when it would run off
/// the top too, and kept clear of the horizontal screen edges.  Absent
/// when the selection is under the minimum size.
pub open spec fn spec_button_position(
    x: int,
    y: int,
    w: int,
    h: int,
    btn_w: int,
    btn_h: int,
    screen_w: int,
    screen_h: int,
) -> Option<(int, int)> {
    if w >= MIN_SIZE as int && h >= MIN_SIZE as int {
        let m = BUTTON_MARGIN as int;
        let inset = SCREEN_INSET as int;
        let bx0 = x + w / 2 - btn_w / 2;
        let by0 = y + h + m;
        let by1 = if by0 + btn_h > screen_h - inset {
            let above = y - btn_h - m;
            if above < inset {
                y + h - btn_h - m
            } else {
                above
            }
        } else {
            by0
        };
        let bx1 = if bx0 < inset {
            inset
        } else {
            bx0
        };
        let bx2 = if bx1 + btn_w > screen_w - inset {
            screen_w - btn_w - inset
        } else {
            bx1
        };
        Some((bx2, by1))
    } else {
        None
    }
}

/// Decide whether and where the action buttons show for the given crop
/// region.
pub fn button_position(
    x: i64,
    y: i64,
    w: i64,
    h: i64,
    btn_w: i64,
    btn_h: i64,
    screen_w: i64,
    screen_h: i64,
) -> (r: Option<(i64, i64)>)
    requires
        coord_ok(x as int),
        coord_ok(y as int),
        -2 * COORD_LIMIT <= w as int <= 2 * COORD_LIMIT,
        -2 * COORD_LIMIT <= h as int <= 2 * COORD_LIMIT,
        0 <= btn_w as int <= COORD_LIMIT as int,
        0 <= btn_h as int <= COORD_LIMIT as int,
        0 <= screen_w as int <= COORD_LIMIT as int,
        0 <= screen_h as int <= COORD_LIMIT as int,
    ensures
        (r is Some) == (w >= MIN_SIZE && h >= MIN_SIZE),
        r is Some ==> (((r->0).0 as int, (r->0).1 as int)) == spec_button_position(
            x as int,
            y as int,
            w as int,
            h as int,
            btn_w as int,
            btn_h as int,
            screen_w as int,
            screen_h as int,
        )->0,
{
    if w >= MIN_SIZE && h >= MIN_SIZE {
        let mut btn_x = x + w / 2 - btn_w / 2;
        let mut btn_y = y + h + BUTTON_MARGIN;

        // Off the bottom: place above the selection; still off screen
        // (selection too high): put it inside, near the bottom edge
        if btn_y + btn_h > screen_h - SCREEN_INSET {
            btn_y = y - btn_h - BUTTON_MARGIN;
            if btn_y < SCREEN_INSET {
                btn_y = y + h - btn_h - BUTTON_MARGIN;
            }
        }

        // Keep clear of the horizontal screen edges
        if btn_x < SCREEN_INSET {
            btn_x = SCREEN_INSET;
        }
        if btn_x + btn_w > screen_w - SCREEN_INSET {
            btn_x = screen_w - btn_w - SCREEN_INSET;
        }

        Some((btn_x, btn_y))
    } else {
        None
    }
}

} // verus!
