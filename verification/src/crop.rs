//! Clamping of a requested crop rectangle into the captured image's
//! bounds, applied before the enclosed pixels are handed to the export
//! collaborator.

use vstd::prelude::*;

use crate::rect::{coord_ok, COORD_LIMIT};

verus! {

/// The crop rectangle actually cut: the origin clamped into the image,
/// the size clamped to what remains and stretched to at least one pixel.
pub open spec fn spec_clamp_crop(x: int, y: int, w: int, h: int, img_w: int, img_h: int) -> (
    int,
    int,
    int,
    int,
) {
    let x1 = if x < 0 {
        0
    } else {
        x
    };
    let x2 = if x1 > img_w - 1 {
        img_w - 1
    } else {
        x1
    };
    let y1 = if y < 0 {
        0
    } else {
        y
    };
    let y2 = if y1 > img_h - 1 {
        img_h - 1
    } else {
        y1
    };
    let w1 = if w > img_w - x2 {
        img_w - x2
    } else {
        w
    };
    let w2 = if w1 < 1 {
        1
    } else {
        w1
    };
    let h1 = if h > img_h - y2 {
        img_h - y2
    } else {
        h
    };
    let h2 = if h1 < 1 {
        1
    } else {
        h1
    };
    (x2, y2, w2, h2)
}

/// Clamp a requested crop rectangle into an image of `img_w` by `img_h`
/// pixels.  The result is a non-empty rectangle that lies fully inside the
/// image.
pub fn clamp_crop_rect(x: i64, y: i64, width: i64, height: i64, img_w: i64, img_h: i64) -> (r: (
    i64,
    i64,
    i64,
    i64,
))
    requires
        coord_ok(x as int),
        coord_ok(y as int),
        -2 * COORD_LIMIT <= width as int <= 2 * COORD_LIMIT,
        -2 * COORD_LIMIT <= height as int <= 2 * COORD_LIMIT,
        1 <= img_w as int <= COORD_LIMIT as int,
        1 <= img_h as int <= COORD_LIMIT as int,
    ensures
        ((r.0 as int, r.1 as int, r.2 as int, r.3 as int)) == spec_clamp_crop(
            x as int,
            y as int,
            width as int,
            height as int,
            img_w as int,
            img_h as int,
        ),
        0 <= r.0 && r.0 + r.2 <= img_w && 1 <= r.2,
        0 <= r.1 && r.1 + r.3 <= img_h && 1 <= r.3,
{
    let mut cx = x;
    let mut cy = y;
    let mut cw = width;
    let mut ch = height;

    if cx < 0 {
        cx = 0;
    }
    if cx > img_w - 1 {
        cx = img_w - 1;
    }
    if cy < 0 {
        cy = 0;
    }
    if cy > img_h - 1 {
        cy = img_h - 1;
    }
    if cw > img_w - cx {
        cw = img_w - cx;
    }
    if cw < 1 {
        cw = 1;
    }
    if ch > img_h - cy {
        ch = img_h - cy;
    }
    if ch < 1 {
        ch = 1;
    }

    (cx, cy, cw, ch)
}

} // verus!
