//! The render/feedback layer: a pure function of the selection state, the
//! cursor position and the pointer-inside flag, producing the draw list
//! the presentation layer paints each frame — dimming strips, selection
//! border, corner handles, predefined-region highlights, crosshair, and
//! the pixel magnifier.

use vstd::prelude::*;

use crate::rect::{coord_ok, norm, rect_contains, rect_wf, Rect, RectModel, COORD_LIMIT};
use crate::selection::{
    spec_hit_test, DragMode, ResizeEdge, Selection, SelectionModel,
};

verus! {

/// Side of one magnified source pixel on screen.
pub const MAG_PIXEL_SIZE: i64 = 8;

/// Source pixels shown horizontally: odd, so one pixel sits exactly
/// centered.
pub const MAG_CELLS_X: i64 = 27;

/// Source pixels shown vertically: odd, so one pixel sits exactly
/// centered.
pub const MAG_CELLS_Y: i64 = 19;

/// Width of the magnifier content box.
pub const MAG_WIDTH: i64 = MAG_PIXEL_SIZE * MAG_CELLS_X;

/// Height of the magnifier content box.
pub const MAG_HEIGHT: i64 = MAG_PIXEL_SIZE * MAG_CELLS_Y;

/// Gap between the cursor and the magnifier box.
pub const MAG_MARGIN: i64 = 20;

/// Width of the selection border and of region outlines.
pub const BORDER_WIDTH: i64 = 2;

/// The point the magnifier centers on while creating or resizing: corner
/// anchors snap to the exact corner coordinate; midpoint anchors take the
/// cursor on their free axis and the rectangle's fixed coordinate on the
/// constrained axis; everything else follows the raw cursor.
pub open spec fn spec_snap_position(n: RectModel, mode: DragMode, cx: int, cy: int) -> (int, int) {
    match mode {
        DragMode::Resizing(e) => match e {
            ResizeEdge::TopLeft => (n.x, n.y),
            ResizeEdge::TopRight => (n.x + n.w, n.y),
            ResizeEdge::BottomRight => (n.x + n.w, n.y + n.h),
            ResizeEdge::BottomLeft => (n.x, n.y + n.h),
            ResizeEdge::Top => (cx, n.y),
            ResizeEdge::Bottom => (cx, n.y + n.h),
            ResizeEdge::Left => (n.x, cy),
            ResizeEdge::Right => (n.x + n.w, cy),
        },
        _ => (cx, cy),
    }
}

/// The magnifier anchor position for the drag in progress, given the
/// normalized selection rectangle.
pub fn snap_position(sel_rect: &Rect, mode: DragMode, cursor_x: i64, cursor_y: i64) -> (r: (
    i64,
    i64,
))
    requires
        crate::rect::rect_within(sel_rect@, 4 * COORD_LIMIT as int),
        coord_ok(cursor_x as int),
        coord_ok(cursor_y as int),
    ensures
        (r.0 as int, r.1 as int) == spec_snap_position(
            sel_rect@,
            mode,
            cursor_x as int,
            cursor_y as int,
        ),
        -8 * COORD_LIMIT <= r.0 as int <= 8 * COORD_LIMIT,
        -8 * COORD_LIMIT <= r.1 as int <= 8 * COORD_LIMIT,
{
    match mode {
        DragMode::Resizing(e) => match e {
            ResizeEdge::TopLeft => (sel_rect.x, sel_rect.y),
            ResizeEdge::TopRight => (sel_rect.x + sel_rect.width, sel_rect.y),
            ResizeEdge::BottomRight => (
                sel_rect.x + sel_rect.width,
                sel_rect.y + sel_rect.height,
            ),
            ResizeEdge::BottomLeft => (sel_rect.x, sel_rect.y + sel_rect.height),
            ResizeEdge::Top => (cursor_x, sel_rect.y),
            ResizeEdge::Bottom => (cursor_x, sel_rect.y + sel_rect.height),
            ResizeEdge::Left => (sel_rect.x, cursor_y),
            ResizeEdge::Right => (sel_rect.x + sel_rect.width, cursor_y),
        },
        _ => (cursor_x, cursor_y),
    }
}

/// Where the magnifier box goes: offset to the lower right of the cursor,
/// flipped to the opposite side on overflow, then clamped on-canvas as a
/// last resort.
pub open spec fn spec_magnifier_pos(cx: int, cy: int, w: int, h: int) -> (int, int) {
    let mx0 = cx + MAG_MARGIN as int;
    let my0 = cy + MAG_MARGIN as int;
    let mx1 = if mx0 + MAG_WIDTH as int > w {
        cx - MAG_MARGIN as int - MAG_WIDTH as int
    } else {
        mx0
    };
    let my1 = if my0 + MAG_HEIGHT as int > h {
        cy - MAG_MARGIN as int - MAG_HEIGHT as int
    } else {
        my0
    };
    let mx2 = if mx1 < 0 {
        0
    } else {
        mx1
    };
    let my2 = if my1 < 0 {
        0
    } else {
        my1
    };
    let mx3 = if mx2 > w - MAG_WIDTH as int {
        w - MAG_WIDTH as int
    } else {
        mx2
    };
    let my3 = if my2 > h - MAG_HEIGHT as int {
        h - MAG_HEIGHT as int
    } else {
        my2
    };
    (mx3, my3)
}

/// The magnifier box position; on a canvas at least as large as the box it
/// lies fully on-canvas.
pub fn magnifier_pos(cursor_x: i64, cursor_y: i64, width: i64, height: i64) -> (r: (i64, i64))
    requires
        -8 * COORD_LIMIT <= cursor_x as int <= 8 * COORD_LIMIT,
        -8 * COORD_LIMIT <= cursor_y as int <= 8 * COORD_LIMIT,
        0 <= width as int <= COORD_LIMIT as int,
        0 <= height as int <= COORD_LIMIT as int,
    ensures
        (r.0 as int, r.1 as int) == spec_magnifier_pos(
            cursor_x as int,
            cursor_y as int,
            width as int,
            height as int,
        ),
        width >= MAG_WIDTH ==> 0 <= r.0 && r.0 + MAG_WIDTH <= width,
        height >= MAG_HEIGHT ==> 0 <= r.1 && r.1 + MAG_HEIGHT <= height,
    {
    let mut mag_x = cursor_x + MAG_MARGIN;
    let mut mag_y = cursor_y + MAG_MARGIN;

    // Flip to the other side of the cursor on overflow
    if mag_x + MAG_WIDTH > width {
        mag_x = cursor_x - MAG_MARGIN - MAG_WIDTH;
    }
    if mag_y + MAG_HEIGHT > height {
        mag_y = cursor_y - MAG_MARGIN - MAG_HEIGHT;
    }

    // Last resort: clamp fully on-canvas
    if mag_x < 0 {
        mag_x = 0;
    }
    if mag_y < 0 {
        mag_y = 0;
    }
    if mag_x > width - MAG_WIDTH {
        mag_x = width - MAG_WIDTH;
    }
    if mag_y > height - MAG_HEIGHT {
        mag_y = height - MAG_HEIGHT;
    }

    (mag_x, mag_y)
}

/// The valid part of the magnifier's source window, and the offset that
/// keeps the drawn subgrid pinned under the cursor when the window runs
/// over the image edge.
#[derive(Debug, Clone, Copy, PartialEq, Eq, Structural)]
pub struct MagSource {
    /// Top-left of the valid source region, clamped into the image.
    pub src_x: i64,
    pub src_y: i64,
    /// Size of the valid source region; zero when the window misses the
    /// image entirely.
    pub src_w: i64,
    pub src_h: i64,
    /// Offset, in screen pixels, of the drawn subgrid inside the magnifier
    /// box.
    pub off_x: i64,
    pub off_y: i64,
}

/// The source window: centered on the cursor pixel, clamped to the image,
/// with the clamped-off margin turned into a screen-space offset.
pub open spec fn spec_mag_source(cx: int, cy: int, img_w: int, img_h: int) -> MagSource {
    let sx = cx - MAG_CELLS_X as int / 2;
    let sy = cy - MAG_CELLS_Y as int / 2;
    let vx = if sx < 0 {
        0
    } else {
        sx
    };
    let vy = if sy < 0 {
        0
    } else {
        sy
    };
    let ex = if sx + MAG_CELLS_X as int > img_w {
        img_w
    } else {
        sx + MAG_CELLS_X as int
    };
    let ey = if sy + MAG_CELLS_Y as int > img_h {
        img_h
    } else {
        sy + MAG_CELLS_Y as int
    };
    let vw = if ex - vx < 0 {
        0
    } else {
        ex - vx
    };
    let vh = if ey - vy < 0 {
        0
    } else {
        ey - vy
    };
    MagSource {
        src_x: vx as i64,
        src_y: vy as i64,
        src_w: vw as i64,
        src_h: vh as i64,
        off_x: ((vx - sx) * MAG_PIXEL_SIZE as int) as i64,
        off_y: ((vy - sy) * MAG_PIXEL_SIZE as int) as i64,
    }
}

/// Compute the valid source window for the magnifier centered on the
/// cursor pixel.  When the window is non-empty it lies fully inside the
/// image.
pub fn mag_source(cursor_x: i64, cursor_y: i64, img_w: i64, img_h: i64) -> (r: MagSource)
    requires
        -8 * COORD_LIMIT <= cursor_x as int <= 8 * COORD_LIMIT,
        -8 * COORD_LIMIT <= cursor_y as int <= 8 * COORD_LIMIT,
        0 <= img_w as int <= COORD_LIMIT as int,
        0 <= img_h as int <= COORD_LIMIT as int,
    ensures
        r == spec_mag_source(cursor_x as int, cursor_y as int, img_w as int, img_h as int),
        r.src_w > 0 && r.src_h > 0 ==> 0 <= r.src_x && r.src_x + r.src_w <= img_w && 0 <= r.src_y
            && r.src_y + r.src_h <= img_h,
        0 <= r.off_x && 0 <= r.off_y,
{
    let sx = cursor_x - MAG_CELLS_X / 2;
    let sy = cursor_y - MAG_CELLS_Y / 2;
    let vx = if sx < 0 { 0 } else { sx };
    let vy = if sy < 0 { 0 } else { sy };
    let ex = if sx + MAG_CELLS_X > img_w { img_w } else { sx + MAG_CELLS_X };
    let ey = if sy + MAG_CELLS_Y > img_h { img_h } else { sy + MAG_CELLS_Y };
    let vw = if ex - vx < 0 { 0 } else { ex - vx };
    let vh = if ey - vy < 0 { 0 } else { ey - vy };
    MagSource {
        src_x: vx,
        src_y: vy,
        src_w: vw,
        src_h: vh,
        off_x: (vx - sx) * MAG_PIXEL_SIZE,
        off_y: (vy - sy) * MAG_PIXEL_SIZE,
    }
}

/// Whether a rectangle paints the pixel at `(px, py)`: half-open on the
/// far sides, as a fill of integer bounds covers.
pub open spec fn covers(r: RectModel, px: int, py: int) -> bool {
    &&& r.x <= px < r.x + r.w
    &&& r.y <= py < r.y + r.h
}

/// The top dimming strip: the full canvas width above the selection.
pub open spec fn dim_top(n: RectModel, w: int, h: int) -> RectModel {
    RectModel { x: 0, y: 0, w, h: n.y }
}

/// The bottom dimming strip: the full canvas width below the selection.
pub open spec fn dim_bottom(n: RectModel, w: int, h: int) -> RectModel {
    RectModel { x: 0, y: n.y + n.h, w, h: h - (n.y + n.h) }
}

/// The left dimming strip, spanning only the selection's own rows.
pub open spec fn dim_left(n: RectModel, w: int, h: int) -> RectModel {
    RectModel { x: 0, y: n.y, w: n.x, h: n.h }
}

/// The right dimming strip, spanning only the selection's own rows.
pub open spec fn dim_right(n: RectModel, w: int, h: int) -> RectModel {
    RectModel { x: n.x + n.w, y: n.y, w: w - (n.x + n.w), h: n.h }
}

/// The four dimming strips tile the canvas outside the selection: a canvas
/// point is painted by exactly one strip when it lies outside the
/// normalized selection, and by none when it lies inside.  The strips are
/// sized so the corners are never double-covered.
pub proof fn lemma_dim_strips_tile(n: RectModel, w: int, h: int, px: int, py: int)
    requires
        0 <= n.x,
        0 <= n.y,
        0 <= n.w,
        0 <= n.h,
        n.x + n.w <= w,
        n.y + n.h <= h,
        0 <= px < w,
        0 <= py < h,
    ensures
        ({
            let cnt = (if covers(dim_top(n, w, h), px, py) {
                1int
            } else {
                0int
            }) + (if covers(dim_bottom(n, w, h), px, py) {
                1int
            } else {
                0int
            }) + (if covers(dim_left(n, w, h), px, py) {
                1int
            } else {
                0int
            }) + (if covers(dim_right(n, w, h), px, py) {
                1int
            } else {
                0int
            });
            cnt == if covers(n, px, py) {
                0int
            } else {
                1int
            }
        }),
{
}

/// The paint a draw command uses; the presentation layer maps each role to
/// its actual color.
#[derive(Debug, Clone, Copy, PartialEq, Eq, Structural)]
pub enum ColorRole {
    /// Semi-transparent dimming over unselected area.
    Dim,
    /// The selection border.
    SelectionBorder,
    /// The contrasting ring behind a corner handle.
    HandleRing,
    /// The corner handle itself.
    HandleFill,
    /// Outline of a predefined region.
    RegionBorder,
    /// Outline of the hovered predefined region.
    RegionBorderHovered,
    /// Translucent fill of the hovered predefined region.
    RegionHoverFill,
    /// Shadow under a crosshair line.
    CrosshairShadow,
    /// A crosshair line.
    CrosshairLine,
    /// The magnifier frame.
    MagnifierBorder,
    /// The magnifier background.
    MagnifierBackground,
    /// A magnifier grid separator line.
    MagnifierGrid,
    /// The crosshair through the magnifier center.
    MagnifierCrosshair,
    /// The highlight border on the exact center pixel.
    CenterIndicator,
}

/// The mathematical value of a draw command.
pub ghost enum CmdModel {
    /// The captured image over the whole canvas.
    Background { w: int, h: int },
    /// A filled axis-aligned rectangle.
    Fill { role: ColorRole, area: RectModel },
    /// A filled rounded rectangle.
    RoundedFill { role: ColorRole, area: RectModel, radius: int },
    /// Source pixels magnified `scale`-fold, drawn with their top-left at
    /// `(dst_x, dst_y)`.
    Magnified { src: RectModel, dst_x: int, dst_y: int, scale: int },
}

/// One draw command of the frame's draw list.
#[derive(Debug, Clone, Copy, PartialEq, Eq, Structural)]
pub enum DrawCmd {
    /// The captured image over the whole canvas.
    Background { width: i64, height: i64 },
    /// A filled axis-aligned rectangle.
    Fill { role: ColorRole, area: Rect },
    /// A filled rounded rectangle.
    RoundedFill { role: ColorRole, area: Rect, radius: i64 },
    /// Source pixels magnified `scale`-fold, drawn with their top-left at
    /// `(dst_x, dst_y)`.
    Magnified { src: Rect, dst_x: i64, dst_y: i64, scale: i64 },
}

impl View for DrawCmd {
    type V = CmdModel;

    open spec fn view(&self) -> CmdModel {
        match *self {
            DrawCmd::Background { width, height } => CmdModel::Background {
                w: width as int,
                h: height as int,
            },
            DrawCmd::Fill { role, area } => CmdModel::Fill { role, area: area@ },
            DrawCmd::RoundedFill { role, area, radius } => CmdModel::RoundedFill {
                role,
                area: area@,
                radius: radius as int,
            },
            DrawCmd::Magnified { src, dst_x, dst_y, scale } => CmdModel::Magnified {
                src: src@,
                dst_x: dst_x as int,
                dst_y: dst_y as int,
                scale: scale as int,
            },
        }
    }
}

/// The models of a draw list.
pub open spec fn cmds_of(v: Seq<DrawCmd>) -> Seq<CmdModel> {
    v.map_values(|c: DrawCmd| c@)
}

/// A fill command over integer bounds.
pub open spec fn fill_cmd(role: ColorRole, x: int, y: int, w: int, h: int) -> CmdModel {
    CmdModel::Fill { role, area: RectModel { x, y, w, h } }
}

/// The dimming strips, border frame and corner handles around the
/// normalized selection.
pub open spec fn spec_selection_chrome(n: RectModel, w: int, h: int) -> Seq<CmdModel> {
    let b = BORDER_WIDTH as int;
    let hh = crate::rect::HANDLE_SIZE as int / 2;
    let hs = crate::rect::HANDLE_SIZE as int;
    seq![
        CmdModel::Fill { role: ColorRole::Dim, area: dim_top(n, w, h) },
        CmdModel::Fill { role: ColorRole::Dim, area: dim_bottom(n, w, h) },
        CmdModel::Fill { role: ColorRole::Dim, area: dim_left(n, w, h) },
        CmdModel::Fill { role: ColorRole::Dim, area: dim_right(n, w, h) },
        fill_cmd(ColorRole::SelectionBorder, n.x - b, n.y - b, n.w + 2 * b, b),
        fill_cmd(ColorRole::SelectionBorder, n.x - b, n.y + n.h, n.w + 2 * b, b),
        fill_cmd(ColorRole::SelectionBorder, n.x - b, n.y, b, n.h),
        fill_cmd(ColorRole::SelectionBorder, n.x + n.w, n.y, b, n.h),
    ] + spec_handle_pair(RectModel { x: n.x - hh, y: n.y - hh, w: hs, h: hs })
        + spec_handle_pair(RectModel { x: n.x + n.w - hh, y: n.y - hh, w: hs, h: hs })
        + spec_handle_pair(RectModel { x: n.x + n.w - hh, y: n.y + n.h - hh, w: hs, h: hs })
        + spec_handle_pair(RectModel { x: n.x - hh, y: n.y + n.h - hh, w: hs, h: hs })
}

/// The ring and fill of one corner handle.
pub open spec fn spec_handle_pair(hr: RectModel) -> Seq<CmdModel> {
    seq![
        CmdModel::RoundedFill {
            role: ColorRole::HandleRing,
            area: RectModel { x: hr.x - 1, y: hr.y - 1, w: hr.w + 2, h: hr.h + 2 },
            radius: 4,
        },
        CmdModel::RoundedFill { role: ColorRole::HandleFill, area: hr, radius: 3 },
    ]
}

/// The full-height and full-width crosshair lines with their shadows.
pub open spec fn spec_crosshair(cx: int, cy: int, w: int, h: int) -> Seq<CmdModel> {
    seq![
        fill_cmd(ColorRole::CrosshairShadow, cx + 1, 0, 1, h),
        fill_cmd(ColorRole::CrosshairShadow, 0, cy + 1, w, 1),
        fill_cmd(ColorRole::CrosshairLine, cx, 0, 1, h),
        fill_cmd(ColorRole::CrosshairLine, 0, cy, w, 1),
    ]
}

/// A vertical magnifier grid line.
pub open spec fn spec_grid_v(mx: int, my: int, i: int) -> CmdModel {
    fill_cmd(ColorRole::MagnifierGrid, mx + i * MAG_PIXEL_SIZE as int, my, 1, MAG_HEIGHT as int)
}

/// A horizontal magnifier grid line.
pub open spec fn spec_grid_h(mx: int, my: int, i: int) -> CmdModel {
    fill_cmd(ColorRole::MagnifierGrid, mx, my + i * MAG_PIXEL_SIZE as int, MAG_WIDTH as int, 1)
}

/// The vertical grid lines numbered `1` to `k - 1`, in order.
pub open spec fn grid_v_upto(mx: int, my: int, k: int) -> Seq<CmdModel>
    decreases k,
{
    if k <= 1 {
        Seq::empty()
    } else {
        grid_v_upto(mx, my, k - 1).push(spec_grid_v(mx, my, k - 1))
    }
}

/// The horizontal grid lines numbered `1` to `k - 1`, in order.
pub open spec fn grid_h_upto(mx: int, my: int, k: int) -> Seq<CmdModel>
    decreases k,
{
    if k <= 1 {
        Seq::empty()
    } else {
        grid_h_upto(mx, my, k - 1).push(spec_grid_h(mx, my, k - 1))
    }
}

/// The magnifier's frame, background, and the magnified source window
/// (when it meets the image).
pub open spec fn spec_mag_head(cx: int, cy: int, w: int, h: int, img_w: int, img_h: int) -> Seq<
    CmdModel,
> {
    let p = MAG_PIXEL_SIZE as int;
    let b = BORDER_WIDTH as int;
    let mp = spec_magnifier_pos(cx, cy, w, h);
    let mx = mp.0;
    let my = mp.1;
    let src = spec_mag_source(cx, cy, img_w, img_h);
    let head = seq![
        CmdModel::RoundedFill {
            role: ColorRole::MagnifierBorder,
            area: RectModel {
                x: mx - b,
                y: my - b,
                w: MAG_WIDTH as int + 2 * b,
                h: MAG_HEIGHT as int + 2 * b,
            },
            radius: 10,
        },
        CmdModel::RoundedFill {
            role: ColorRole::MagnifierBackground,
            area: RectModel { x: mx, y: my, w: MAG_WIDTH as int, h: MAG_HEIGHT as int },
            radius: 8,
        },
    ];
    let img = if src.src_w > 0 && src.src_h > 0 {
        seq![
            CmdModel::Magnified {
                src: RectModel {
                    x: src.src_x as int,
                    y: src.src_y as int,
                    w: src.src_w as int,
                    h: src.src_h as int,
                },
                dst_x: mx + src.off_x as int,
                dst_y: my + src.off_y as int,
                scale: p,
            },
        ]
    } else {
        Seq::<CmdModel>::empty()
    };
    head + img
}

/// The magnifier's center crosshair and center-pixel indicator.
pub open spec fn spec_mag_tail(mx: int, my: int) -> Seq<CmdModel> {
    let p = MAG_PIXEL_SIZE as int;
    let b = BORDER_WIDTH as int;
    let cxi = MAG_CELLS_X as int / 2;
    let cyi = MAG_CELLS_Y as int / 2;
    let ix = mx + cxi * p;
    let iy = my + cyi * p;
    seq![
        fill_cmd(ColorRole::MagnifierCrosshair, mx + cxi * p, my, p, MAG_HEIGHT as int),
        fill_cmd(ColorRole::MagnifierCrosshair, mx, my + cyi * p, MAG_WIDTH as int, p),
        fill_cmd(ColorRole::CenterIndicator, ix, iy, p, b),
        fill_cmd(ColorRole::CenterIndicator, ix, iy + p - b, p, b),
        fill_cmd(ColorRole::CenterIndicator, ix, iy, b, p),
        fill_cmd(ColorRole::CenterIndicator, ix + p - b, iy, b, p),
    ]
}

/// The magnifier: frame, background, the magnified source window (when it
/// meets the image), grid lines, center crosshair, and the center-pixel
/// indicator.
pub open spec fn spec_magnifier(cx: int, cy: int, w: int, h: int, img_w: int, img_h: int) -> Seq<
    CmdModel,
> {
    let mp = spec_magnifier_pos(cx, cy, w, h);
    let mx = mp.0;
    let my = mp.1;
    spec_mag_head(cx, cy, w, h, img_w, img_h) + grid_v_upto(mx, my, MAG_CELLS_X as int)
        + grid_h_upto(mx, my, MAG_CELLS_Y as int) + spec_mag_tail(mx, my)
}

/// Crosshair and magnifier together, anchored at the same point.
pub open spec fn spec_focus_cmds(cx: int, cy: int, w: int, h: int, img_w: int, img_h: int) -> Seq<
    CmdModel,
> {
    spec_crosshair(cx, cy, w, h) + spec_magnifier(cx, cy, w, h, img_w, img_h)
}

/// The outline (and, when hovered, the translucent fill) of one
/// predefined region.
pub open spec fn spec_region_cmds_one(r: RectModel, hovered: bool) -> Seq<CmdModel> {
    let b = BORDER_WIDTH as int;
    let role = if hovered {
        ColorRole::RegionBorderHovered
    } else {
        ColorRole::RegionBorder
    };
    let fillpart = if hovered {
        seq![CmdModel::Fill { role: ColorRole::RegionHoverFill, area: r }]
    } else {
        Seq::<CmdModel>::empty()
    };
    fillpart + seq![
        fill_cmd(role, r.x, r.y, r.w, b),
        fill_cmd(role, r.x, r.y + r.h - b, r.w, b),
        fill_cmd(role, r.x, r.y, b, r.h),
        fill_cmd(role, r.x + r.w - b, r.y, b, r.h),
    ]
}

/// The draw commands of all predefined regions, in list order.
pub open spec fn spec_regions_cmds(regions: Seq<RectModel>, hovered: Option<int>) -> Seq<CmdModel>
    decreases regions.len(),
{
    if regions.len() == 0 {
        Seq::empty()
    } else {
        spec_regions_cmds(regions.drop_last(), hovered) + spec_region_cmds_one(
            regions.last(),
            hovered == Some(regions.len() - 1),
        )
    }
}

/// The whole frame: the captured image, then — with a selection — dimming
/// strips, border and handles, and the crosshair/magnifier as the drag
/// mode calls for; without one, full dimming, the predefined regions, and
/// the crosshair/magnifier whenever the pointer is inside.
pub open spec fn spec_render_frame(
    s: SelectionModel,
    cx: int,
    cy: int,
    inside: bool,
    img_w: int,
    img_h: int,
) -> Seq<CmdModel> {
    let w = s.screen_w;
    let h = s.screen_h;
    let base = seq![CmdModel::Background { w, h }];
    match s.rect {
        Some(r) => {
            let n = norm(r);
            let chrome = spec_selection_chrome(n, w, h);
            let focus = if inside {
                match s.drag_mode {
                    DragMode::Idle => if !rect_contains(r, cx, cy) && spec_hit_test(s.rect, cx, cy)
                        == DragMode::Creating {
                        spec_focus_cmds(cx, cy, w, h, img_w, img_h)
                    } else {
                        Seq::<CmdModel>::empty()
                    },
                    DragMode::Creating => {
                        let sp = spec_snap_position(n, s.drag_mode, cx, cy);
                        spec_focus_cmds(sp.0, sp.1, w, h, img_w, img_h)
                    },
                    DragMode::Resizing(e) => {
                        let sp = spec_snap_position(n, s.drag_mode, cx, cy);
                        spec_focus_cmds(sp.0, sp.1, w, h, img_w, img_h)
                    },
                    DragMode::Moving => Seq::<CmdModel>::empty(),
                }
            } else {
                Seq::<CmdModel>::empty()
            };
            base + chrome + focus
        },
        None => {
            let dim = seq![
                CmdModel::Fill { role: ColorRole::Dim, area: RectModel { x: 0, y: 0, w, h } },
            ];
            let regions = spec_regions_cmds(s.regions, s.hovered);
            let focus = if inside {
                spec_focus_cmds(cx, cy, w, h, img_w, img_h)
            } else {
                Seq::<CmdModel>::empty()
            };
            base + dim + regions + focus
        },
    }
}

/// Append the crosshair lines and their shadows.
fn push_crosshair(v: &mut Vec<DrawCmd>, cx: i64, cy: i64, w: i64, h: i64)
    requires
        -8 * COORD_LIMIT <= cx as int <= 8 * COORD_LIMIT,
        -8 * COORD_LIMIT <= cy as int <= 8 * COORD_LIMIT,
        0 <= w as int <= COORD_LIMIT as int,
        0 <= h as int <= COORD_LIMIT as int,
    ensures
        cmds_of(final(v)@) == cmds_of(old(v)@) + spec_crosshair(cx as int, cy as int, w as int, h as int),
{
    v.push(DrawCmd::Fill { role: ColorRole::CrosshairShadow, area: Rect::new(cx + 1, 0, 1, h) });
    v.push(DrawCmd::Fill { role: ColorRole::CrosshairShadow, area: Rect::new(0, cy + 1, w, 1) });
    v.push(DrawCmd::Fill { role: ColorRole::CrosshairLine, area: Rect::new(cx, 0, 1, h) });
    v.push(DrawCmd::Fill { role: ColorRole::CrosshairLine, area: Rect::new(0, cy, w, 1) });
    proof {
        assert(cmds_of(v@) =~= cmds_of(old(v)@) + spec_crosshair(
            cx as int,
            cy as int,
            w as int,
            h as int,
        ));
    }
}

/// Append the magnifier commands.
fn push_magnifier(v: &mut Vec<DrawCmd>, cx: i64, cy: i64, w: i64, h: i64, img_w: i64, img_h: i64)
    requires
        -8 * COORD_LIMIT <= cx as int <= 8 * COORD_LIMIT,
        -8 * COORD_LIMIT <= cy as int <= 8 * COORD_LIMIT,
        0 <= w as int <= COORD_LIMIT as int,
        0 <= h as int <= COORD_LIMIT as int,
        0 <= img_w as int <= COORD_LIMIT as int,
        0 <= img_h as int <= COORD_LIMIT as int,
    ensures
        cmds_of(final(v)@) == cmds_of(old(v)@) + spec_magnifier(
            cx as int,
            cy as int,
            w as int,
            h as int,
            img_w as int,
            img_h as int,
        ),
{
    let ghost base = cmds_of(v@);
    let (mag_x, mag_y) = magnifier_pos(cx, cy, w, h);
    let ghost mx = mag_x as int;
    let ghost my = mag_y as int;
    let src = mag_source(cx, cy, img_w, img_h);

    v.push(
        DrawCmd::RoundedFill {
            role: ColorRole::MagnifierBorder,
            area: Rect::new(
                mag_x - BORDER_WIDTH,
                mag_y - BORDER_WIDTH,
                MAG_WIDTH + 2 * BORDER_WIDTH,
                MAG_HEIGHT + 2 * BORDER_WIDTH,
            ),
            radius: 10,
        },
    );
    v.push(
        DrawCmd::RoundedFill {
            role: ColorRole::MagnifierBackground,
            area: Rect::new(mag_x, mag_y, MAG_WIDTH, MAG_HEIGHT),
            radius: 8,
        },
    );
    if src.src_w > 0 && src.src_h > 0 {
        v.push(
            DrawCmd::Magnified {
                src: Rect::new(src.src_x, src.src_y, src.src_w, src.src_h),
                dst_x: mag_x + src.off_x,
                dst_y: mag_y + src.off_y,
                scale: MAG_PIXEL_SIZE,
            },
        );
    }
    let ghost pre_grid = cmds_of(v@);
    proof {
        assert(pre_grid =~= base + spec_mag_head(
            cx as int,
            cy as int,
            w as int,
            h as int,
            img_w as int,
            img_h as int,
        ));
        assert(cmds_of(v@) =~= pre_grid + grid_v_upto(mx, my, 1));
    }

    let mut i: i64 = 1;
    while i < MAG_CELLS_X
        invariant
            1 <= i <= MAG_CELLS_X,
            -9 * COORD_LIMIT <= mx <= 9 * COORD_LIMIT,
            -9 * COORD_LIMIT <= my <= 9 * COORD_LIMIT,
            mag_x as int == mx,
            mag_y as int == my,
            cmds_of(v@) == pre_grid + grid_v_upto(mx, my, i as int),
        decreases MAG_CELLS_X - i,
    {
        let ghost before = cmds_of(v@);
        let cmd = DrawCmd::Fill {
            role: ColorRole::MagnifierGrid,
            area: Rect::new(mag_x + i * MAG_PIXEL_SIZE, mag_y, 1, MAG_HEIGHT),
        };
        v.push(cmd);
        proof {
            assert(cmds_of(v@) =~= before.push(cmd@));
            assert(cmd@ == spec_grid_v(mx, my, i as int));
            assert(cmds_of(v@) =~= pre_grid + grid_v_upto(mx, my, i as int + 1));
        }
        i = i + 1;
    }
    let ghost post_v = cmds_of(v@);
    proof {
        assert(cmds_of(v@) =~= post_v + grid_h_upto(mx, my, 1));
    }

    let mut i: i64 = 1;
    while i < MAG_CELLS_Y
        invariant
            1 <= i <= MAG_CELLS_Y,
            -9 * COORD_LIMIT <= mx <= 9 * COORD_LIMIT,
            -9 * COORD_LIMIT <= my <= 9 * COORD_LIMIT,
            mag_x as int == mx,
            mag_y as int == my,
            post_v == pre_grid + grid_v_upto(mx, my, MAG_CELLS_X as int),
            cmds_of(v@) == post_v + grid_h_upto(mx, my, i as int),
        decreases MAG_CELLS_Y - i,
    {
        let ghost before = cmds_of(v@);
        let cmd = DrawCmd::Fill {
            role: ColorRole::MagnifierGrid,
            area: Rect::new(mag_x, mag_y + i * MAG_PIXEL_SIZE, MAG_WIDTH, 1),
        };
        v.push(cmd);
        proof {
            assert(cmds_of(v@) =~= before.push(cmd@));
            assert(cmd@ == spec_grid_h(mx, my, i as int));
            assert(cmds_of(v@) =~= post_v + grid_h_upto(mx, my, i as int + 1));
        }
        i = i + 1;
    }
    let ghost pre_tail = cmds_of(v@);

    let cxi = MAG_CELLS_X / 2;
    let cyi = MAG_CELLS_Y / 2;
    v.push(
        DrawCmd::Fill {
            role: ColorRole::MagnifierCrosshair,
            area: Rect::new(mag_x + cxi * MAG_PIXEL_SIZE, mag_y, MAG_PIXEL_SIZE, MAG_HEIGHT),
        },
    );
    v.push(
        DrawCmd::Fill {
            role: ColorRole::MagnifierCrosshair,
            area: Rect::new(mag_x, mag_y + cyi * MAG_PIXEL_SIZE, MAG_WIDTH, MAG_PIXEL_SIZE),
        },
    );

    let ix = mag_x + cxi * MAG_PIXEL_SIZE;
    let iy = mag_y + cyi * MAG_PIXEL_SIZE;
    v.push(
        DrawCmd::Fill {
            role: ColorRole::CenterIndicator,
            area: Rect::new(ix, iy, MAG_PIXEL_SIZE, BORDER_WIDTH),
        },
    );
    v.push(
        DrawCmd::Fill {
            role: ColorRole::CenterIndicator,
            area: Rect::new(ix, iy + MAG_PIXEL_SIZE - BORDER_WIDTH, MAG_PIXEL_SIZE, BORDER_WIDTH),
        },
    );
    v.push(
        DrawCmd::Fill {
            role: ColorRole::CenterIndicator,
            area: Rect::new(ix, iy, BORDER_WIDTH, MAG_PIXEL_SIZE),
        },
    );
    v.push(
        DrawCmd::Fill {
            role: ColorRole::CenterIndicator,
            area: Rect::new(ix + MAG_PIXEL_SIZE - BORDER_WIDTH, iy, BORDER_WIDTH, MAG_PIXEL_SIZE),
        },
    );

    proof {
        assert(cmds_of(v@) =~= pre_tail + spec_mag_tail(mx, my));
        assert(cmds_of(v@) =~= base + spec_magnifier(
            cx as int,
            cy as int,
            w as int,
            h as int,
            img_w as int,
            img_h as int,
        ));
    }
}

/// Append the crosshair and magnifier anchored at the same point.
fn push_focus(v: &mut Vec<DrawCmd>, cx: i64, cy: i64, w: i64, h: i64, img_w: i64, img_h: i64)
    requires
        -8 * COORD_LIMIT <= cx as int <= 8 * COORD_LIMIT,
        -8 * COORD_LIMIT <= cy as int <= 8 * COORD_LIMIT,
        0 <= w as int <= COORD_LIMIT as int,
        0 <= h as int <= COORD_LIMIT as int,
        0 <= img_w as int <= COORD_LIMIT as int,
        0 <= img_h as int <= COORD_LIMIT as int,
    ensures
        cmds_of(final(v)@) == cmds_of(old(v)@) + spec_focus_cmds(
            cx as int,
            cy as int,
            w as int,
            h as int,
            img_w as int,
            img_h as int,
        ),
{
    push_crosshair(v, cx, cy, w, h);
    push_magnifier(v, cx, cy, w, h, img_w, img_h);
    proof {
        assert(cmds_of(v@) =~= cmds_of(old(v)@) + spec_focus_cmds(
            cx as int,
            cy as int,
            w as int,
            h as int,
            img_w as int,
            img_h as int,
        ));
    }
}

/// Append the dimming strips, border and handles around the normalized
/// selection rectangle.
fn push_chrome(v: &mut Vec<DrawCmd>, n: &Rect, w: i64, h: i64)
    requires
        crate::rect::rect_within(n@, 4 * COORD_LIMIT as int),
        0 <= w as int <= COORD_LIMIT as int,
        0 <= h as int <= COORD_LIMIT as int,
    ensures
        cmds_of(final(v)@) == cmds_of(old(v)@) + spec_selection_chrome(n@, w as int, h as int),
{
    let b = BORDER_WIDTH;
    let hs = crate::rect::HANDLE_SIZE;
    let hh = crate::rect::HANDLE_SIZE / 2;

    v.push(DrawCmd::Fill { role: ColorRole::Dim, area: Rect::new(0, 0, w, n.y) });
    v.push(
        DrawCmd::Fill {
            role: ColorRole::Dim,
            area: Rect::new(0, n.y + n.height, w, h - (n.y + n.height)),
        },
    );
    v.push(DrawCmd::Fill { role: ColorRole::Dim, area: Rect::new(0, n.y, n.x, n.height) });
    v.push(
        DrawCmd::Fill {
            role: ColorRole::Dim,
            area: Rect::new(n.x + n.width, n.y, w - (n.x + n.width), n.height),
        },
    );

    v.push(
        DrawCmd::Fill {
            role: ColorRole::SelectionBorder,
            area: Rect::new(n.x - b, n.y - b, n.width + 2 * b, b),
        },
    );
    v.push(
        DrawCmd::Fill {
            role: ColorRole::SelectionBorder,
            area: Rect::new(n.x - b, n.y + n.height, n.width + 2 * b, b),
        },
    );
    v.push(
        DrawCmd::Fill {
            role: ColorRole::SelectionBorder,
            area: Rect::new(n.x - b, n.y, b, n.height),
        },
    );
    v.push(
        DrawCmd::Fill {
            role: ColorRole::SelectionBorder,
            area: Rect::new(n.x + n.width, n.y, b, n.height),
        },
    );

    let hr0 = Rect::new(n.x - hh, n.y - hh, hs, hs);
    let hr1 = Rect::new(n.x + n.width - hh, n.y - hh, hs, hs);
    let hr2 = Rect::new(n.x + n.width - hh, n.y + n.height - hh, hs, hs);
    let hr3 = Rect::new(n.x - hh, n.y + n.height - hh, hs, hs);
    push_handle_pair(v, &hr0);
    push_handle_pair(v, &hr1);
    push_handle_pair(v, &hr2);
    push_handle_pair(v, &hr3);
    proof {
        assert(cmds_of(v@) =~= cmds_of(old(v)@) + spec_selection_chrome(n@, w as int, h as int));
    }
}

/// Append the ring and fill of one corner handle.
fn push_handle_pair(v: &mut Vec<DrawCmd>, hr: &Rect)
    requires
        crate::rect::rect_within(hr@, 9 * COORD_LIMIT as int),
    ensures
        cmds_of(final(v)@) == cmds_of(old(v)@) + spec_handle_pair(hr@),
{
    v.push(
        DrawCmd::RoundedFill {
            role: ColorRole::HandleRing,
            area: Rect::new(hr.x - 1, hr.y - 1, hr.width + 2, hr.height + 2),
            radius: 4,
        },
    );
    v.push(DrawCmd::RoundedFill { role: ColorRole::HandleFill, area: *hr, radius: 3 });
    proof {
        assert(cmds_of(v@) =~= cmds_of(old(v)@) + spec_handle_pair(hr@));
    }
}

/// Append the outline (and hover fill) of one predefined region.
fn push_region_one(v: &mut Vec<DrawCmd>, r: &Rect, hovered: bool)
    requires
        rect_wf(r@),
    ensures
        cmds_of(final(v)@) == cmds_of(old(v)@) + spec_region_cmds_one(r@, hovered),
{
    let b = BORDER_WIDTH;
    if hovered {
        v.push(DrawCmd::Fill { role: ColorRole::RegionHoverFill, area: *r });
    }
    let role = if hovered {
        ColorRole::RegionBorderHovered
    } else {
        ColorRole::RegionBorder
    };
    v.push(DrawCmd::Fill { role, area: Rect::new(r.x, r.y, r.width, b) });
    v.push(DrawCmd::Fill { role, area: Rect::new(r.x, r.y + r.height - b, r.width, b) });
    v.push(DrawCmd::Fill { role, area: Rect::new(r.x, r.y, b, r.height) });
    v.push(DrawCmd::Fill { role, area: Rect::new(r.x + r.width - b, r.y, b, r.height) });
    proof {
        assert(cmds_of(v@) =~= cmds_of(old(v)@) + spec_region_cmds_one(r@, hovered));
    }
}

/// Append the outlines of all predefined regions.
fn push_regions(v: &mut Vec<DrawCmd>, sel: &Selection)
    requires
        sel.wf(),
    ensures
        cmds_of(final(v)@) == cmds_of(old(v)@) + spec_regions_cmds(sel@.regions, sel@.hovered),
{
    let ghost base = cmds_of(v@);
    let len = sel.predefined_regions.len();
    let mut i: usize = 0;
    while i < len
        invariant
            0 <= i <= len,
            len == sel.predefined_regions.len(),
            sel.wf(),
            cmds_of(v@) == base + spec_regions_cmds(
                sel@.regions.subrange(0, i as int),
                sel@.hovered,
            ),
        decreases len - i,
    {
        let hovered = match sel.hovered_region {
            Some(j) => j == i,
            None => false,
        };
        proof {
            assert(rect_wf(sel@.regions[i as int]));
            assert(sel@.regions[i as int] == sel.predefined_regions@[i as int]@);
        }
        push_region_one(v, &sel.predefined_regions[i], hovered);
        proof {
            let regs = sel@.regions;
            let sub1 = regs.subrange(0, i as int + 1);
            assert(sub1.drop_last() =~= regs.subrange(0, i as int));
            assert(sub1.last() == regs[i as int]);
            assert(cmds_of(v@) =~= base + spec_regions_cmds(sub1, sel@.hovered));
        }
        i = i + 1;
    }
    proof {
        assert(sel@.regions.subrange(0, len as int) =~= sel@.regions);
    }
}

/// Produce the draw list for one frame: a pure function of the selection
/// state, the cursor position, the pointer-inside flag, and the image
/// dimensions; the selection is never mutated.
pub fn render_frame(
    sel: &Selection,
    cursor_x: i64,
    cursor_y: i64,
    pointer_inside: bool,
    img_w: i64,
    img_h: i64,
) -> (v: Vec<DrawCmd>)
    requires
        sel.wf(),
        coord_ok(cursor_x as int),
        coord_ok(cursor_y as int),
        0 <= img_w as int <= COORD_LIMIT as int,
        0 <= img_h as int <= COORD_LIMIT as int,
    ensures
        cmds_of(v@) == spec_render_frame(
            sel@,
            cursor_x as int,
            cursor_y as int,
            pointer_inside,
            img_w as int,
            img_h as int,
        ),
{
    let w = sel.screen_width;
    let h = sel.screen_height;
    let mut v: Vec<DrawCmd> = Vec::new();
    v.push(DrawCmd::Background { width: w, height: h });

    match sel.rect {
        Some(rect) => {
            let n = rect.normalized();
            push_chrome(&mut v, &n, w, h);
            if pointer_inside {
                match sel.drag_mode {
                    DragMode::Idle => {
                        let hover = sel.hit_test(cursor_x, cursor_y);
                        if !rect.contains(cursor_x, cursor_y) && hover == DragMode::Creating {
                            push_focus(&mut v, cursor_x, cursor_y, w, h, img_w, img_h);
                        }
                    },
                    DragMode::Moving => {},
                    _ => {
                        let sp = snap_position(&n, sel.drag_mode, cursor_x, cursor_y);
                        push_focus(&mut v, sp.0, sp.1, w, h, img_w, img_h);
                    },
                }
            }
        },
        None => {
            v.push(DrawCmd::Fill { role: ColorRole::Dim, area: Rect::new(0, 0, w, h) });
            push_regions(&mut v, sel);
            if pointer_inside {
                push_focus(&mut v, cursor_x, cursor_y, w, h, img_w, img_h);
            }
        },
    }
    proof {
        assert(cmds_of(v@) =~= spec_render_frame(
            sel@,
            cursor_x as int,
            cursor_y as int,
            pointer_inside,
            img_w as int,
            img_h as int,
        ));
    }
    v
}

} // verus!
