//! The selection state machine: current rectangle, interaction mode, drag
//! bookkeeping, predefined regions, hit-testing, the drag lifecycle, and
//! crop-region export.

use vstd::prelude::*;

use crate::rect::{
    constrained, coord_ok, norm, rect_contains, rect_wf, Rect, RectModel, COORD_LIMIT,
    EDGE_GRAB_WIDTH, HANDLE_SIZE, MIN_SIZE,
};

verus! {

/// Which handle or edge a resize drag works on: four corners, four edge
/// midpoints.
#[derive(Debug, Clone, Copy, PartialEq, Eq, Structural)]
pub enum ResizeEdge {
    TopLeft,
    TopRight,
    BottomRight,
    BottomLeft,
    Top,
    Right,
    Bottom,
    Left,
}

/// The cursor name that belongs to a resize edge.
pub open spec fn spec_cursor_name(e: ResizeEdge) -> Seq<char> {
    match e {
        ResizeEdge::TopLeft => "nw-resize"@,
        ResizeEdge::TopRight => "ne-resize"@,
        ResizeEdge::BottomRight => "se-resize"@,
        ResizeEdge::BottomLeft => "sw-resize"@,
        ResizeEdge::Top => "n-resize"@,
        ResizeEdge::Right => "e-resize"@,
        ResizeEdge::Bottom => "s-resize"@,
        ResizeEdge::Left => "w-resize"@,
    }
}

impl ResizeEdge {
    /// The cursor name for this edge or handle.
    pub fn cursor_name(&self) -> (r: &'static str)
        ensures
            r@ == spec_cursor_name(*self),
    {
        match self {
            ResizeEdge::TopLeft => "nw-resize",
            ResizeEdge::TopRight => "ne-resize",
            ResizeEdge::BottomRight => "se-resize",
            ResizeEdge::BottomLeft => "sw-resize",
            ResizeEdge::Top => "n-resize",
            ResizeEdge::Right => "e-resize",
            ResizeEdge::Bottom => "s-resize",
            ResizeEdge::Left => "w-resize",
        }
    }
}

/// The mutually exclusive interaction currently in progress.
#[derive(Debug, Clone, Copy, PartialEq, Eq, Structural, Default)]
pub enum DragMode {
    /// No drag operation.
    #[default]
    Idle,
    /// Creating a new selection.
    Creating,
    /// Moving the existing selection.
    Moving,
    /// Resizing via a specific edge or corner.
    Resizing(ResizeEdge),
}

/// The cursor identity the controller applies: compared for deduplication,
/// turned into a named cursor only at the presentation edge.
#[derive(Debug, Clone, Copy, PartialEq, Eq, Structural)]
pub enum CursorKind {
    Default,
    Crosshair,
    Pointer,
    Grab,
    Grabbing,
    Resize(ResizeEdge),
}

impl CursorKind {
    /// The platform cursor name for this identity.
    pub fn name(&self) -> (r: &'static str)
        ensures
            r@ == spec_cursor_kind_name(*self),
    {
        match self {
            CursorKind::Default => "default",
            CursorKind::Crosshair => "crosshair",
            CursorKind::Pointer => "pointer",
            CursorKind::Grab => "grab",
            CursorKind::Grabbing => "grabbing",
            CursorKind::Resize(e) => e.cursor_name(),
        }
    }
}

/// The cursor name that belongs to a cursor identity.
pub open spec fn spec_cursor_kind_name(k: CursorKind) -> Seq<char> {
    match k {
        CursorKind::Default => "default"@,
        CursorKind::Crosshair => "crosshair"@,
        CursorKind::Pointer => "pointer"@,
        CursorKind::Grab => "grab"@,
        CursorKind::Grabbing => "grabbing"@,
        CursorKind::Resize(e) => spec_cursor_name(e),
    }
}

/// The mathematical value of the selection state.
#[verifier::ext_equal]
pub ghost struct SelectionModel {
    pub rect: Option<RectModel>,
    pub screen_w: int,
    pub screen_h: int,
    pub drag_mode: DragMode,
    pub drag_start_x: int,
    pub drag_start_y: int,
    pub drag_start_rect: Option<RectModel>,
    pub regions: Seq<RectModel>,
    pub hovered: Option<int>,
}

/// Selection state: the rectangle being built or edited, the screen it is
/// clamped to, and the drag bookkeeping.
#[derive(Debug)]
pub struct Selection {
    /// Current selection rectangle, absent until the first drag begins.
    pub rect: Option<Rect>,
    /// Screen dimensions for bounds checking.
    pub screen_width: i64,
    pub screen_height: i64,
    /// Current drag mode.
    pub drag_mode: DragMode,
    /// Starting point of the drag in progress.
    pub drag_start: (i64, i64),
    /// Snapshot of `rect` taken when the drag started.
    pub drag_start_rect: Option<Rect>,
    /// Externally supplied regions offered for one-click selection.
    pub predefined_regions: Vec<Rect>,
    /// Index of the currently hovered predefined region.
    pub hovered_region: Option<usize>,
}

impl View for Selection {
    type V = SelectionModel;

    open spec fn view(&self) -> SelectionModel {
        SelectionModel {
            rect: match self.rect {
                Some(r) => Some(r@),
                None => None,
            },
            screen_w: self.screen_width as int,
            screen_h: self.screen_height as int,
            drag_mode: self.drag_mode,
            drag_start_x: self.drag_start.0 as int,
            drag_start_y: self.drag_start.1 as int,
            drag_start_rect: match self.drag_start_rect {
                Some(r) => Some(r@),
                None => None,
            },
            regions: self.predefined_regions@.map_values(|r: Rect| r@),
            hovered: match self.hovered_region {
                Some(i) => Some(i as int),
                None => None,
            },
        }
    }
}

/// Well-formedness of the selection state: the screen within the coordinate
/// range, and every stored rectangle well formed.
pub open spec fn sel_wf(s: SelectionModel) -> bool {
    &&& 0 <= s.screen_w <= COORD_LIMIT as int
    &&& 0 <= s.screen_h <= COORD_LIMIT as int
    &&& coord_ok(s.drag_start_x)
    &&& coord_ok(s.drag_start_y)
    &&& match s.rect {
        Some(r) => rect_wf(r),
        None => true,
    }
    &&& match s.drag_start_rect {
        Some(r) => rect_wf(r),
        None => true,
    }
    &&& forall|i: int| 0 <= i < s.regions.len() ==> rect_wf(#[trigger] s.regions[i])
}

/// Which corner handle, if any, covers the point: a square of side
/// `HANDLE_SIZE` centered on each corner of the normalized rectangle,
/// tested in the order top-left, top-right, bottom-right, bottom-left.
pub open spec fn spec_hit_corner(r: RectModel, px: int, py: int) -> Option<ResizeEdge> {
    let n = norm(r);
    let hh = HANDLE_SIZE as int / 2;
    let hs = HANDLE_SIZE as int;
    if rect_contains(RectModel { x: n.x - hh, y: n.y - hh, w: hs, h: hs }, px, py) {
        Some(ResizeEdge::TopLeft)
    } else if rect_contains(RectModel { x: n.x + n.w - hh, y: n.y - hh, w: hs, h: hs }, px, py) {
        Some(ResizeEdge::TopRight)
    } else if rect_contains(
        RectModel { x: n.x + n.w - hh, y: n.y + n.h - hh, w: hs, h: hs },
        px,
        py,
    ) {
        Some(ResizeEdge::BottomRight)
    } else if rect_contains(RectModel { x: n.x - hh, y: n.y + n.h - hh, w: hs, h: hs }, px, py) {
        Some(ResizeEdge::BottomLeft)
    } else {
        None
    }
}

/// Which edge band, if any, covers the point: a band of half-width
/// `EDGE_GRAB_WIDTH` along each side, excluding the corner-handle extents
/// (the coordinate along the edge must fall strictly between the two
/// adjacent corner half-extents), tested in the order top, bottom, left,
/// right.
pub open spec fn spec_hit_edge(r: RectModel, px: int, py: int) -> Option<ResizeEdge> {
    let n = norm(r);
    let hh = HANDLE_SIZE as int / 2;
    let g = EDGE_GRAB_WIDTH as int;
    let in_h = n.x + hh < px < n.x + n.w - hh;
    let in_v = n.y + hh < py < n.y + n.h - hh;
    if in_h && n.y - g <= py <= n.y + g {
        Some(ResizeEdge::Top)
    } else if in_h && n.y + n.h - g <= py <= n.y + n.h + g {
        Some(ResizeEdge::Bottom)
    } else if in_v && n.x - g <= px <= n.x + g {
        Some(ResizeEdge::Left)
    } else if in_v && n.x + n.w - g <= px <= n.x + n.w + g {
        Some(ResizeEdge::Right)
    } else {
        None
    }
}

/// The drag mode a press at the point starts: corner handle over edge band
/// over interior (moving) over anywhere else (creating).
pub open spec fn spec_hit_test(rect: Option<RectModel>, px: int, py: int) -> DragMode {
    match rect {
        None => DragMode::Creating,
        Some(r) => {
            if spec_hit_corner(r, px, py) is Some {
                DragMode::Resizing(spec_hit_corner(r, px, py)->0)
            } else if spec_hit_edge(r, px, py) is Some {
                DragMode::Resizing(spec_hit_edge(r, px, py)->0)
            } else if rect_contains(r, px, py) {
                DragMode::Moving
            } else {
                DragMode::Creating
            }
        },
    }
}

/// The cursor identity for a position: `Grabbing` through a move drag, else
/// the hit-test priority with `Grab` over the interior and `Crosshair`
/// elsewhere.
pub open spec fn spec_cursor_for(s: SelectionModel, px: int, py: int) -> CursorKind {
    if s.drag_mode == DragMode::Moving {
        CursorKind::Grabbing
    } else {
        match s.rect {
            None => CursorKind::Crosshair,
            Some(r) => {
                if spec_hit_corner(r, px, py) is Some {
                    CursorKind::Resize(spec_hit_corner(r, px, py)->0)
                } else if spec_hit_edge(r, px, py) is Some {
                    CursorKind::Resize(spec_hit_edge(r, px, py)->0)
                } else if rect_contains(r, px, py) {
                    CursorKind::Grab
                } else {
                    CursorKind::Crosshair
                }
            },
        }
    }
}

/// First predefined region at or after index `i` whose bounds contain the
/// point.
pub open spec fn find_region_from(regions: Seq<RectModel>, px: int, py: int, i: int) -> Option<
    int,
>
    decreases regions.len() - i,
{
    if 0 <= i < regions.len() {
        if rect_contains(regions[i], px, py) {
            Some(i)
        } else {
            find_region_from(regions, px, py, i + 1)
        }
    } else {
        None
    }
}

/// The four corner-handle squares of the normalized rectangle, in the order
/// top-left, top-right, bottom-right, bottom-left.
pub open spec fn corner_handles(n: RectModel) -> Seq<(ResizeEdge, RectModel)> {
    let hh = HANDLE_SIZE as int / 2;
    let hs = HANDLE_SIZE as int;
    seq![
        (ResizeEdge::TopLeft, RectModel { x: n.x - hh, y: n.y - hh, w: hs, h: hs }),
        (ResizeEdge::TopRight, RectModel { x: n.x + n.w - hh, y: n.y - hh, w: hs, h: hs }),
        (ResizeEdge::BottomRight, RectModel { x: n.x + n.w - hh, y: n.y + n.h - hh, w: hs, h: hs }),
        (ResizeEdge::BottomLeft, RectModel { x: n.x - hh, y: n.y + n.h - hh, w: hs, h: hs }),
    ]
}

/// The state after a press at `(x, y)`: the hit-tested mode and drag
/// bookkeeping recorded; a creating press materializes a zero-size
/// rectangle at the press point.
pub open spec fn spec_start_drag(s: SelectionModel, x: int, y: int) -> SelectionModel {
    let mode = spec_hit_test(s.rect, x, y);
    let s1 = SelectionModel {
        drag_mode: mode,
        drag_start_x: x,
        drag_start_y: y,
        drag_start_rect: s.rect,
        ..s
    };
    if mode == DragMode::Creating {
        SelectionModel { rect: Some(RectModel { x, y, w: 0, h: 0 }), ..s1 }
    } else {
        s1
    }
}

/// The per-edge resize transform, applied to the drag-start snapshot: each
/// anchor adjusts exactly the coordinates and dimensions on its adjacent
/// sides by the pointer delta, holding the opposite sides fixed.
pub open spec fn spec_apply_resize(start: RectModel, e: ResizeEdge, dx: int, dy: int) -> RectModel {
    match e {
        ResizeEdge::TopLeft => RectModel {
            x: start.x + dx,
            y: start.y + dy,
            w: start.w - dx,
            h: start.h - dy,
        },
        ResizeEdge::Top => RectModel { y: start.y + dy, h: start.h - dy, ..start },
        ResizeEdge::TopRight => RectModel {
            y: start.y + dy,
            w: start.w + dx,
            h: start.h - dy,
            ..start
        },
        ResizeEdge::Right => RectModel { w: start.w + dx, ..start },
        ResizeEdge::BottomRight => RectModel { w: start.w + dx, h: start.h + dy, ..start },
        ResizeEdge::Bottom => RectModel { h: start.h + dy, ..start },
        ResizeEdge::BottomLeft => RectModel {
            x: start.x + dx,
            w: start.w - dx,
            h: start.h + dy,
            ..start
        },
        ResizeEdge::Left => RectModel { x: start.x + dx, w: start.w - dx, ..start },
    }
}

/// The state after the pointer moves to `(x, y)` mid-drag.  The delta is
/// taken from the original press point, never the previous move, so
/// repeated updates cannot drift.
pub open spec fn spec_update_drag(s: SelectionModel, x: int, y: int) -> SelectionModel {
    let dx = x - s.drag_start_x;
    let dy = y - s.drag_start_y;
    match s.drag_mode {
        DragMode::Idle => s,
        DragMode::Creating => SelectionModel {
            rect: Some(RectModel { x: s.drag_start_x, y: s.drag_start_y, w: dx, h: dy }),
            ..s
        },
        DragMode::Moving => match s.drag_start_rect {
            Some(r0) => SelectionModel {
                rect: Some(
                    constrained(
                        RectModel { x: r0.x + dx, y: r0.y + dy, w: r0.w, h: r0.h },
                        s.screen_w,
                        s.screen_h,
                    ),
                ),
                ..s
            },
            None => s,
        },
        DragMode::Resizing(e) => match s.drag_start_rect {
            Some(r0) => SelectionModel {
                rect: Some(constrained(spec_apply_resize(r0, e, dx, dy), s.screen_w, s.screen_h)),
                ..s
            },
            None => s,
        },
    }
}

/// The state after the press is released: the rectangle, if any, replaced
/// by its normalized and constrained form, the drag bookkeeping cleared.
pub open spec fn spec_end_drag(s: SelectionModel) -> SelectionModel {
    SelectionModel {
        rect: match s.rect {
            Some(r) => Some(constrained(r, s.screen_w, s.screen_h)),
            None => None,
        },
        drag_mode: DragMode::Idle,
        drag_start_rect: None,
        ..s
    }
}

/// The crop region: the normalized rectangle's integer bounds, absent
/// without a rectangle.
pub open spec fn spec_crop_region(s: SelectionModel) -> Option<(int, int, int, int)> {
    match s.rect {
        None => None,
        Some(r) => Some((norm(r).x, norm(r).y, norm(r).w, norm(r).h)),
    }
}

/// Whether a rectangle exists and meets the minimum size in both
/// dimensions.
pub open spec fn spec_has_valid(s: SelectionModel) -> bool {
    match s.rect {
        None => false,
        Some(r) => norm(r).w >= MIN_SIZE as int && norm(r).h >= MIN_SIZE as int,
    }
}

/// `Some(i as int)` of an optional index.
pub open spec fn opt_idx(r: Option<usize>) -> Option<int> {
    match r {
        Some(i) => Some(i as int),
        None => None,
    }
}

impl Selection {
    /// Whether this state is well formed; constructors establish it and
    /// every method preserves it.
    pub open spec fn wf(&self) -> bool {
        sel_wf(self@)
    }

    pub fn new(screen_width: i64, screen_height: i64) -> (r: Selection)
        requires
            0 <= screen_width <= COORD_LIMIT,
            0 <= screen_height <= COORD_LIMIT,
        ensures
            r.wf(),
            r@.rect is None,
            r@.screen_w == screen_width as int,
            r@.screen_h == screen_height as int,
            r@.drag_mode == DragMode::Idle,
            r@.drag_start_x == 0,
            r@.drag_start_y == 0,
            r@.drag_start_rect is None,
            r@.regions.len() == 0,
            r@.hovered is None,
    {
        Selection {
            rect: None,
            screen_width,
            screen_height,
            drag_mode: DragMode::Idle,
            drag_start: (0, 0),
            drag_start_rect: None,
            predefined_regions: Vec::new(),
            hovered_region: None,
        }
    }

    /// A fresh state that offers the given predefined regions.
    pub fn with_predefined_regions(
        screen_width: i64,
        screen_height: i64,
        predefined_regions: Vec<Rect>,
    ) -> (r: Selection)
        requires
            0 <= screen_width <= COORD_LIMIT,
            0 <= screen_height <= COORD_LIMIT,
            forall|i: int|
                0 <= i < predefined_regions@.len() ==> rect_wf(#[trigger] predefined_regions@[i]@),
        ensures
            r.wf(),
            r@.rect is None,
            r@.screen_w == screen_width as int,
            r@.screen_h == screen_height as int,
            r@.drag_mode == DragMode::Idle,
            r@.drag_start_x == 0,
            r@.drag_start_y == 0,
            r@.drag_start_rect is None,
            r@.regions == predefined_regions@.map_values(|rr: Rect| rr@),
            r@.hovered is None,
    {
        Selection {
            rect: None,
            screen_width,
            screen_height,
            drag_mode: DragMode::Idle,
            drag_start: (0, 0),
            drag_start_rect: None,
            predefined_regions,
            hovered_region: None,
        }
    }

    /// The first predefined region, in list order, whose bounds contain the
    /// point.
    pub fn find_predefined_region_at(&self, x: i64, y: i64) -> (r: Option<usize>)
        requires
            self.wf(),
        ensures
            opt_idx(r) == find_region_from(self@.regions, x as int, y as int, 0),
    {
        let n = self.predefined_regions.len();
        let mut i: usize = 0;
        while i < n
            invariant
                0 <= i <= n,
                n == self.predefined_regions.len(),
                self.wf(),
                find_region_from(self@.regions, x as int, y as int, 0) == find_region_from(
                    self@.regions,
                    x as int,
                    y as int,
                    i as int,
                ),
            decreases n - i,
        {
            proof {
                assert(rect_wf(self@.regions[i as int]));
                assert(self@.regions[i as int] == self.predefined_regions@[i as int]@);
            }
            if self.predefined_regions[i].contains(x, y) {
                return Some(i);
            }
            i = i + 1;
        }
        None
    }

    /// Refresh the hovered-region index from the cursor position.
    pub fn update_hovered_region(&mut self, x: i64, y: i64)
        requires
            old(self).wf(),
        ensures
            final(self).wf(),
            final(self)@ == (SelectionModel {
                hovered: find_region_from(old(self)@.regions, x as int, y as int, 0),
                ..old(self)@
            }),
    {
        self.hovered_region = self.find_predefined_region_at(x, y);
    }

    /// Adopt predefined region `index` verbatim as the selection, without a
    /// constraining pass; reports whether the index existed.
    pub fn select_predefined_region(&mut self, index: usize) -> (r: bool)
        requires
            old(self).wf(),
        ensures
            final(self).wf(),
            r == (index < old(self)@.regions.len()),
            r ==> final(self)@ == (SelectionModel {
                rect: Some(old(self)@.regions[index as int]),
                ..old(self)@
            }),
            !r ==> final(self)@ == old(self)@,
    {
        if index < self.predefined_regions.len() {
            proof {
                assert(self@.regions[index as int] == self.predefined_regions@[index as int]@);
            }
            self.rect = Some(self.predefined_regions[index]);
            true
        } else {
            false
        }
    }

    /// The four corner-handle squares of the current selection.
    pub fn get_corner_handles(&self) -> (r: Option<[(ResizeEdge, Rect); 4]>)
        requires
            self.wf(),
        ensures
            (r is Some) == (self@.rect is Some),
            r is Some ==> r->0@.map_values(|p: (ResizeEdge, Rect)| (p.0, p.1@)) == corner_handles(
                norm(self@.rect->0),
            ),
    {
        match self.rect {
            None => None,
            Some(rect) => {
                let n = rect.normalized();
                let hs = HANDLE_SIZE;
                let hh = HANDLE_SIZE / 2;
                let out = [
                    (ResizeEdge::TopLeft, Rect::new(n.x - hh, n.y - hh, hs, hs)),
                    (ResizeEdge::TopRight, Rect::new(n.x + n.width - hh, n.y - hh, hs, hs)),
                    (
                        ResizeEdge::BottomRight,
                        Rect::new(n.x + n.width - hh, n.y + n.height - hh, hs, hs),
                    ),
                    (ResizeEdge::BottomLeft, Rect::new(n.x - hh, n.y + n.height - hh, hs, hs)),
                ];
                proof {
                    assert(out@.map_values(|p: (ResizeEdge, Rect)| (p.0, p.1@)) =~= corner_handles(
                        norm(self@.rect->0),
                    ));
                }
                Some(out)
            },
        }
    }

    /// Which corner handle is under the point, if any.
    fn hit_test_corner(&self, x: i64, y: i64) -> (r: Option<ResizeEdge>)
        requires
            self.wf(),
        ensures
            r == match self@.rect {
                Some(m) => spec_hit_corner(m, x as int, y as int),
                None => None::<ResizeEdge>,
            },
    {
        match self.rect {
            None => None,
            Some(rect) => {
                let n = rect.normalized();
                let hs = HANDLE_SIZE;
                let hh = HANDLE_SIZE / 2;
                if Rect::new(n.x - hh, n.y - hh, hs, hs).contains(x, y) {
                    Some(ResizeEdge::TopLeft)
                } else if Rect::new(n.x + n.width - hh, n.y - hh, hs, hs).contains(x, y) {
                    Some(ResizeEdge::TopRight)
                } else if Rect::new(n.x + n.width - hh, n.y + n.height - hh, hs, hs).contains(
                    x,
                    y,
                ) {
                    Some(ResizeEdge::BottomRight)
                } else if Rect::new(n.x - hh, n.y + n.height - hh, hs, hs).contains(x, y) {
                    Some(ResizeEdge::BottomLeft)
                } else {
                    None
                }
            },
        }
    }

    /// Which edge band is under the point, if any.
    fn hit_test_edge(&self, x: i64, y: i64) -> (r: Option<ResizeEdge>)
        requires
            self.wf(),
        ensures
            r == match self@.rect {
                Some(m) => spec_hit_edge(m, x as int, y as int),
                None => None::<ResizeEdge>,
            },
    {
        match self.rect {
            None => None,
            Some(rect) => {
                let n = rect.normalized();
                let hh = HANDLE_SIZE / 2;
                let g = EDGE_GRAB_WIDTH;
                let in_h = x > n.x + hh && x < n.x + n.width - hh;
                let in_v = y > n.y + hh && y < n.y + n.height - hh;
                if in_h && y >= n.y - g && y <= n.y + g {
                    Some(ResizeEdge::Top)
                } else if in_h && y >= n.y + n.height - g && y <= n.y + n.height + g {
                    Some(ResizeEdge::Bottom)
                } else if in_v && x >= n.x - g && x <= n.x + g {
                    Some(ResizeEdge::Left)
                } else if in_v && x >= n.x + n.width - g && x <= n.x + n.width + g {
                    Some(ResizeEdge::Right)
                } else {
                    None
                }
            },
        }
    }

    /// The drag mode a press at the point would start.
    pub fn hit_test(&self, x: i64, y: i64) -> (r: DragMode)
        requires
            self.wf(),
        ensures
            r == spec_hit_test(self@.rect, x as int, y as int),
    {
        if let Some(edge) = self.hit_test_corner(x, y) {
            return DragMode::Resizing(edge);
        }
        if let Some(edge) = self.hit_test_edge(x, y) {
            return DragMode::Resizing(edge);
        }
        if let Some(rect) = self.rect {
            if rect.contains(x, y) {
                return DragMode::Moving;
            }
        }
        DragMode::Creating
    }

    /// The cursor identity for the position.
    pub fn cursor_for_position(&self, x: i64, y: i64) -> (r: CursorKind)
        requires
            self.wf(),
        ensures
            r == spec_cursor_for(self@, x as int, y as int),
    {
        if self.drag_mode == DragMode::Moving {
            return CursorKind::Grabbing;
        }
        if let Some(edge) = self.hit_test_corner(x, y) {
            return CursorKind::Resize(edge);
        }
        if let Some(edge) = self.hit_test_edge(x, y) {
            return CursorKind::Resize(edge);
        }
        if let Some(rect) = self.rect {
            if rect.contains(x, y) {
                return CursorKind::Grab;
            }
        }
        CursorKind::Crosshair
    }

    /// Begin a drag at `(x, y)`.
    pub fn start_drag(&mut self, x: i64, y: i64)
        requires
            old(self).wf(),
            coord_ok(x as int),
            coord_ok(y as int),
        ensures
            final(self).wf(),
            final(self)@ == spec_start_drag(old(self)@, x as int, y as int),
    {
        self.drag_mode = self.hit_test(x, y);
        self.drag_start = (x, y);
        self.drag_start_rect = self.rect;

        if self.drag_mode == DragMode::Creating {
            self.rect = Some(Rect::new(x, y, 0, 0));
        }
    }

    /// Apply the per-edge transform to the drag-start snapshot, then
    /// normalize and constrain.
    fn apply_resize(&self, start: Rect, edge: ResizeEdge, dx: i64, dy: i64) -> (r: Rect)
        requires
            self.wf(),
            rect_wf(start@),
            -2 * COORD_LIMIT <= dx <= 2 * COORD_LIMIT,
            -2 * COORD_LIMIT <= dy <= 2 * COORD_LIMIT,
        ensures
            r@ == constrained(
                spec_apply_resize(start@, edge, dx as int, dy as int),
                self@.screen_w,
                self@.screen_h,
            ),
    {
        let mut rect = start;

        match edge {
            ResizeEdge::TopLeft => {
                rect.x = start.x + dx;
                rect.y = start.y + dy;
                rect.width = start.width - dx;
                rect.height = start.height - dy;
            },
            ResizeEdge::Top => {
                rect.y = start.y + dy;
                rect.height = start.height - dy;
            },
            ResizeEdge::TopRight => {
                rect.y = start.y + dy;
                rect.width = start.width + dx;
                rect.height = start.height - dy;
            },
            ResizeEdge::Right => {
                rect.width = start.width + dx;
            },
            ResizeEdge::BottomRight => {
                rect.width = start.width + dx;
                rect.height = start.height + dy;
            },
            ResizeEdge::Bottom => {
                rect.height = start.height + dy;
            },
            ResizeEdge::BottomLeft => {
                rect.x = start.x + dx;
                rect.width = start.width - dx;
                rect.height = start.height + dy;
            },
            ResizeEdge::Left => {
                rect.x = start.x + dx;
                rect.width = start.width - dx;
            },
        }

        proof {
            crate::rect::lemma_norm_idempotent(rect@);
        }
        rect.normalized().constrain(self.screen_width, self.screen_height)
    }

    /// Move the drag in progress to `(x, y)`.
    pub fn update_drag(&mut self, x: i64, y: i64)
        requires
            old(self).wf(),
            coord_ok(x as int),
            coord_ok(y as int),
        ensures
            final(self).wf(),
            final(self)@ == spec_update_drag(old(self)@, x as int, y as int),
    {
        let (sx, sy) = self.drag_start;
        let dx = x - sx;
        let dy = y - sy;

        match self.drag_mode {
            DragMode::Idle => {},
            DragMode::Creating => {
                self.rect = Some(Rect::new(sx, sy, dx, dy));
            },
            DragMode::Moving => {
                if let Some(start_rect) = self.drag_start_rect {
                    let new_rect = Rect::new(
                        start_rect.x + dx,
                        start_rect.y + dy,
                        start_rect.width,
                        start_rect.height,
                    );
                    let new_rect = new_rect.constrain(self.screen_width, self.screen_height);
                    proof {
                        crate::rect::lemma_constrained_range(
                            RectModel {
                                x: start_rect@.x + dx,
                                y: start_rect@.y + dy,
                                w: start_rect@.w,
                                h: start_rect@.h,
                            },
                            self@.screen_w,
                            self@.screen_h,
                        );
                    }
                    self.rect = Some(new_rect);
                }
            },
            DragMode::Resizing(edge) => {
                if let Some(start_rect) = self.drag_start_rect {
                    let rect = self.apply_resize(start_rect, edge, dx, dy);
                    proof {
                        crate::rect::lemma_constrained_range(
                            spec_apply_resize(start_rect@, edge, dx as int, dy as int),
                            self@.screen_w,
                            self@.screen_h,
                        );
                    }
                    self.rect = Some(rect);
                }
            },
        }
    }

    /// End the drag: normalize and constrain the rectangle, clear the drag
    /// bookkeeping.
    pub fn end_drag(&mut self)
        requires
            old(self).wf(),
        ensures
            final(self).wf(),
            final(self)@ == spec_end_drag(old(self)@),
    {
        if let Some(rect) = self.rect {
            proof {
                crate::rect::lemma_norm_idempotent(rect@);
                crate::rect::lemma_constrained_range(rect@, self@.screen_w, self@.screen_h);
            }
            self.rect = Some(
                rect.normalized().constrain(self.screen_width, self.screen_height),
            );
        }
        self.drag_mode = DragMode::Idle;
        self.drag_start_rect = None;
    }

    /// Replace the selection with the full canvas bounds, bypassing the
    /// drag machinery.
    pub fn select_all(&mut self)
        requires
            old(self).wf(),
        ensures
            final(self).wf(),
            final(self)@ == (SelectionModel {
                rect: Some(
                    RectModel { x: 0, y: 0, w: old(self)@.screen_w, h: old(self)@.screen_h },
                ),
                ..old(self)@
            }),
    {
        self.rect = Some(Rect::new(0, 0, self.screen_width, self.screen_height));
    }

    /// The selection as integer bounds for cropping: the normalized
    /// rectangle's origin and size.
    pub fn get_crop_region(&self) -> (r: Option<(i64, i64, i64, i64)>)
        requires
            self.wf(),
        ensures
            (r is Some) == (spec_crop_region(self@) is Some),
            r is Some ==> (((r->0).0 as int, (r->0).1 as int, (r->0).2 as int, (r->0).3 as int))
                == spec_crop_region(self@)->0,
    {
        match self.rect {
            None => None,
            Some(rect) => {
                let n = rect.normalized();
                Some((n.x, n.y, n.width, n.height))
            },
        }
    }

    /// Whether a selection exists and meets the minimum size in both
    /// dimensions.
    pub fn has_valid_selection(&self) -> (r: bool)
        requires
            self.wf(),
        ensures
            r == spec_has_valid(self@),
    {
        match self.rect {
            None => false,
            Some(rect) => {
                let n = rect.normalized();
                n.width >= MIN_SIZE && n.height >= MIN_SIZE
            },
        }
    }
}

/// A found region index lies within the list and its region contains the
/// point; when nothing is found, no region at or after the start does.
pub proof fn lemma_find_region_from_props(regions: Seq<RectModel>, px: int, py: int, j: int)
    requires
        0 <= j,
    ensures
        find_region_from(regions, px, py, j) matches Some(i) ==> j <= i < regions.len()
            && rect_contains(regions[i], px, py),
        find_region_from(regions, px, py, j) is None ==> forall|i: int|
            j <= i < regions.len() ==> !rect_contains(#[trigger] regions[i], px, py),
    decreases regions.len() - j,
{
    if 0 <= j < regions.len() && !rect_contains(regions[j], px, py) {
        lemma_find_region_from_props(regions, px, py, j + 1);
    }
}

/// Hit-testing yields exactly one mode for any point, with the precedence
/// corner handle over edge band over interior (moving) over exterior
/// (creating); it never reports an idle mode.
pub proof fn lemma_hit_test_priority(rect: Option<RectModel>, px: int, py: int)
    ensures
        rect is Some && spec_hit_corner(rect->0, px, py) is Some ==> spec_hit_test(rect, px, py)
            == DragMode::Resizing(spec_hit_corner(rect->0, px, py)->0),
        rect is Some && spec_hit_corner(rect->0, px, py) is None && spec_hit_edge(
            rect->0,
            px,
            py,
        ) is Some ==> spec_hit_test(rect, px, py) == DragMode::Resizing(
            spec_hit_edge(rect->0, px, py)->0,
        ),
        rect is Some && spec_hit_corner(rect->0, px, py) is None && spec_hit_edge(
            rect->0,
            px,
            py,
        ) is None && rect_contains(rect->0, px, py) ==> spec_hit_test(rect, px, py)
            == DragMode::Moving,
        rect is Some && spec_hit_corner(rect->0, px, py) is None && spec_hit_edge(
            rect->0,
            px,
            py,
        ) is None && !rect_contains(rect->0, px, py) ==> spec_hit_test(rect, px, py)
            == DragMode::Creating,
        rect is None ==> spec_hit_test(rect, px, py) == DragMode::Creating,
        spec_hit_test(rect, px, py) != DragMode::Idle,
{
}

/// Zero-movement round trip: a press at a point inside an existing
/// rectangle followed immediately by a release leaves the rectangle's
/// normalized and constrained form unchanged.
pub proof fn lemma_press_release_keeps_rect(s: SelectionModel, x: int, y: int)
    requires
        sel_wf(s),
        s.rect is Some,
        rect_contains(s.rect->0, x, y),
    ensures
        spec_end_drag(spec_start_drag(s, x, y)).rect == Some(
            constrained(s.rect->0, s.screen_w, s.screen_h),
        ),
        constrained(spec_end_drag(spec_start_drag(s, x, y)).rect->0, s.screen_w, s.screen_h)
            == constrained(s.rect->0, s.screen_w, s.screen_h),
{
    crate::rect::lemma_constrained_range(s.rect->0, s.screen_w, s.screen_h);
}

/// Resizing by the right edge away and back to the press point restores
/// the original rectangle, and so its width, exactly, as long as the
/// drag-start rectangle was already in its constrained form (no clamping
/// triggered).
pub proof fn lemma_right_resize_round_trip(s: SelectionModel, d: int)
    requires
        sel_wf(s),
        s.drag_mode == DragMode::Resizing(ResizeEdge::Right),
        s.drag_start_rect is Some,
        constrained(s.drag_start_rect->0, s.screen_w, s.screen_h) == s.drag_start_rect->0,
    ensures
        ({
            let out = spec_update_drag(
                spec_update_drag(s, s.drag_start_x + d, s.drag_start_y),
                s.drag_start_x,
                s.drag_start_y,
            );
            &&& out.rect == Some(s.drag_start_rect->0)
            &&& out.rect->0.w == s.drag_start_rect->0.w
        }),
{
    let r0 = s.drag_start_rect->0;
    assert(spec_apply_resize(r0, ResizeEdge::Right, 0, 0) == r0);
}

/// Selecting predefined region `i` makes the crop region exactly that
/// region's integer bounds, and the selection becomes valid precisely when
/// the region meets the minimum size in both dimensions.
pub proof fn lemma_select_region(s: SelectionModel, i: int)
    requires
        sel_wf(s),
        0 <= i < s.regions.len(),
    ensures
        ({
            let s2 = SelectionModel { rect: Some(s.regions[i]), ..s };
            let n = norm(s.regions[i]);
            &&& spec_crop_region(s2) == Some((n.x, n.y, n.w, n.h))
            &&& spec_has_valid(s2) == (n.w >= MIN_SIZE as int && n.h >= MIN_SIZE as int)
        }),
{
}

} // verus!
