use waysnip::rect::Rect;
use waysnip::selection::{CursorKind, DragMode, ResizeEdge, Selection};

fn screen() -> Selection {
    Selection::new(1920, 1080)
}

#[test]
fn create_drag_scenario() {
    // Screen 1920x1080; drag from (100,100) to (500,400)
    let mut sel = screen();
    sel.start_drag(100, 100);
    sel.update_drag(500, 400);
    sel.end_drag();
    assert_eq!(sel.get_crop_region(), Some((100, 100, 400, 300)));
    assert!(sel.has_valid_selection());
}

#[test]
fn top_left_resize_scenario() {
    // Existing rect (100,100,400,300); grab the top-left handle, move by (50,50)
    let mut sel = screen();
    sel.rect = Some(Rect::new(100, 100, 400, 300));
    sel.start_drag(100, 100);
    assert_eq!(sel.drag_mode, DragMode::Resizing(ResizeEdge::TopLeft));
    sel.update_drag(150, 150);
    sel.end_drag();
    let r = sel.rect.unwrap();
    assert_eq!((r.x, r.y, r.width, r.height), (150, 150, 350, 250));
}

#[test]
fn undersized_mid_drag_rect_is_reported_unclamped() {
    // Mid-drag, before any constrain pass, a 10x10 rect is not a valid
    // selection but the crop region still reports its raw size.
    let mut sel = screen();
    sel.start_drag(100, 100);
    sel.update_drag(110, 110);
    assert!(!sel.has_valid_selection());
    assert_eq!(sel.get_crop_region(), Some((100, 100, 10, 10)));
}

#[test]
fn zero_movement_round_trip_keeps_rect() {
    let mut sel = screen();
    sel.rect = Some(Rect::new(100, 100, 400, 300));
    sel.start_drag(300, 250);
    assert_eq!(sel.drag_mode, DragMode::Moving);
    sel.end_drag();
    let r = sel.rect.unwrap();
    assert_eq!((r.x, r.y, r.width, r.height), (100, 100, 400, 300));
}

#[test]
fn right_edge_resize_round_trip_restores_width() {
    let mut sel = screen();
    sel.rect = Some(Rect::new(100, 100, 400, 300));
    sel.start_drag(500, 250);
    assert_eq!(sel.drag_mode, DragMode::Resizing(ResizeEdge::Right));
    sel.update_drag(600, 250);
    assert_eq!(sel.rect.unwrap().width, 500);
    sel.update_drag(500, 250);
    let r = sel.rect.unwrap();
    assert_eq!((r.x, r.y, r.width, r.height), (100, 100, 400, 300));
}

#[test]
fn hit_test_priority_corner_over_edge_over_interior() {
    let mut sel = screen();
    sel.rect = Some(Rect::new(100, 100, 400, 300));
    // On the top-left corner: the handle wins over edge and interior
    assert_eq!(
        sel.hit_test(100, 100),
        DragMode::Resizing(ResizeEdge::TopLeft)
    );
    // Within the corner handle square (side 14 centered on the corner)
    assert_eq!(
        sel.hit_test(104, 95),
        DragMode::Resizing(ResizeEdge::TopLeft)
    );
    // On the top edge, clear of the corner extents
    assert_eq!(sel.hit_test(300, 100), DragMode::Resizing(ResizeEdge::Top));
    // Just outside the top edge, still within the grab band
    assert_eq!(sel.hit_test(300, 93), DragMode::Resizing(ResizeEdge::Top));
    // On the bottom and right edges
    assert_eq!(
        sel.hit_test(300, 400),
        DragMode::Resizing(ResizeEdge::Bottom)
    );
    assert_eq!(sel.hit_test(500, 250), DragMode::Resizing(ResizeEdge::Right));
    assert_eq!(sel.hit_test(100, 250), DragMode::Resizing(ResizeEdge::Left));
    // Interior, clear of all bands
    assert_eq!(sel.hit_test(300, 250), DragMode::Moving);
    // Outside everything
    assert_eq!(sel.hit_test(50, 50), DragMode::Creating);
    assert_eq!(sel.hit_test(1900, 1000), DragMode::Creating);
}

#[test]
fn edge_bands_exclude_the_corner_half_extents_strictly() {
    let mut sel = screen();
    sel.rect = Some(Rect::new(0, 0, 100, 100));
    // x == 7 sits exactly on the corner half-extent: the top band's
    // along-edge range excludes it strictly
    assert_eq!(sel.hit_test(7, -8), DragMode::Creating);
    // One past the seam, the band applies
    assert_eq!(sel.hit_test(8, -8), DragMode::Resizing(ResizeEdge::Top));
    // On the seam inside the rect, the left band wins over the top band
    assert_eq!(sel.hit_test(7, 8), DragMode::Resizing(ResizeEdge::Left));
    // The far seam behaves the same way
    assert_eq!(sel.hit_test(93, -8), DragMode::Creating);
}

#[test]
fn hit_test_without_rect_is_creating() {
    let sel = screen();
    assert_eq!(sel.hit_test(300, 250), DragMode::Creating);
}

#[test]
fn cursor_reflects_position_and_mode() {
    let mut sel = screen();
    sel.rect = Some(Rect::new(100, 100, 400, 300));
    assert_eq!(
        sel.cursor_for_position(100, 100),
        CursorKind::Resize(ResizeEdge::TopLeft)
    );
    assert_eq!(
        sel.cursor_for_position(300, 100),
        CursorKind::Resize(ResizeEdge::Top)
    );
    assert_eq!(sel.cursor_for_position(300, 250), CursorKind::Grab);
    assert_eq!(sel.cursor_for_position(50, 50), CursorKind::Crosshair);
    // While moving, the grabbing identity overrides the hit test
    sel.drag_mode = DragMode::Moving;
    assert_eq!(sel.cursor_for_position(50, 50), CursorKind::Grabbing);
}

#[test]
fn cursor_names_match_platform_identifiers() {
    assert_eq!(ResizeEdge::TopLeft.cursor_name(), "nw-resize");
    assert_eq!(ResizeEdge::TopRight.cursor_name(), "ne-resize");
    assert_eq!(ResizeEdge::BottomRight.cursor_name(), "se-resize");
    assert_eq!(ResizeEdge::BottomLeft.cursor_name(), "sw-resize");
    assert_eq!(ResizeEdge::Top.cursor_name(), "n-resize");
    assert_eq!(ResizeEdge::Right.cursor_name(), "e-resize");
    assert_eq!(ResizeEdge::Bottom.cursor_name(), "s-resize");
    assert_eq!(ResizeEdge::Left.cursor_name(), "w-resize");
    assert_eq!(CursorKind::Crosshair.name(), "crosshair");
    assert_eq!(CursorKind::Grabbing.name(), "grabbing");
    assert_eq!(CursorKind::Resize(ResizeEdge::Left).name(), "w-resize");
}

#[test]
fn moving_drag_is_constrained_to_screen() {
    let mut sel = screen();
    sel.rect = Some(Rect::new(100, 100, 400, 300));
    sel.start_drag(300, 250);
    sel.update_drag(-500, 250);
    let r = sel.rect.unwrap();
    assert_eq!((r.x, r.y, r.width, r.height), (0, 100, 400, 300));
}

#[test]
fn resize_past_opposite_corner_normalizes() {
    // Dragging the right edge past the left side flips into a
    // negative-width rect, expressed purely as normalize-then-constrain.
    let mut sel = screen();
    sel.rect = Some(Rect::new(100, 100, 400, 300));
    sel.start_drag(500, 250);
    sel.update_drag(40, 250);
    let r = sel.rect.unwrap();
    assert_eq!((r.x, r.y, r.width, r.height), (40, 100, 60, 300));
}

#[test]
fn select_predefined_region_takes_it_verbatim() {
    let regions = vec![Rect::new(10, 10, 100, 100), Rect::new(5, 5, 10, 10)];
    let mut sel = Selection::with_predefined_regions(1920, 1080, regions.clone());
    assert!(sel.select_predefined_region(0));
    assert_eq!(sel.get_crop_region(), Some((10, 10, 100, 100)));
    assert!(sel.has_valid_selection());

    // An undersized region is adopted verbatim but is not a valid selection
    let mut sel2 = Selection::with_predefined_regions(1920, 1080, regions);
    assert!(sel2.select_predefined_region(1));
    assert_eq!(sel2.get_crop_region(), Some((5, 5, 10, 10)));
    assert!(!sel2.has_valid_selection());
}

#[test]
fn select_predefined_region_out_of_range_reports_false() {
    let mut sel = Selection::with_predefined_regions(1920, 1080, vec![Rect::new(0, 0, 30, 30)]);
    assert!(!sel.select_predefined_region(5));
    assert_eq!(sel.get_crop_region(), None);
}

#[test]
fn find_predefined_region_takes_first_match() {
    let regions = vec![
        Rect::new(0, 0, 50, 50),
        Rect::new(25, 25, 50, 50),
        Rect::new(200, 200, 50, 50),
    ];
    let sel = Selection::with_predefined_regions(1920, 1080, regions);
    assert_eq!(sel.find_predefined_region_at(30, 30), Some(0));
    assert_eq!(sel.find_predefined_region_at(60, 60), Some(1));
    assert_eq!(sel.find_predefined_region_at(220, 220), Some(2));
    assert_eq!(sel.find_predefined_region_at(500, 500), None);
}

#[test]
fn update_hovered_region_tracks_cursor() {
    let mut sel = Selection::with_predefined_regions(1920, 1080, vec![Rect::new(0, 0, 50, 50)]);
    sel.update_hovered_region(10, 10);
    assert_eq!(sel.hovered_region, Some(0));
    sel.update_hovered_region(500, 500);
    assert_eq!(sel.hovered_region, None);
}

#[test]
fn select_all_takes_full_canvas() {
    let mut sel = screen();
    sel.select_all();
    assert_eq!(sel.get_crop_region(), Some((0, 0, 1920, 1080)));
    assert!(sel.has_valid_selection());
}

#[test]
fn end_drag_applies_minimum_size() {
    let mut sel = screen();
    sel.start_drag(100, 100);
    sel.update_drag(110, 110);
    sel.end_drag();
    assert_eq!(sel.get_crop_region(), Some((100, 100, 20, 20)));
}

#[test]
fn get_corner_handles_center_on_corners() {
    let mut sel = screen();
    assert!(sel.get_corner_handles().is_none());
    sel.rect = Some(Rect::new(100, 100, 400, 300));
    let handles = sel.get_corner_handles().unwrap();
    assert_eq!(handles.len(), 4);
    let (edge, r) = handles[0];
    assert_eq!(edge, ResizeEdge::TopLeft);
    assert_eq!((r.x, r.y, r.width, r.height), (93, 93, 14, 14));
    let (edge, r) = handles[2];
    assert_eq!(edge, ResizeEdge::BottomRight);
    assert_eq!((r.x, r.y, r.width, r.height), (493, 393, 14, 14));
}
