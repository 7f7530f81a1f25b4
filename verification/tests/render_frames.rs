use waysnip::crop::clamp_crop_rect;
use waysnip::overlay::button_position;
use waysnip::rect::Rect;
use waysnip::render::{
    mag_source, magnifier_pos, render_frame, snap_position, ColorRole, DrawCmd, MAG_HEIGHT,
    MAG_WIDTH,
};
use waysnip::selection::{DragMode, ResizeEdge, Selection};

fn has_magnifier(cmds: &[DrawCmd]) -> bool {
    cmds.iter().any(|c| {
        matches!(
            c,
            DrawCmd::RoundedFill { role: ColorRole::MagnifierBorder, .. }
        )
    })
}

fn has_crosshair(cmds: &[DrawCmd]) -> bool {
    cmds.iter()
        .any(|c| matches!(c, DrawCmd::Fill { role: ColorRole::CrosshairLine, .. }))
}

#[test]
fn snap_follows_the_anchor_rule() {
    let n = Rect::new(100, 100, 400, 300);
    // Corner anchors snap to the exact corner coordinate
    assert_eq!(
        snap_position(&n, DragMode::Resizing(ResizeEdge::TopLeft), 640, 250),
        (100, 100)
    );
    assert_eq!(
        snap_position(&n, DragMode::Resizing(ResizeEdge::BottomRight), 0, 0),
        (500, 400)
    );
    // Midpoint anchors mix the cursor's free axis with the fixed coordinate
    assert_eq!(
        snap_position(&n, DragMode::Resizing(ResizeEdge::Top), 333, 999),
        (333, 100)
    );
    assert_eq!(
        snap_position(&n, DragMode::Resizing(ResizeEdge::Right), 640, 250),
        (500, 250)
    );
    assert_eq!(
        snap_position(&n, DragMode::Resizing(ResizeEdge::Left), 640, 250),
        (100, 250)
    );
    assert_eq!(
        snap_position(&n, DragMode::Resizing(ResizeEdge::Bottom), 640, 250),
        (640, 400)
    );
    // Creating follows the raw cursor
    assert_eq!(snap_position(&n, DragMode::Creating, 77, 88), (77, 88));
}

#[test]
fn magnifier_stays_by_the_cursor_and_flips_on_overflow() {
    // Room below and to the right: offset by the margin
    assert_eq!(magnifier_pos(300, 300, 1920, 1080), (320, 320));
    // Near the bottom-right corner: flips to the upper left
    assert_eq!(
        magnifier_pos(1900, 1060, 1920, 1080),
        (1900 - 20 - MAG_WIDTH, 1060 - 20 - MAG_HEIGHT)
    );
    // On a large canvas the box always stays fully on-canvas
    for (cx, cy) in [(0, 0), (1919, 1079), (-50, 2000), (960, 540)] {
        let (mx, my) = magnifier_pos(cx, cy, 1920, 1080);
        assert!(mx >= 0 && mx + MAG_WIDTH <= 1920);
        assert!(my >= 0 && my + MAG_HEIGHT <= 1080);
    }
}

#[test]
fn magnifier_source_window_clamps_and_compensates() {
    // Fully inside: the window centers on the cursor pixel
    let s = mag_source(300, 300, 1920, 1080);
    assert_eq!((s.src_x, s.src_y, s.src_w, s.src_h), (287, 291, 27, 19));
    assert_eq!((s.off_x, s.off_y), (0, 0));
    // At the origin: the window is cut and the drawn subgrid shifts so the
    // cursor pixel stays centered
    let s = mag_source(0, 0, 1920, 1080);
    assert_eq!((s.src_x, s.src_y, s.src_w, s.src_h), (0, 0, 14, 10));
    assert_eq!((s.off_x, s.off_y), (104, 72));
    // At the far corner
    let s = mag_source(1919, 1079, 1920, 1080);
    assert_eq!((s.src_x, s.src_y, s.src_w, s.src_h), (1906, 1070, 14, 10));
    assert_eq!((s.off_x, s.off_y), (0, 0));
}

#[test]
fn frame_without_rect_dims_everything_and_shows_focus() {
    let sel = Selection::new(1920, 1080);
    let cmds = render_frame(&sel, 300, 300, true, 1920, 1080);
    assert_eq!(cmds[0], DrawCmd::Background { width: 1920, height: 1080 });
    assert_eq!(
        cmds[1],
        DrawCmd::Fill { role: ColorRole::Dim, area: Rect::new(0, 0, 1920, 1080) }
    );
    assert!(has_crosshair(&cmds));
    assert!(has_magnifier(&cmds));
    assert!(cmds.iter().any(|c| matches!(
        c,
        DrawCmd::Magnified { dst_x: 320, dst_y: 320, scale: 8, .. }
    )));
}

#[test]
fn frame_without_pointer_draws_no_focus() {
    let sel = Selection::new(1920, 1080);
    let cmds = render_frame(&sel, 300, 300, false, 1920, 1080);
    assert_eq!(cmds.len(), 2);
    assert!(!has_crosshair(&cmds));
    assert!(!has_magnifier(&cmds));
}

#[test]
fn frame_with_rect_dims_in_four_non_overlapping_strips() {
    let mut sel = Selection::new(1920, 1080);
    sel.rect = Some(Rect::new(100, 100, 400, 300));
    let cmds = render_frame(&sel, 300, 250, true, 1920, 1080);
    assert_eq!(cmds[0], DrawCmd::Background { width: 1920, height: 1080 });
    let dim = ColorRole::Dim;
    assert_eq!(cmds[1], DrawCmd::Fill { role: dim, area: Rect::new(0, 0, 1920, 100) });
    assert_eq!(cmds[2], DrawCmd::Fill { role: dim, area: Rect::new(0, 400, 1920, 680) });
    assert_eq!(cmds[3], DrawCmd::Fill { role: dim, area: Rect::new(0, 100, 100, 300) });
    assert_eq!(cmds[4], DrawCmd::Fill { role: dim, area: Rect::new(500, 100, 1420, 300) });
    // Border frame
    let b = ColorRole::SelectionBorder;
    assert_eq!(cmds[5], DrawCmd::Fill { role: b, area: Rect::new(98, 98, 404, 2) });
    assert_eq!(cmds[6], DrawCmd::Fill { role: b, area: Rect::new(98, 400, 404, 2) });
    assert_eq!(cmds[7], DrawCmd::Fill { role: b, area: Rect::new(98, 100, 2, 300) });
    assert_eq!(cmds[8], DrawCmd::Fill { role: b, area: Rect::new(500, 100, 2, 300) });
    // First handle: ring then fill, centered on the top-left corner
    assert_eq!(
        cmds[9],
        DrawCmd::RoundedFill {
            role: ColorRole::HandleRing,
            area: Rect::new(92, 92, 16, 16),
            radius: 4
        }
    );
    assert_eq!(
        cmds[10],
        DrawCmd::RoundedFill {
            role: ColorRole::HandleFill,
            area: Rect::new(93, 93, 14, 14),
            radius: 3
        }
    );
    // The cursor is inside the selection: no crosshair or magnifier
    assert!(!has_crosshair(&cmds));
}

#[test]
fn idle_frame_shows_focus_only_in_the_dimmed_area() {
    let mut sel = Selection::new(1920, 1080);
    sel.rect = Some(Rect::new(100, 100, 400, 300));
    // In the dimmed area, away from handles: focus shows
    let cmds = render_frame(&sel, 800, 800, true, 1920, 1080);
    assert!(has_crosshair(&cmds) && has_magnifier(&cmds));
    // Over the top edge band: no focus
    let cmds = render_frame(&sel, 300, 95, true, 1920, 1080);
    assert!(!has_crosshair(&cmds));
}

#[test]
fn moving_frame_hides_the_magnifier() {
    let mut sel = Selection::new(1920, 1080);
    sel.rect = Some(Rect::new(100, 100, 400, 300));
    sel.drag_mode = DragMode::Moving;
    let cmds = render_frame(&sel, 800, 800, true, 1920, 1080);
    assert!(!has_crosshair(&cmds));
    assert!(!has_magnifier(&cmds));
}

#[test]
fn resizing_frame_snaps_the_magnifier_to_the_edge() {
    let mut sel = Selection::new(1920, 1080);
    sel.rect = Some(Rect::new(100, 100, 400, 300));
    sel.drag_mode = DragMode::Resizing(ResizeEdge::Right);
    let cmds = render_frame(&sel, 640, 250, true, 1920, 1080);
    // Crosshair pinned to the right edge x, cursor y
    assert!(cmds.iter().any(|c| matches!(
        c,
        DrawCmd::Fill { role: ColorRole::CrosshairLine, area } if (area.x, area.width) == (500, 1)
    )));
    assert!(has_magnifier(&cmds));
}

#[test]
fn hovered_region_gets_fill_and_brighter_outline() {
    let mut sel = Selection::with_predefined_regions(
        1920,
        1080,
        vec![Rect::new(10, 10, 100, 100), Rect::new(200, 10, 100, 100)],
    );
    sel.hovered_region = Some(0);
    let cmds = render_frame(&sel, 50, 50, false, 1920, 1080);
    assert!(cmds.iter().any(|c| matches!(
        c,
        DrawCmd::Fill { role: ColorRole::RegionHoverFill, area } if (area.x, area.y) == (10, 10)
    )));
    assert!(cmds.iter().any(|c| matches!(
        c,
        DrawCmd::Fill { role: ColorRole::RegionBorderHovered, .. }
    )));
    assert!(cmds.iter().any(|c| matches!(
        c,
        DrawCmd::Fill { role: ColorRole::RegionBorder, area } if (area.x, area.y) == (200, 10)
    )));
}

#[test]
fn button_overlay_placement() {
    // Centered under the selection with room below
    assert_eq!(
        button_position(100, 100, 400, 300, 200, 50, 1920, 1080),
        Some((200, 412))
    );
    // Too close to the bottom: flips above the selection
    assert_eq!(
        button_position(100, 750, 400, 300, 200, 50, 1920, 1080),
        Some((200, 688))
    );
    // Undersized selection: hidden
    assert_eq!(button_position(100, 100, 10, 300, 200, 50, 1920, 1080), None);
    assert_eq!(button_position(100, 100, 400, 10, 200, 50, 1920, 1080), None);
    // Clamped off the left screen edge
    assert_eq!(
        button_position(0, 100, 20, 300, 200, 50, 1920, 1080),
        Some((10, 412))
    );
}

#[test]
fn crop_rect_is_clamped_into_the_image() {
    assert_eq!(clamp_crop_rect(-5, -5, 100, 100, 1920, 1080), (0, 0, 100, 100));
    assert_eq!(clamp_crop_rect(2000, 100, 50, 50, 1920, 1080), (1919, 100, 1, 50));
    assert_eq!(clamp_crop_rect(0, 0, -5, -5, 1920, 1080), (0, 0, 1, 1));
    assert_eq!(clamp_crop_rect(100, 100, 5000, 5000, 1920, 1080), (100, 100, 1820, 980));
}
