use waysnip::controller::{key_command, Controller, KeyCommand, KeyInput};
use waysnip::rect::Rect;
use waysnip::selection::{CursorKind, DragMode, ResizeEdge, Selection};

fn controller() -> Controller {
    Controller::new(Selection::new(1920, 1080))
}

#[test]
fn press_on_predefined_region_adopts_it_without_a_drag() {
    let sel = Selection::with_predefined_regions(1920, 1080, vec![Rect::new(10, 10, 100, 100)]);
    let mut ctrl = Controller::new(sel);
    let resp = ctrl.on_press(50, 50);
    assert!(resp.redraw);
    assert!(resp.notify);
    assert!(resp.cursor.is_none());
    assert_eq!(ctrl.selection.drag_mode, DragMode::Idle);
    assert_eq!(ctrl.selection.get_crop_region(), Some((10, 10, 100, 100)));
}

#[test]
fn press_elsewhere_starts_a_creating_drag() {
    let mut ctrl = controller();
    let resp = ctrl.on_press(500, 500);
    assert!(resp.redraw);
    assert!(resp.notify);
    assert_eq!(ctrl.selection.drag_mode, DragMode::Creating);
    // The fresh zero-size rect sits under its own top-left handle, so the
    // cursor switches to the corner glyph
    assert_eq!(resp.cursor, Some(CursorKind::Resize(ResizeEdge::TopLeft)));
}

#[test]
fn press_with_rect_present_ignores_regions() {
    let sel = Selection::with_predefined_regions(1920, 1080, vec![Rect::new(10, 10, 100, 100)]);
    let mut ctrl = Controller::new(sel);
    ctrl.selection.rect = Some(Rect::new(500, 500, 100, 100));
    let resp = ctrl.on_press(50, 50);
    assert!(resp.notify);
    // A drag started instead of adopting the region
    assert_eq!(ctrl.selection.drag_mode, DragMode::Creating);
}

#[test]
fn full_drag_through_controller() {
    let mut ctrl = controller();
    ctrl.on_press(100, 100);
    let resp = ctrl.on_drag_update(500, 400);
    assert!(resp.redraw && resp.notify && resp.cursor.is_none());
    let resp = ctrl.on_release(500, 400);
    assert!(resp.redraw && resp.notify);
    assert_eq!(ctrl.selection.get_crop_region(), Some((100, 100, 400, 300)));
    assert_eq!(ctrl.selection.drag_mode, DragMode::Idle);
}

#[test]
fn motion_updates_position_and_deduplicates_cursor() {
    let mut ctrl = controller();
    let resp = ctrl.on_motion(600, 700);
    assert_eq!((ctrl.cursor_x, ctrl.cursor_y), (600, 700));
    assert!(resp.redraw);
    assert!(!resp.notify);
    // Default -> Crosshair: the change is reported
    assert_eq!(resp.cursor, Some(CursorKind::Crosshair));
    // Same identity again: not reapplied
    let resp = ctrl.on_motion(601, 701);
    assert!(resp.cursor.is_none());
}

#[test]
fn hovering_a_region_forces_the_pointer_cursor() {
    let sel = Selection::with_predefined_regions(1920, 1080, vec![Rect::new(10, 10, 100, 100)]);
    let mut ctrl = Controller::new(sel);
    let resp = ctrl.on_motion(50, 50);
    assert_eq!(ctrl.selection.hovered_region, Some(0));
    assert_eq!(resp.cursor, Some(CursorKind::Pointer));
    // Off the region: back to the crosshair
    let resp = ctrl.on_motion(500, 500);
    assert_eq!(ctrl.selection.hovered_region, None);
    assert_eq!(resp.cursor, Some(CursorKind::Crosshair));
}

#[test]
fn enter_and_leave_toggle_the_inside_flag() {
    let mut ctrl = controller();
    let resp = ctrl.on_leave();
    assert!(!ctrl.pointer_inside);
    assert!(resp.redraw && !resp.notify && resp.cursor.is_none());
    let resp = ctrl.on_enter(40, 60);
    assert!(ctrl.pointer_inside);
    assert_eq!((ctrl.cursor_x, ctrl.cursor_y), (40, 60));
    assert!(resp.redraw && !resp.notify);
}

#[test]
fn select_all_command_takes_the_screen() {
    let mut ctrl = controller();
    let resp = ctrl.on_select_all();
    assert!(resp.redraw && resp.notify);
    assert_eq!(ctrl.selection.get_crop_region(), Some((0, 0, 1920, 1080)));
}

#[test]
fn release_recomputes_cursor_from_release_position() {
    let mut ctrl = controller();
    ctrl.on_press(100, 100);
    ctrl.on_drag_update(500, 400);
    let resp = ctrl.on_release(300, 250);
    // (300,250) is inside the finished rect: the cursor becomes the grab hand
    assert_eq!(resp.cursor, Some(CursorKind::Grab));
    assert_eq!(ctrl.current_cursor, CursorKind::Grab);
}

#[test]
fn keyboard_commands_map_as_shortcuts() {
    assert_eq!(key_command(KeyInput::Escape, false), Some(KeyCommand::Cancel));
    assert_eq!(key_command(KeyInput::Escape, true), Some(KeyCommand::Cancel));
    assert_eq!(
        key_command(KeyInput::LetterA, true),
        Some(KeyCommand::SelectAll)
    );
    assert_eq!(key_command(KeyInput::LetterC, true), Some(KeyCommand::Copy));
    assert_eq!(key_command(KeyInput::LetterS, true), Some(KeyCommand::Save));
    assert_eq!(key_command(KeyInput::LetterA, false), None);
    assert_eq!(key_command(KeyInput::LetterC, false), None);
    assert_eq!(key_command(KeyInput::Other, true), None);
}
