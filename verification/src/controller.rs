//! The interaction controller: adapts raw pointer and keyboard events into
//! selection-lifecycle calls, tracks the cursor position and the
//! pointer-inside flag, deduplicates cursor identities, and reports which
//! side effects the presentation layer owes after each event.

use vstd::prelude::*;

use crate::rect::coord_ok;
use crate::selection::{
    find_region_from, sel_wf, spec_cursor_for, spec_end_drag, spec_start_drag, spec_update_drag,
    CursorKind, Selection, SelectionModel,
};

verus! {

/// What the presentation layer must do after an event: repaint, apply a
/// changed cursor, and notify listeners that the crop region may have
/// changed.
#[derive(Debug, Clone, Copy)]
pub struct EventResponse {
    /// Repaint the canvas.
    pub redraw: bool,
    /// Apply this cursor; absent when the cursor identity is unchanged.
    pub cursor: Option<CursorKind>,
    /// Emit a change notification carrying the current crop region.
    pub notify: bool,
}

/// A keyboard input of interest to the overlay.
#[derive(Debug, Clone, Copy, PartialEq, Eq, Structural)]
pub enum KeyInput {
    Escape,
    LetterA,
    LetterC,
    LetterS,
    Other,
}

/// A command a keyboard input maps to.
#[derive(Debug, Clone, Copy, PartialEq, Eq, Structural)]
pub enum KeyCommand {
    /// Dismiss the overlay without exporting.
    Cancel,
    /// Replace the selection with the full canvas bounds.
    SelectAll,
    /// Export the selection to the clipboard.
    Copy,
    /// Export the selection to a file.
    Save,
}

/// The command a key press maps to: escape cancels; with control held, `a`
/// selects all, `c` copies, `s` saves.
pub open spec fn spec_key_command(key: KeyInput, ctrl: bool) -> Option<KeyCommand> {
    if key == KeyInput::Escape {
        Some(KeyCommand::Cancel)
    } else if ctrl && key == KeyInput::LetterA {
        Some(KeyCommand::SelectAll)
    } else if ctrl && key == KeyInput::LetterC {
        Some(KeyCommand::Copy)
    } else if ctrl && key == KeyInput::LetterS {
        Some(KeyCommand::Save)
    } else {
        None
    }
}

/// Map a key press to the command it stands for.
pub fn key_command(key: KeyInput, ctrl: bool) -> (r: Option<KeyCommand>)
    ensures
        r == spec_key_command(key, ctrl),
{
    if key == KeyInput::Escape {
        Some(KeyCommand::Cancel)
    } else if ctrl && key == KeyInput::LetterA {
        Some(KeyCommand::SelectAll)
    } else if ctrl && key == KeyInput::LetterC {
        Some(KeyCommand::Copy)
    } else if ctrl && key == KeyInput::LetterS {
        Some(KeyCommand::Save)
    } else {
        None
    }
}

/// The cursor identity a hover at `(x, y)` calls for: a pointer when a
/// predefined region is hovered while no rectangle exists, overriding the
/// generic hover rule.
pub open spec fn spec_hover_cursor(s: SelectionModel, x: int, y: int) -> CursorKind {
    let hovered = find_region_from(s.regions, x, y, 0);
    if hovered is Some && s.rect is None {
        CursorKind::Pointer
    } else {
        spec_cursor_for(SelectionModel { hovered, ..s }, x, y)
    }
}

/// Event adapter state: the selection it drives, the latest cursor
/// position, whether the pointer is on the canvas, and the cursor identity
/// currently applied (for deduplication).
#[derive(Debug)]
pub struct Controller {
    pub selection: Selection,
    pub cursor_x: i64,
    pub cursor_y: i64,
    pub pointer_inside: bool,
    pub current_cursor: CursorKind,
}

impl Controller {
    /// Whether this state is well formed.
    pub open spec fn wf(&self) -> bool {
        &&& sel_wf(self.selection@)
        &&& coord_ok(self.cursor_x as int)
        &&& coord_ok(self.cursor_y as int)
    }

    /// A controller around a fresh selection.  The pointer starts inside:
    /// the overlay covers the whole screen when it appears.
    pub fn new(selection: Selection) -> (r: Controller)
        requires
            sel_wf(selection@),
        ensures
            r.wf(),
            r.selection@ == selection@,
            r.cursor_x == 0 && r.cursor_y == 0,
            r.pointer_inside,
            r.current_cursor == CursorKind::Default,
    {
        Controller {
            selection,
            cursor_x: 0,
            cursor_y: 0,
            pointer_inside: true,
            current_cursor: CursorKind::Default,
        }
    }

    /// Record `k` as the applied cursor; reports it only when it differs
    /// from the one already applied.
    fn apply_cursor(&mut self, k: CursorKind) -> (r: Option<CursorKind>)
        ensures
            final(self).selection@ == old(self).selection@,
            final(self).cursor_x == old(self).cursor_x,
            final(self).cursor_y == old(self).cursor_y,
            final(self).pointer_inside == old(self).pointer_inside,
            final(self).current_cursor == k,
            old(self).current_cursor == k ==> r is None,
            old(self).current_cursor != k ==> r == Some(k),
    {
        if self.current_cursor == k {
            None
        } else {
            self.current_cursor = k;
            Some(k)
        }
    }

    /// A press at `(x, y)`.  With no rectangle present and a predefined
    /// region under the pointer, that region is adopted and no drag starts;
    /// otherwise a drag begins and the cursor follows the new state.
    pub fn on_press(&mut self, x: i64, y: i64) -> (r: EventResponse)
        requires
            old(self).wf(),
            coord_ok(x as int),
            coord_ok(y as int),
        ensures
            final(self).wf(),
            final(self).cursor_x == old(self).cursor_x,
            final(self).cursor_y == old(self).cursor_y,
            final(self).pointer_inside == old(self).pointer_inside,
            r.redraw,
            r.notify,
            ({
                let s = old(self).selection@;
                let hit = find_region_from(s.regions, x as int, y as int, 0);
                if s.rect is None && hit is Some {
                    &&& final(self).selection@ == (SelectionModel {
                        rect: Some(s.regions[hit->0]),
                        ..s
                    })
                    &&& r.cursor is None
                    &&& final(self).current_cursor == old(self).current_cursor
                } else {
                    let s2 = spec_start_drag(s, x as int, y as int);
                    let k = spec_cursor_for(s2, x as int, y as int);
                    &&& final(self).selection@ == s2
                    &&& final(self).current_cursor == k
                    &&& (old(self).current_cursor == k ==> r.cursor is None)
                    &&& (old(self).current_cursor != k ==> r.cursor == Some(k))
                }
            }),
    {
        if self.selection.rect.is_none() {
            proof {
                crate::selection::lemma_find_region_from_props(
                    self.selection@.regions,
                    x as int,
                    y as int,
                    0,
                );
            }
            if let Some(index) = self.selection.find_predefined_region_at(x, y) {
                let adopted = self.selection.select_predefined_region(index);
                proof {
                    assert(adopted);
                }
                return EventResponse { redraw: true, cursor: None, notify: true };
            }
        }
        self.selection.start_drag(x, y);
        let k = self.selection.cursor_for_position(x, y);
        let cursor = self.apply_cursor(k);
        EventResponse { redraw: true, cursor, notify: true }
    }

    /// A pointer move while the press is held.
    pub fn on_drag_update(&mut self, x: i64, y: i64) -> (r: EventResponse)
        requires
            old(self).wf(),
            coord_ok(x as int),
            coord_ok(y as int),
        ensures
            final(self).wf(),
            final(self).selection@ == spec_update_drag(old(self).selection@, x as int, y as int),
            final(self).cursor_x == old(self).cursor_x,
            final(self).cursor_y == old(self).cursor_y,
            final(self).pointer_inside == old(self).pointer_inside,
            final(self).current_cursor == old(self).current_cursor,
            r.redraw,
            r.cursor is None,
            r.notify,
    {
        self.selection.update_drag(x, y);
        EventResponse { redraw: true, cursor: None, notify: true }
    }

    /// The press released at `(x, y)`: the drag ends and the cursor is
    /// recomputed from the release position.
    pub fn on_release(&mut self, x: i64, y: i64) -> (r: EventResponse)
        requires
            old(self).wf(),
            coord_ok(x as int),
            coord_ok(y as int),
        ensures
            final(self).wf(),
            final(self).selection@ == spec_end_drag(old(self).selection@),
            final(self).cursor_x == old(self).cursor_x,
            final(self).cursor_y == old(self).cursor_y,
            final(self).pointer_inside == old(self).pointer_inside,
            r.redraw,
            r.notify,
            ({
                let k = spec_cursor_for(spec_end_drag(old(self).selection@), x as int, y as int);
                &&& final(self).current_cursor == k
                &&& (old(self).current_cursor == k ==> r.cursor is None)
                &&& (old(self).current_cursor != k ==> r.cursor == Some(k))
            }),
    {
        self.selection.end_drag();
        let k = self.selection.cursor_for_position(x, y);
        let cursor = self.apply_cursor(k);
        EventResponse { redraw: true, cursor, notify: true }
    }

    /// A pointer move while not pressed: the cursor position and hovered
    /// region refresh, and the cursor follows the hover rule.
    pub fn on_motion(&mut self, x: i64, y: i64) -> (r: EventResponse)
        requires
            old(self).wf(),
            coord_ok(x as int),
            coord_ok(y as int),
        ensures
            final(self).wf(),
            final(self).cursor_x == x,
            final(self).cursor_y == y,
            final(self).pointer_inside == old(self).pointer_inside,
            final(self).selection@ == (SelectionModel {
                hovered: find_region_from(old(self).selection@.regions, x as int, y as int, 0),
                ..old(self).selection@
            }),
            r.redraw,
            !r.notify,
            ({
                let k = spec_hover_cursor(old(self).selection@, x as int, y as int);
                &&& final(self).current_cursor == k
                &&& (old(self).current_cursor == k ==> r.cursor is None)
                &&& (old(self).current_cursor != k ==> r.cursor == Some(k))
            }),
    {
        self.cursor_x = x;
        self.cursor_y = y;
        self.selection.update_hovered_region(x, y);
        let k = if self.selection.hovered_region.is_some() && self.selection.rect.is_none() {
            CursorKind::Pointer
        } else {
            self.selection.cursor_for_position(x, y)
        };
        let cursor = self.apply_cursor(k);
        EventResponse { redraw: true, cursor, notify: false }
    }

    /// The pointer entered the canvas at `(x, y)`.
    pub fn on_enter(&mut self, x: i64, y: i64) -> (r: EventResponse)
        requires
            old(self).wf(),
            coord_ok(x as int),
            coord_ok(y as int),
        ensures
            final(self).wf(),
            final(self).selection@ == old(self).selection@,
            final(self).cursor_x == x,
            final(self).cursor_y == y,
            final(self).pointer_inside,
            final(self).current_cursor == old(self).current_cursor,
            r.redraw,
            r.cursor is None,
            !r.notify,
    {
        self.pointer_inside = true;
        self.cursor_x = x;
        self.cursor_y = y;
        EventResponse { redraw: true, cursor: None, notify: false }
    }

    /// The pointer left the canvas.
    pub fn on_leave(&mut self) -> (r: EventResponse)
        requires
            old(self).wf(),
        ensures
            final(self).wf(),
            final(self).selection@ == old(self).selection@,
            final(self).cursor_x == old(self).cursor_x,
            final(self).cursor_y == old(self).cursor_y,
            !final(self).pointer_inside,
            final(self).current_cursor == old(self).current_cursor,
            r.redraw,
            r.cursor is None,
            !r.notify,
    {
        self.pointer_inside = false;
        EventResponse { redraw: true, cursor: None, notify: false }
    }

    /// The select-all command: the selection becomes the full canvas
    /// bounds, bypassing the drag machinery.
    pub fn on_select_all(&mut self) -> (r: EventResponse)
        requires
            old(self).wf(),
        ensures
            final(self).wf(),
            final(self).selection@ == (SelectionModel {
                rect: Some(
                    crate::rect::RectModel {
                        x: 0,
                        y: 0,
                        w: old(self).selection@.screen_w,
                        h: old(self).selection@.screen_h,
                    },
                ),
                ..old(self).selection@
            }),
            final(self).cursor_x == old(self).cursor_x,
            final(self).cursor_y == old(self).cursor_y,
            final(self).pointer_inside == old(self).pointer_inside,
            final(self).current_cursor == old(self).current_cursor,
            r.redraw,
            r.cursor is None,
            r.notify,
    {
        self.selection.select_all();
        EventResponse { redraw: true, cursor: None, notify: true }
    }
}

} // verus!
