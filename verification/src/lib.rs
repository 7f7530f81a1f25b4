//! Geometry and interaction core for a full-screen region-selection overlay.
//!
//! The library models an axis-aligned selection rectangle over a captured
//! image: creating it by dragging, moving it, resizing it by its corner
//! handles and edge bands, selecting a predefined region, and exporting the
//! enclosed area as an integer crop region.  A pure render layer turns the
//! current state into a draw list (dimming strips, border, handles,
//! crosshair, magnifier), and a small controller adapts pointer and keyboard
//! events into state transitions.  Presentation, capture and clipboard work
//! stay outside; the library deals only in plain coordinates and draw
//! commands.

pub mod controller;
pub mod crop;
pub mod overlay;
pub mod rect;
pub mod render;
pub mod selection;
