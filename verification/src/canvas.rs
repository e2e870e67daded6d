//! The camera, as this core reads it each frame: zoom, world-space cursor,
//! drag state, viewport. The windowing layer owns the screen-space transform
//! and keeps the viewport consistent with the camera; this core only reads.

use vstd::prelude::*;

use crate::geometry::{Bounds, Pt2D};

verus! {

/// Camera zoom is carried in hundredths of a screen-pixel per map unit, so a
/// zoom of 1.0 is 100.
pub const ZOOM_SCALE: u64 = 100;

/// The camera and pointer state for one frame.
#[derive(Clone, Copy, PartialEq, Eq, Structural, Debug)]
pub struct Canvas {
    /// The world point at the center of the window.
    pub cam_x: i64,
    pub cam_y: i64,
    /// Zoom, in hundredths of a screen-pixel per map unit.
    pub cam_zoom: u64,
    /// The cursor, already transformed to map space.
    pub cursor: Pt2D,
    /// Whether a camera drag is in progress.
    pub dragging: bool,
    /// The world-space rectangle currently visible.
    pub viewport: Bounds,
}

impl Canvas {
    /// A camera before any saved state is applied: unzoomed at the origin.
    pub fn new() -> (c: Canvas)
        ensures
            c == Canvas::spec_new(),
    {
        Canvas {
            cam_x: 0,
            cam_y: 0,
            cam_zoom: ZOOM_SCALE,
            cursor: Pt2D { x: 0, y: 0 },
            dragging: false,
            viewport: Bounds { min_x: 0, min_y: 0, max_x: 0, max_y: 0 },
        }
    }

    pub open spec fn spec_new() -> Canvas {
        Canvas {
            cam_x: 0,
            cam_y: 0,
            cam_zoom: ZOOM_SCALE,
            cursor: Pt2D { x: 0, y: 0 },
            dragging: false,
            viewport: Bounds { min_x: 0, min_y: 0, max_x: 0, max_y: 0 },
        }
    }

    /// Where the cursor currently points, in map space.
    pub fn get_cursor_in_map_space(&self) -> (r: Pt2D)
        ensures
            r == self.cursor,
    {
        self.cursor
    }

    /// The world-space rectangle the window currently shows.
    pub fn get_screen_bounds(&self) -> (r: Bounds)
        ensures
            r == self.viewport,
    {
        self.viewport
    }

    pub fn is_dragging(&self) -> (r: bool)
        ensures
            r == self.dragging,
    {
        self.dragging
    }

    /// Point the camera at `pt`; the windowing layer re-derives the viewport
    /// from the new center before the next frame.
    pub fn center_on_map_pt(&mut self, pt: Pt2D)
        ensures
            *final(self) == (Canvas { cam_x: pt.x, cam_y: pt.y, ..*old(self) }),
    {
        self.cam_x = pt.x;
        self.cam_y = pt.y;
    }
}

} // verus!
