//! A plain window-geometry record: physical size and screen position.
//!
//! The record is owned by the application layer; the graphics context
//! only ever reads a width and a height from it.

use vstd::prelude::*;

verus! {

/// Physical size and position of an application window, in pixels.
pub struct Window {
    pub width: u32,
    pub height: u32,
    pub x_axis: i32,
    pub y_axis: i32,
}

impl Window {
    /// Record a new physical size, leaving the position unchanged.
    pub fn resize(&mut self, width: u32, height: u32)
        ensures
            final(self).width == width,
            final(self).height == height,
            final(self).x_axis == old(self).x_axis,
            final(self).y_axis == old(self).y_axis,
    {
        self.width = width;
        self.height = height;
    }

    /// Build a window record from its size and position.
    pub fn new(width: u32, height: u32, x_axis: i32, y_axis: i32) -> (w: Self)
        ensures
            w.width == width,
            w.height == height,
            w.x_axis == x_axis,
            w.y_axis == y_axis,
    {
        Self {
            width,
            height,
            x_axis,
            y_axis,
        }
    }
}

} // verus!
