//! The camera, as far as rendering needs it: the world-space box that is currently shown.

use crate::geometry::Rect;
use vstd::prelude::*;

verus! {

/// Holds the world-space box that the camera shows.
#[derive(Clone, Copy, Debug, PartialEq, Eq, Structural)]
pub struct CameraHandler {
    pub screen_box: Rect,
}

impl CameraHandler {
    /// A camera that shows `screen_box`.
    pub fn new(screen_box: Rect) -> (cam: CameraHandler)
        ensures
            cam == (CameraHandler { screen_box }),
    {
        CameraHandler { screen_box }
    }

    /// The world-space box that the camera shows now.
    pub fn get_screen_box(&self) -> (b: Rect)
        ensures
            b == self.screen_box,
    {
        self.screen_box
    }

    /// Points the camera at another box.
    pub fn set_screen_box(&mut self, screen_box: Rect)
        ensures
            *final(self) == (CameraHandler { screen_box }),
    {
        self.screen_box = screen_box;
    }
}

} // verus!
