//! A camera that gathers scroll input between frames.
//!
//! Wheel events add up in the controller. Once per frame the sum is applied to
//! the camera as one gesture, and the controller starts again from zero.

use vstd::prelude::*;
use crate::viewport::ViewportOffset;

verus! {

/// The scroll offset and the size of the window it looks through.
#[derive(Clone, Copy, Debug, PartialEq, Eq, Structural)]
pub struct Camera {
    pub offset: ViewportOffset,
    pub width: u32,
    pub height: u32,
}

/// Scroll input that has not been applied yet, in wheel lines per axis.
#[derive(Clone, Copy, Debug, PartialEq, Eq, Structural)]
pub struct CameraController {
    pub speed: i32,
    pub delta_x: i32,
    pub delta_y: i32,
}

/// `total + delta`, held inside the range of `i32`.
pub open spec fn gathered(total: int, delta: int) -> int {
    if total + delta > i32::MAX {
        i32::MAX as int
    } else if total + delta < i32::MIN {
        i32::MIN as int
    } else {
        total + delta
    }
}

fn gather(total: i32, delta: i32) -> (sum: i32)
    ensures
        sum == gathered(total as int, delta as int),
{
    let wide: i64 = total as i64 + delta as i64;
    if wide > i32::MAX as i64 {
        i32::MAX
    } else if wide < i32::MIN as i64 {
        i32::MIN
    } else {
        wide as i32
    }
}

impl Camera {
    /// A camera at the origin of the dataset, behind a window of the given size.
    pub fn new(width: u32, height: u32) -> (camera: Camera)
        ensures
            camera == (Camera { offset: ViewportOffset { x: 0, y: 0 }, width, height }),
    {
        Camera { offset: ViewportOffset::origin(), width, height }
    }
}

impl CameraController {
    /// A controller with nothing gathered.
    pub fn new(speed: i32) -> (controller: CameraController)
        ensures
            controller == (CameraController { speed, delta_x: 0, delta_y: 0 }),
    {
        CameraController { speed, delta_x: 0, delta_y: 0 }
    }

    /// Adds one wheel event of `(x, y)` lines to what has been gathered.
    pub fn process_scroll(&mut self, x: i32, y: i32)
        ensures
            final(self).speed == old(self).speed,
            final(self).delta_x == gathered(old(self).delta_x as int, x as int),
            final(self).delta_y == gathered(old(self).delta_y as int, y as int),
    {
        self.delta_x = gather(self.delta_x, x);
        self.delta_y = gather(self.delta_y, y);
    }

    /// Applies what has been gathered to the camera as one gesture, records the
    /// window size, and starts gathering again from zero.
    pub fn update_camera(&mut self, camera: &mut Camera, width: u32, height: u32)
        ensures
            final(camera).offset == old(camera).offset.scrolled(
                old(self).delta_x as int,
                old(self).delta_y as int,
                old(self).speed as int,
            ),
            final(camera).offset.wf(),
            final(camera).width == width,
            final(camera).height == height,
            *final(self) == (CameraController { speed: old(self).speed, delta_x: 0, delta_y: 0 }),
    {
        camera.offset = camera.offset.apply_scroll(self.delta_x, self.delta_y, self.speed);
        camera.width = width;
        camera.height = height;
        self.delta_x = 0;
        self.delta_y = 0;
    }
}

} // verus!
