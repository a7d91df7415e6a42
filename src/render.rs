use vstd::prelude::*;

use crate::store::Frame;
use crate::transform::{is_identity, Transform};

verus! {

/// Line width, in pixels, of the grid.
pub const GRID_LINE_WIDTH: u32 = 1;

/// Line width, in pixels, of frame axes: thicker than the grid so that frames
/// stand out.
pub const FRAME_LINE_WIDTH: u32 = 3;

/// One step of drawing a picture.
#[derive(Debug, Clone, Copy, PartialEq, Eq)]
pub enum DrawCall {
    /// Clear color and depth to the background.
    Clear,
    /// Draw the grid with the identity model transform.
    Grid,
    /// Draw one axis triad with this model transform.
    Frame(Transform),
    /// Present the finished picture.
    Present,
}

/// The draw calls of one picture: clear, grid, every frame of `frames` in the
/// given order, the origin (identity) frame last so that it is drawn over all
/// others, then present.
pub fn render_plan(frames: &Vec<Frame>) -> (r: Vec<DrawCall>)
    ensures
        r@.len() == frames@.len() + 4,
        r@[0] == DrawCall::Clear,
        r@[1] == DrawCall::Grid,
        forall|i: int|
            0 <= i < frames@.len() ==> r@[i + 2] == DrawCall::Frame(frames@[i].transform),
        r@[frames@.len() + 2int] is Frame && is_identity(r@[frames@.len() + 2int]->Frame_0),
        r@[frames@.len() + 3int] == DrawCall::Present,
{
    let mut r: Vec<DrawCall> = Vec::new();
    r.push(DrawCall::Clear);
    r.push(DrawCall::Grid);
    let mut i: usize = 0;
    while i < frames.len()
        invariant
            i <= frames@.len(),
            r@.len() == i + 2,
            r@[0] == DrawCall::Clear,
            r@[1] == DrawCall::Grid,
            forall|j: int| 0 <= j < i ==> r@[j + 2] == DrawCall::Frame(frames@[j].transform),
        decreases frames@.len() - i,
    {
        r.push(DrawCall::Frame(frames[i].transform));
        i = i + 1;
    }
    r.push(DrawCall::Frame(Transform::identity()));
    r.push(DrawCall::Present);
    r
}

/// A window extent made fit for a viewport and an aspect ratio: at least 1,
/// at most the largest `i32`.
pub open spec fn clamp_extent(v: u32) -> u32 {
    if v == 0 {
        1
    } else if v > i32::MAX as u32 {
        i32::MAX as u32
    } else {
        v
    }
}

/// The viewport of a window, in pixels.
#[derive(Debug, Clone, Copy, PartialEq, Eq)]
pub struct Viewport {
    pub width: u32,
    pub height: u32,
}

impl Viewport {
    /// The viewport for a window of `width` x `height` pixels. A zero extent
    /// (a minimised window) is taken as 1, so `width / height` is always a
    /// finite, non-zero aspect ratio; both extents fit in an `i32`.
    pub fn for_window(width: u32, height: u32) -> (r: Viewport)
        ensures
            r.width == clamp_extent(width),
            r.height == clamp_extent(height),
            1 <= r.width <= i32::MAX,
            1 <= r.height <= i32::MAX,
    {
        Viewport { width: clamp(width), height: clamp(height) }
    }
}

fn clamp(v: u32) -> (r: u32)
    ensures
        r == clamp_extent(v),
{
    if v == 0 {
        1
    } else if v > i32::MAX as u32 {
        i32::MAX as u32
    } else {
        v
    }
}

} // verus!
