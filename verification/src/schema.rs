//! The project schema's discrete configuration types.

use vstd::prelude::*;

verus! {

/// Where the camera thumbnail is anchored.
#[derive(Clone, Copy, Debug, PartialEq, Eq, Structural)]
pub enum CameraPosition {
    TopLeft,
    TopRight,
    BottomLeft,
    BottomRight,
    Custom,
}

impl Default for CameraPosition {
    /// The export compositor anchors the thumbnail bottom-right.
    fn default() -> (r: CameraPosition)
        ensures
            r is BottomRight,
    {
        CameraPosition::BottomRight
    }
}

/// How a zoom range picks its target.
#[derive(Clone, Copy, Debug, PartialEq, Eq, Structural)]
pub enum ZoomType {
    FollowCursor,
    FollowClicks,
    Manual,
}

/// Which tracks a layout shows.
#[derive(Clone, Copy, Debug, PartialEq, Eq, Structural)]
pub enum LayoutType {
    ScreenOnly,
    CameraOnly,
    ScreenWithCamera,
    SideBySide,
}

/// What a scene contains.
#[derive(Clone, Copy, Debug, PartialEq, Eq, Structural)]
pub enum SceneType {
    Recording,
    Title,
    Transition,
}

/// An output aspect ratio.
#[derive(Clone, Copy, Debug, PartialEq, Eq, Structural)]
pub struct AspectRatio {
    pub x: u32,
    pub y: u32,
}

impl Default for AspectRatio {
    /// The conventional widescreen default.
    fn default() -> (r: AspectRatio)
        ensures
            r.x == 16 && r.y == 9,
    {
        AspectRatio { x: 16, y: 9 }
    }
}

} // verus!
