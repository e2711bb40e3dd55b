use vstd::prelude::*;

verus! {

/// Identifier of a live unit.
pub type UnitId = u32;

/// Identifier of a player.
pub type PlayerId = u32;

/// Discrete hex-grid tile coordinate.
#[derive(Clone, Copy, Debug, PartialEq, Eq, Structural)]
pub struct MapPos {
    pub x: i32,
    pub y: i32,
}

/// A width and a height, in tiles or in pixels.
#[derive(Clone, Copy, Debug, PartialEq, Eq, Structural)]
pub struct Size2 {
    pub w: i32,
    pub h: i32,
}

/// A point on the screen, origin top-left, in whole pixels.
#[derive(Clone, Copy, Debug, PartialEq, Eq, Structural)]
pub struct ScreenPos {
    pub x: i32,
    pub y: i32,
}

/// Handle of a mesh owned by the renderer.
#[derive(Clone, Copy, Debug, PartialEq, Eq, Structural)]
pub struct MeshId {
    pub id: u32,
}

/// Identifier of a unit type.
#[derive(Clone, Copy, Debug, PartialEq, Eq, Structural)]
pub struct UnitTypeId {
    pub id: u32,
}

impl MapPos {
    /// The tile lies on a map of the given size.
    pub open spec fn in_bounds(self, size: Size2) -> bool {
        0 <= self.x < size.w && 0 <= self.y < size.h
    }
}

} // verus!
