//! Plain values that describe what the pointer ray struck.

use vstd::prelude::*;

verus! {

/// Number of distance units in the edge of one voxel.
///
/// Distances along a ray and points in space are whole numbers of these units,
/// the same granularity in which the world stores positions.
pub const UNITS_PER_VOXEL: u32 = 256;

/// Integer coordinate of one voxel.
#[derive(Clone, Copy, Debug, PartialEq, Eq, Structural)]
pub struct Voxel {
    pub x: i32,
    pub y: i32,
    pub z: i32,
}

/// A point in space, in distance units along each axis.
#[derive(Clone, Copy, Debug, PartialEq, Eq, Structural)]
pub struct Point {
    pub x: i64,
    pub y: i64,
    pub z: i64,
}

/// What a ray ran into.
#[derive(Clone, Copy, Debug, PartialEq, Eq, Structural)]
pub enum RaycastObject {
    /// A physics entity, named by its opaque identifier.
    Entity { id: u64 },
    /// The surface of the main voxel grid.
    World,
}

/// The nearest intersection of a ray with the world or with an entity.
#[derive(Clone, Copy, Debug, PartialEq, Eq, Structural)]
pub struct RaycastHit {
    /// How far the ray travelled before it struck, in distance units.
    pub distance: u32,
    /// The voxel whose face was struck: a world coordinate for a world hit,
    /// a body-local voxel index for an entity hit.
    pub voxel: Voxel,
    /// What was struck.
    pub object: RaycastObject,
}

/// Coordinate of the middle of the voxel with index `v` along one axis: the
/// voxel's minimum corner plus half a voxel.
pub open spec fn center_coordinate(v: int) -> int {
    v * UNITS_PER_VOXEL + UNITS_PER_VOXEL / 2
}

impl Voxel {
    /// The point in the middle of this voxel.
    pub open spec fn spec_center(self) -> Point {
        Point {
            x: center_coordinate(self.x as int) as i64,
            y: center_coordinate(self.y as int) as i64,
            z: center_coordinate(self.z as int) as i64,
        }
    }

    /// The point in the middle of this voxel: the voxel's position moved by
    /// half a voxel along every axis.
    #[verifier::when_used_as_spec(spec_center)]
    pub fn center(self) -> (p: Point)
        ensures
            p == self.spec_center(),
            p.x == center_coordinate(self.x as int),
            p.y == center_coordinate(self.y as int),
            p.z == center_coordinate(self.z as int),
    {
        let half: i64 = (UNITS_PER_VOXEL / 2) as i64;
        let scale: i64 = UNITS_PER_VOXEL as i64;
        Point {
            x: self.x as i64 * scale + half,
            y: self.y as i64 * scale + half,
            z: self.z as i64 * scale + half,
        }
    }
}

} // verus!
