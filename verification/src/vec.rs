//! Integer coordinates: voxels in three dimensions, chunk columns in two.

use vstd::prelude::*;

verus! {

/// Width and depth of a chunk column, in voxels.
pub const CW: i32 = 15;

/// Height of a chunk column, in voxels.
pub const CH: i32 = 128;

/// A chunk coordinate: `x` counts columns along the world's x axis, `y`
/// along the world's z axis.
#[derive(Clone, Copy, PartialEq, Eq, Structural, Debug, Hash)]
pub struct IVec2 {
    pub x: i32,
    pub y: i32,
}

/// A voxel coordinate, or an offset between two of them.
#[derive(Clone, Copy, PartialEq, Eq, Structural, Debug, Hash)]
pub struct IVec3 {
    pub x: i32,
    pub y: i32,
    pub z: i32,
}

/// The column index along one axis of the voxel at `v` on that axis: the
/// quotient of `v` by the chunk width, rounded towards minus infinity.
pub open spec fn chunk_of(v: int) -> int {
    v / 15
}

/// The Manhattan distance between two chunk coordinates.
pub open spec fn manhattan(a: IVec2, b: IVec2) -> int {
    (if a.x >= b.x { a.x - b.x } else { b.x - a.x })
        + (if a.y >= b.y { a.y - b.y } else { b.y - a.y })
}

/// Exec counterpart of [`chunk_of`] for a 64-bit value within the range
/// of 32-bit coordinates and one step beyond.
pub(crate) fn chunk_index(v: i64) -> (c: i32)
    requires
        i32::MIN - 1 <= v <= i32::MAX + 1,
    ensures
        c == chunk_of(v as int),
{
    if v >= 0 {
        (v / 15) as i32
    } else {
        let m: i64 = -v;
        let q: i64 = (m + 14) / 15;
        (-q) as i32
    }
}

impl IVec2 {
    pub fn new(x: i32, y: i32) -> (v: IVec2)
        ensures
            v.x == x,
            v.y == y,
    {
        IVec2 { x, y }
    }

    /// The Manhattan distance to `other`.
    pub fn distance(self, other: IVec2) -> (d: u64)
        ensures
            d == manhattan(self, other),
    {
        let dx: i64 = if self.x >= other.x {
            self.x as i64 - other.x as i64
        } else {
            other.x as i64 - self.x as i64
        };
        let dy: i64 = if self.y >= other.y {
            self.y as i64 - other.y as i64
        } else {
            other.y as i64 - self.y as i64
        };
        (dx + dy) as u64
    }
}

impl IVec3 {
    pub fn new(x: i32, y: i32, z: i32) -> (v: IVec3)
        ensures
            v.x == x,
            v.y == y,
            v.z == z,
    {
        IVec3 { x, y, z }
    }

    /// The chunk column that holds this voxel.
    pub open spec fn chunk(self) -> IVec2 {
        IVec2 { x: chunk_of(self.x as int) as i32, y: chunk_of(self.z as int) as i32 }
    }
}

} // verus!
