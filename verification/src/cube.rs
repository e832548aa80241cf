//! The geometry of one voxel: its six faces, the six vertices that draw a
//! face as two triangles, and the three cells that shade each vertex.

use vstd::prelude::*;
use crate::vec::IVec3;

verus! {

/// A face of a voxel, named by the direction it looks in: `LEFT` and
/// `RIGHT` along x, `BOTTOM` and `TOP` along y, `BACK` and `FRONT` along z.
#[derive(Clone, Copy, PartialEq, Eq, Structural, Debug)]
pub enum CubeSide {
    LEFT,
    RIGHT,
    BOTTOM,
    TOP,
    BACK,
    FRONT,
}

/// The brightness of a vertex that nothing shades, and the top of the
/// brightness range.
pub const FULL_LIGHT: u8 = 16;

pub struct Cube;

impl CubeSide {
    /// The face with the given number, in the order of the declaration;
    /// `LEFT` for a number that names none.
    pub open spec fn of(n: int) -> CubeSide {
        if n == 1 {
            CubeSide::RIGHT
        } else if n == 2 {
            CubeSide::BOTTOM
        } else if n == 3 {
            CubeSide::TOP
        } else if n == 4 {
            CubeSide::BACK
        } else if n == 5 {
            CubeSide::FRONT
        } else {
            CubeSide::LEFT
        }
    }

    /// The number of the face, in the order of the declaration.
    pub open spec fn number(self) -> u8 {
        match self {
            CubeSide::LEFT => 0,
            CubeSide::RIGHT => 1,
            CubeSide::BOTTOM => 2,
            CubeSide::TOP => 3,
            CubeSide::BACK => 4,
            CubeSide::FRONT => 5,
        }
    }

    /// The axis the face is perpendicular to: 0 for x, 1 for y, 2 for z.
    pub open spec fn axis(self) -> int {
        match self {
            CubeSide::LEFT | CubeSide::RIGHT => 0,
            CubeSide::BOTTOM | CubeSide::TOP => 1,
            CubeSide::BACK | CubeSide::FRONT => 2,
        }
    }

    /// True for the face that looks along its axis, false for the one that
    /// looks against it.
    pub open spec fn positive(self) -> bool {
        self == CubeSide::RIGHT || self == CubeSide::TOP || self == CubeSide::FRONT
    }

    /// Exec counterpart of [`CubeSide::number`].
    pub fn to_primitive(self) -> (n: u8)
        ensures
            n == self.number(),
            n < 6,
            CubeSide::of(n as int) == self,
    {
        match self {
            CubeSide::LEFT => 0,
            CubeSide::RIGHT => 1,
            CubeSide::BOTTOM => 2,
            CubeSide::TOP => 3,
            CubeSide::BACK => 4,
            CubeSide::FRONT => 5,
        }
    }

    pub fn from_primitive(n: usize) -> (side: CubeSide)
        ensures
            side == Self::of(n as int),
    {
        if n == 1 {
            CubeSide::RIGHT
        } else if n == 2 {
            CubeSide::BOTTOM
        } else if n == 3 {
            CubeSide::TOP
        } else if n == 4 {
            CubeSide::BACK
        } else if n == 5 {
            CubeSide::FRONT
        } else {
            CubeSide::LEFT
        }
    }
}

/// A step of `a` along the axis `axis` and nothing along the others.
pub open spec fn along(axis: int, a: int) -> (int, int, int) {
    if axis == 0 {
        (a, 0, 0)
    } else if axis == 1 {
        (0, a, 0)
    } else {
        (0, 0, a)
    }
}

/// The first of the two axes that span the plane of a face perpendicular
/// to `axis`: the axis before it, counting x, y, z round and round.
pub open spec fn first_span(axis: int) -> int {
    if axis == 0 {
        2
    } else if axis == 1 {
        0
    } else {
        1
    }
}

/// The second of the two axes that span the plane of a face perpendicular
/// to `axis`: the axis after it, counting x, y, z round and round.
pub open spec fn second_span(axis: int) -> int {
    if axis == 0 {
        1
    } else if axis == 1 {
        2
    } else {
        0
    }
}

/// The sum of two offsets.
pub open spec fn plus(a: (int, int, int), b: (int, int, int)) -> (int, int, int) {
    (a.0 + b.0, a.1 + b.1, a.2 + b.2)
}

/// The difference of two offsets.
pub open spec fn minus(a: (int, int, int), b: (int, int, int)) -> (int, int, int) {
    (a.0 - b.0, a.1 - b.1, a.2 - b.2)
}

/// The cross product of two offsets.
pub open spec fn cross(a: (int, int, int), b: (int, int, int)) -> (int, int, int) {
    (a.1 * b.2 - a.2 * b.1, a.2 * b.0 - a.0 * b.2, a.0 * b.1 - a.1 * b.0)
}

impl Cube {
    /// The offset from a voxel to the one that the face `side` touches.
    pub open spec fn neighbor(side: CubeSide) -> (int, int, int) {
        along(side.axis(), if side.positive() { 1 } else { -1 })
    }

    /// The corner of a face, 0 to 3 around it, that the vertex `index`
    /// (0 to 5) of its two triangles lies on.
    pub open spec fn corner_of(index: int) -> int {
        if index == 1 {
            1
        } else if index == 2 || index == 3 {
            2
        } else if index == 4 {
            3
        } else {
            0
        }
    }

    /// Where corner `corner` lies in the plane of the face `side`, as 0 or
    /// 1 along each of the two spanning axes. Faces that look against
    /// their axis are walked in the opposite sense, so that every face
    /// winds clockwise seen from outside.
    pub open spec fn corner_uv(side: CubeSide, corner: int) -> (int, int) {
        let c = if side.positive() { corner } else { 3 - corner };
        if c == 0 {
            (0, 0)
        } else if c == 1 {
            (1, 0)
        } else if c == 2 {
            (1, 1)
        } else {
            (0, 1)
        }
    }

    /// The position of vertex `index` of the face `side`, as 0 or 1 along
    /// each axis of the voxel.
    pub open spec fn vertex(side: CubeSide, index: int) -> (int, int, int) {
        let uv = Self::corner_uv(side, Self::corner_of(index));
        plus(
            along(side.axis(), if side.positive() { 1 } else { 0 }),
            plus(along(first_span(side.axis()), uv.0), along(second_span(side.axis()), uv.1)),
        )
    }

    /// The brightness of an unshaded vertex of the face `side`: full on
    /// top, less on the sides, least underneath.
    pub open spec fn base_light(side: CubeSide) -> u8 {
        match side {
            CubeSide::TOP => 16,
            CubeSide::LEFT | CubeSide::RIGHT => 14,
            CubeSide::BACK | CubeSide::FRONT => 12,
            CubeSide::BOTTOM => 10,
        }
    }

    /// The offset from a voxel to shading cell `which` (0 to 2) of vertex
    /// `index` of its face `side`: the two cells that share an edge with
    /// the face's neighbour at that corner, then the one that shares only
    /// the corner.
    pub open spec fn amb_occul_spot(side: CubeSide, index: int, which: int) -> (int, int, int) {
        let uv = Self::corner_uv(side, Self::corner_of(index));
        let du = along(first_span(side.axis()), 2 * uv.0 - 1);
        let dv = along(second_span(side.axis()), 2 * uv.1 - 1);
        let n = Self::neighbor(side);
        if which == 0 {
            plus(n, du)
        } else if which == 1 {
            plus(n, dv)
        } else {
            plus(n, plus(du, dv))
        }
    }

    /// The six neighbour offsets, in the order of the faces.
    pub fn get_neighbors() -> (list: [IVec3; 6])
        ensures
            forall|s: int|
                0 <= s < 6 ==> (#[trigger] list[s].x as int, list[s].y as int, list[s].z as int)
                    == Self::neighbor(CubeSide::of(s)),
    {
        [
            IVec3 { x: -1, y: 0, z: 0 },
            IVec3 { x: 1, y: 0, z: 0 },
            IVec3 { x: 0, y: -1, z: 0 },
            IVec3 { x: 0, y: 1, z: 0 },
            IVec3 { x: 0, y: 0, z: -1 },
            IVec3 { x: 0, y: 0, z: 1 },
        ]
    }

    /// One vertex of a face: its position in the voxel and its unshaded
    /// brightness.
    pub fn get_side(side: CubeSide, index: u8) -> (v: (u8, u8, u8, u8))
        requires
            index < 6,
        ensures
            (v.0 as int, v.1 as int, v.2 as int) == Self::vertex(side, index as int),
            v.3 == Self::base_light(side),
            v.0 <= 1,
            v.1 <= 1,
            v.2 <= 1,
    {
        let positive = Self::is_positive(side);
        let corner: u8 = if index == 1 {
            1
        } else if index == 2 || index == 3 {
            2
        } else if index == 4 {
            3
        } else {
            0
        };
        let c: u8 = if positive { corner } else { 3 - corner };
        let u: u8 = if c == 1 || c == 2 { 1 } else { 0 };
        let w: u8 = if c == 2 || c == 3 { 1 } else { 0 };
        let a: u8 = if positive { 1 } else { 0 };
        match side {
            CubeSide::LEFT | CubeSide::RIGHT => (a, w, u, 14),
            CubeSide::BOTTOM | CubeSide::TOP => (u, a, w, if positive { 16 } else { 10 }),
            CubeSide::BACK | CubeSide::FRONT => (w, u, a, 12),
        }
    }

    /// The three shading cells of one vertex of a face, as offsets from
    /// the voxel.
    pub fn get_amb_occul_spots(side: CubeSide, index: u8) -> (spots: [IVec3; 3])
        requires
            index < 6,
        ensures
            forall|w: int|
                0 <= w < 3 ==> (#[trigger] spots[w].x as int, spots[w].y as int, spots[w].z as int)
                    == Self::amb_occul_spot(side, index as int, w),
            forall|w: int|
                0 <= w < 3 ==> -1 <= (#[trigger] spots[w]).x <= 1 && -1 <= spots[w].y <= 1 && -1
                    <= spots[w].z <= 1,
    {
        let v = Self::get_side(side, index);
        let n: i32 = if Self::is_positive(side) { 1 } else { -1 };
        let dx: i32 = 2 * (v.0 as i32) - 1;
        let dy: i32 = 2 * (v.1 as i32) - 1;
        let dz: i32 = 2 * (v.2 as i32) - 1;
        match side {
            CubeSide::LEFT | CubeSide::RIGHT => [
                IVec3 { x: n, y: 0, z: dz },
                IVec3 { x: n, y: dy, z: 0 },
                IVec3 { x: n, y: dy, z: dz },
            ],
            CubeSide::BOTTOM | CubeSide::TOP => [
                IVec3 { x: dx, y: n, z: 0 },
                IVec3 { x: 0, y: n, z: dz },
                IVec3 { x: dx, y: n, z: dz },
            ],
            CubeSide::BACK | CubeSide::FRONT => [
                IVec3 { x: 0, y: dy, z: n },
                IVec3 { x: dx, y: 0, z: n },
                IVec3 { x: dx, y: dy, z: n },
            ],
        }
    }

    fn is_positive(side: CubeSide) -> (b: bool)
        ensures
            b == side.positive(),
    {
        match side {
            CubeSide::RIGHT | CubeSide::TOP | CubeSide::FRONT => true,
            _ => false,
        }
    }
}

/// Every face winds clockwise seen from outside: going round either of
/// its two triangles, the turn from the first edge to the second points
/// into the voxel, against the direction the face looks in. The two
/// triangles share the corners where one ends and the other begins.
pub proof fn lemma_faces_wind_alike(side: CubeSide, first: int)
    requires
        first == 0 || first == 3,
    ensures
        cross(
            minus(Cube::vertex(side, first + 1), Cube::vertex(side, first)),
            minus(Cube::vertex(side, first + 2), Cube::vertex(side, first + 1)),
        ) == minus((0, 0, 0), Cube::neighbor(side)),
        Cube::vertex(side, 2) == Cube::vertex(side, 3),
        Cube::vertex(side, 5) == Cube::vertex(side, 0),
{
    let a = Cube::vertex(side, first);
    let b = Cube::vertex(side, first + 1);
    let c = Cube::vertex(side, first + 2);
    let d = minus(b, a);
    let e = minus(c, b);
    let (d0, d1, d2) = (d.0, d.1, d.2);
    let (e0, e1, e2) = (e.0, e.1, e.2);
    // One edge runs along one spanning axis, the next along the other; and
    // a product with a factor of -1, 0 or 1 is the other factor, turned
    // round, dropped or kept.
    assert({
        &&& d2 * e1 == (if d2 == 1 { e1 } else if d2 == -1 { -e1 } else { 0 })
        &&& d1 * e2 == (if d1 == 1 { e2 } else if d1 == -1 { -e2 } else { 0 })
        &&& d0 * e2 == (if d0 == 1 { e2 } else if d0 == -1 { -e2 } else { 0 })
        &&& d2 * e0 == (if d2 == 1 { e0 } else if d2 == -1 { -e0 } else { 0 })
        &&& d1 * e0 == (if d1 == 1 { e0 } else if d1 == -1 { -e0 } else { 0 })
        &&& d0 * e1 == (if d0 == 1 { e1 } else if d0 == -1 { -e1 } else { 0 })
    }) by (nonlinear_arith)
        requires
            -1 <= d0 <= 1 && -1 <= d1 <= 1 && -1 <= d2 <= 1,
    ;
}

} // verus!
