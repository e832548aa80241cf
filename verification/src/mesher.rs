//! From the sampled blocks of a chunk to its vertex streams.
//!
//! A face of a block is drawn when the block across it lets the face be
//! seen. Every drawn face is one quad of six vertices; the faces of opaque
//! blocks are shaded at each vertex by the solid blocks that crowd its
//! corner.

use vstd::prelude::*;
use crate::blockinfo::{Blocks, AIR};
use crate::chunk::{ChunkGeo, Streams};
use crate::cube::{Cube, CubeSide, FULL_LIGHT};
use crate::packedvertex::{pack_cell, pack_word, PackedVertex, Vertex};
use crate::vec::IVec2;

verus! {

/// The number of cells of a memo: seventeen along x and along z, a
/// chunk's width and one more on either side, and a hundred and thirty
/// along y.
pub const MEMO_CELLS: usize = 37570;

/// The number of faces of the voxels of a chunk.
pub const FACES: usize = 172800;

/// The blocks of one chunk and of the ring of voxels around it, sampled
/// once for a rebuild. Cells are addressed by their place relative to the
/// chunk: x and z from -1 to 15, y from -1 to 128.
pub struct Memo {
    pos: IVec2,
    cells: Vec<u32>,
}

/// The place in a memo's cells of the cell at `(i, j, k)` relative to the
/// chunk: x outermost, then z, then y.
pub open spec fn cell_index(i: int, j: int, k: int) -> int {
    ((i + 1) * 17 + (k + 1)) * 130 + (j + 1)
}

/// True when `(i, j, k)` names a cell of a memo.
pub open spec fn in_memo(i: int, j: int, k: int) -> bool {
    -1 <= i <= 15 && -1 <= j <= 128 && -1 <= k <= 15
}

/// The block at `(i, j, k)` relative to the chunk.
pub open spec fn cell_at(cells: Seq<u32>, i: int, j: int, k: int) -> u32 {
    cells[cell_index(i, j, k)]
}

/// An opaque block shows a face towards air and towards anything that
/// lets light through.
pub open spec fn shows_opaque(block: u32, across: u32) -> bool {
    Blocks::opaque(block) && (across == AIR || Blocks::transparent(across)
        || Blocks::semi_transparent(across))
}

/// A block that lets light through shows a face towards air and towards
/// foliage; a liquid also towards a transparent block of another kind.
pub open spec fn shows_transparent(block: u32, across: u32) -> bool {
    (Blocks::transparent(block) || Blocks::semi_transparent(block)) && (across == AIR
        || Blocks::semi_transparent(across) || (Blocks::liquid(block) && Blocks::transparent(
        across,
    ) && across != block))
}

/// How much brightness a vertex loses to `count` solid blocks around its
/// corner.
pub open spec fn falloff(count: int) -> int {
    if count <= 0 {
        0
    } else if count == 1 {
        4
    } else if count == 2 {
        6
    } else {
        8
    }
}

/// The brightness of a vertex of base brightness `base` with `count`
/// solid blocks around its corner, kept within the brightness range.
pub open spec fn shaded(base: u8, count: int) -> u8 {
    let level = base - falloff(count);
    if level < 0 {
        0
    } else if level > FULL_LIGHT {
        FULL_LIGHT
    } else {
        level as u8
    }
}

/// 1 when shading cell `which` of vertex `index` of the face `side` of
/// the voxel at `(i, j, k)` holds a solid block, else 0.
pub open spec fn occluder(
    cells: Seq<u32>,
    i: int,
    j: int,
    k: int,
    side: CubeSide,
    index: int,
    which: int,
) -> int {
    let d = Cube::amb_occul_spot(side, index, which);
    if Blocks::solid(cell_at(cells, i + d.0, j + d.1, k + d.2)) {
        1
    } else {
        0
    }
}

/// How many of the three shading cells of a vertex hold a solid block.
pub open spec fn occluders(
    cells: Seq<u32>,
    i: int,
    j: int,
    k: int,
    side: CubeSide,
    index: int,
) -> int {
    occluder(cells, i, j, k, side, index, 0) + occluder(cells, i, j, k, side, index, 1)
        + occluder(cells, i, j, k, side, index, 2)
}

/// The brightness of vertex `index` of the face `side` of the voxel at
/// `(i, j, k)`: shaded by its corner when the face is opaque, the face's
/// base brightness when it is not.
pub open spec fn vertex_light(
    cells: Seq<u32>,
    i: int,
    j: int,
    k: int,
    side: CubeSide,
    index: int,
    opaque: bool,
) -> u8 {
    if opaque {
        shaded(Cube::base_light(side), occluders(cells, i, j, k, side, index))
    } else {
        Cube::base_light(side)
    }
}

/// The word of vertex `index` of the face `side` of the voxel at
/// `(i, j, k)`.
pub open spec fn vertex_word(
    cells: Seq<u32>,
    i: int,
    j: int,
    k: int,
    side: CubeSide,
    index: int,
    opaque: bool,
) -> u32 {
    let at = Cube::vertex(side, index);
    pack_word(
        (i + at.0) as u8,
        (j + at.1) as u8,
        (k + at.2) as u8,
        index as u8,
        side.number(),
        vertex_light(cells, i, j, k, side, index, opaque),
        0,
    )
}

/// The byte of every vertex of the face `side` of a block.
pub open spec fn vertex_cell(block: u32, side: CubeSide) -> u8 {
    let cell = Blocks::tex_coords(block, side);
    pack_cell(cell.0, cell.1)
}

/// The six words of a face.
pub open spec fn face_words(
    cells: Seq<u32>,
    i: int,
    j: int,
    k: int,
    side: CubeSide,
    opaque: bool,
) -> Seq<u32> {
    Seq::new(6, |index: int| vertex_word(cells, i, j, k, side, index, opaque))
}

/// The six bytes of a face.
pub open spec fn face_cells(block: u32, side: CubeSide) -> Seq<u8> {
    Seq::new(6, |index: int| vertex_cell(block, side))
}

/// The streams `s` with the face `side` of the voxel at `(i, j, k)` added,
/// if that face is drawn.
pub open spec fn put_face(
    s: Streams,
    cells: Seq<u32>,
    i: int,
    j: int,
    k: int,
    side: CubeSide,
) -> Streams {
    let block = cell_at(cells, i, j, k);
    let d = Cube::neighbor(side);
    let across = cell_at(cells, i + d.0, j + d.1, k + d.2);
    if shows_opaque(block, across) {
        Streams {
            data32: s.data32 + face_words(cells, i, j, k, side, true),
            data8: s.data8 + face_cells(block, side),
            ..s
        }
    } else if shows_transparent(block, across) {
        Streams {
            tdata32: s.tdata32 + face_words(cells, i, j, k, side, false),
            tdata8: s.tdata8 + face_cells(block, side),
            ..s
        }
    } else {
        s
    }
}

/// The streams `s` with face number `f` of the chunk added, if that face
/// is drawn. Faces are numbered voxel by voxel, x outermost, then z, then
/// y, and through the six faces of each voxel.
pub open spec fn add_face(s: Streams, cells: Seq<u32>, f: int) -> Streams {
    put_face(s, cells, f / 11520, (f / 6) % 128, (f / 768) % 15, CubeSide::of(f % 6))
}

/// The streams of the first `n` faces of a chunk.
pub open spec fn mesh_upto(cells: Seq<u32>, n: nat) -> Streams
    decreases n,
{
    if n == 0 {
        Streams::empty()
    } else {
        add_face(mesh_upto(cells, (n - 1) as nat), cells, n - 1)
    }
}

/// The streams of a chunk whose sampled blocks are `cells`.
pub open spec fn mesh_of(cells: Seq<u32>) -> Streams {
    mesh_upto(cells, FACES as nat)
}

/// The streams of a mesh go in pairs of equal length, one word and one
/// byte for each vertex, six vertices for each face; and the first `n`
/// faces of a chunk make for at most `n` drawn faces.
pub proof fn lemma_mesh_shape(cells: Seq<u32>, n: nat)
    ensures
        mesh_upto(cells, n).data32.len() == mesh_upto(cells, n).data8.len(),
        mesh_upto(cells, n).tdata32.len() == mesh_upto(cells, n).tdata8.len(),
        mesh_upto(cells, n).data32.len() % 6 == 0,
        mesh_upto(cells, n).tdata32.len() % 6 == 0,
        mesh_upto(cells, n).data32.len() + mesh_upto(cells, n).tdata32.len() <= 6 * n,
    decreases n,
{
    if n > 0 {
        lemma_mesh_shape(cells, (n - 1) as nat);
    }
}

impl View for Memo {
    type V = Seq<u32>;

    closed spec fn view(&self) -> Seq<u32> {
        self.cells@
    }
}

impl Memo {
    #[verifier::type_invariant]
    spec fn complete(&self) -> bool {
        self.cells@.len() == MEMO_CELLS
    }

    /// The chunk whose blocks the memo holds.
    pub closed spec fn spec_pos(&self) -> IVec2 {
        self.pos
    }

    /// A memo of the chunk at `pos` from its cells in the order of
    /// [`cell_index`]; `None` unless there are exactly [`MEMO_CELLS`].
    pub fn from_cells(pos: IVec2, cells: Vec<u32>) -> (memo: Option<Memo>)
        ensures
            memo.is_some() == (cells@.len() == MEMO_CELLS),
            memo matches Some(m) ==> m@ == cells@ && m.spec_pos() == pos,
    {
        if cells.len() == MEMO_CELLS {
            Some(Memo { pos, cells })
        } else {
            None
        }
    }

    /// The chunk whose blocks the memo holds.
    #[verifier::when_used_as_spec(spec_pos)]
    pub fn pos(&self) -> (pos: IVec2)
        ensures
            pos == self.spec_pos(),
    {
        self.pos
    }

    /// The cells, in the order of [`cell_index`].
    pub fn cells(&self) -> (cells: &Vec<u32>)
        ensures
            cells@ == self@,
            cells@.len() == MEMO_CELLS,
    {
        proof {
            use_type_invariant(self);
        }
        &self.cells
    }

    /// The block at `(i, j, k)` relative to the chunk.
    pub(crate) fn get(&self, i: i32, j: i32, k: i32) -> (block: u32)
        requires
            in_memo(i as int, j as int, k as int),
        ensures
            block == cell_at(self@, i as int, j as int, k as int),
    {
        proof {
            use_type_invariant(self);
        }
        let at: usize = (((i + 1) * 17 + (k + 1)) * 130 + (j + 1)) as usize;
        self.cells[at]
    }
}

/// The brightness of one vertex of a face.
fn light_of(memo: &Memo, i: i32, j: i32, k: i32, side: CubeSide, index: u8, opaque: bool) -> (light:
    u8)
    requires
        0 <= i < 15,
        0 <= j < 128,
        0 <= k < 15,
        index < 6,
    ensures
        light == vertex_light(memo@, i as int, j as int, k as int, side, index as int, opaque),
        light <= FULL_LIGHT,
{
    let base = Cube::get_side(side, index).3;
    if !opaque {
        return base;
    }
    let spots = Cube::get_amb_occul_spots(side, index);
    let mut count: u8 = 0;
    let mut which: usize = 0;
    while which < 3
        invariant
            0 <= i < 15,
            0 <= j < 128,
            0 <= k < 15,
            index < 6,
            which <= 3,
            forall|w: int|
                0 <= w < 3 ==> (#[trigger] spots[w].x as int, spots[w].y as int, spots[w].z as int)
                    == Cube::amb_occul_spot(side, index as int, w),
            forall|w: int|
                0 <= w < 3 ==> -1 <= (#[trigger] spots[w]).x <= 1 && -1 <= spots[w].y <= 1 && -1
                    <= spots[w].z <= 1,
            count == (if which >= 1 {
                occluder(memo@, i as int, j as int, k as int, side, index as int, 0)
            } else {
                0
            }) + (if which >= 2 {
                occluder(memo@, i as int, j as int, k as int, side, index as int, 1)
            } else {
                0
            }) + (if which >= 3 {
                occluder(memo@, i as int, j as int, k as int, side, index as int, 2)
            } else {
                0
            }),
        decreases 3 - which,
    {
        let d = spots[which];
        if Blocks::is_solid(memo.get(i + d.x, j + d.y, k + d.z)) {
            count = count + 1;
        }
        which = which + 1;
    }
    let loss: u8 = if count == 0 {
        0
    } else if count == 1 {
        4
    } else if count == 2 {
        6
    } else {
        8
    };
    let level: u8 = if base >= loss { base - loss } else { 0 };
    if level > FULL_LIGHT {
        FULL_LIGHT
    } else {
        level
    }
}

/// Appends the six vertices of one face to a stream of words and a stream
/// of bytes.
fn push_face(
    memo: &Memo,
    i: i32,
    j: i32,
    k: i32,
    side: CubeSide,
    block: u32,
    opaque: bool,
    words: &mut Vec<u32>,
    bytes: &mut Vec<u8>,
)
    requires
        0 <= i < 15,
        0 <= j < 128,
        0 <= k < 15,
    ensures
        final(words)@ == old(words)@ + face_words(
            memo@,
            i as int,
            j as int,
            k as int,
            side,
            opaque,
        ),
        final(bytes)@ == old(bytes)@ + face_cells(block, side),
{
    let cell = Blocks::get_tex_coords(block, side);
    let mut index: u8 = 0;
    while index < 6
        invariant
            0 <= i < 15,
            0 <= j < 128,
            0 <= k < 15,
            index <= 6,
            cell == Blocks::tex_coords(block, side),
            cell.0 < 16,
            cell.1 < 16,
            words@ == old(words)@ + face_words(memo@, i as int, j as int, k as int, side, opaque).take(
                index as int,
            ),
            bytes@ == old(bytes)@ + face_cells(block, side).take(index as int),
        decreases 6 - index,
    {
        let at = Cube::get_side(side, index);
        let light = light_of(memo, i, j, k, side, index, opaque);
        let packed = PackedVertex::pack(
            Vertex {
                x: i as u8 + at.0,
                y: j as u8 + at.1,
                z: k as u8 + at.2,
                corner: index,
                side: side.to_primitive(),
                al: light,
                bl: 0,
                u: cell.0,
                v: cell.1,
            },
        );
        words.push(packed.0);
        bytes.push(packed.1);
        index = index + 1;
    }
}

/// The number of the face `s` of the voxel at `(i, j, k)`, and back.
proof fn lemma_face_number(i: int, j: int, k: int, s: int)
    requires
        0 <= i < 15,
        0 <= j < 128,
        0 <= k < 15,
        0 <= s < 6,
    ensures
        ({
            let f = i * 11520 + k * 768 + j * 6 + s;
            f / 11520 == i && (f / 768) % 15 == k && (f / 6) % 128 == j && f % 6 == s
        }),
{
}

/// Appends the face `s` of the voxel at `(i, j, k)` to the streams of
/// `geo`, if it is drawn.
fn emit_face(memo: &Memo, geo: &mut ChunkGeo, i: i32, j: i32, k: i32, s: usize)
    requires
        0 <= i < 15,
        0 <= j < 128,
        0 <= k < 15,
        s < 6,
    ensures
        final(geo).streams() == put_face(
            old(geo).streams(),
            memo@,
            i as int,
            j as int,
            k as int,
            CubeSide::of(s as int),
        ),
        final(geo).pos == old(geo).pos,
        final(geo).length == old(geo).length,
        final(geo).tlength == old(geo).tlength,
{
    let block = memo.get(i, j, k);
    if block == AIR {
        return ;
    }
    let side = CubeSide::from_primitive(s);
    let neighbors = Cube::get_neighbors();
    let d = neighbors[s];
    let across = memo.get(i + d.x, j + d.y, k + d.z);
    if Blocks::is_transparent(block) || Blocks::is_semi_transparent(block) {
        if across == AIR || Blocks::is_semi_transparent(across) || (Blocks::is_liquid(block)
            && Blocks::is_transparent(across) && across != block) {
            push_face(memo, i, j, k, side, block, false, &mut geo.tdata32, &mut geo.tdata8);
        }
    } else {
        if across == AIR || Blocks::is_transparent(across) || Blocks::is_semi_transparent(across) {
            push_face(memo, i, j, k, side, block, true, &mut geo.data32, &mut geo.data8);
        }
    }
}

/// Replaces the streams of `geo` by the mesh of the memo's chunk and sets
/// its coordinate to the memo's. What the renderer has taken is not
/// touched.
pub fn mesh_into(memo: &Memo, geo: &mut ChunkGeo)
    ensures
        final(geo).streams() == mesh_of(memo@),
        final(geo).pos == memo.pos(),
        final(geo).length == old(geo).length,
        final(geo).tlength == old(geo).tlength,
        final(geo).data32@.len() == final(geo).data8@.len(),
        final(geo).tdata32@.len() == final(geo).tdata8@.len(),
        final(geo).data32@.len() + final(geo).tdata32@.len() <= 6 * FACES,
{
    proof {
        lemma_mesh_shape(memo@, FACES as nat);
    }
    geo.clear();
    geo.pos = memo.pos();
    let mut i: i32 = 0;
    while i < 15
        invariant
            0 <= i <= 15,
            geo.streams() == mesh_upto(memo@, (i * 11520) as nat),
            geo.pos == memo.pos(),
            geo.length == old(geo).length,
            geo.tlength == old(geo).tlength,
        decreases 15 - i,
    {
        let mut k: i32 = 0;
        while k < 15
            invariant
                0 <= i < 15,
                0 <= k <= 15,
                geo.streams() == mesh_upto(memo@, (i * 11520 + k * 768) as nat),
                geo.pos == memo.pos(),
                geo.length == old(geo).length,
                geo.tlength == old(geo).tlength,
            decreases 15 - k,
        {
            let mut j: i32 = 0;
            while j < 128
                invariant
                    0 <= i < 15,
                    0 <= k < 15,
                    0 <= j <= 128,
                    geo.streams() == mesh_upto(memo@, (i * 11520 + k * 768 + j * 6) as nat),
                    geo.pos == memo.pos(),
                    geo.length == old(geo).length,
                    geo.tlength == old(geo).tlength,
                decreases 128 - j,
            {
                let mut s: usize = 0;
                while s < 6
                    invariant
                        0 <= i < 15,
                        0 <= k < 15,
                        0 <= j < 128,
                        s <= 6,
                        geo.streams() == mesh_upto(
                            memo@,
                            (i * 11520 + k * 768 + j * 6 + s) as nat,
                        ),
                        geo.pos == memo.pos(),
                        geo.length == old(geo).length,
                        geo.tlength == old(geo).tlength,
                    decreases 6 - s,
                {
                    proof {
                        lemma_face_number(i as int, j as int, k as int, s as int);
                    }
                    emit_face(memo, geo, i, j, k, s);
                    s = s + 1;
                }
                j = j + 1;
            }
            k = k + 1;
        }
        i = i + 1;
    }
}

} // verus!
