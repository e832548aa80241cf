//! The packed form of a vertex: one 32-bit word and one byte.
//!
//! The word holds, from its top bit down: four bits of x, eight of y, four
//! of z, three for the vertex's place in its face, five of ambient light,
//! four of block light, three for the face, and one bit that stays clear.
//! The byte holds the column of the texture cell in its high half and the
//! row in its low half.

use vstd::prelude::*;

verus! {

/// The fields of a vertex before packing.
#[derive(Clone, Copy, PartialEq, Eq, Structural, Debug)]
pub struct Vertex {
    pub x: u8,
    pub y: u8,
    pub z: u8,
    pub corner: u8,
    pub side: u8,
    pub al: u8,
    pub bl: u8,
    pub u: u8,
    pub v: u8,
}

pub struct PackedVertex;

impl Vertex {
    /// True when every field fits the bits that the packed form gives it.
    pub open spec fn fits(self) -> bool {
        &&& self.x < 16
        &&& self.z < 16
        &&& self.corner < 8
        &&& self.side < 8
        &&& self.al < 32
        &&& self.bl < 16
        &&& self.u < 16
        &&& self.v < 16
    }
}

/// The word of the packed form.
pub open spec fn pack_word(x: u8, y: u8, z: u8, corner: u8, side: u8, al: u8, bl: u8) -> u32 {
    ((x as u32) << 28) | ((y as u32) << 20) | ((z as u32) << 16) | ((corner as u32) << 13) | ((
    al as u32) << 8) | ((bl as u32) << 4) | ((side as u32) << 1)
}

/// The byte of the packed form.
pub open spec fn pack_cell(u: u8, v: u8) -> u8 {
    (u << 4) | v
}

/// The vertex that a word and a byte stand for.
pub open spec fn unpacked(word: u32, cell: u8) -> Vertex {
    Vertex {
        x: ((word >> 28) & 0xf) as u8,
        y: ((word >> 20) & 0xff) as u8,
        z: ((word >> 16) & 0xf) as u8,
        corner: ((word >> 13) & 0x7) as u8,
        side: ((word >> 1) & 0x7) as u8,
        al: ((word >> 8) & 0x1f) as u8,
        bl: ((word >> 4) & 0xf) as u8,
        u: (cell >> 4) & 0xf,
        v: cell & 0xf,
    }
}

/// Packing loses nothing: unpacking the packed form of a vertex whose
/// fields fit gives the vertex back.
pub proof fn lemma_pack_round_trip(t: Vertex)
    requires
        t.fits(),
    ensures
        unpacked(pack_word(t.x, t.y, t.z, t.corner, t.side, t.al, t.bl), pack_cell(t.u, t.v)) == t,
{
    let (x, y, z, corner, side, al, bl, u, v) = (
        t.x,
        t.y,
        t.z,
        t.corner,
        t.side,
        t.al,
        t.bl,
        t.u,
        t.v,
    );
    let word = pack_word(x, y, z, corner, side, al, bl);
    let cell = pack_cell(u, v);
    assert(((word >> 28) & 0xf) as u8 == x && ((word >> 20) & 0xff) as u8 == y && ((word >> 16)
        & 0xf) as u8 == z) by (bit_vector)
        requires
            x < 16 && z < 16 && corner < 8 && side < 8 && al < 32 && bl < 16,
            word == ((x as u32) << 28) | ((y as u32) << 20) | ((z as u32) << 16) | ((
            corner as u32) << 13) | ((al as u32) << 8) | ((bl as u32) << 4) | ((side as u32)
                << 1),
    ;
    assert(((word >> 13) & 0x7) as u8 == corner && ((word >> 8) & 0x1f) as u8 == al && ((word
        >> 4) & 0xf) as u8 == bl && ((word >> 1) & 0x7) as u8 == side) by (bit_vector)
        requires
            x < 16 && z < 16 && corner < 8 && side < 8 && al < 32 && bl < 16,
            word == ((x as u32) << 28) | ((y as u32) << 20) | ((z as u32) << 16) | ((
            corner as u32) << 13) | ((al as u32) << 8) | ((bl as u32) << 4) | ((side as u32)
                << 1),
    ;
    assert((cell >> 4) & 0xf == u && cell & 0xf == v) by (bit_vector)
        requires
            u < 16 && v < 16,
            cell == (u << 4) | v,
    ;
}

/// Every word and byte unpack to a vertex whose fields fit.
pub proof fn lemma_unpacked_fits(word: u32, cell: u8)
    ensures
        unpacked(word, cell).fits(),
{
    assert((((word >> 28) & 0xf) as u8) < 16 && (((word >> 16) & 0xf) as u8) < 16 && (((word
        >> 13) & 0x7) as u8) < 8 && (((word >> 8) & 0x1f) as u8) < 32 && (((word >> 4)
        & 0xf) as u8) < 16 && (((word >> 1) & 0x7) as u8) < 8) by (bit_vector);
    assert((cell >> 4) & 0xf < 16 && cell & 0xf < 16) by (bit_vector);
}

impl PackedVertex {
    /// Packs a vertex into a word and a byte.
    pub fn pack(t: Vertex) -> (packed: (u32, u8))
        requires
            t.fits(),
        ensures
            packed.0 == pack_word(t.x, t.y, t.z, t.corner, t.side, t.al, t.bl),
            packed.1 == pack_cell(t.u, t.v),
            unpacked(packed.0, packed.1) == t,
    {
        proof {
            lemma_pack_round_trip(t);
        }
        let word: u32 = ((t.x as u32) << 28) | ((t.y as u32) << 20) | ((t.z as u32) << 16) | ((
        t.corner as u32) << 13) | ((t.al as u32) << 8) | ((t.bl as u32) << 4) | ((t.side as u32)
            << 1);
        let cell: u8 = (t.u << 4) | t.v;
        (word, cell)
    }

    /// Unpacks a word and a byte into the vertex they stand for.
    pub fn unpack(word: u32, cell: u8) -> (t: Vertex)
        ensures
            t == unpacked(word, cell),
            t.fits(),
    {
        proof {
            lemma_unpacked_fits(word, cell);
        }
        Vertex {
            x: ((word >> 28) & 0xf) as u8,
            y: ((word >> 20) & 0xff) as u8,
            z: ((word >> 16) & 0xf) as u8,
            corner: ((word >> 13) & 0x7) as u8,
            side: ((word >> 1) & 0x7) as u8,
            al: ((word >> 8) & 0x1f) as u8,
            bl: ((word >> 4) & 0xf) as u8,
            u: (cell >> 4) & 0xf,
            v: cell & 0xf,
        }
    }
}

} // verus!
