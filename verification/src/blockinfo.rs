//! What the mesher has to know of a block identifier: how light passes
//! through it and which cell of the texture atlas each face shows.

use vstd::prelude::*;
use crate::cube::CubeSide;

verus! {

/// Block identifiers that the world generator produces.
pub const AIR: u32 = 0;

pub const SAND: u32 = 1;

pub const WATER: u32 = 2;

pub const GRASS: u32 = 3;

pub const DIRT: u32 = 4;

pub const STONE: u32 = 5;

/// Block identifiers that only edits place.
pub const LEAVES: u32 = 7;

pub const GLASS: u32 = 8;

pub const BUSH: u32 = 11;

/// The atlas cell shown for an identifier that has no entry of its own.
pub const MISSING_TEXTURE: (u8, u8) = (15, 15);

/// The catalogue of block properties.
pub struct Blocks;

impl Blocks {
    /// A block that light passes through and that hides nothing behind it:
    /// water and glass.
    pub open spec fn transparent(id: u32) -> bool {
        id == WATER || id == GLASS
    }

    /// A block with holes in it, which shows what lies behind: foliage.
    pub open spec fn semi_transparent(id: u32) -> bool {
        id == LEAVES || id == BUSH
    }

    /// A block that flows: water.
    pub open spec fn liquid(id: u32) -> bool {
        id == WATER
    }

    /// A block that stops a body and casts shade: one that is there and
    /// does not flow.
    pub open spec fn solid(id: u32) -> bool {
        id != AIR && !Self::liquid(id)
    }

    /// A block that is there and is neither transparent nor
    /// semi-transparent.
    pub open spec fn opaque(id: u32) -> bool {
        id != AIR && !Self::transparent(id) && !Self::semi_transparent(id)
    }

    /// The atlas cell, as column and row, of the face `side` of block `id`.
    pub open spec fn tex_coords(id: u32, side: CubeSide) -> (u8, u8) {
        if id == GRASS {
            match side {
                CubeSide::TOP => (3u8, 1u8),
                CubeSide::BOTTOM => (4u8, 0u8),
                _ => (3u8, 0u8),
            }
        } else if id <= 11 {
            (id as u8, 0u8)
        } else {
            MISSING_TEXTURE
        }
    }

    pub fn is_transparent(id: u32) -> (b: bool)
        ensures
            b == Self::transparent(id),
    {
        id == WATER || id == GLASS
    }

    pub fn is_semi_transparent(id: u32) -> (b: bool)
        ensures
            b == Self::semi_transparent(id),
    {
        id == LEAVES || id == BUSH
    }

    pub fn is_liquid(id: u32) -> (b: bool)
        ensures
            b == Self::liquid(id),
    {
        id == WATER
    }

    pub fn is_solid(id: u32) -> (b: bool)
        ensures
            b == Self::solid(id),
    {
        id != AIR && id != WATER
    }

    pub fn get_tex_coords(id: u32, side: CubeSide) -> (cell: (u8, u8))
        ensures
            cell == Self::tex_coords(id, side),
            cell.0 < 16,
            cell.1 < 16,
    {
        if id == GRASS {
            match side {
                CubeSide::TOP => (3, 1),
                CubeSide::BOTTOM => (4, 0),
                _ => (3, 0),
            }
        } else if id <= 11 {
            (id as u8, 0)
        } else {
            MISSING_TEXTURE
        }
    }
}

} // verus!
