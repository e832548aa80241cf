//! What block is where: the classification of generated terrain, the
//! override store that player edits fill, and the sampling of a chunk's
//! blocks for a rebuild.

use vstd::prelude::*;
use crate::blockinfo::{Blocks, AIR, GRASS, SAND, STONE, WATER};
use crate::chunk::{index_key, voxel_key, ChunkSystem, Tier};
use crate::mesher::{cell_at, cell_index, in_memo, mesh_of, Memo, MEMO_CELLS};
use crate::table::{table_get, table_insert, Key};
use crate::floatbits::{truncate, truncated};
use crate::server_types::{Message, MessageType, MessageView};
use crate::vec::{chunk_index, chunk_of, IVec2, IVec3};

verus! {

/// The water line: below this height, what is not solid is water, and up
/// to it the surface of the land is shore.
pub const WATER_LINE: i32 = 40;

/// The block that the generator makes of a voxel at height `y`, given
/// whether the terrain is dense there and dense in the voxel above it.
/// Dense terrain is solid: grass where it ends above the water line, sand
/// where it ends at or below it, stone where it goes on. The rest is
/// water below the water line and air from it on.
pub open spec fn generated_block(y: i32, dense: bool, dense_above: bool) -> u32 {
    if dense {
        if dense_above {
            STONE
        } else if y > WATER_LINE {
            GRASS
        } else {
            SAND
        }
    } else if y < WATER_LINE {
        WATER
    } else {
        AIR
    }
}

/// The block at a voxel: what the override store holds for it, else what
/// the generator makes of it.
pub open spec fn block_of(overrides: Map<Key, u32>, spot: IVec3, generated: u32) -> u32 {
    if overrides.contains_key(voxel_key(spot)) {
        overrides[voxel_key(spot)]
    } else {
        generated
    }
}

/// The other kind of world: the two kinds take turns.
pub open spec fn toggled(planet_type: u8) -> u8 {
    ((planet_type + 1) % 2) as u8
}

/// The voxel that a block mutation names: the whole parts of the three
/// floats of its vector.
pub open spec fn voxel_of(m: MessageView) -> IVec3 {
    IVec3 { x: truncated(m.x) as i32, y: truncated(m.y) as i32, z: truncated(m.z) as i32 }
}

/// The voxel at `(i, j, k)` relative to the chunk at `pos`. There is none
/// where the world ends: where a coordinate would be too large or too
/// small for 32 bits.
pub open spec fn spot_in(pos: IVec2, i: int, j: int, k: int) -> Option<IVec3> {
    let x = pos.x * 15 + i;
    let z = pos.y * 15 + k;
    if i32::MIN <= x <= i32::MAX && i32::MIN <= j <= i32::MAX && i32::MIN <= z <= i32::MAX {
        Some(IVec3 { x: x as i32, y: j as i32, z: z as i32 })
    } else {
        None
    }
}

/// The block of the cell at `(i, j, k)` relative to the chunk at `pos`,
/// where the generator makes `generated` of the cell: the block at the
/// cell's voxel, and beyond the end of the world, where there is no voxel
/// to override, what the generator gives.
pub open spec fn cell_block(
    overrides: Map<Key, u32>,
    pos: IVec2,
    i: int,
    j: int,
    k: int,
    generated: u32,
) -> u32 {
    match spot_in(pos, i, j, k) {
        Some(spot) => block_of(overrides, spot, generated),
        None => generated,
    }
}

/// True when `cells` are the blocks of the chunk at `pos` and of the ring
/// around it: each cell holds the block that [`cell_block`] gives for it,
/// which is the override at its voxel, or else what the generator makes
/// of the cell, given in `generated` cell by cell.
pub open spec fn sampled(
    overrides: Map<Key, u32>,
    pos: IVec2,
    generated: Seq<u32>,
    cells: Seq<u32>,
) -> bool {
    &&& cells.len() == MEMO_CELLS
    &&& forall|i: int, j: int, k: int|
        in_memo(i, j, k) ==> cells[#[trigger] cell_index(i, j, k)] == cell_block(
            overrides,
            pos,
            i,
            j,
            k,
            generated[cell_index(i, j, k)],
        )
}

/// The chunks whose faces the voxel at `spot` can touch besides its own:
/// the one across x and the one across z, where the voxel lies on the
/// chunk's border. Which of the four lateral neighbours is `n` follows
/// the order of the faces: 0 and 1 along x, 2 and 3 along z.
pub open spec fn lateral_chunk(spot: IVec3, n: int) -> IVec2 {
    if n == 0 {
        IVec2 { x: chunk_of(spot.x - 1) as i32, y: spot.chunk().y }
    } else if n == 1 {
        IVec2 { x: chunk_of(spot.x + 1) as i32, y: spot.chunk().y }
    } else if n == 2 {
        IVec2 { x: spot.chunk().x, y: chunk_of(spot.z - 1) as i32 }
    } else {
        IVec2 { x: spot.chunk().x, y: chunk_of(spot.z + 1) as i32 }
    }
}

/// A queue with the slot of the chunk at `c` added, if the chunk is
/// resident.
pub open spec fn with_chunk(index: Map<Key, u32>, q: Seq<usize>, c: IVec2) -> Seq<usize> {
    if index.contains_key(index_key(c)) {
        q.push(index[index_key(c)] as usize)
    } else {
        q
    }
}

/// A queue with the slot of lateral neighbour `n` of the voxel's chunk
/// added, if that neighbour is another chunk and resident.
pub open spec fn with_lateral(index: Map<Key, u32>, q: Seq<usize>, spot: IVec3, n: int) -> Seq<
    usize,
> {
    if lateral_chunk(spot, n) != spot.chunk() {
        with_chunk(index, q, lateral_chunk(spot, n))
    } else {
        q
    }
}

/// The light queue after a change at `spot` has been announced to the
/// seams: the voxel's own chunk first, then its lateral neighbours.
pub open spec fn with_seams(index: Map<Key, u32>, q: Seq<usize>, spot: IVec3) -> Seq<usize> {
    with_lateral(
        index,
        with_lateral(
            index,
            with_lateral(
                index,
                with_lateral(index, with_chunk(index, q, spot.chunk()), spot, 0),
                spot,
                1,
            ),
            spot,
            2,
        ),
        spot,
        3,
    )
}

/// The voxel that cell number `n` of the memo of the chunk at `pos`
/// holds the block of, if the cell has one.
pub open spec fn spot_of_cell(pos: IVec2, n: int) -> Option<IVec3> {
    spot_in(pos, n / 2210 - 1, n % 130 - 1, (n / 130) % 17 - 1)
}

/// The voxel that cell number `n` of the memo of the chunk at `pos` holds
/// the block of: the cells go through the chunk and the ring around it
/// with x outermost, then z, then y. There is none where the memo has no
/// such cell, or the cell lies beyond the end of the world.
pub fn cell_spot(pos: IVec2, n: usize) -> (spot: Option<IVec3>)
    ensures
        spot == (if n < MEMO_CELLS {
            spot_of_cell(pos, n as int)
        } else {
            None
        }),
{
    if n >= MEMO_CELLS {
        return None;
    }
    let x: i64 = pos.x as i64 * 15 + (n / 2210) as i64 - 1;
    let y: i32 = (n % 130) as i32 - 1;
    let z: i64 = pos.y as i64 * 15 + ((n / 130) % 17) as i64 - 1;
    if x < i32::MIN as i64 || x > i32::MAX as i64 || z < i32::MIN as i64 || z > i32::MAX as i64 {
        return None;
    }
    Some(IVec3 { x: x as i32, y, z: z as i32 })
}

/// Exec counterpart of [`generated_block`].
pub fn classify(y: i32, dense: bool, dense_above: bool) -> (block: u32)
    ensures
        block == generated_block(y, dense, dense_above),
{
    if dense {
        if dense_above {
            STONE
        } else if y > WATER_LINE {
            GRASS
        } else {
            SAND
        }
    } else if y < WATER_LINE {
        WATER
    } else {
        AIR
    }
}

impl ChunkSystem {
    /// True when `other` differs from `self` at most in the override
    /// store and in what is pending.
    pub open spec fn same_but_blocks(&self, other: &ChunkSystem) -> bool {
        &&& other.slots() == self.slots()
        &&& other.index() == self.index()
        &&& other.geometry() == self.geometry()
        &&& other.ready() == self.ready()
        &&& other.spec_radius() == self.spec_radius()
        &&& other.spec_seed() == self.spec_seed()
        &&& other.spec_planet_type() == self.spec_planet_type()
        &&& other.spec_stage() == self.spec_stage()
        &&& other.last_viewer() == self.last_viewer()
        &&& other.since_check() == self.since_check()
    }

    /// The block at `spot`, where the generator makes `generated` of it:
    /// an override wins.
    pub fn blockat(&self, spot: IVec3, generated: u32) -> (block: u32)
        ensures
            block == block_of(self.overrides(), spot, generated),
    {
        match table_get(&self.userdatamap, (spot.x, spot.y, spot.z)) {
            Some(block) => block,
            None => generated,
        }
    }

    /// The override at `spot`, if there is one.
    pub fn override_at(&self, spot: IVec3) -> (block: Option<u32>)
        ensures
            block == (if self.overrides().contains_key(voxel_key(spot)) {
                Some(self.overrides()[voxel_key(spot)])
            } else {
                None
            }),
    {
        table_get(&self.userdatamap, (spot.x, spot.y, spot.z))
    }

    /// True when the block at `spot` stops a body.
    pub fn collision_predicate(&self, spot: IVec3, generated: u32) -> (stops: bool)
        ensures
            stops == Blocks::solid(block_of(self.overrides(), spot, generated)),
    {
        Blocks::is_solid(self.blockat(spot, generated))
    }

    /// Puts `block` at `spot` in the override store. Nothing is queued.
    pub fn set_block(&mut self, spot: IVec3, block: u32)
        requires
            old(self).wf(),
        ensures
            final(self).wf(),
            old(self).same_but_blocks(final(self)),
            forall|t: Tier| final(self).pending(t) == old(self).pending(t),
            final(self).overrides() == old(self).overrides().insert(voxel_key(spot), block),
    {
        table_insert(&mut self.userdatamap, (spot.x, spot.y, spot.z), block);
    }

    /// Puts `block` at `spot` and asks for what has to be redrawn: the
    /// voxel's chunk at the user tier where the player made the change,
    /// else at the background tier; and, with `neighbors`, that chunk and
    /// the chunks across the borders the voxel lies on at the light tier.
    /// Chunks that are not resident are passed over.
    pub fn set_block_and_queue_rerender(
        &mut self,
        spot: IVec3,
        block: u32,
        neighbors: bool,
        user_initiated: bool,
    )
        requires
            old(self).wf(),
        ensures
            final(self).wf(),
            old(self).same_but_blocks(final(self)),
            final(self).overrides() == old(self).overrides().insert(voxel_key(spot), block),
            final(self).pending(Tier::Gen) == old(self).pending(Tier::Gen),
            final(self).pending(Tier::User) == (if user_initiated {
                with_chunk(old(self).index(), old(self).pending(Tier::User), spot.chunk())
            } else {
                old(self).pending(Tier::User)
            }),
            final(self).pending(Tier::Background) == (if user_initiated {
                old(self).pending(Tier::Background)
            } else {
                with_chunk(old(self).index(), old(self).pending(Tier::Background), spot.chunk())
            }),
            final(self).pending(Tier::Light) == (if neighbors {
                with_seams(old(self).index(), old(self).pending(Tier::Light), spot)
            } else {
                old(self).pending(Tier::Light)
            }),
    {
        self.set_block(spot, block);
        let own = Self::spot_to_chunk_pos(&spot);
        self.queue_rerender_with_key(own, user_initiated, false);
        if neighbors {
            self.queue_rerender_with_key(own, user_initiated, true);
            let left = IVec2 { x: chunk_index(spot.x as i64 - 1), y: own.y };
            if left != own {
                self.queue_rerender_with_key(left, user_initiated, true);
            }
            let right = IVec2 { x: chunk_index(spot.x as i64 + 1), y: own.y };
            if right != own {
                self.queue_rerender_with_key(right, user_initiated, true);
            }
            let back = IVec2 { x: own.x, y: chunk_index(spot.z as i64 - 1) };
            if back != own {
                self.queue_rerender_with_key(back, user_initiated, true);
            }
            let front = IVec2 { x: own.x, y: chunk_index(spot.z as i64 + 1) };
            if front != own {
                self.queue_rerender_with_key(front, user_initiated, true);
            }
        }
    }

    /// Samples the blocks of the chunk at `pos` and of the ring around it
    /// from what the generator makes of them, given in the order of
    /// [`cell_index`]: each cell of the memo holds the block at its
    /// voxel, overrides included. There is no memo unless `generated` has
    /// exactly [`MEMO_CELLS`] items.
    pub fn sample(&self, pos: IVec2, generated: &Vec<u32>) -> (memo: Option<Memo>)
        ensures
            memo.is_some() == (generated@.len() == MEMO_CELLS),
            memo matches Some(m) ==> m.pos() == pos && sampled(
                self.overrides(),
                pos,
                generated@,
                m@,
            ),
    {
        if generated.len() != MEMO_CELLS {
            return None;
        }
        let mut cells: Vec<u32> = Vec::new();
        let base_x: i64 = pos.x as i64 * 15;
        let base_z: i64 = pos.y as i64 * 15;
        let mut i: i32 = -1;
        while i <= 15
            invariant
                -1 <= i <= 16,
                generated@.len() == MEMO_CELLS,
                base_x == pos.x * 15,
                base_z == pos.y * 15,
                cells@.len() == cell_index(i as int, -1, -1),
                forall|a: int, b: int, c: int|
                in_memo(a, b, c) && #[trigger] cell_index(a, b, c) < cells@.len() ==> cells@[cell_index(
                    a,
                    b,
                    c,
                )] == cell_block(
                    self.overrides(),
                    pos,
                    a,
                    b,
                    c,
                    generated@[cell_index(a, b, c)],
                ),
            decreases 16 - i,
        {
            let mut k: i32 = -1;
            while k <= 15
                invariant
                    -1 <= i <= 15,
                    -1 <= k <= 16,
                    generated@.len() == MEMO_CELLS,
                    base_x == pos.x * 15,
                    base_z == pos.y * 15,
                    cells@.len() == cell_index(i as int, -1, k as int),
                    forall|a: int, b: int, c: int|
                    in_memo(a, b, c) && #[trigger] cell_index(a, b, c) < cells@.len() ==> cells@[cell_index(
                        a,
                        b,
                        c,
                    )] == cell_block(
                        self.overrides(),
                        pos,
                        a,
                        b,
                        c,
                        generated@[cell_index(a, b, c)],
                    ),
                decreases 16 - k,
            {
                let x: i64 = base_x + i as i64;
                let z: i64 = base_z + k as i64;
                let inside = i32::MIN as i64 <= x && x <= i32::MAX as i64 && i32::MIN as i64 <= z
                    && z <= i32::MAX as i64;
                let mut j: i32 = -1;
                while j <= 128
                    invariant
                        -1 <= i <= 15,
                        -1 <= k <= 15,
                        -1 <= j <= 129,
                        generated@.len() == MEMO_CELLS,
                        x == pos.x * 15 + i,
                        z == pos.y * 15 + k,
                        inside == (i32::MIN <= x <= i32::MAX && i32::MIN <= z <= i32::MAX),
                        cells@.len() == cell_index(i as int, j as int, k as int),
                        forall|a: int, b: int, c: int|
                        in_memo(a, b, c) && #[trigger] cell_index(a, b, c) < cells@.len() ==> cells@[cell_index(
                            a,
                            b,
                            c,
                        )] == cell_block(
                            self.overrides(),
                            pos,
                            a,
                            b,
                            c,
                            generated@[cell_index(a, b, c)],
                        ),
                    decreases 129 - j,
                {
                    let made = generated[cells.len()];
                    let block = if inside {
                        self.blockat(IVec3 { x: x as i32, y: j, z: z as i32 }, made)
                    } else {
                        made
                    };
                    cells.push(block);
                    j = j + 1;
                }
                k = k + 1;
            }
            i = i + 1;
        }
        Memo::from_cells(pos, cells)
    }

    /// The block at `spot` as the memo holds it; `None` where the memo
    /// does not reach.
    pub fn blockatmemo(&self, spot: IVec3, memo: &Memo) -> (block: Option<u32>)
        ensures
            ({
                let i = spot.x - memo.pos().x * 15;
                let k = spot.z - memo.pos().y * 15;
                block == (if in_memo(i, spot.y as int, k) {
                    Some(cell_at(memo@, i, spot.y as int, k))
                } else {
                    None
                })
            }),
    {
        let pos = memo.pos();
        let i: i64 = spot.x as i64 - (pos.x as i64) * 15;
        let k: i64 = spot.z as i64 - (pos.y as i64) * 15;
        if -1 <= i && i <= 15 && -1 <= spot.y && spot.y <= 128 && -1 <= k && k <= 15 {
            Some(memo.get(i as i32, spot.y, k as i32))
        } else {
            None
        }
    }

    /// Takes over what the server passed on. A block mutation puts its
    /// block at the voxel that [`voxel_of`] gives and asks for the redraw
    /// as an edit by the player does, the seams included, whatever the
    /// block is; any other message leaves the world as it is.
    pub fn apply_remote(&mut self, message: &Message) -> (changed: bool)
        requires
            old(self).wf(),
        ensures
            final(self).wf(),
            old(self).same_but_blocks(final(self)),
            changed == (message.message_type == MessageType::BlockSet),
            final(self).pending(Tier::Gen) == old(self).pending(Tier::Gen),
            final(self).pending(Tier::Background) == old(self).pending(Tier::Background),
            final(self).overrides() == (if changed {
                old(self).overrides().insert(voxel_key(voxel_of(message@)), message.info)
            } else {
                old(self).overrides()
            }),
            final(self).pending(Tier::User) == (if changed {
                with_chunk(
                    old(self).index(),
                    old(self).pending(Tier::User),
                    voxel_of(message@).chunk(),
                )
            } else {
                old(self).pending(Tier::User)
            }),
            final(self).pending(Tier::Light) == (if changed {
                with_seams(old(self).index(), old(self).pending(Tier::Light), voxel_of(message@))
            } else {
                old(self).pending(Tier::Light)
            }),
    {
        match message.message_type {
            MessageType::BlockSet => {
                let spot = IVec3 {
                    x: truncate(message.x),
                    y: truncate(message.y),
                    z: truncate(message.z),
                };
                self.set_block_and_queue_rerender(spot, message.info, true, true);
                true
            },
            _ => false,
        }
    }

    /// Throws the world away and starts another: a fresh pool for
    /// `radius`, nothing resident, no override, nothing pending, nothing
    /// ready.
    pub fn reset(&mut self, radius: u8, seed: u32, planet_type: u8)
        ensures
            final(self).wf(),
            final(self).is_fresh(radius, seed, planet_type),
    {
        *self = ChunkSystem::new(radius, seed, planet_type);
    }

    /// Leaves the world for the next one: a world of the other kind, grown
    /// from `seed`, with the pool that is there and nothing in it.
    pub fn next_world(&mut self, seed: u32)
        ensures
            final(self).wf(),
            final(self).is_fresh(
                old(self).spec_radius(),
                seed,
                toggled(old(self).spec_planet_type()),
            ),
    {
        let radius = self.radius;
        let other: u8 = ((self.planet_type as u16 + 1) % 2) as u8;
        self.reset(radius, seed, other);
    }

    /// The view radius, in chunks.
    pub fn radius(&self) -> (r: u8)
        ensures
            r == self.spec_radius(),
    {
        self.radius
    }

    /// The seed of the world that is loaded.
    pub fn seed(&self) -> (s: u32)
        ensures
            s == self.spec_seed(),
    {
        self.currentseed
    }

    /// The kind of the world that is loaded.
    pub fn planet_type(&self) -> (t: u8)
        ensures
            t == self.spec_planet_type(),
    {
        self.planet_type
    }
}

/// Every cell of a memo has a place relative to the chunk.
pub proof fn lemma_cell_has_place(t: int)
    requires
        0 <= t < MEMO_CELLS,
    ensures
        in_memo(t / 2210 - 1, t % 130 - 1, (t / 130) % 17 - 1),
        cell_index(t / 2210 - 1, t % 130 - 1, (t / 130) % 17 - 1) == t,
{
}

/// A rebuild can be repeated: two samples of one chunk, taken of the same
/// override store and the same generated blocks, give the same four
/// streams, byte for byte.
pub proof fn lemma_rebuild_repeatable(
    overrides: Map<Key, u32>,
    pos: IVec2,
    generated: Seq<u32>,
    first: Seq<u32>,
    second: Seq<u32>,
)
    requires
        sampled(overrides, pos, generated, first),
        sampled(overrides, pos, generated, second),
    ensures
        first == second,
        mesh_of(first) == mesh_of(second),
{
    assert forall|t: int| 0 <= t < first.len() implies first[t] == second[t] by {
        lemma_cell_has_place(t);
    }
}

/// An edit outlives every generator: once a block has been put at a
/// voxel, that block is what is found there, whatever the generator
/// makes of the voxel.
pub proof fn lemma_override_wins(overrides: Map<Key, u32>, spot: IVec3, block: u32, generated: u32)
    ensures
        block_of(overrides.insert(voxel_key(spot), block), spot, generated) == block,
{
}

/// An edit changes the block at its own voxel only.
pub proof fn lemma_override_is_local(
    overrides: Map<Key, u32>,
    spot: IVec3,
    block: u32,
    other: IVec3,
    generated: u32,
)
    requires
        other != spot,
    ensures
        block_of(overrides.insert(voxel_key(spot), block), other, generated) == block_of(
            overrides,
            other,
            generated,
        ),
{
}

} // verus!
