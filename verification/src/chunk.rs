//! The pool of geometry slots, the index from chunk coordinates to slots,
//! and the geometry that each slot holds.

use vstd::prelude::*;
use lockfree::queue::Queue;
use crate::queue::{queue_new, queue_pop, queue_push, queued};
use crate::table::{
    entries_of, no_entries, table_get, table_insert, table_new, table_remove, Key, Table,
};
use crate::mesher::{mesh_into, mesh_of, Memo};
use crate::vec::{manhattan, IVec2, IVec3};

verus! {

/// The coordinate that a slot carries while it has never held a chunk.
pub const NOWHERE: i32 = 999999;

/// The coordinate noted for the last viewport check while there has been
/// none.
pub const NO_VIEWER: i32 = -99999;

/// The vertex streams of one slot: the opaque faces and the transparent
/// ones, each as a stream of words and a stream of bytes of equal length,
/// and how much of each the renderer has taken so far.
pub struct ChunkGeo {
    pub data32: Vec<u32>,
    pub data8: Vec<u8>,
    pub pos: IVec2,
    pub tdata32: Vec<u32>,
    pub tdata8: Vec<u8>,
    pub length: usize,
    pub tlength: usize,
}

/// One slot of the pool: its own index, whether it holds a chunk, and
/// which.
#[derive(Clone, Copy, PartialEq, Eq, Structural, Debug)]
pub struct ChunkFacade {
    pub geo_index: usize,
    pub used: bool,
    pub pos: IVec2,
}

/// The four vertex streams of a chunk, as sequences.
pub struct Streams {
    pub data32: Seq<u32>,
    pub data8: Seq<u8>,
    pub tdata32: Seq<u32>,
    pub tdata8: Seq<u8>,
}

impl Streams {
    pub open spec fn empty() -> Streams {
        Streams {
            data32: Seq::empty(),
            data8: Seq::empty(),
            tdata32: Seq::empty(),
            tdata8: Seq::empty(),
        }
    }
}

impl ChunkGeo {
    /// The four streams that the geometry holds.
    pub open spec fn streams(&self) -> Streams {
        Streams {
            data32: self.data32@,
            data8: self.data8@,
            tdata32: self.tdata32@,
            tdata8: self.tdata8@,
        }
    }

    /// True of geometry that has never been built: its streams are empty,
    /// it belongs to no chunk, and the renderer has taken nothing.
    pub open spec fn is_blank(&self) -> bool {
        &&& self.streams() == Streams::empty()
        &&& self.pos == (IVec2 { x: NOWHERE, y: NOWHERE })
        &&& self.length == 0
        &&& self.tlength == 0
    }

    /// Empty geometry that belongs to no chunk yet.
    pub fn new() -> (geo: ChunkGeo)
        ensures
            geo.is_blank(),
    {
        ChunkGeo {
            data32: Vec::new(),
            data8: Vec::new(),
            pos: IVec2 { x: NOWHERE, y: NOWHERE },
            tdata32: Vec::new(),
            tdata8: Vec::new(),
            length: 0,
            tlength: 0,
        }
    }

    /// Empties the four streams. The coordinate and the taken lengths stay.
    pub fn clear(&mut self)
        ensures
            final(self).streams() == Streams::empty(),
            final(self).pos == old(self).pos,
            final(self).length == old(self).length,
            final(self).tlength == old(self).tlength,
    {
        self.data32.clear();
        self.data8.clear();
        self.tdata32.clear();
        self.tdata8.clear();
    }

    /// The streams of the opaque faces.
    pub fn solids(&self) -> (pair: (&Vec<u32>, &Vec<u8>))
        ensures
            pair.0@ == self.data32@,
            pair.1@ == self.data8@,
    {
        (&self.data32, &self.data8)
    }

    /// The streams of the transparent faces.
    pub fn transparents(&self) -> (pair: (&Vec<u32>, &Vec<u8>))
        ensures
            pair.0@ == self.tdata32@,
            pair.1@ == self.tdata8@,
    {
        (&self.tdata32, &self.tdata8)
    }
}


/// The four priorities of rebuild work, most urgent first.
#[derive(Clone, Copy, PartialEq, Eq, Structural, Debug)]
pub enum Tier {
    /// A neighbour changed; the seam has to be redrawn.
    Light,
    /// The player edited the chunk.
    User,
    /// The chunk has just been streamed in.
    Gen,
    /// Idle work.
    Background,
}

/// A pending rebuild: which slot, and how urgent.
#[derive(Clone, Copy, PartialEq, Eq, Structural, Debug)]
pub struct RebuildRequest {
    pub index: usize,
    pub tier: Tier,
}

/// The note that a slot's geometry is ready to be taken by the renderer.
#[derive(Clone, Copy, PartialEq, Eq, Structural, Debug)]
pub struct ReadyMesh {
    pub geo_index: usize,
    pub newlength: usize,
    pub newtlength: usize,
    pub newpos: IVec2,
}

/// The chunk streaming state: the slots and their geometry, the index of
/// resident chunks, the override store, the pending rebuilds by tier, and
/// the geometry that is ready.
pub struct ChunkSystem {
    pub(crate) chunks: Vec<ChunkFacade>,
    pub(crate) geobank: Vec<ChunkGeo>,
    pub(crate) takencare: Table,
    pub(crate) userdatamap: Table,
    pub(crate) finished_geo_queue: Queue<usize>,
    pub(crate) light_rebuild_requests: Queue<usize>,
    pub(crate) user_rebuild_requests: Queue<usize>,
    pub(crate) gen_rebuild_requests: Queue<usize>,
    pub(crate) background_rebuild_requests: Queue<usize>,
    pub(crate) radius: u8,
    pub(crate) currentseed: u32,
    pub(crate) planet_type: u8,
    pub(crate) stage: u8,
    pub(crate) last_user_c_pos: IVec2,
    pub(crate) time_since_last_check: u32,
}

/// The number of slots of a pool for view radius `radius`: the square of
/// twice the radius and five.
pub open spec fn pool_size(radius: u8) -> nat {
    ((2 * radius + 5) * (2 * radius + 5)) as nat
}

/// The key under which the index holds the chunk at `c`.
pub open spec fn index_key(c: IVec2) -> Key {
    (c.x, 0i32, c.y)
}

/// The key under which the override store holds the voxel at `v`.
pub open spec fn voxel_key(v: IVec3) -> Key {
    (v.x, v.y, v.z)
}

/// A slot may be taken for another chunk when it holds none, or when the
/// chunk it holds lies farther from the viewer than twice the radius.
pub open spec fn evictable(slot: ChunkFacade, viewer: IVec2, radius: u8) -> bool {
    !slot.used || manhattan(slot.pos, viewer) > 2 * radius
}

/// Slot `a` is a strictly better victim than slot `b`: an empty slot
/// beats one in use, and of two in use the farther beats the nearer.
pub open spec fn beats(a: ChunkFacade, b: ChunkFacade, viewer: IVec2) -> bool {
    b.used && (!a.used || manhattan(a.pos, viewer) > manhattan(b.pos, viewer))
}

/// The victim among the first `n` slots: the best evictable one, the
/// earliest of equals.
pub open spec fn victim_upto(slots: Seq<ChunkFacade>, viewer: IVec2, radius: u8, n: nat) -> Option<
    int,
>
    decreases n,
{
    if n == 0 {
        None
    } else {
        let before = victim_upto(slots, viewer, radius, (n - 1) as nat);
        let i = n - 1;
        if !evictable(slots[i], viewer, radius) {
            before
        } else {
            match before {
                None => Some(i),
                Some(b) => if beats(slots[i], slots[b], viewer) {
                    Some(i)
                } else {
                    before
                },
            }
        }
    }
}

/// The slot to take for a new chunk, if any may be taken.
pub open spec fn victim(slots: Seq<ChunkFacade>, viewer: IVec2, radius: u8) -> Option<int> {
    victim_upto(slots, viewer, radius, slots.len())
}

/// The slots after slot `v` has been given to the chunk at `coord`.
pub open spec fn slots_after_take(slots: Seq<ChunkFacade>, v: int, coord: IVec2) -> Seq<
    ChunkFacade,
> {
    slots.update(v, ChunkFacade { geo_index: v as usize, used: true, pos: coord })
}

/// The index after slot `v` has been given to the chunk at `coord`: the
/// chunk that the slot held leaves the index, the new one enters it.
pub open spec fn index_after_take(
    slots: Seq<ChunkFacade>,
    index: Map<Key, u32>,
    v: int,
    coord: IVec2,
) -> Map<Key, u32> {
    let kept = if slots[v].used {
        index.remove(index_key(slots[v].pos))
    } else {
        index
    };
    kept.insert(index_key(coord), v as u32)
}

/// Slots and index agree: a slot in use is the one slot that the index
/// gives for its chunk, and every entry of the index leads to a slot in
/// use that holds the entry's chunk.
pub open spec fn consistent(slots: Seq<ChunkFacade>, index: Map<Key, u32>) -> bool {
    &&& forall|i: int| 0 <= i < slots.len() ==> (#[trigger] slots[i]).geo_index == i
    &&& forall|i: int|
        0 <= i < slots.len() && (#[trigger] slots[i]).used ==> index.contains_key(
            index_key(slots[i].pos),
        ) && index[index_key(slots[i].pos)] == i
    &&& forall|k: Key| #[trigger]
        index.contains_key(k) ==> index[k] < slots.len() && slots[index[k] as int].used
            && index_key(slots[index[k] as int].pos) == k
}

/// Every item of a queue names a slot.
pub open spec fn names_slots(items: Seq<usize>, slots: nat) -> bool {
    forall|i: int| 0 <= i < items.len() ==> #[trigger] items[i] < slots
}

/// The victim among the first `n` slots is evictable, nothing evictable
/// among them beats it, and everything evictable before it is beaten by
/// it; there is none only where none of them is evictable.
pub proof fn lemma_victim_upto(slots: Seq<ChunkFacade>, viewer: IVec2, radius: u8, n: nat)
    requires
        n <= slots.len(),
    ensures
        match victim_upto(slots, viewer, radius, n) {
            Some(v) => {
                &&& 0 <= v < n
                &&& evictable(slots[v], viewer, radius)
                &&& forall|i: int|
                    0 <= i < n && evictable(#[trigger] slots[i], viewer, radius) ==> !beats(
                        slots[i],
                        slots[v],
                        viewer,
                    )
                &&& forall|i: int|
                    0 <= i < v && evictable(#[trigger] slots[i], viewer, radius) ==> beats(
                        slots[v],
                        slots[i],
                        viewer,
                    )
            },
            None => forall|i: int| 0 <= i < n ==> !evictable(#[trigger] slots[i], viewer, radius),
        },
    decreases n,
{
    if n > 0 {
        lemma_victim_upto(slots, viewer, radius, (n - 1) as nat);
    }
}

/// Giving a slot to a chunk that the index does not hold keeps slots and
/// index in agreement.
pub proof fn lemma_take_consistent(
    slots: Seq<ChunkFacade>,
    index: Map<Key, u32>,
    v: int,
    coord: IVec2,
)
    requires
        consistent(slots, index),
        0 <= v < slots.len(),
        slots.len() <= u32::MAX,
        !index.contains_key(index_key(coord)),
    ensures
        consistent(slots_after_take(slots, v, coord), index_after_take(slots, index, v, coord)),
{
    let slots2 = slots_after_take(slots, v, coord);
    let index2 = index_after_take(slots, index, v, coord);
    assert forall|i: int| 0 <= i < slots2.len() && (#[trigger] slots2[i]).used implies index2.contains_key(
        index_key(slots2[i].pos),
    ) && index2[index_key(slots2[i].pos)] == i by {
        if i != v {
            assert(slots[i].used);
            assert(index[index_key(slots[i].pos)] == i);
            if slots[v].used {
                assert(index[index_key(slots[v].pos)] == v);
            }
        }
    }
    assert forall|k: Key| #[trigger] index2.contains_key(k) implies index2[k] < slots2.len()
        && slots2[index2[k] as int].used && index_key(slots2[index2[k] as int].pos) == k by {
        if k != index_key(coord) {
            assert(index.contains_key(k));
            assert(slots[index[k] as int].used);
            if index[k] == v {
                assert(index_key(slots[v].pos) == k);
            }
        }
    }
}

impl ChunkSystem {
    /// The slots of the pool.
    pub open(crate) spec fn slots(&self) -> Seq<ChunkFacade> {
        self.chunks@
    }

    /// The geometry of each slot.
    pub open(crate) spec fn geometry(&self) -> Seq<ChunkGeo> {
        self.geobank@
    }

    /// The index of resident chunks: from a chunk's key to its slot.
    pub open(crate) spec fn index(&self) -> Map<Key, u32> {
        entries_of(self.takencare)
    }

    /// The override store: from a voxel's key to the block put there.
    pub open(crate) spec fn overrides(&self) -> Map<Key, u32> {
        entries_of(self.userdatamap)
    }

    /// The pending rebuilds of a tier, oldest first.
    pub open(crate) spec fn pending(&self, tier: Tier) -> Seq<usize> {
        match tier {
            Tier::Light => queued(self.light_rebuild_requests),
            Tier::User => queued(self.user_rebuild_requests),
            Tier::Gen => queued(self.gen_rebuild_requests),
            Tier::Background => queued(self.background_rebuild_requests),
        }
    }

    /// The slots whose geometry is ready, oldest first.
    pub open(crate) spec fn ready(&self) -> Seq<usize> {
        queued(self.finished_geo_queue)
    }

    /// The view radius, in chunks.
    pub open(crate) spec fn spec_radius(&self) -> u8 {
        self.radius
    }

    /// The seed of the world that is loaded.
    pub open(crate) spec fn spec_seed(&self) -> u32 {
        self.currentseed
    }

    /// The kind of the world that is loaded.
    pub open(crate) spec fn spec_planet_type(&self) -> u8 {
        self.planet_type
    }

    /// How far the running scheduling pass has come: 0 before the user
    /// tier has had its turn, 1 before the generation tier, 2 before the
    /// background tier, 3 after it.
    pub open(crate) spec fn spec_stage(&self) -> u8 {
        self.stage
    }

    /// The chunk that the viewer was in at the last viewport check.
    pub open(crate) spec fn last_viewer(&self) -> IVec2 {
        self.last_user_c_pos
    }

    /// Milliseconds counted since the last viewport check.
    pub open(crate) spec fn since_check(&self) -> u32 {
        self.time_since_last_check
    }

    /// The slot that holds the chunk at `coord`, if it is resident.
    pub open spec fn slot_of(&self, coord: IVec2) -> Option<usize> {
        if self.index().contains_key(index_key(coord)) {
            Some(self.index()[index_key(coord)] as usize)
        } else {
            None
        }
    }

    /// The invariant of the streaming state.
    pub open spec fn wf(&self) -> bool {
        &&& self.slots().len() == pool_size(self.spec_radius())
        &&& self.geometry().len() == self.slots().len()
        &&& consistent(self.slots(), self.index())
        &&& names_slots(self.pending(Tier::Light), self.slots().len())
        &&& names_slots(self.pending(Tier::User), self.slots().len())
        &&& names_slots(self.pending(Tier::Gen), self.slots().len())
        &&& names_slots(self.pending(Tier::Background), self.slots().len())
        &&& names_slots(self.ready(), self.slots().len())
        &&& self.spec_stage() <= 3
    }

    /// True when `other` differs from `self` at most in slots and index.
    pub open spec fn same_but_residency(&self, other: &ChunkSystem) -> bool {
        &&& other.geometry() == self.geometry()
        &&& other.overrides() == self.overrides()
        &&& forall|t: Tier| other.pending(t) == self.pending(t)
        &&& other.ready() == self.ready()
        &&& other.spec_radius() == self.spec_radius()
        &&& other.spec_seed() == self.spec_seed()
        &&& other.spec_planet_type() == self.spec_planet_type()
        &&& other.spec_stage() == self.spec_stage()
        &&& other.last_viewer() == self.last_viewer()
        &&& other.since_check() == self.since_check()
    }

    /// True of a pool that has just been set up for a world of the given
    /// seed and kind: every slot is empty and has never held a chunk, its
    /// geometry has never been built, and the index is empty; nothing is
    /// pending or ready; a pass is about to begin; and no viewport check
    /// has been made yet, so that the first one is due at once wherever
    /// the viewer is. Of the override store nothing is said.
    pub open spec fn is_bare(&self, radius: u8, seed: u32, planet_type: u8) -> bool {
        &&& self.spec_radius() == radius
        &&& self.spec_seed() == seed
        &&& self.spec_planet_type() == planet_type
        &&& forall|i: int|
            0 <= i < self.slots().len() ==> #[trigger] self.slots()[i] == (ChunkFacade {
                geo_index: i as usize,
                used: false,
                pos: IVec2 { x: NOWHERE, y: NOWHERE },
            })
        &&& forall|i: int|
            0 <= i < self.geometry().len() ==> (#[trigger] self.geometry()[i]).is_blank()
        &&& self.index() == no_entries()
        &&& forall|t: Tier| self.pending(t) == Seq::<usize>::empty()
        &&& self.ready() == Seq::<usize>::empty()
        &&& self.spec_stage() == 0
        &&& self.last_viewer() == (IVec2 { x: NO_VIEWER, y: NO_VIEWER })
        &&& self.since_check() == 1000
    }

    /// True of a world that has just been started: the pool is bare and
    /// the override store is empty.
    pub open spec fn is_fresh(&self, radius: u8, seed: u32, planet_type: u8) -> bool {
        &&& self.is_bare(radius, seed, planet_type)
        &&& self.overrides() == no_entries()
    }

    /// A pool of empty slots for view radius `radius`, with an empty
    /// index, an empty override store and nothing pending. The first
    /// viewport check is due at once.
    pub fn new(radius: u8, seed: u32, planet_type: u8) -> (cs: ChunkSystem)
        ensures
            cs.wf(),
            cs.is_fresh(radius, seed, planet_type),
    {
        let side: usize = 2 * (radius as usize) + 5;
        proof {
            lemma_pool_size_fits(radius);
        }
        let count: usize = side * side;
        let mut chunks: Vec<ChunkFacade> = Vec::new();
        let mut geobank: Vec<ChunkGeo> = Vec::new();
        while chunks.len() < count
            invariant
                chunks@.len() <= count,
                geobank@.len() == chunks@.len(),
                forall|i: int|
                    0 <= i < chunks@.len() ==> #[trigger] chunks@[i] == (ChunkFacade {
                        geo_index: i as usize,
                        used: false,
                        pos: IVec2 { x: NOWHERE, y: NOWHERE },
                    }),
                forall|i: int| 0 <= i < geobank@.len() ==> (#[trigger] geobank@[i]).is_blank(),
            decreases count - chunks@.len(),
        {
            chunks.push(
                ChunkFacade {
                    geo_index: chunks.len(),
                    used: false,
                    pos: IVec2 { x: NOWHERE, y: NOWHERE },
                },
            );
            geobank.push(ChunkGeo::new());
        }
        ChunkSystem {
            chunks,
            geobank,
            takencare: table_new(),
            userdatamap: table_new(),
            finished_geo_queue: queue_new(),
            light_rebuild_requests: queue_new(),
            user_rebuild_requests: queue_new(),
            gen_rebuild_requests: queue_new(),
            background_rebuild_requests: queue_new(),
            radius,
            currentseed: seed,
            planet_type,
            stage: 0,
            last_user_c_pos: IVec2 { x: NO_VIEWER, y: NO_VIEWER },
            time_since_last_check: 1000,
        }
    }

    /// The number of slots.
    pub fn slot_count(&self) -> (n: usize)
        ensures
            n == self.slots().len(),
    {
        self.chunks.len()
    }

    /// The slot with the given number.
    pub fn slot(&self, index: usize) -> (slot: Option<ChunkFacade>)
        ensures
            slot == (if index < self.slots().len() {
                Some(self.slots()[index as int])
            } else {
                None
            }),
    {
        if index < self.chunks.len() {
            Some(self.chunks[index])
        } else {
            None
        }
    }

    /// The slot that holds the chunk at `coord`, if it is resident.
    pub fn resident(&self, coord: IVec2) -> (slot: Option<usize>)
        ensures
            slot == self.slot_of(coord),
    {
        match table_get(&self.takencare, (coord.x, 0, coord.y)) {
            Some(s) => Some(s as usize),
            None => None,
        }
    }

    /// The slot to take for a new chunk while the viewer is in the chunk
    /// at `viewer`, if any may be taken.
    pub fn choose_victim(&self, viewer: IVec2) -> (v: Option<usize>)
        ensures
            match v {
                Some(i) => victim(self.slots(), viewer, self.spec_radius()) == Some(i as int),
                None => victim(self.slots(), viewer, self.spec_radius()).is_none(),
            },
    {
        let limit: u64 = 2 * (self.radius as u64);
        let mut best: Option<usize> = None;
        let mut i: usize = 0;
        while i < self.chunks.len()
            invariant
                i <= self.chunks@.len(),
                limit == 2 * self.radius,
                match best {
                    Some(b) => b < i && victim_upto(self.chunks@, viewer, self.radius, i as nat)
                        == Some(b as int),
                    None => victim_upto(self.chunks@, viewer, self.radius, i as nat).is_none(),
                },
            decreases self.chunks@.len() - i,
        {
            let slot = self.chunks[i];
            let takes = !slot.used || slot.pos.distance(viewer) > limit;
            if takes {
                match best {
                    None => {
                        best = Some(i);
                    },
                    Some(b) => {
                        let held = self.chunks[b];
                        if held.used && (!slot.used || slot.pos.distance(viewer)
                            > held.pos.distance(viewer)) {
                            best = Some(i);
                        }
                    },
                }
            }
            i = i + 1;
        }
        best
    }

    /// Finds the slot of the chunk at `coord`, taking one for it if it is
    /// not resident: the victim's old chunk leaves the index, `coord`
    /// enters it, and the slot counts as in use. Where no slot may be
    /// taken, nothing changes and there is no slot. Nothing is queued.
    pub fn acquire_or_reuse(&mut self, coord: IVec2, viewer: IVec2) -> (slot: Option<usize>)
        requires
            old(self).wf(),
        ensures
            final(self).wf(),
            old(self).same_but_residency(final(self)),
            slot matches Some(s) ==> s < old(self).slots().len(),
            victim(old(self).slots(), viewer, old(self).spec_radius()) matches Some(v) ==> 0 <= v
                < old(self).slots().len(),
            match old(self).slot_of(coord) {
                Some(s) => {
                    &&& slot == Some(s)
                    &&& final(self).slots() == old(self).slots()
                    &&& final(self).index() == old(self).index()
                },
                None => match victim(old(self).slots(), viewer, old(self).spec_radius()) {
                    Some(v) => slot == Some(v as usize) && final(self).slots() == slots_after_take(
                        old(self).slots(),
                        v,
                        coord,
                    ) && final(self).index() == index_after_take(
                        old(self).slots(),
                        old(self).index(),
                        v,
                        coord,
                    ),
                    None => {
                        &&& slot.is_none()
                        &&& final(self).slots() == old(self).slots()
                        &&& final(self).index() == old(self).index()
                    },
                },
            },
    {
        proof {
            lemma_victim_upto(self.chunks@, viewer, self.radius, self.chunks@.len());
        }
        match self.resident(coord) {
            Some(s) => Some(s),
            None => match self.choose_victim(viewer) {
                Some(v) => {
                    self.take_slot(v, coord);
                    Some(v)
                },
                None => None,
            },
        }
    }

    /// Gives slot `v` to the chunk at `coord`, which is not resident.
    pub(crate) fn take_slot(&mut self, v: usize, coord: IVec2)
        requires
            old(self).wf(),
            v < old(self).slots().len(),
            old(self).slot_of(coord).is_none(),
        ensures
            final(self).wf(),
            old(self).same_but_residency(final(self)),
            final(self).slots() == slots_after_take(old(self).slots(), v as int, coord),
            final(self).index() == index_after_take(
                old(self).slots(),
                old(self).index(),
                v as int,
                coord,
            ),
    {
        proof {
            lemma_pool_size_fits(self.radius);
            lemma_take_consistent(self.chunks@, entries_of(self.takencare), v as int, coord);
        }
        let held = self.chunks[v];
        if held.used {
            table_remove(&mut self.takencare, (held.pos.x, 0, held.pos.y));
        }
        table_insert(&mut self.takencare, (coord.x, 0, coord.y), v as u32);
        self.chunks.set(v, ChunkFacade { geo_index: v, used: true, pos: coord });
    }
}

impl ChunkSystem {
    /// True when `other` differs from `self` at most in the geometry of
    /// the slots and in which of them are ready.
    pub open spec fn same_but_geometry(&self, other: &ChunkSystem) -> bool {
        &&& other.slots() == self.slots()
        &&& other.index() == self.index()
        &&& other.overrides() == self.overrides()
        &&& forall|t: Tier| other.pending(t) == self.pending(t)
        &&& other.spec_radius() == self.spec_radius()
        &&& other.spec_seed() == self.spec_seed()
        &&& other.spec_planet_type() == self.spec_planet_type()
        &&& other.spec_stage() == self.spec_stage()
        &&& other.last_viewer() == self.last_viewer()
        &&& other.since_check() == self.since_check()
    }

    /// True when the memo can be built into slot `index`: the slot is in
    /// use and holds the chunk that the memo was sampled for.
    pub open spec fn takes_memo(&self, index: usize, memo: &Memo) -> bool {
        &&& index < self.slots().len()
        &&& self.slots()[index as int].used
        &&& self.slots()[index as int].pos == memo.pos()
    }

    /// Rebuilds slot `index` from the sampled blocks of its chunk: the
    /// slot's streams are replaced by the mesh of the memo, and the slot
    /// joins the ready queue. The slot's chunk is in the index before and
    /// after. A memo that was sampled for another chunk than the slot
    /// holds, or a slot that holds none, is refused and nothing changes.
    pub fn rebuild_index(&mut self, index: usize, memo: &Memo) -> (built: bool)
        requires
            old(self).wf(),
        ensures
            final(self).wf(),
            old(self).same_but_geometry(final(self)),
            built == old(self).takes_memo(index, memo),
            final(self).geometry().len() == old(self).geometry().len(),
            forall|i: int|
                0 <= i < old(self).geometry().len() && !(built && i == index)
                    ==> final(self).geometry()[i] == old(self).geometry()[i],
            built ==> {
                &&& final(self).geometry()[index as int].streams() == mesh_of(memo@)
                &&& final(self).geometry()[index as int].pos == memo.pos()
                &&& final(self).geometry()[index as int].length == old(self)
                    .geometry()[index as int].length
                &&& final(self).geometry()[index as int].tlength == old(self)
                    .geometry()[index as int].tlength
                &&& final(self).ready() == old(self).ready().push(index)
                &&& final(self).slot_of(memo.pos()) == Some(index)
            },
            !built ==> final(self).ready() == old(self).ready(),
    {
        if index >= self.chunks.len() {
            return false;
        }
        let slot = self.chunks[index];
        if !slot.used || slot.pos != memo.pos() {
            return false;
        }
        mesh_into(memo, &mut self.geobank[index]);
        queue_push(&mut self.finished_geo_queue, index);
        true
    }

    /// Takes the oldest ready slot off the ready queue and notes its
    /// stream lengths as taken by the renderer.
    pub fn take_ready(&mut self) -> (note: Option<ReadyMesh>)
        requires
            old(self).wf(),
        ensures
            final(self).wf(),
            old(self).same_but_geometry(final(self)),
            final(self).geometry().len() == old(self).geometry().len(),
            match note {
                None => old(self).ready().len() == 0 && final(self).ready() == old(self).ready()
                    && final(self).geometry() == old(self).geometry(),
                Some(r) => {
                    let before = old(self).geometry()[r.geo_index as int];
                    let after = final(self).geometry()[r.geo_index as int];
                    &&& old(self).ready().len() > 0
                    &&& r.geo_index == old(self).ready()[0]
                    &&& final(self).ready() == old(self).ready().skip(1)
                    &&& r.newlength == before.data32@.len()
                    &&& r.newtlength == before.tdata32@.len()
                    &&& r.newpos == before.pos
                    &&& after.streams() == before.streams()
                    &&& after.pos == before.pos
                    &&& after.length == r.newlength
                    &&& after.tlength == r.newtlength
                    &&& forall|i: int|
                        0 <= i < old(self).geometry().len() && i != r.geo_index
                            ==> final(self).geometry()[i] == old(self).geometry()[i]
                },
            },
    {
        match queue_pop(&mut self.finished_geo_queue) {
            None => None,
            Some(index) => {
                let geo = &mut self.geobank[index];
                let newlength = geo.data32.len();
                let newtlength = geo.tdata32.len();
                geo.length = newlength;
                geo.tlength = newtlength;
                let newpos = geo.pos;
                Some(ReadyMesh { geo_index: index, newlength, newtlength, newpos })
            },
        }
    }

    /// The geometry of slot `index`.
    pub fn geo(&self, index: usize) -> (geo: Option<&ChunkGeo>)
        ensures
            match geo {
                Some(g) => index < self.geometry().len() && *g == self.geometry()[index as int],
                None => index >= self.geometry().len(),
            },
    {
        if index < self.geobank.len() {
            Some(&self.geobank[index])
        } else {
            None
        }
    }
}

/// A pool has fewer slots than a 32-bit number can count.
pub proof fn lemma_pool_size_fits(radius: u8)
    ensures
        pool_size(radius) <= 265225,
{
    assert((2 * radius + 5) * (2 * radius + 5) <= 515 * 515) by (nonlinear_arith)
        requires
            0 <= 2 * radius + 5 <= 515,
    ;
}

/// No two slots in use hold the same chunk, and the index gives each
/// resident chunk exactly the one slot that holds it.
pub proof fn lemma_no_double_claim(cs: ChunkSystem, i: int, j: int)
    requires
        cs.wf(),
        0 <= i < cs.slots().len(),
        0 <= j < cs.slots().len(),
        cs.slots()[i].used,
        cs.slots()[j].used,
        cs.slots()[i].pos == cs.slots()[j].pos,
    ensures
        i == j,
        cs.slot_of(cs.slots()[i].pos) == Some(i as usize),
{
}

} // verus!
