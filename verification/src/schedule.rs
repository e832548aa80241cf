//! The rebuild schedule: who asks for rebuilds, and in which order a pass
//! serves them.
//!
//! A pass serves every light request first. It then gives one turn each
//! to the user tier, the generation tier and the background tier, in that
//! order, and serves every light request again after each turn. The
//! worker asks for one request at a time, rebuilds, and asks again.

use vstd::prelude::*;
use crate::chunk::{
    beats, consistent, evictable, index_after_take, index_key, lemma_pool_size_fits,
    lemma_take_consistent, lemma_victim_upto, pool_size, slots_after_take, victim, ChunkFacade,
    ChunkSystem, RebuildRequest, Tier,
};
use crate::queue::{queue_pop, queue_push};
use crate::table::Key;
use crate::vec::{chunk_index, chunk_of, manhattan, IVec2, IVec3};

verus! {

/// The stage of a pass once `tier` has had its turn.
pub open spec fn stage_after(tier: Tier) -> u8 {
    match tier {
        Tier::Light => 0,
        Tier::User => 1,
        Tier::Gen => 2,
        Tier::Background => 3,
    }
}

/// The tier a request is queued at: light for a seam, else user for an
/// edit by the player, else background.
pub open spec fn tier_for(user_initiated: bool, light: bool) -> Tier {
    if light {
        Tier::Light
    } else if user_initiated {
        Tier::User
    } else {
        Tier::Background
    }
}

/// What is pending at each tier, oldest first, and how far the running
/// pass has come: stage 0 before the user tier has had its turn, 1 before
/// the generation tier, 2 before the background tier, 3 after it.
pub struct Schedule {
    pub light: Seq<usize>,
    pub user: Seq<usize>,
    pub gen: Seq<usize>,
    pub background: Seq<usize>,
    pub stage: u8,
}

impl Schedule {
    /// What is pending at a tier.
    pub open spec fn queue(self, tier: Tier) -> Seq<usize> {
        match tier {
            Tier::Light => self.light,
            Tier::User => self.user,
            Tier::Gen => self.gen,
            Tier::Background => self.background,
        }
    }

    /// The tier that the pass serves next: light while anything is
    /// pending there; else the first tier from the pass's stage on that
    /// has anything pending; none when the pass is over.
    pub open spec fn next_tier(self) -> Option<Tier> {
        if self.light.len() > 0 {
            Some(Tier::Light)
        } else if self.stage <= 0 && self.user.len() > 0 {
            Some(Tier::User)
        } else if self.stage <= 1 && self.gen.len() > 0 {
            Some(Tier::Gen)
        } else if self.stage <= 2 && self.background.len() > 0 {
            Some(Tier::Background)
        } else {
            None
        }
    }

    /// The request that the pass serves next: the oldest of the next
    /// tier.
    pub open spec fn request(self) -> Option<RebuildRequest> {
        match self.next_tier() {
            Some(tier) => Some(RebuildRequest { index: self.queue(tier)[0], tier }),
            None => None,
        }
    }

    /// The schedule once the next request has been taken off its queue.
    /// A light request leaves the stage as it is; a request of another
    /// tier uses up the turn of its tier and of the tiers before it;
    /// where there is no request the pass is over and the next begins.
    pub open spec fn served(self) -> Schedule {
        match self.next_tier() {
            Some(Tier::Light) => Schedule { light: self.light.skip(1), ..self },
            Some(Tier::User) => Schedule { user: self.user.skip(1), stage: 1, ..self },
            Some(Tier::Gen) => Schedule { gen: self.gen.skip(1), stage: 2, ..self },
            Some(Tier::Background) => Schedule {
                background: self.background.skip(1),
                stage: 3,
                ..self
            },
            None => Schedule { stage: 0, ..self },
        }
    }

    /// The schedule after `n` requests have been served, one after the
    /// other, while no new request came in.
    pub open spec fn after(self, n: nat) -> Schedule
        decreases n,
    {
        if n == 0 {
            self
        } else {
            self.after((n - 1) as nat).served()
        }
    }

    /// 1 where a queue holds anything, else 0.
    pub open spec fn turn(q: Seq<usize>) -> nat {
        if q.len() > 0 {
            1
        } else {
            0
        }
    }
}

/// What the viewport check changes: slots, index and the generation
/// queue.
pub struct Residency {
    pub slots: Seq<ChunkFacade>,
    pub index: Map<Key, u32>,
    pub gen: Seq<usize>,
}

/// The residency after the chunk at `coord` has been asked for: nothing
/// changes where it is resident or no slot may be taken; else the victim
/// is given to it and queued for generation.
pub open spec fn call_in(m: Residency, radius: u8, coord: IVec2, viewer: IVec2) -> Residency {
    if m.index.contains_key(index_key(coord)) {
        m
    } else {
        match victim(m.slots, viewer, radius) {
            Some(v) => Residency {
                slots: slots_after_take(m.slots, v, coord),
                index: index_after_take(m.slots, m.index, v, coord),
                gen: m.gen.push(v as usize),
            },
            None => m,
        }
    }
}

/// The number of rows of the window around the viewer, and of its
/// columns: the viewer's own and `radius` more on either side.
pub open spec fn window_width(radius: u8) -> nat {
    (2 * radius + 1) as nat
}

/// The chunk in row `row` and column `col` of the window around the
/// viewer: both count from 0 at `radius` chunks below the viewer's own,
/// up to `radius` chunks above it.
pub open spec fn window_cell(viewer: IVec2, radius: u8, row: int, col: int) -> IVec2 {
    IVec2 { x: (viewer.x - radius + row) as i32, y: (viewer.y - radius + col) as i32 }
}

/// The residency after the first `n` chunks of row `row` of the window
/// have been asked for.
pub open spec fn call_row(m: Residency, radius: u8, viewer: IVec2, row: int, n: nat) -> Residency
    decreases n,
{
    if n == 0 {
        m
    } else {
        call_in(
            call_row(m, radius, viewer, row, (n - 1) as nat),
            radius,
            window_cell(viewer, radius, row, n - 1),
            viewer,
        )
    }
}

/// The residency after the first `n` rows of the window have been asked
/// for.
pub open spec fn call_rows(m: Residency, radius: u8, viewer: IVec2, n: nat) -> Residency
    decreases n,
{
    if n == 0 {
        m
    } else {
        call_row(
            call_rows(m, radius, viewer, (n - 1) as nat),
            radius,
            viewer,
            n - 1,
            window_width(radius),
        )
    }
}

impl ChunkSystem {
    /// Slots, index and generation queue together.
    pub open spec fn residency(&self) -> Residency {
        Residency { slots: self.slots(), index: self.index(), gen: self.pending(Tier::Gen) }
    }

    /// What is pending, and the stage of the pass.
    pub open spec fn schedule(&self) -> Schedule {
        Schedule {
            light: self.pending(Tier::Light),
            user: self.pending(Tier::User),
            gen: self.pending(Tier::Gen),
            background: self.pending(Tier::Background),
            stage: self.spec_stage(),
        }
    }

    /// True when `other` differs from `self` at most in what is pending
    /// and in the stage of the pass.
    pub open spec fn same_but_schedule(&self, other: &ChunkSystem) -> bool {
        &&& other.slots() == self.slots()
        &&& other.index() == self.index()
        &&& other.geometry() == self.geometry()
        &&& other.overrides() == self.overrides()
        &&& other.ready() == self.ready()
        &&& other.spec_radius() == self.spec_radius()
        &&& other.spec_seed() == self.spec_seed()
        &&& other.spec_planet_type() == self.spec_planet_type()
        &&& other.last_viewer() == self.last_viewer()
        &&& other.since_check() == self.since_check()
    }

    /// True when `other` differs from `self` at most in slots, index,
    /// what is pending and the state of the viewport check.
    pub open spec fn same_but_residency_and_schedule(&self, other: &ChunkSystem) -> bool {
        &&& other.geometry() == self.geometry()
        &&& other.overrides() == self.overrides()
        &&& other.ready() == self.ready()
        &&& other.spec_radius() == self.spec_radius()
        &&& other.spec_seed() == self.spec_seed()
        &&& other.spec_planet_type() == self.spec_planet_type()
        &&& other.spec_stage() == self.spec_stage()
    }

    /// Queues a rebuild of slot `index` at `tier`. A number that names no
    /// slot is refused and nothing changes.
    pub fn request_rebuild(&mut self, index: usize, tier: Tier) -> (queued: bool)
        requires
            old(self).wf(),
        ensures
            final(self).wf(),
            old(self).same_but_schedule(final(self)),
            final(self).spec_stage() == old(self).spec_stage(),
            queued == (index < old(self).slots().len()),
            final(self).pending(tier) == (if queued {
                old(self).pending(tier).push(index)
            } else {
                old(self).pending(tier)
            }),
            forall|t: Tier| t != tier ==> final(self).pending(t) == old(self).pending(t),
    {
        if index >= self.chunks.len() {
            return false;
        }
        match tier {
            Tier::Light => queue_push(&mut self.light_rebuild_requests, index),
            Tier::User => queue_push(&mut self.user_rebuild_requests, index),
            Tier::Gen => queue_push(&mut self.gen_rebuild_requests, index),
            Tier::Background => queue_push(&mut self.background_rebuild_requests, index),
        }
        true
    }

    /// Queues a rebuild of the chunk at `key`, at the tier that
    /// [`tier_for`] gives. A chunk that is not resident has nothing to
    /// rebuild: nothing changes.
    pub fn queue_rerender_with_key(
        &mut self,
        key: IVec2,
        user_initiated: bool,
        light: bool,
    ) -> (queued: bool)
        requires
            old(self).wf(),
        ensures
            final(self).wf(),
            old(self).same_but_schedule(final(self)),
            final(self).spec_stage() == old(self).spec_stage(),
            queued == old(self).slot_of(key).is_some(),
            final(self).pending(tier_for(user_initiated, light)) == (match old(self).slot_of(key) {
                Some(s) => old(self).pending(tier_for(user_initiated, light)).push(s),
                None => old(self).pending(tier_for(user_initiated, light)),
            }),
            forall|t: Tier|
                t != tier_for(user_initiated, light) ==> final(self).pending(t) == old(self)
                    .pending(t),
    {
        let tier = if light {
            Tier::Light
        } else if user_initiated {
            Tier::User
        } else {
            Tier::Background
        };
        match self.resident(key) {
            Some(s) => self.request_rebuild(s, tier),
            None => false,
        }
    }

    /// The chunk column that holds the voxel at `spot`.
    pub fn spot_to_chunk_pos(spot: &IVec3) -> (pos: IVec2)
        ensures
            pos == spot.chunk(),
            pos.x == chunk_of(spot.x as int),
            pos.y == chunk_of(spot.z as int),
    {
        IVec2 { x: chunk_index(spot.x as i64), y: chunk_index(spot.z as i64) }
    }

    /// Gives slot `index` to the chunk at `cpos` and queues it for
    /// generation. Where the chunk is resident already, its own slot is
    /// queued instead and no slot changes hands. Where it is not and
    /// `index` names no slot, nothing changes.
    pub fn move_and_rebuild(&mut self, index: usize, cpos: IVec2) -> (slot: Option<usize>)
        requires
            old(self).wf(),
        ensures
            final(self).wf(),
            old(self).same_but_residency_and_schedule(final(self)),
            final(self).last_viewer() == old(self).last_viewer(),
            final(self).since_check() == old(self).since_check(),
            forall|t: Tier| t != Tier::Gen ==> final(self).pending(t) == old(self).pending(t),
            match old(self).slot_of(cpos) {
                Some(s) => {
                    &&& slot == Some(s)
                    &&& final(self).slots() == old(self).slots()
                    &&& final(self).index() == old(self).index()
                    &&& final(self).pending(Tier::Gen) == old(self).pending(Tier::Gen).push(s)
                },
                None => if index < old(self).slots().len() {
                    &&& slot == Some(index)
                    &&& final(self).slots() == slots_after_take(
                        old(self).slots(),
                        index as int,
                        cpos,
                    )
                    &&& final(self).index() == index_after_take(
                        old(self).slots(),
                        old(self).index(),
                        index as int,
                        cpos,
                    )
                    &&& final(self).pending(Tier::Gen) == old(self).pending(Tier::Gen).push(index)
                } else {
                    &&& slot.is_none()
                    &&& final(self).residency() == old(self).residency()
                },
            },
    {
        match self.resident(cpos) {
            Some(s) => {
                self.request_rebuild(s, Tier::Gen);
                Some(s)
            },
            None => {
                if index < self.chunks.len() {
                    self.take_slot(index, cpos);
                    self.request_rebuild(index, Tier::Gen);
                    Some(index)
                } else {
                    None
                }
            },
        }
    }

    /// Asks for one chunk of the window: takes a slot for it unless it is
    /// resident or none may be taken, and queues the slot taken for
    /// generation.
    fn call_in_chunk(&mut self, coord: IVec2, viewer: IVec2)
        requires
            old(self).wf(),
        ensures
            final(self).wf(),
            old(self).same_but_residency_and_schedule(final(self)),
            forall|t: Tier| t != Tier::Gen ==> final(self).pending(t) == old(self).pending(t),
            final(self).residency() == call_in(
                old(self).residency(),
                old(self).spec_radius(),
                coord,
                viewer,
            ),
            final(self).last_viewer() == old(self).last_viewer(),
            final(self).since_check() == old(self).since_check(),
    {
        if self.resident(coord).is_none() {
            if let Some(v) = self.acquire_or_reuse(coord, viewer) {
                self.request_rebuild(v, Tier::Gen);
            }
        }
    }

    /// The viewport check. It runs when the viewer has left the chunk of
    /// the last check and a second has gone by since: every chunk within
    /// the radius of the viewer's own, along either axis, that is not
    /// resident is then given a slot, row by row, and queued for
    /// generation, as far as slots may be taken. Otherwise the time gone by is counted up and nothing else
    /// changes. `elapsed_ms` is the time since the previous call.
    pub fn check_viewport(&mut self, viewer_spot: IVec3, elapsed_ms: u32) -> (ran: bool)
        requires
            old(self).wf(),
        ensures
            final(self).wf(),
            old(self).same_but_residency_and_schedule(final(self)),
            forall|t: Tier| t != Tier::Gen ==> final(self).pending(t) == old(self).pending(t),
            ran == (viewer_spot.chunk() != old(self).last_viewer() && old(self).since_check()
                >= 1000),
            ran ==> final(self).last_viewer() == viewer_spot.chunk() && final(self).since_check()
                == 0 && final(self).residency() == call_rows(
                old(self).residency(),
                old(self).spec_radius(),
                viewer_spot.chunk(),
                window_width(old(self).spec_radius()),
            ),
            !ran ==> {
                &&& final(self).last_viewer() == old(self).last_viewer()
                &&& final(self).residency() == old(self).residency()
                &&& final(self).since_check() == (if old(self).since_check() + elapsed_ms
                    > u32::MAX {
                    u32::MAX
                } else {
                    (old(self).since_check() + elapsed_ms) as u32
                })
            },
    {
        let viewer = Self::spot_to_chunk_pos(&viewer_spot);
        if viewer == self.last_user_c_pos || self.time_since_last_check < 1000 {
            self.time_since_last_check = if elapsed_ms > u32::MAX - self.time_since_last_check {
                u32::MAX
            } else {
                self.time_since_last_check + elapsed_ms
            };
            return false;
        }
        self.last_user_c_pos = viewer;
        self.time_since_last_check = 0;
        let width: i32 = 2 * (self.radius as i32) + 1;
        let low_x: i32 = viewer.x - self.radius as i32;
        let low_y: i32 = viewer.y - self.radius as i32;
        let ghost start = old(self).residency();
        let ghost radius = self.radius;
        let mut row: i32 = 0;
        while row < width
            invariant
                self.wf(),
                old(self).same_but_residency_and_schedule(self),
                forall|t: Tier| t != Tier::Gen ==> self.pending(t) == old(self).pending(t),
                self.spec_radius() == radius,
                self.last_viewer() == viewer,
                self.since_check() == 0,
                width == window_width(radius),
                low_x == viewer.x - radius,
                low_y == viewer.y - radius,
                viewer.x == chunk_of(viewer_spot.x as int),
                viewer.y == chunk_of(viewer_spot.z as int),
                0 <= row <= width,
                self.residency() == call_rows(start, radius, viewer, row as nat),
            decreases width - row,
        {
            let ghost row_start = self.residency();
            let mut col: i32 = 0;
            while col < width
                invariant
                    self.wf(),
                    old(self).same_but_residency_and_schedule(self),
                    forall|t: Tier| t != Tier::Gen ==> self.pending(t) == old(self).pending(t),
                    self.spec_radius() == radius,
                    self.last_viewer() == viewer,
                    self.since_check() == 0,
                    width == window_width(radius),
                    low_x == viewer.x - radius,
                    low_y == viewer.y - radius,
                    viewer.x == chunk_of(viewer_spot.x as int),
                    viewer.y == chunk_of(viewer_spot.z as int),
                    0 <= row < width,
                    0 <= col <= width,
                    self.residency() == call_row(row_start, radius, viewer, row as int, col as nat),
                decreases width - col,
            {
                let coord = IVec2 { x: low_x + row, y: low_y + col };
                self.call_in_chunk(coord, viewer);
                col = col + 1;
            }
            row = row + 1;
        }
        true
    }

    /// The next request of the running pass, taken off its queue; `None`
    /// when the pass is over, and the next call starts a new one.
    pub fn next_rebuild(&mut self) -> (request: Option<RebuildRequest>)
        requires
            old(self).wf(),
        ensures
            final(self).wf(),
            old(self).same_but_schedule(final(self)),
            request == old(self).schedule().request(),
            final(self).schedule() == old(self).schedule().served(),
    {
        if let Some(index) = queue_pop(&mut self.light_rebuild_requests) {
            return Some(RebuildRequest { index, tier: Tier::Light });
        }
        if self.stage == 0 {
            self.stage = 1;
            if let Some(index) = queue_pop(&mut self.user_rebuild_requests) {
                return Some(RebuildRequest { index, tier: Tier::User });
            }
        }
        if self.stage == 1 {
            self.stage = 2;
            if let Some(index) = queue_pop(&mut self.gen_rebuild_requests) {
                return Some(RebuildRequest { index, tier: Tier::Gen });
            }
        }
        if self.stage == 2 {
            self.stage = 3;
            if let Some(index) = queue_pop(&mut self.background_rebuild_requests) {
                return Some(RebuildRequest { index, tier: Tier::Background });
            }
        }
        self.stage = 0;
        None
    }
}

/// True when the chunk at `c` is resident in `m`.
pub open spec fn holds(m: Residency, c: IVec2) -> bool {
    m.index.contains_key(index_key(c))
}

/// Asking for a chunk never evicts a chunk within twice the radius of the
/// viewer, and gives no such chunk another slot.
pub proof fn lemma_call_in_keeps_near(
    m: Residency,
    radius: u8,
    coord: IVec2,
    viewer: IVec2,
    c: IVec2,
)
    requires
        consistent(m.slots, m.index),
        m.slots.len() <= u32::MAX,
        holds(m, c),
        manhattan(c, viewer) <= 2 * radius,
    ensures
        consistent(call_in(m, radius, coord, viewer).slots, call_in(m, radius, coord, viewer).index),
        call_in(m, radius, coord, viewer).slots.len() == m.slots.len(),
        holds(call_in(m, radius, coord, viewer), c),
        call_in(m, radius, coord, viewer).index[index_key(c)] == m.index[index_key(c)],
{
    if !m.index.contains_key(index_key(coord)) {
        lemma_victim_upto(m.slots, viewer, radius, m.slots.len());
        match victim(m.slots, viewer, radius) {
            Some(v) => {
                lemma_take_consistent(m.slots, m.index, v, coord);
                let held = m.index[index_key(c)] as int;
                assert(m.slots[held].used && index_key(m.slots[held].pos) == index_key(c));
                assert(m.slots[held].pos == c);
                assert(!evictable(m.slots[held], viewer, radius));
                assert(held != v);
                if m.slots[v].used {
                    assert(m.index[index_key(m.slots[v].pos)] == v);
                    assert(index_key(m.slots[v].pos) != index_key(c));
                }
            },
            None => {},
        }
    }
}

/// Asking for the chunks of a row of the window keeps slots and index in
/// agreement and every chunk within twice the radius of the viewer where
/// it is.
pub proof fn lemma_call_row_keeps_near(
    m: Residency,
    radius: u8,
    viewer: IVec2,
    row: int,
    n: nat,
    c: IVec2,
)
    requires
        consistent(m.slots, m.index),
        m.slots.len() <= u32::MAX,
        holds(m, c),
        manhattan(c, viewer) <= 2 * radius,
    ensures
        consistent(
            call_row(m, radius, viewer, row, n).slots,
            call_row(m, radius, viewer, row, n).index,
        ),
        call_row(m, radius, viewer, row, n).slots.len() == m.slots.len(),
        holds(call_row(m, radius, viewer, row, n), c),
        call_row(m, radius, viewer, row, n).index[index_key(c)] == m.index[index_key(c)],
    decreases n,
{
    if n > 0 {
        lemma_call_row_keeps_near(m, radius, viewer, row, (n - 1) as nat, c);
        lemma_call_in_keeps_near(
            call_row(m, radius, viewer, row, (n - 1) as nat),
            radius,
            window_cell(viewer, radius, row, n - 1),
            viewer,
            c,
        );
    }
}

/// The viewport check never takes a slot from a chunk that is within
/// twice the radius of the viewer, as every chunk of the window around
/// the viewer is: such a chunk is resident after the check if it was
/// before, in the slot it had. Slots and index agree throughout.
pub proof fn lemma_window_is_kept(m: Residency, radius: u8, viewer: IVec2, n: nat, c: IVec2)
    requires
        consistent(m.slots, m.index),
        m.slots.len() <= u32::MAX,
        holds(m, c),
        manhattan(c, viewer) <= 2 * radius,
    ensures
        consistent(call_rows(m, radius, viewer, n).slots, call_rows(m, radius, viewer, n).index),
        call_rows(m, radius, viewer, n).slots.len() == m.slots.len(),
        holds(call_rows(m, radius, viewer, n), c),
        call_rows(m, radius, viewer, n).index[index_key(c)] == m.index[index_key(c)],
    decreases n,
{
    if n > 0 {
        lemma_window_is_kept(m, radius, viewer, (n - 1) as nat, c);
        lemma_call_row_keeps_near(
            call_rows(m, radius, viewer, (n - 1) as nat),
            radius,
            viewer,
            n - 1,
            window_width(radius),
            c,
        );
    }
}

/// True when the slots in use are the first slots of the pool, one for
/// each chunk that is queued for generation: what a pool looks like
/// while its first window is being called in.
pub open spec fn packed(m: Residency) -> bool {
    &&& m.gen.len() <= m.slots.len()
    &&& forall|i: int|
        0 <= i < m.slots.len() ==> (#[trigger] m.slots[i]).used == (i < m.gen.len())
}

/// In a packed pool with a slot to spare, a chunk that is asked for is
/// resident afterwards: it was, or it is given the first empty slot. The
/// pool stays packed, at most one slot fuller, and no chunk leaves it.
pub proof fn lemma_call_in_fills(m: Residency, radius: u8, coord: IVec2, viewer: IVec2)
    requires
        consistent(m.slots, m.index),
        packed(m),
        m.gen.len() < m.slots.len() <= u32::MAX,
    ensures
        ({
            let a = call_in(m, radius, coord, viewer);
            &&& consistent(a.slots, a.index)
            &&& packed(a)
            &&& a.slots.len() == m.slots.len()
            &&& m.gen.len() <= a.gen.len() <= m.gen.len() + 1
            &&& holds(a, coord)
            &&& forall|c: IVec2| holds(m, c) ==> holds(a, c)
        }),
{
    if !m.index.contains_key(index_key(coord)) {
        lemma_victim_upto(m.slots, viewer, radius, m.slots.len());
        let first_empty = m.gen.len() as int;
        assert(evictable(m.slots[first_empty], viewer, radius));
        let v = victim(m.slots, viewer, radius).unwrap();
        // An empty slot beats every slot in use, and the earliest of the
        // empty slots is taken.
        if m.slots[v].used {
            assert(beats(m.slots[first_empty], m.slots[v], viewer));
        }
        if v > first_empty {
            assert(!beats(m.slots[v], m.slots[first_empty], viewer));
        }
        assert(v == first_empty);
        lemma_take_consistent(m.slots, m.index, v, coord);
    }
}

/// In a packed pool with slots to spare for a whole row of the window,
/// the first `n` chunks of the row are resident once they have been
/// asked for, and no chunk has left the pool.
pub proof fn lemma_call_row_fills(m: Residency, radius: u8, viewer: IVec2, row: int, n: nat)
    requires
        consistent(m.slots, m.index),
        packed(m),
        m.gen.len() + n <= m.slots.len() <= u32::MAX,
    ensures
        ({
            let a = call_row(m, radius, viewer, row, n);
            &&& consistent(a.slots, a.index)
            &&& packed(a)
            &&& a.slots.len() == m.slots.len()
            &&& m.gen.len() <= a.gen.len() <= m.gen.len() + n
            &&& forall|col: int|
                0 <= col < n ==> holds(a, #[trigger] window_cell(viewer, radius, row, col))
            &&& forall|c: IVec2| holds(m, c) ==> holds(a, c)
        }),
    decreases n,
{
    if n > 0 {
        lemma_call_row_fills(m, radius, viewer, row, (n - 1) as nat);
        let before = call_row(m, radius, viewer, row, (n - 1) as nat);
        lemma_call_in_fills(before, radius, window_cell(viewer, radius, row, n - 1), viewer);
    }
}

/// In a packed pool with slots to spare for `n` rows of the window, every
/// chunk of these rows is resident once they have been asked for, and no
/// chunk has left the pool.
pub proof fn lemma_call_rows_fill(m: Residency, radius: u8, viewer: IVec2, n: nat)
    requires
        consistent(m.slots, m.index),
        packed(m),
        m.gen.len() + n * window_width(radius) <= m.slots.len() <= u32::MAX,
    ensures
        ({
            let a = call_rows(m, radius, viewer, n);
            &&& consistent(a.slots, a.index)
            &&& packed(a)
            &&& a.slots.len() == m.slots.len()
            &&& m.gen.len() <= a.gen.len() <= m.gen.len() + n * window_width(radius)
            &&& forall|row: int, col: int|
                0 <= row < n && 0 <= col < window_width(radius) ==> holds(
                    a,
                    #[trigger] window_cell(viewer, radius, row, col),
                )
            &&& forall|c: IVec2| holds(m, c) ==> holds(a, c)
        }),
    decreases n,
{
    if n > 0 {
        let w = window_width(radius);
        assert(n * w == (n - 1) * w + w) by (nonlinear_arith);
        assert((n - 1) * w >= 0) by (nonlinear_arith)
            requires
                n >= 1,
                w >= 0,
        ;
        lemma_call_rows_fill(m, radius, viewer, (n - 1) as nat);
        let before = call_rows(m, radius, viewer, (n - 1) as nat);
        lemma_call_row_fills(before, radius, viewer, n - 1, w);
    }
}

/// The first viewport check fills the window: in a pool in which no slot
/// is in use and nothing is queued for generation, every chunk within
/// the radius of the viewer's own, along either axis, is resident once
/// the window has been called in. The pool has more slots than the
/// window has chunks.
pub proof fn lemma_first_check_fills_window(m: Residency, radius: u8, viewer: IVec2)
    requires
        consistent(m.slots, m.index),
        m.slots.len() == pool_size(radius),
        forall|i: int| 0 <= i < m.slots.len() ==> !(#[trigger] m.slots[i]).used,
        m.gen.len() == 0,
    ensures
        forall|row: int, col: int|
            0 <= row < window_width(radius) && 0 <= col < window_width(radius) ==> holds(
                call_rows(m, radius, viewer, window_width(radius)),
                #[trigger] window_cell(viewer, radius, row, col),
            ),
{
    let w = window_width(radius);
    lemma_pool_size_fits(radius);
    assert(w * w <= (2 * radius + 5) * (2 * radius + 5)) by (nonlinear_arith)
        requires
            w == 2 * radius + 1,
            radius >= 0,
    ;
    lemma_call_rows_fill(m, radius, viewer, w);
}

/// The same of a pool as it stands after [`ChunkSystem::new`],
/// [`ChunkSystem::reset`] or [`ChunkSystem::load_world`]: the viewport
/// check that runs on a bare pool leaves every chunk of the window
/// resident.
pub proof fn lemma_bare_pool_fills_window(
    cs: ChunkSystem,
    radius: u8,
    seed: u32,
    planet_type: u8,
    viewer: IVec2,
)
    requires
        cs.wf(),
        cs.is_bare(radius, seed, planet_type),
    ensures
        forall|row: int, col: int|
            0 <= row < window_width(radius) && 0 <= col < window_width(radius) ==> holds(
                call_rows(cs.residency(), radius, viewer, window_width(radius)),
                #[trigger] window_cell(viewer, radius, row, col),
            ),
{
    assert(cs.pending(Tier::Gen) == Seq::<usize>::empty());
    lemma_first_check_fills_window(cs.residency(), radius, viewer);
}

/// Every chunk of the window around the viewer is within twice the
/// radius of the viewer.
pub proof fn lemma_window_is_near(viewer: IVec2, radius: u8, row: int, col: int)
    requires
        0 <= row < window_width(radius),
        0 <= col < window_width(radius),
        i32::MIN + 255 <= viewer.x <= i32::MAX - 255,
        i32::MIN + 255 <= viewer.y <= i32::MAX - 255,
    ensures
        manhattan(window_cell(viewer, radius, row, col), viewer) <= 2 * radius,
{
}

/// A pass serves the tiers in strict order. A request of another tier
/// than light is served only when nothing is pending at the light tier.
/// Serving it moves the stage past its tier, so that within the pass no
/// request of its own tier or of a tier before it follows; and it is
/// served only if every tier between the stage and its own has nothing
/// pending.
pub proof fn lemma_strict_tier_order(s: Schedule)
    requires
        s.stage <= 3,
    ensures
        match s.request() {
            Some(r) => {
                &&& s.queue(r.tier).len() > 0
                &&& r.index == s.queue(r.tier)[0]
                &&& s.served().queue(r.tier) == s.queue(r.tier).skip(1)
                &&& forall|t: Tier| t != r.tier ==> s.served().queue(t) == s.queue(t)
                &&& r.tier != Tier::Light ==> s.light.len() == 0
                &&& r.tier != Tier::Light ==> s.stage < stage_after(r.tier) == s.served().stage
                &&& r.tier == Tier::Light ==> s.served().stage == s.stage
                &&& r.tier == Tier::Gen ==> s.stage == 1 || s.user.len() == 0
                &&& r.tier == Tier::Background ==> s.stage == 2 || (s.stage == 1 && s.gen.len()
                    == 0) || (s.stage == 0 && s.user.len() == 0 && s.gen.len() == 0)
            },
            None => s.light.len() == 0 && s.served().stage == 0 && forall|t: Tier|
                s.served().queue(t) == s.queue(t),
        },
{
}

/// While nothing else comes in, the light requests are served first, one
/// after the other and oldest first, and leave everything else as it is.
pub proof fn lemma_light_is_drained_first(s: Schedule, n: nat)
    requires
        n <= s.light.len(),
    ensures
        s.after(n) == (Schedule { light: s.light.skip(n as int), ..s }),
        n < s.light.len() ==> s.after(n).request() == Some(
            RebuildRequest { index: s.light[n as int], tier: Tier::Light },
        ),
    decreases n,
{
    if n > 0 {
        lemma_light_is_drained_first(s, (n - 1) as nat);
        let before = s.after((n - 1) as nat);
        assert(before.light.skip(1) =~= s.light.skip(n as int));
    } else {
        assert(s.light.skip(0) =~= s.light);
    }
}

/// Every pass reaches the background tier. Take a pass at its start, and
/// let nothing come in while it runs: once the light requests are served,
/// and one user request and one generation request if there are any, the
/// oldest background request is served. No generation request is served
/// before every light request that was pending and one user request, if
/// there was one.
pub proof fn lemma_pass_reaches_every_tier(s: Schedule)
    requires
        s.stage == 0,
    ensures
        ({
            let lights = s.light.len();
            let users = Schedule::turn(s.user);
            let gens = Schedule::turn(s.gen);
            &&& forall|n: nat|
                n < lights ==> (#[trigger] s.after(n)).request() == Some(
                    RebuildRequest { index: s.light[n as int], tier: Tier::Light },
                )
            &&& s.user.len() > 0 ==> s.after(lights).request() == Some(
                RebuildRequest { index: s.user[0], tier: Tier::User },
            )
            &&& s.gen.len() > 0 ==> s.after(lights + users).request() == Some(
                RebuildRequest { index: s.gen[0], tier: Tier::Gen },
            )
            &&& s.background.len() > 0 ==> s.after(lights + users + gens).request() == Some(
                RebuildRequest { index: s.background[0], tier: Tier::Background },
            )
            &&& s.after(lights + users + gens + Schedule::turn(s.background)).request().is_none()
        }),
{
    let lights = s.light.len();
    let users = Schedule::turn(s.user);
    let gens = Schedule::turn(s.gen);
    let backs = Schedule::turn(s.background);
    assert forall|n: nat| n < lights implies (#[trigger] s.after(n)).request() == Some(
        RebuildRequest { index: s.light[n as int], tier: Tier::Light },
    ) by {
        lemma_light_is_drained_first(s, n);
    }
    lemma_light_is_drained_first(s, lights);
}

} // verus!
