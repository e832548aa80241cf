use voxelland::chunk::{ChunkGeo, ChunkSystem, NOWHERE};
use voxelland::vec::{IVec2, IVec3};

fn claims(cs: &ChunkSystem) -> Vec<(usize, IVec2)> {
    let mut out = Vec::new();
    for i in 0..cs.slot_count() {
        let slot = cs.slot(i).unwrap();
        assert_eq!(slot.geo_index, i);
        if slot.used {
            out.push((i, slot.pos));
        }
    }
    out
}

fn assert_one_to_one(cs: &ChunkSystem) {
    let used = claims(cs);
    for a in 0..used.len() {
        for b in (a + 1)..used.len() {
            assert_ne!(used[a].1, used[b].1, "two slots hold one chunk");
        }
        assert_eq!(cs.resident(used[a].1), Some(used[a].0));
    }
}

#[test]
fn pool_has_the_square_of_twice_the_radius_and_five() {
    assert_eq!(ChunkSystem::new(0, 0, 0).slot_count(), 25);
    assert_eq!(ChunkSystem::new(1, 0, 0).slot_count(), 49);
    assert_eq!(ChunkSystem::new(10, 0, 0).slot_count(), 625);
    assert_eq!(ChunkSystem::new(255, 0, 0).slot_count(), 265225);
}

#[test]
fn new_pool_is_empty() {
    let cs = ChunkSystem::new(2, 77, 1);
    assert_eq!(cs.radius(), 2);
    assert_eq!(cs.seed(), 77);
    assert_eq!(cs.planet_type(), 1);
    for i in 0..cs.slot_count() {
        let slot = cs.slot(i).unwrap();
        assert!(!slot.used);
        assert_eq!(slot.pos, IVec2::new(NOWHERE, NOWHERE));
        let geo = cs.geo(i).unwrap();
        assert!(geo.data32.is_empty() && geo.data8.is_empty());
        assert!(geo.tdata32.is_empty() && geo.tdata8.is_empty());
        assert_eq!(geo.pos, IVec2::new(NOWHERE, NOWHERE));
        assert_eq!((geo.length, geo.tlength), (0, 0));
    }
    assert_eq!(cs.slot(cs.slot_count()), None);
    assert!(cs.geo(cs.slot_count()).is_none());
    assert_eq!(cs.resident(IVec2::new(0, 0)), None);
}

#[test]
fn geometry_starts_empty_and_clears() {
    let mut geo = ChunkGeo::new();
    assert_eq!(geo.pos, IVec2::new(999999, 999999));
    geo.data32.push(1);
    geo.data8.push(2);
    geo.tdata32.push(3);
    geo.tdata8.push(4);
    geo.length = 9;
    assert_eq!(geo.solids().0.len(), 1);
    assert_eq!(geo.transparents().1[0], 4);
    geo.clear();
    assert!(geo.solids().0.is_empty() && geo.solids().1.is_empty());
    assert!(geo.transparents().0.is_empty() && geo.transparents().1.is_empty());
    assert_eq!(geo.length, 9);
}

#[test]
fn acquire_takes_the_first_empty_slot() {
    let mut cs = ChunkSystem::new(1, 0, 0);
    let viewer = IVec2::new(0, 0);
    assert_eq!(cs.acquire_or_reuse(IVec2::new(4, 5), viewer), Some(0));
    assert_eq!(cs.acquire_or_reuse(IVec2::new(4, 6), viewer), Some(1));
    assert_eq!(cs.acquire_or_reuse(IVec2::new(-4, 6), viewer), Some(2));
    let slot = cs.slot(1).unwrap();
    assert!(slot.used);
    assert_eq!(slot.pos, IVec2::new(4, 6));
    assert_eq!(cs.resident(IVec2::new(-4, 6)), Some(2));
    assert_one_to_one(&cs);
}

#[test]
fn acquire_of_a_resident_chunk_gives_its_slot_back() {
    let mut cs = ChunkSystem::new(1, 0, 0);
    let viewer = IVec2::new(0, 0);
    let first = cs.acquire_or_reuse(IVec2::new(1, 1), viewer);
    cs.acquire_or_reuse(IVec2::new(2, 2), viewer);
    let again = cs.acquire_or_reuse(IVec2::new(1, 1), viewer);
    assert_eq!(first, again);
    assert_eq!(claims(&cs).len(), 2);
}

#[test]
fn acquire_never_queues_a_rebuild() {
    let mut cs = ChunkSystem::new(1, 0, 0);
    cs.acquire_or_reuse(IVec2::new(1, 1), IVec2::new(0, 0));
    assert_eq!(cs.next_rebuild(), None);
}

#[test]
fn full_pool_evicts_the_farthest_chunk() {
    let mut cs = ChunkSystem::new(0, 0, 0);
    let viewer = IVec2::new(0, 0);
    for n in 0..25 {
        assert_eq!(cs.acquire_or_reuse(IVec2::new(n + 1, 0), viewer), Some(n as usize));
    }
    // Every slot is in use; the chunk at (25, 0) is the farthest.
    assert_eq!(cs.choose_victim(viewer), Some(24));
    assert_eq!(cs.acquire_or_reuse(IVec2::new(0, 1), viewer), Some(24));
    assert_eq!(cs.resident(IVec2::new(25, 0)), None);
    assert_eq!(cs.resident(IVec2::new(0, 1)), Some(24));
    // Seen from (30, 0) the farthest is the newcomer at (0, 1).
    assert_eq!(cs.choose_victim(IVec2::new(30, 0)), Some(24));
    assert_one_to_one(&cs);
}

#[test]
fn of_equally_far_chunks_the_earlier_slot_goes() {
    let mut cs = ChunkSystem::new(0, 0, 0);
    let viewer = IVec2::new(0, 0);
    for n in 0..23 {
        cs.acquire_or_reuse(IVec2::new(n + 1, 0), viewer);
    }
    cs.acquire_or_reuse(IVec2::new(0, 40), viewer);
    cs.acquire_or_reuse(IVec2::new(40, 0), viewer);
    assert_eq!(cs.choose_victim(viewer), Some(23));
}

#[test]
fn chunk_at_twice_the_radius_is_not_evicted() {
    let mut cs = ChunkSystem::new(10, 0, 0);
    let viewer = IVec2::new(0, 0);
    let mut taken = 0;
    'fill: for x in -20i32..=20 {
        for y in -20i32..=20 {
            if x.abs() + y.abs() <= 20 {
                assert_eq!(cs.acquire_or_reuse(IVec2::new(x, y), viewer), Some(taken));
                taken += 1;
                if taken == 625 {
                    break 'fill;
                }
            }
        }
    }
    assert_eq!(taken, 625);
    // The pool is packed with chunks no farther than twice the radius.
    assert_eq!(cs.choose_victim(viewer), None);
    assert_eq!(cs.acquire_or_reuse(IVec2::new(100, 100), viewer), None);
    assert_eq!(cs.resident(IVec2::new(100, 100)), None);
    assert_eq!(claims(&cs).len(), 625);
    // One step away the far corner is farther than twice the radius.
    assert!(cs.choose_victim(IVec2::new(1, 0)).is_some());
    assert_one_to_one(&cs);
}

#[test]
fn no_two_slots_hold_one_chunk_while_the_viewer_moves() {
    let mut cs = ChunkSystem::new(1, 0, 0);
    let mut state: u32 = 12345;
    for step in 0..400 {
        state = state.wrapping_mul(1664525).wrapping_add(1013904223);
        let x = ((state >> 8) % 9) as i32 - 4 + step / 20;
        let y = ((state >> 16) % 9) as i32 - 4;
        let viewer = IVec2::new(step / 20, 0);
        let before = cs.resident(IVec2::new(x, y));
        let got = cs.acquire_or_reuse(IVec2::new(x, y), viewer);
        if before.is_some() {
            assert_eq!(got, before);
        }
        if let Some(slot) = got {
            assert_eq!(cs.slot(slot).unwrap().pos, IVec2::new(x, y));
            assert_eq!(cs.resident(IVec2::new(x, y)), Some(slot));
        }
        assert_one_to_one(&cs);
    }
}

#[test]
fn move_and_rebuild_gives_the_named_slot_and_queues_generation() {
    let mut cs = ChunkSystem::new(1, 0, 0);
    assert_eq!(cs.move_and_rebuild(7, IVec2::new(3, 3)), Some(7));
    assert_eq!(cs.resident(IVec2::new(3, 3)), Some(7));
    // The chunk is resident now: its own slot is queued, slot 9 stays empty.
    assert_eq!(cs.move_and_rebuild(9, IVec2::new(3, 3)), Some(7));
    assert!(!cs.slot(9).unwrap().used);
    // Moving the slot on drops the old chunk from the index.
    assert_eq!(cs.move_and_rebuild(7, IVec2::new(4, 4)), Some(7));
    assert_eq!(cs.resident(IVec2::new(3, 3)), None);
    assert_eq!(cs.move_and_rebuild(49, IVec2::new(5, 5)), None);
    let mut served = Vec::new();
    while let Some(r) = cs.next_rebuild() {
        served.push(r.index);
    }
    assert_eq!(served, vec![7]);
    assert_one_to_one(&cs);
}

#[test]
fn spot_to_chunk_pos_rounds_down() {
    let at = |x: i32, z: i32| ChunkSystem::spot_to_chunk_pos(&IVec3::new(x, 64, z));
    assert_eq!(at(0, 0), IVec2::new(0, 0));
    assert_eq!(at(14, 15), IVec2::new(0, 1));
    assert_eq!(at(-1, -15), IVec2::new(-1, -1));
    assert_eq!(at(-16, 29), IVec2::new(-2, 1));
    assert_eq!(at(i32::MAX, i32::MIN), IVec2::new(143165576, -143165577));
}

#[test]
fn distance_is_manhattan() {
    assert_eq!(IVec2::new(3, -4).distance(IVec2::new(-1, 2)), 10);
    assert_eq!(IVec2::new(i32::MIN, i32::MIN).distance(IVec2::new(i32::MAX, i32::MAX)), 8589934590);
}
