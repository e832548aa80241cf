use voxelland::blockinfo::Blocks;
use voxelland::chunk::ChunkGeo;
use voxelland::cube::{Cube, CubeSide};
use voxelland::mesher::{mesh_into, Memo, MEMO_CELLS};
use voxelland::packedvertex::{PackedVertex, Vertex};
use voxelland::vec::{IVec2, IVec3};

fn cell(i: i32, j: i32, k: i32) -> usize {
    (((i + 1) * 17 + (k + 1)) * 130 + (j + 1)) as usize
}

fn memo_of(blocks: &[((i32, i32, i32), u32)]) -> Memo {
    let mut cells = vec![0u32; MEMO_CELLS];
    for ((i, j, k), b) in blocks {
        cells[cell(*i, *j, *k)] = *b;
    }
    Memo::from_cells(IVec2::new(3, -2), cells).unwrap()
}

fn mesh(blocks: &[((i32, i32, i32), u32)]) -> ChunkGeo {
    let mut geo = ChunkGeo::new();
    mesh_into(&memo_of(blocks), &mut geo);
    assert_eq!(geo.data32.len(), geo.data8.len());
    assert_eq!(geo.tdata32.len(), geo.tdata8.len());
    assert_eq!(geo.data32.len() % 6, 0);
    assert_eq!(geo.tdata32.len() % 6, 0);
    geo
}

fn opaque_vertices(geo: &ChunkGeo) -> Vec<Vertex> {
    geo.data32.iter().zip(geo.data8.iter()).map(|(w, c)| PackedVertex::unpack(*w, *c)).collect()
}

fn transparent_vertices(geo: &ChunkGeo) -> Vec<Vertex> {
    geo.tdata32.iter().zip(geo.tdata8.iter()).map(|(w, c)| PackedVertex::unpack(*w, *c)).collect()
}

#[test]
fn memo_needs_all_its_cells() {
    assert!(Memo::from_cells(IVec2::new(0, 0), vec![0; MEMO_CELLS - 1]).is_none());
    assert!(Memo::from_cells(IVec2::new(0, 0), vec![0; MEMO_CELLS + 1]).is_none());
    assert!(Memo::from_cells(IVec2::new(0, 0), Vec::new()).is_none());
    let memo = Memo::from_cells(IVec2::new(4, 5), vec![7; MEMO_CELLS]).unwrap();
    assert_eq!(memo.pos(), IVec2::new(4, 5));
    assert_eq!(memo.cells().len(), 37570);
    assert_eq!(MEMO_CELLS, 17 * 17 * 130);
}

#[test]
fn empty_chunk_has_no_geometry() {
    let geo = mesh(&[]);
    assert!(geo.data32.is_empty() && geo.tdata32.is_empty());
    assert_eq!(geo.pos, IVec2::new(3, -2));
}

#[test]
fn blocks_of_the_ring_are_not_drawn() {
    let geo = mesh(&[((-1, 5, 5), 5), ((15, 5, 5), 5), ((5, -1, 5), 5), ((5, 128, 5), 5), ((5, 5, 15), 5)]);
    assert!(geo.data32.is_empty() && geo.tdata32.is_empty());
}

#[test]
fn lone_stone_block_shows_six_unshaded_faces() {
    let geo = mesh(&[((4, 10, 7), 5)]);
    assert!(geo.tdata32.is_empty());
    let v = opaque_vertices(&geo);
    assert_eq!(v.len(), 36);
    // Faces come in the order left, right, bottom, top, back, front.
    let lights = [14u8, 14, 10, 16, 12, 12];
    for face in 0..6 {
        for index in 0..6 {
            let t = v[face * 6 + index];
            assert_eq!(t.corner as usize, index);
            assert_eq!(t.side as usize, face);
            assert_eq!(t.al, lights[face]);
            assert_eq!(t.bl, 0);
            assert_eq!((t.u, t.v), (5, 0));
            assert!(t.x == 4 || t.x == 5);
            assert!(t.y == 10 || t.y == 11);
            assert!(t.z == 7 || t.z == 8);
        }
    }
    assert!(v[0..6].iter().all(|t| t.x == 4));
    assert!(v[6..12].iter().all(|t| t.x == 5));
    assert!(v[12..18].iter().all(|t| t.y == 10));
    assert!(v[18..24].iter().all(|t| t.y == 11));
    assert!(v[24..30].iter().all(|t| t.z == 7));
    assert!(v[30..36].iter().all(|t| t.z == 8));
}

#[test]
fn a_face_is_two_triangles_over_four_corners() {
    let geo = mesh(&[((0, 0, 0), 5)]);
    let v = opaque_vertices(&geo);
    // Top face.
    let top: Vec<(u8, u8, u8)> = v[18..24].iter().map(|t| (t.x, t.y, t.z)).collect();
    assert_eq!(top, vec![(0, 1, 0), (1, 1, 0), (1, 1, 1), (1, 1, 1), (0, 1, 1), (0, 1, 0)]);
    // Bottom face, walked the other way round.
    let bottom: Vec<(u8, u8, u8)> = v[12..18].iter().map(|t| (t.x, t.y, t.z)).collect();
    assert_eq!(bottom, vec![(0, 0, 1), (1, 0, 1), (1, 0, 0), (1, 0, 0), (0, 0, 0), (0, 0, 1)]);
}

#[test]
fn faces_between_two_opaque_blocks_are_hidden() {
    let geo = mesh(&[((4, 10, 7), 5), ((5, 10, 7), 4)]);
    assert_eq!(geo.data32.len(), 10 * 6);
    let v = opaque_vertices(&geo);
    // Voxels are walked x outermost: the first five faces are the stone's.
    assert!(v[0..30].iter().all(|t| (t.u, t.v) == (5, 0)));
    assert!(v[30..60].iter().all(|t| (t.u, t.v) == (4, 0)));
    // The stone has no right face, the dirt no left face.
    assert!(v[0..30].iter().filter(|t| t.x == 5).count() < 4 * 2 * 6);
    assert!(v[6..12].iter().all(|t| t.y == 10));
}

#[test]
fn voxels_are_walked_x_then_z_then_y() {
    let geo = mesh(&[((2, 9, 0), 1), ((2, 4, 1), 4), ((2, 3, 0), 5), ((1, 100, 14), 6)]);
    let v = opaque_vertices(&geo);
    let order: Vec<u8> = (0..4).map(|b| v[b * 36].u).collect();
    assert_eq!(order, vec![6, 5, 1, 4]);
}

#[test]
fn opaque_block_shows_faces_towards_anything_see_through() {
    // Stone with water on the left, glass on the right, leaves on top,
    // a bush underneath, stone at the back and air in front.
    let geo = mesh(&[
        ((4, 10, 7), 5),
        ((3, 10, 7), 2),
        ((5, 10, 7), 8),
        ((4, 11, 7), 7),
        ((4, 9, 7), 11),
        ((4, 10, 6), 5),
    ]);
    let stone: Vec<Vertex> =
        opaque_vertices(&geo).into_iter().filter(|t| (t.u, t.v) == (5, 0)).collect();
    // Five faces of the middle stone and five of the stone behind it.
    assert_eq!(stone.len(), 60);
}

#[test]
fn see_through_blocks_go_to_the_transparent_stream() {
    let geo = mesh(&[((4, 10, 7), 8)]);
    assert!(geo.data32.is_empty());
    let v = transparent_vertices(&geo);
    assert_eq!(v.len(), 36);
    assert!(v.iter().all(|t| (t.u, t.v) == (8, 0)));
    // Transparent faces are not shaded by their corners.
    assert_eq!(v[18].al, 16);
}

#[test]
fn water_shows_a_seam_towards_glass_but_not_towards_water() {
    // Water with glass on the right and water on the left.
    let geo = mesh(&[((3, 10, 7), 2), ((4, 10, 7), 2), ((5, 10, 7), 8)]);
    let v = transparent_vertices(&geo);
    let water: Vec<&Vertex> = v.iter().filter(|t| (t.u, t.v) == (2, 0)).collect();
    let glass: Vec<&Vertex> = v.iter().filter(|t| (t.u, t.v) == (8, 0)).collect();
    // Left water: five faces (none towards the water). Middle water: four
    // towards air and one towards the glass.
    assert_eq!(water.len(), (5 + 5) * 6);
    // Glass is no liquid: it shows no face towards the water.
    assert_eq!(glass.len(), 5 * 6);
}

#[test]
fn see_through_blocks_show_faces_towards_foliage_only() {
    // Glass next to leaves, and glass next to stone.
    let geo = mesh(&[((4, 10, 7), 8), ((5, 10, 7), 7), ((4, 20, 7), 8), ((5, 20, 7), 5)]);
    let v = transparent_vertices(&geo);
    let glass = v.iter().filter(|t| (t.u, t.v) == (8, 0)).count();
    let leaves = v.iter().filter(|t| (t.u, t.v) == (7, 0)).count();
    assert_eq!(glass, (6 + 5) * 6);
    // Leaves show no face towards glass, which is transparent and no foliage.
    assert_eq!(leaves, 5 * 6);
    // The stone shows its face towards the glass.
    assert_eq!(geo.data32.len(), 6 * 6);
}

fn faces_of(geo: &ChunkGeo, block: u8) -> Vec<Vertex> {
    opaque_vertices(geo).into_iter().filter(|t| (t.u, t.v) == (block, 0)).collect()
}

#[test]
fn corners_are_darkened_by_the_blocks_around_them() {
    // A floor block of sand with one block on its top's edge and one on a corner.
    let geo = mesh(&[((4, 10, 7), 1), ((5, 11, 7), 5), ((3, 11, 6), 5)]);
    let floor = faces_of(&geo, 1);
    assert_eq!(floor.len(), 36);
    let face: Vec<(u8, u8, u8, u8)> =
        floor[18..24].iter().map(|t| (t.x, t.y, t.z, t.al)).collect();
    // Corner (4, 7) touches the block on the corner only: one occluder.
    // Corners (5, 7) and (5, 8) touch the block on the edge: one occluder.
    // Corner (4, 8) touches nothing.
    assert_eq!(
        face,
        vec![
            (4, 11, 7, 12),
            (5, 11, 7, 12),
            (5, 11, 8, 12),
            (5, 11, 8, 12),
            (4, 11, 8, 16),
            (4, 11, 7, 12)
        ]
    );
}

#[test]
fn brightness_falls_off_with_the_number_of_occluders() {
    for (blocks, light) in [
        (vec![], 16u8),
        (vec![(5, 11, 7)], 12),
        (vec![(5, 11, 7), (4, 11, 8)], 10),
        (vec![(5, 11, 7), (4, 11, 8), (5, 11, 8)], 8),
    ] {
        let mut all = vec![((4, 10, 7), 1u32)];
        for b in &blocks {
            all.push((*b, 4));
        }
        let geo = mesh(&all);
        let floor = faces_of(&geo, 1);
        assert_eq!(floor.len(), 36);
        // Vertex 2 of the top face of the floor block is its corner (5, 8).
        let t = floor[18 + 2];
        assert_eq!((t.x, t.y, t.z, t.corner), (5, 11, 8, 2));
        assert_eq!(t.al, light);
    }
}

#[test]
fn side_faces_are_darkened_from_their_own_base() {
    // A block beside the floor block's left face, one step down and back.
    let geo = mesh(&[((4, 10, 7), 1), ((3, 9, 6), 5), ((3, 9, 7), 5)]);
    let floor = faces_of(&geo, 1);
    assert_eq!(floor.len(), 36);
    let left: Vec<(u8, u8, u8)> = floor[0..6].iter().map(|t| (t.y, t.z, t.al)).collect();
    // Corner (10, 7) has two occluders, corner (10, 8) one; the upper corners none.
    assert_eq!(
        left,
        vec![(11, 7, 14), (11, 8, 14), (10, 8, 10), (10, 8, 10), (10, 7, 8), (11, 7, 14)]
    );
}

#[test]
fn what_flows_casts_no_shade() {
    let geo = mesh(&[((4, 10, 7), 1), ((5, 11, 8), 2)]);
    let floor = faces_of(&geo, 1);
    assert_eq!(floor[18 + 2].al, 16);
    // Glass and foliage are solid and do.
    for block in [8u32, 7, 11, 5] {
        let geo = mesh(&[((4, 10, 7), 1), ((5, 11, 8), block)]);
        let floor = faces_of(&geo, 1);
        assert_eq!(floor[18 + 2].al, 12);
        assert_eq!(floor[18 + 4].al, 16);
    }
}

#[test]
fn grass_has_its_own_top_and_bottom() {
    let geo = mesh(&[((4, 10, 7), 3)]);
    let v = opaque_vertices(&geo);
    assert_eq!((v[0].u, v[0].v), (3, 0));
    assert_eq!((v[12].u, v[12].v), (4, 0));
    assert_eq!((v[18].u, v[18].v), (3, 1));
    assert_eq!(Blocks::get_tex_coords(3, CubeSide::FRONT), (3, 0));
    assert_eq!(Blocks::get_tex_coords(11, CubeSide::TOP), (11, 0));
    assert_eq!(Blocks::get_tex_coords(12, CubeSide::TOP), (15, 15));
    assert_eq!(Blocks::get_tex_coords(u32::MAX, CubeSide::LEFT), (15, 15));
}

#[test]
fn block_classes() {
    assert!(Blocks::is_transparent(2) && Blocks::is_transparent(8));
    assert!(Blocks::is_semi_transparent(7) && Blocks::is_semi_transparent(11));
    assert!(Blocks::is_liquid(2) && !Blocks::is_liquid(8));
    for id in [0u32, 1, 3, 4, 5, 6, 9, 10, 12, 100] {
        assert!(!Blocks::is_transparent(id) && !Blocks::is_semi_transparent(id));
    }
}

#[test]
fn faces_on_the_chunk_border_look_into_the_ring() {
    // A block in the corner of the chunk with ring blocks on two sides.
    let geo = mesh(&[((0, 0, 0), 5), ((-1, 0, 0), 5), ((0, -1, 0), 5)]);
    assert_eq!(geo.data32.len(), 4 * 6);
    let geo = mesh(&[((14, 127, 14), 5), ((15, 127, 14), 5), ((14, 128, 14), 5), ((14, 127, 15), 2)]);
    assert_eq!(geo.data32.len(), 4 * 6);
    let v = opaque_vertices(&geo);
    assert!(v.iter().any(|t| t.x == 15 && t.y == 128 && t.z == 15));
}

#[test]
fn rebuilding_twice_gives_the_same_bytes() {
    let blocks: Vec<((i32, i32, i32), u32)> = (0..600)
        .map(|n: i32| (((n * 7) % 17 - 1, (n * 13) % 130 - 1, (n * 5) % 17 - 1), (n % 12) as u32))
        .collect();
    let a = mesh(&blocks);
    let mut b = ChunkGeo::new();
    b.data32.push(99);
    b.tdata8.push(99);
    mesh_into(&memo_of(&blocks), &mut b);
    assert!(!a.data32.is_empty() && !a.tdata32.is_empty());
    assert_eq!(a.data32, b.data32);
    assert_eq!(a.data8, b.data8);
    assert_eq!(a.tdata32, b.tdata32);
    assert_eq!(a.tdata8, b.tdata8);
}

#[test]
fn meshing_leaves_the_taken_lengths_alone() {
    let mut geo = ChunkGeo::new();
    geo.length = 12;
    geo.tlength = 6;
    mesh_into(&memo_of(&[((1, 1, 1), 5)]), &mut geo);
    assert_eq!((geo.length, geo.tlength), (12, 6));
    assert_eq!(geo.data32.len(), 36);
}

#[test]
fn full_chunk_of_stone_shows_its_hull_only() {
    let mut cells = vec![0u32; MEMO_CELLS];
    for i in 0..15 {
        for k in 0..15 {
            for j in 0..128 {
                cells[cell(i, j, k)] = 5;
            }
        }
    }
    let memo = Memo::from_cells(IVec2::new(0, 0), cells).unwrap();
    let mut geo = ChunkGeo::new();
    mesh_into(&memo, &mut geo);
    let faces = 2 * 15 * 15 + 4 * 15 * 128;
    assert_eq!(geo.data32.len(), faces * 6);
    assert!(geo.tdata32.is_empty());
}

fn vertex(x: u8, y: u8, z: u8, corner: u8, side: u8, al: u8, bl: u8, u: u8, v: u8) -> Vertex {
    Vertex { x, y, z, corner, side, al, bl, u, v }
}

#[test]
fn pack_keeps_every_field() {
    let (word, cell) = PackedVertex::pack(vertex(15, 255, 15, 7, 7, 31, 15, 15, 15));
    assert_eq!(word, 0xffff_fffe);
    assert_eq!(cell, 0xff);
    let (word, cell) = PackedVertex::pack(vertex(1, 2, 3, 4, 5, 6, 7, 8, 9));
    assert_eq!(
        word,
        (1 << 28) | (2 << 20) | (3 << 16) | (4 << 13) | (6 << 8) | (7 << 4) | (5 << 1)
    );
    assert_eq!(cell, 0x89);
    assert_eq!(PackedVertex::pack(vertex(0, 0, 0, 0, 0, 0, 0, 0, 0)), (0, 0));
}

#[test]
fn unpack_undoes_pack() {
    for x in 0..16u8 {
        for y in [0u8, 1, 2, 63, 64, 127, 128, 200, 255] {
            for z in 0..16u8 {
                for corner in 0..8u8 {
                    for al in [0u8, 1, 8, 15, 16, 17, 31] {
                        for bl in [0u8, 9, 15] {
                            let u = (x + corner) % 16;
                            let v = (z + al) % 16;
                            let side = (y + corner) % 8;
                            let t = vertex(x, y, z, corner, side, al, bl, u, v);
                            let (word, cell) = PackedVertex::pack(t);
                            assert_eq!(PackedVertex::unpack(word, cell), t);
                        }
                    }
                }
            }
        }
    }
}

#[test]
fn every_word_and_byte_unpack_to_fields_that_pack_again() {
    let mut state: u32 = 0x1234_5678;
    for _ in 0..100_000 {
        state ^= state << 13;
        state ^= state >> 17;
        state ^= state << 5;
        let t = PackedVertex::unpack(state, (state >> 9) as u8);
        let (word, cell) = PackedVertex::pack(t);
        // All but the one bit that stays clear comes back.
        assert_eq!(word, state & !1);
        assert_eq!(cell, (state >> 9) as u8);
    }
}

#[test]
fn cube_tables() {
    let n = Cube::get_neighbors();
    assert_eq!(n[0], IVec3::new(-1, 0, 0));
    assert_eq!(n[1], IVec3::new(1, 0, 0));
    assert_eq!(n[2], IVec3::new(0, -1, 0));
    assert_eq!(n[3], IVec3::new(0, 1, 0));
    assert_eq!(n[4], IVec3::new(0, 0, -1));
    assert_eq!(n[5], IVec3::new(0, 0, 1));
    assert_eq!(CubeSide::from_primitive(0), CubeSide::LEFT);
    assert_eq!(CubeSide::from_primitive(3), CubeSide::TOP);
    assert_eq!(CubeSide::from_primitive(5), CubeSide::FRONT);
    assert_eq!(CubeSide::from_primitive(6), CubeSide::LEFT);
    for n in 0..6 {
        assert_eq!(CubeSide::from_primitive(n).to_primitive() as usize, n);
    }
    assert_eq!(Cube::get_side(CubeSide::TOP, 2), (1, 1, 1, 16));
    assert_eq!(Cube::get_side(CubeSide::RIGHT, 1), (1, 0, 1, 14));
    assert_eq!(Cube::get_side(CubeSide::BACK, 0), (1, 0, 0, 12));
    assert_eq!(Cube::get_side(CubeSide::FRONT, 1), (0, 1, 1, 12));
    assert_eq!(
        Cube::get_amb_occul_spots(CubeSide::FRONT, 1),
        [IVec3::new(0, 1, 1), IVec3::new(-1, 0, 1), IVec3::new(-1, 1, 1)]
    );
    assert_eq!(
        Cube::get_amb_occul_spots(CubeSide::TOP, 2),
        [IVec3::new(1, 1, 0), IVec3::new(0, 1, 1), IVec3::new(1, 1, 1)]
    );
    assert_eq!(
        Cube::get_amb_occul_spots(CubeSide::LEFT, 0),
        [IVec3::new(-1, 0, -1), IVec3::new(-1, 1, 0), IVec3::new(-1, 1, -1)]
    );
    for s in 0..6 {
        for index in 0..6u8 {
            let side = CubeSide::from_primitive(s);
            let at = Cube::get_side(side, index);
            for spot in Cube::get_amb_occul_spots(side, index) {
                assert_eq!(IVec3::new(spot.x * n[s].x, spot.y * n[s].y, spot.z * n[s].z), IVec3::new(n[s].x.abs(), n[s].y.abs(), n[s].z.abs()));
                assert!(spot.x.abs() <= 1 && spot.y.abs() <= 1 && spot.z.abs() <= 1);
                // The cell lies on the vertex's side of the voxel.
                assert!(spot.x == 0 || spot.x == 2 * at.0 as i32 - 1);
                assert!(spot.y == 0 || spot.y == 2 * at.1 as i32 - 1);
                assert!(spot.z == 0 || spot.z == 2 * at.2 as i32 - 1);
            }
        }
    }
}

fn cross(a: (i32, i32, i32), b: (i32, i32, i32)) -> (i32, i32, i32) {
    (a.1 * b.2 - a.2 * b.1, a.2 * b.0 - a.0 * b.2, a.0 * b.1 - a.1 * b.0)
}

#[test]
fn every_face_winds_clockwise_seen_from_outside() {
    let n = Cube::get_neighbors();
    for s in 0..6 {
        let side = CubeSide::from_primitive(s);
        for first in [0u8, 3] {
            let p: Vec<(i32, i32, i32)> = (first..first + 3)
                .map(|i| Cube::get_side(side, i))
                .map(|v| (v.0 as i32, v.1 as i32, v.2 as i32))
                .collect();
            let a = (p[1].0 - p[0].0, p[1].1 - p[0].1, p[1].2 - p[0].2);
            let b = (p[2].0 - p[1].0, p[2].1 - p[1].1, p[2].2 - p[1].2);
            // The triangle's right-hand normal points into the voxel.
            assert_eq!(cross(a, b), (-n[s].x, -n[s].y, -n[s].z), "face {}", s);
        }
        // Both triangles cover the face: its four corners, two of them shared.
        let mut corners: Vec<(u8, u8, u8)> =
            (0..6u8).map(|i| Cube::get_side(side, i)).map(|v| (v.0, v.1, v.2)).collect();
        assert_eq!(corners[2], corners[3]);
        assert_eq!(corners[5], corners[0]);
        corners.sort();
        corners.dedup();
        assert_eq!(corners.len(), 4);
    }
}
