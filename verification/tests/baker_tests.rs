use wgpu_mc::{BlockState, CHUNK_VOLUME, CHUNK_SECTIONS_PER, CHUNK_WIDTH, CHUNK_AREA};
use wgpu_mc::chunk::Chunk;
use wgpu_mc::baker::{
    bake, BakedChunk, BakedChunkSection, BakeError, BlockManager, BlockMaterial,
    BUCKET_COUNT, DIR_TOP, DIR_BOTTOM, DIR_NORTH, DIR_EAST, DIR_SOUTH, DIR_WEST,
    DIR_NONSTANDARD,
};

fn absent() -> BlockState {
    BlockState { packed_key: None }
}

fn present(key: u32) -> BlockState {
    BlockState { packed_key: Some(key) }
}

fn flat_index(x: usize, y: usize, z: usize) -> usize {
    y * CHUNK_AREA + z * CHUNK_WIDTH + x
}

fn opaque_registry() -> BlockManager {
    BlockManager {
        materials: vec![BlockMaterial { opaque: true, standard: true }],
    }
}

fn bucket(sec: &BakedChunkSection, b: usize) -> &Vec<wgpu_mc::baker::ChunkVertex> {
    match b {
        DIR_TOP => &sec.top,
        DIR_BOTTOM => &sec.bottom,
        DIR_NORTH => &sec.north,
        DIR_EAST => &sec.east,
        DIR_SOUTH => &sec.south,
        DIR_WEST => &sec.west,
        _ => &sec.nonstandard,
    }
}

fn total_vertices(baked: &BakedChunk) -> usize {
    let mut n = 0;
    for sec in &baked.sections {
        for b in 0..BUCKET_COUNT {
            n += bucket(sec, b).len();
        }
    }
    n
}

#[test]
fn baking_all_empty_chunk_yields_zero_vertices() {
    let chunk = Chunk::new((0, 0), vec![absent(); CHUNK_VOLUME]);
    let baked = bake(&opaque_registry(), &chunk, (0, 0)).unwrap();
    assert_eq!(baked.sections.len(), CHUNK_SECTIONS_PER);
    assert_eq!(total_vertices(&baked), 0);
}

#[test]
fn baking_is_deterministic() {
    let mut blocks = vec![absent(); CHUNK_VOLUME];
    for i in (0..CHUNK_VOLUME).step_by(53) {
        blocks[i] = present(0);
    }
    let chunk = Chunk::new((4, -9), blocks);
    let bm = opaque_registry();
    let b1 = bake(&bm, &chunk, (1, 2)).unwrap();
    let b2 = bake(&bm, &chunk, (1, 2)).unwrap();
    assert_eq!(b1, b2);
}

#[test]
fn lone_interior_voxel_emits_six_faces() {
    let mut blocks = vec![absent(); CHUNK_VOLUME];
    blocks[flat_index(5, 10, 6)] = present(0);
    let chunk = Chunk::new((0, 0), blocks);
    let baked = bake(&opaque_registry(), &chunk, (0, 0)).unwrap();
    let sec = &baked.sections[10];
    for b in 0..6 {
        assert_eq!(bucket(sec, b).len(), 6, "direction bucket {}", b);
    }
    assert_eq!(sec.nonstandard.len(), 0);
    assert_eq!(total_vertices(&baked), 36);
}

#[test]
fn surrounded_voxel_contributes_zero_faces() {
    // a voxel plus its six opaque neighbors: the center is fully culled,
    // each neighbor has five exposed faces
    let mut blocks = vec![absent(); CHUNK_VOLUME];
    let (x, y, z) = (5usize, 10usize, 5usize);
    blocks[flat_index(x, y, z)] = present(0);
    for (dx, dy, dz) in [(0i32, 1i32, 0i32), (0, -1, 0), (0, 0, -1), (1, 0, 0), (0, 0, 1), (-1, 0, 0)] {
        let nx = (x as i32 + dx) as usize;
        let ny = (y as i32 + dy) as usize;
        let nz = (z as i32 + dz) as usize;
        blocks[flat_index(nx, ny, nz)] = present(0);
    }
    let chunk = Chunk::new((0, 0), blocks);
    let baked = bake(&opaque_registry(), &chunk, (0, 0)).unwrap();
    // 6 neighbors x 5 visible faces x 6 vertices; the surrounded center adds none
    assert_eq!(total_vertices(&baked), 6 * 5 * 6);
}

#[test]
fn one_exposed_side_contributes_one_face_to_matching_bucket() {
    // full chunk of one opaque material except one empty voxel at the center:
    // exactly six faces, one per direction bucket
    let mut blocks = vec![present(0); CHUNK_VOLUME];
    let (hx, hy, hz) = (8usize, 128usize, 8usize);
    blocks[flat_index(hx, hy, hz)] = absent();
    let chunk = Chunk::new((0, 0), blocks);
    let baked = bake(&opaque_registry(), &chunk, (0, 0)).unwrap();
    assert_eq!(total_vertices(&baked), 36);
    // the voxel below the hole sees it above: one top face
    assert_eq!(baked.sections[hy - 1].top.len(), 6);
    // the voxel above the hole: one bottom face
    assert_eq!(baked.sections[hy + 1].bottom.len(), 6);
    // the four side neighbors, one face each in the bucket matching its side
    assert_eq!(baked.sections[hy].south.len(), 6);
    assert_eq!(baked.sections[hy].north.len(), 6);
    assert_eq!(baked.sections[hy].east.len(), 6);
    assert_eq!(baked.sections[hy].west.len(), 6);
    // nothing anywhere else
    for (sy, sec) in baked.sections.iter().enumerate() {
        for b in 0..BUCKET_COUNT {
            let expected = match (sy, b) {
                (s, b) if s == hy - 1 && b == DIR_TOP => 6,
                (s, b) if s == hy + 1 && b == DIR_BOTTOM => 6,
                (s, b) if s == hy && b == DIR_SOUTH => 6,
                (s, b) if s == hy && b == DIR_NORTH => 6,
                (s, b) if s == hy && b == DIR_EAST => 6,
                (s, b) if s == hy && b == DIR_WEST => 6,
                _ => 0,
            };
            assert_eq!(bucket(sec, b).len(), expected);
        }
    }
}

#[test]
fn nonstandard_material_fills_catch_all_bucket() {
    let mut blocks = vec![absent(); CHUNK_VOLUME];
    blocks[flat_index(5, 10, 6)] = present(0);
    let bm = BlockManager {
        materials: vec![BlockMaterial { opaque: false, standard: false }],
    };
    let chunk = Chunk::new((0, 0), blocks);
    let baked = bake(&bm, &chunk, (0, 0)).unwrap();
    let sec = &baked.sections[10];
    for b in 0..6 {
        assert_eq!(bucket(sec, b).len(), 0);
    }
    assert_eq!(sec.nonstandard.len(), 36);
}

#[test]
fn unresolvable_material_fails_the_bake() {
    let mut blocks = vec![absent(); CHUNK_VOLUME];
    blocks[flat_index(1, 1, 1)] = present(7);
    let chunk = Chunk::new((0, 0), blocks);
    let r = bake(&opaque_registry(), &chunk, (0, 0));
    assert_eq!(r.unwrap_err(), BakeError::UnresolvableMaterial { key: 7 });
}

#[test]
fn chunk_bake_stores_geometry_and_drops_it_on_fault() {
    let mut blocks = vec![absent(); CHUNK_VOLUME];
    blocks[flat_index(2, 3, 4)] = present(0);
    let mut chunk = Chunk::new((0, 0), blocks);
    assert!(chunk.bake(&opaque_registry(), (0, 0)).is_ok());
    assert!(chunk.baked.is_some());
    let bad = BlockManager { materials: vec![] };
    assert!(chunk.bake(&bad, (0, 0)).is_err());
    assert!(chunk.baked.is_none());
}

#[test]
fn vertices_are_recentered_against_the_world_origin() {
    let mut blocks = vec![absent(); CHUNK_VOLUME];
    blocks[flat_index(0, 10, 0)] = present(0);
    let chunk = Chunk::new((2, -1), blocks);
    // model-space offset: ((2 - 1) * 16, (-1 - (-3)) * 16) = (16, 32)
    let baked = bake(&opaque_registry(), &chunk, (1, -3)).unwrap();
    let sec = &baked.sections[10];
    let v = sec.top[0];
    assert_eq!((v.x, v.y, v.z), (16, 11, 32));
}
