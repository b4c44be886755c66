use wgpu_mc::{BlockState, CHUNK_VOLUME, CHUNK_SECTIONS_PER, SECTION_VOLUME, CHUNK_WIDTH, CHUNK_AREA};
use wgpu_mc::chunk::Chunk;

fn absent() -> BlockState {
    BlockState { packed_key: None }
}

fn present(key: u32) -> BlockState {
    BlockState { packed_key: Some(key) }
}

fn flat_index(x: usize, y: usize, z: usize) -> usize {
    y * CHUNK_AREA + z * CHUNK_WIDTH + x
}

#[test]
fn new_partitions_into_sections() {
    let mut blocks = vec![absent(); CHUNK_VOLUME];
    // one present voxel in section 3 only
    blocks[flat_index(4, 3, 9)] = present(0);
    let chunk = Chunk::new((7, -2), blocks);
    assert_eq!(chunk.pos, (7, -2));
    assert!(chunk.baked.is_none());
    assert_eq!(chunk.sections.len(), CHUNK_SECTIONS_PER);
    for (i, sec) in chunk.sections.iter().enumerate() {
        assert_eq!(sec.blocks.len(), SECTION_VOLUME);
        assert_eq!(sec.offset_y, i);
        if i == 3 {
            assert!(!sec.empty);
        } else {
            assert!(sec.empty);
        }
    }
    assert_eq!(chunk.sections[3].blocks[9 * CHUNK_WIDTH + 4], present(0));
}

#[test]
fn empty_flag_true_iff_no_present_material() {
    let mut blocks = vec![absent(); CHUNK_VOLUME];
    for x in 0..CHUNK_WIDTH {
        blocks[flat_index(x, 200, 5)] = present(1);
    }
    let chunk = Chunk::new((0, 0), blocks);
    for (i, sec) in chunk.sections.iter().enumerate() {
        assert_eq!(sec.empty, i != 200);
    }
}

#[test]
fn blockstate_at_pos_inverts_flattening() {
    let mut blocks = vec![absent(); CHUNK_VOLUME];
    // a varied pattern of keys
    for i in (0..CHUNK_VOLUME).step_by(37) {
        blocks[i] = present((i % 11) as u32);
    }
    let expected = blocks.clone();
    let chunk = Chunk::new((0, 0), blocks);
    for i in (0..CHUNK_VOLUME).step_by(37) {
        let x = i % CHUNK_WIDTH;
        let z = (i / CHUNK_WIDTH) % CHUNK_WIDTH;
        let y = i / CHUNK_AREA;
        let got = chunk.blockstate_at_pos((x as i32, y as u16, z as i32));
        assert_eq!(got, expected[i]);
    }
}

#[test]
fn blockstate_at_pos_takes_world_coordinates_modulo_width() {
    let mut blocks = vec![absent(); CHUNK_VOLUME];
    blocks[flat_index(3, 10, 12)] = present(9);
    let chunk = Chunk::new((-2, 5), blocks);
    // 3 mod 16 == 3, and negative world coordinates wrap the same way:
    // -13 mod 16 == 3, -4 mod 16 == 12
    assert_eq!(chunk.blockstate_at_pos((3 + 32, 10, 12 - 16)), present(9));
    assert_eq!(chunk.blockstate_at_pos((-13, 10, -4)), present(9));
}
