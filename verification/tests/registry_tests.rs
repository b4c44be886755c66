use wgpu_mc::{BlockState, CHUNK_VOLUME};
use wgpu_mc::chunk::Chunk;
use wgpu_mc::registry::ChunkManager;

fn empty_chunk(pos: (i32, i32)) -> Chunk {
    Chunk::new(pos, vec![BlockState { packed_key: None }; CHUNK_VOLUME])
}

#[test]
fn starts_empty_with_origin_at_zero() {
    let manager = ChunkManager::new();
    assert_eq!(manager.origin(), (0, 0));
    assert!(manager.lookup((0, 0)).is_none());
    assert!(manager.iterate().is_empty());
}

#[test]
fn default_matches_new() {
    let manager = ChunkManager::default();
    assert_eq!(manager.origin(), (0, 0));
    assert!(manager.iterate().is_empty());
}

#[test]
fn insert_then_lookup_returns_the_chunk() {
    let mut manager = ChunkManager::new();
    manager.insert((3, -4), empty_chunk((3, -4)));
    let found = manager.lookup((3, -4)).expect("chunk should be loaded");
    assert_eq!(found.pos, (3, -4));
    assert!(manager.lookup((3, -5)).is_none());
}

#[test]
fn insert_replaces_wholesale() {
    let mut manager = ChunkManager::new();
    let mut first = empty_chunk((0, 0));
    first.sections[0].blocks[0] = BlockState { packed_key: Some(1) };
    manager.insert((0, 0), first);
    let mut second = empty_chunk((0, 0));
    second.sections[0].blocks[0] = BlockState { packed_key: Some(2) };
    manager.insert((0, 0), second);
    let found = manager.lookup((0, 0)).unwrap();
    assert_eq!(found.sections[0].blocks[0].packed_key, Some(2));
    assert_eq!(manager.iterate().len(), 1);
}

#[test]
fn iterate_yields_every_entry_once() {
    let mut manager = ChunkManager::new();
    let positions = [(0, 0), (1, 0), (-5, 7)];
    for &p in &positions {
        manager.insert(p, empty_chunk(p));
    }
    let mut listed: Vec<(i32, i32)> = manager.iterate().iter().map(|e| e.0).collect();
    listed.sort();
    let mut expected = positions.to_vec();
    expected.sort();
    assert_eq!(listed, expected);
    for entry in manager.iterate() {
        assert_eq!(entry.1.pos, entry.0);
    }
}

#[test]
fn recenter_is_observable_immediately() {
    let mut manager = ChunkManager::new();
    manager.insert((1, 1), empty_chunk((1, 1)));
    assert_eq!(manager.origin(), (0, 0));
    manager.recenter((128, -256));
    assert_eq!(manager.origin(), (128, -256));
    // recentering never disturbs lookups or iteration
    assert!(manager.lookup((1, 1)).is_some());
    assert_eq!(manager.iterate().len(), 1);
}
