use wgpu_mc::{BlockState, CHUNK_VOLUME, CHUNK_AREA, CHUNK_WIDTH};
use wgpu_mc::chunk::Chunk;
use wgpu_mc::baker::{BlockManager, BlockMaterial};
use wgpu_mc::registry::ChunkManager;
use wgpu_mc::pipeline::{
    block_atlas_name, PipelineError, PipelineStage, RenderCommand, RenderResources,
    TerrainPipeline,
};

fn absent() -> BlockState {
    BlockState { packed_key: None }
}

fn present(key: u32) -> BlockState {
    BlockState { packed_key: Some(key) }
}

fn opaque_registry() -> BlockManager {
    BlockManager {
        materials: vec![BlockMaterial { opaque: true, standard: true }],
    }
}

fn all_resources() -> RenderResources {
    RenderResources {
        pipeline: Some(11),
        atlas_bind_group: Some(22),
        camera_bind_group: Some(33),
    }
}

#[test]
fn names_and_tables_are_fixed() {
    let p = TerrainPipeline;
    assert_eq!(p.name(), "wgpu_mc:pipelines/terrain");
    assert_eq!(block_atlas_name(), "wgpu_mc:atlases/block");
    assert_eq!(p.atlases(), vec!["wgpu_mc:atlases/block"]);
    let shaders = p.provide_shaders();
    assert_eq!(shaders.len(), 1);
    assert_eq!(shaders[0].table_key, "wgpu_mc:shaders/terrain");
    assert_eq!(shaders[0].source_id, "wgpu_mc:shaders/terrain.wgsl");
    assert_eq!(shaders[0].frag_entry, "fs_main");
    assert_eq!(shaders[0].vert_entry, "vs_main");
    let layouts = p.build_wgpu_pipeline_layouts();
    assert_eq!(layouts.len(), 1);
    assert_eq!(layouts[0].name, "wgpu_mc:layouts/terrain");
    assert_eq!(layouts[0].bind_group_layouts, vec!["texture", "matrix4"]);
}

#[test]
fn pipeline_configuration_is_fixed() {
    let cfg = TerrainPipeline.build_wgpu_pipelines();
    assert_eq!(cfg.name, "wgpu_mc:pipelines/terrain");
    assert_eq!(cfg.layout_name, "wgpu_mc:layouts/terrain");
    assert_eq!(cfg.shader_key, "wgpu_mc:shaders/terrain");
    assert!(cfg.topology_triangle_list);
    assert!(cfg.cull_back_faces);
    assert!(cfg.front_face_ccw);
    assert!(cfg.depth_compare_less);
    assert!(cfg.depth_write_enabled);
    assert_eq!(cfg.sample_count, 1);
    assert!(cfg.blend_straight_alpha);
}

#[test]
fn lifecycle_advances_to_ready_and_rebuild_reenters() {
    let mut stage = PipelineStage::Unbuilt;
    assert!(!stage.can_render());
    stage = stage.advance();
    assert_eq!(stage, PipelineStage::ShadersLoaded);
    stage = stage.advance();
    assert_eq!(stage, PipelineStage::LayoutsBuilt);
    stage = stage.advance();
    assert_eq!(stage, PipelineStage::PipelinesBuilt);
    assert!(!stage.can_render());
    stage = stage.advance();
    assert_eq!(stage, PipelineStage::Ready);
    assert!(stage.can_render());
    assert_eq!(stage.advance(), PipelineStage::Ready);
    assert_eq!(stage.rebuild(), PipelineStage::ShadersLoaded);
}

#[test]
fn missing_named_resources_fail_fast() {
    let p = TerrainPipeline;
    let mut r = all_resources();
    assert!(p.resolve(&r).is_ok());
    r.pipeline = None;
    assert_eq!(p.resolve(&r).unwrap_err(), PipelineError::MissingPipeline);
    let mut r = all_resources();
    r.atlas_bind_group = None;
    assert_eq!(p.resolve(&r).unwrap_err(), PipelineError::MissingAtlas);
    let mut r = all_resources();
    r.camera_bind_group = None;
    assert_eq!(p.resolve(&r).unwrap_err(), PipelineError::MissingCameraBindGroup);
    let manager = ChunkManager::new();
    let mut r = all_resources();
    r.pipeline = None;
    assert!(p.render(&manager, &r).is_err());
}

#[test]
fn rendering_an_empty_registry_only_binds() {
    let manager = ChunkManager::new();
    let frame = TerrainPipeline.render(&manager, &all_resources()).unwrap();
    assert_eq!(
        frame.commands,
        vec![
            RenderCommand::SetPipeline(11),
            RenderCommand::SetBindGroup(0, 22),
            RenderCommand::SetBindGroup(1, 33),
        ]
    );
}

#[test]
fn unbaked_chunks_and_empty_buckets_are_skipped() {
    let mut manager = ChunkManager::new();
    // one chunk never baked, one baked but all empty
    manager.insert((0, 0), Chunk::new((0, 0), vec![absent(); CHUNK_VOLUME]));
    let mut baked_empty = Chunk::new((1, 0), vec![absent(); CHUNK_VOLUME]);
    baked_empty.bake(&opaque_registry(), (0, 0)).unwrap();
    manager.insert((1, 0), baked_empty);
    let frame = TerrainPipeline.render(&manager, &all_resources()).unwrap();
    // zero draw calls: nothing beyond the three binds
    assert_eq!(frame.commands.len(), 3);
}

#[test]
fn baked_chunk_draws_one_range_per_nonempty_bucket() {
    let mut manager = ChunkManager::new();
    let mut blocks = vec![absent(); CHUNK_VOLUME];
    blocks[10 * CHUNK_AREA + 6 * CHUNK_WIDTH + 5] = present(0);
    let mut chunk = Chunk::new((0, 0), blocks);
    chunk.bake(&opaque_registry(), (0, 0)).unwrap();
    manager.insert((0, 0), chunk);
    let frame = TerrainPipeline.render(&manager, &all_resources()).unwrap();
    // three binds, then one (bind buffer, draw) pair per direction bucket of
    // the lone voxel's section
    assert_eq!(frame.commands.len(), 3 + 2 * 6);
    for b in 0..6usize {
        assert_eq!(
            frame.commands[3 + 2 * b],
            RenderCommand::SetVertexBuffer((0, 0), 10, b)
        );
        assert_eq!(frame.commands[3 + 2 * b + 1], RenderCommand::Draw(6));
    }
}
