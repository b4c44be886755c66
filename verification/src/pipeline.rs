//! The terrain render pipeline: the shader and layout tables it asks for, the
//! fixed pipeline configuration, the build-stage lifecycle, and the per-frame
//! draw-command emission over the chunk registry. Resource resolution fails
//! fast on a missing named resource; the draw-emission phase is pure and only
//! consumes already-resolved handles.

use vstd::prelude::*;
use crate::ChunkPos;
use crate::chunk::Chunk;
use crate::baker::{BakedChunk, BakedChunkSection, BUCKET_COUNT};
use crate::registry::{ChunkManager, is_registry_snapshot};
use std::sync::Arc;

verus! {

/// The terrain pipeline: renders the baked geometry of every loaded chunk
/// through a fixed raster/depth configuration.
pub struct TerrainPipeline;

/// Name of the texture atlas the terrain pipeline binds at slot 0.
pub fn block_atlas_name() -> (r: &'static str)
    ensures
        r@ == "wgpu_mc:atlases/block"@,
{
    "wgpu_mc:atlases/block"
}

/// One shader stage pair to load and compile: the key it is stored under in
/// the shader table, the resource identifier of its source, and the two entry
/// points.
pub struct ShaderRequest {
    pub table_key: &'static str,
    pub source_id: &'static str,
    pub frag_entry: &'static str,
    pub vert_entry: &'static str,
}

/// One pipeline layout to build: its table name and the names of the binding
/// group layouts it uses, in slot order.
pub struct LayoutRequest {
    pub name: &'static str,
    pub bind_group_layouts: Vec<&'static str>,
}

/// The fixed raster/depth/blend configuration of the terrain pipeline object,
/// as plain values; the GPU layer translates it one for one.
pub struct PipelineConfig {
    pub name: &'static str,
    pub layout_name: &'static str,
    pub shader_key: &'static str,
    pub topology_triangle_list: bool,
    pub cull_back_faces: bool,
    pub front_face_ccw: bool,
    pub depth_compare_less: bool,
    pub depth_write_enabled: bool,
    pub sample_count: u32,
    pub blend_straight_alpha: bool,
}

/// Lifecycle of the pipeline objects: rendering may only proceed from
/// `Ready`; a rebuild (shader hot-reload) re-enters at `ShadersLoaded` and
/// republishes a fresh pipeline wholesale.
#[derive(Clone, Copy, Debug, PartialEq, Eq, Structural)]
pub enum PipelineStage {
    Unbuilt,
    ShadersLoaded,
    LayoutsBuilt,
    PipelinesBuilt,
    Ready,
}

impl PipelineStage {
    /// The stage reached after the next build step completes; `Ready` is
    /// terminal until a rebuild.
    pub fn advance(self) -> (r: PipelineStage)
        ensures
            self is Unbuilt ==> r is ShadersLoaded,
            self is ShadersLoaded ==> r is LayoutsBuilt,
            self is LayoutsBuilt ==> r is PipelinesBuilt,
            self is PipelinesBuilt ==> r is Ready,
            self is Ready ==> r is Ready,
    {
        match self {
            PipelineStage::Unbuilt => PipelineStage::ShadersLoaded,
            PipelineStage::ShadersLoaded => PipelineStage::LayoutsBuilt,
            PipelineStage::LayoutsBuilt => PipelineStage::PipelinesBuilt,
            PipelineStage::PipelinesBuilt => PipelineStage::Ready,
            PipelineStage::Ready => PipelineStage::Ready,
        }
    }

    /// A rebuild re-enters the lifecycle with shaders freshly loaded.
    pub fn rebuild(self) -> (r: PipelineStage)
        ensures
            r is ShadersLoaded,
    {
        PipelineStage::ShadersLoaded
    }

    /// Rendering may only proceed from `Ready`.
    pub fn can_render(self) -> (r: bool)
        ensures
            r == (self is Ready),
    {
        matches!(self, PipelineStage::Ready)
    }
}

/// The named handles the per-frame render step needs, as resolved (or not)
/// from the process-wide tables; a missing one is a fatal construction-time
/// fault, not a per-frame condition.
pub struct RenderResources {
    pub pipeline: Option<u64>,
    pub atlas_bind_group: Option<u64>,
    pub camera_bind_group: Option<u64>,
}

/// All render-step handles, present; only these reach the draw-emission
/// phase.
#[derive(Clone, Copy, Debug, PartialEq, Eq, Structural)]
pub struct ResolvedResources {
    pub pipeline: u64,
    pub atlas_bind_group: u64,
    pub camera_bind_group: u64,
}

/// A fatal pipeline fault: a named resource the render step depends on is
/// missing from its table. Indicates a broken registration, so rendering must
/// not start.
#[derive(Clone, Copy, Debug, PartialEq, Eq, Structural)]
pub enum PipelineError {
    MissingPipeline,
    MissingAtlas,
    MissingCameraBindGroup,
}

/// One command of the per-frame render stream, consuming only resolved
/// handles and baked geometry locations.
#[derive(Clone, Copy, Debug, PartialEq, Eq)]
pub enum RenderCommand {
    /// Bind the pipeline object.
    SetPipeline(u64),
    /// Bind a resource group at a slot.
    SetBindGroup(u32, u64),
    /// Bind, at vertex-buffer slot 0, the buffer of one face bucket of one
    /// section of the chunk at the coordinate.
    SetVertexBuffer(ChunkPos, usize, usize),
    /// Draw the full vertex range of the bound buffer, one instance.
    Draw(usize),
}

impl TerrainPipeline {
    /// The pipeline's own table name.
    pub fn name(&self) -> (r: &'static str)
        ensures
            r@ == "wgpu_mc:pipelines/terrain"@,
    {
        "wgpu_mc:pipelines/terrain"
    }

    /// The atlases this pipeline needs published.
    pub fn atlases(&self) -> (r: Vec<&'static str>)
        ensures
            r@.len() == 1,
            r@[0]@ == "wgpu_mc:atlases/block"@,
    {
        let mut v: Vec<&'static str> = Vec::new();
        v.push("wgpu_mc:atlases/block");
        v
    }

    /// The shader stages to load and compile: one pair, from the terrain
    /// shader source, with the usual entry points.
    pub fn provide_shaders(&self) -> (r: Vec<ShaderRequest>)
        ensures
            r@.len() == 1,
            r@[0].table_key@ == "wgpu_mc:shaders/terrain"@,
            r@[0].source_id@ == "wgpu_mc:shaders/terrain.wgsl"@,
            r@[0].frag_entry@ == "fs_main"@,
            r@[0].vert_entry@ == "vs_main"@,
    {
        let mut v: Vec<ShaderRequest> = Vec::new();
        v.push(ShaderRequest {
            table_key: "wgpu_mc:shaders/terrain",
            source_id: "wgpu_mc:shaders/terrain.wgsl",
            frag_entry: "fs_main",
            vert_entry: "vs_main",
        });
        v
    }

    /// The pipeline layout to build: the texture-atlas binding group layout
    /// at slot 0 and the per-frame transform layout at slot 1, exactly in
    /// that order.
    pub fn build_wgpu_pipeline_layouts(&self) -> (r: Vec<LayoutRequest>)
        ensures
            r@.len() == 1,
            r@[0].name@ == "wgpu_mc:layouts/terrain"@,
            r@[0].bind_group_layouts@.len() == 2,
            r@[0].bind_group_layouts@[0]@ == "texture"@,
            r@[0].bind_group_layouts@[1]@ == "matrix4"@,
    {
        let mut names: Vec<&'static str> = Vec::new();
        names.push("texture");
        names.push("matrix4");
        let mut v: Vec<LayoutRequest> = Vec::new();
        v.push(LayoutRequest { name: "wgpu_mc:layouts/terrain", bind_group_layouts: names });
        v
    }

    /// The immutable configuration of the terrain pipeline object:
    /// triangle-list topology, back-face culling, counter-clockwise front
    /// faces, depth tested and written with "less", no multisampling,
    /// straight alpha blending.
    pub fn build_wgpu_pipelines(&self) -> (r: PipelineConfig)
        ensures
            r.name@ == "wgpu_mc:pipelines/terrain"@,
            r.layout_name@ == "wgpu_mc:layouts/terrain"@,
            r.shader_key@ == "wgpu_mc:shaders/terrain"@,
            r.topology_triangle_list,
            r.cull_back_faces,
            r.front_face_ccw,
            r.depth_compare_less,
            r.depth_write_enabled,
            r.sample_count == 1,
            r.blend_straight_alpha,
    {
        PipelineConfig {
            name: "wgpu_mc:pipelines/terrain",
            layout_name: "wgpu_mc:layouts/terrain",
            shader_key: "wgpu_mc:shaders/terrain",
            topology_triangle_list: true,
            cull_back_faces: true,
            front_face_ccw: true,
            depth_compare_less: true,
            depth_write_enabled: true,
            sample_count: 1,
            blend_straight_alpha: true,
        }
    }

    /// Resolves the render step's named resources, failing fast on the first
    /// missing one; succeeds exactly when all are present.
    pub fn resolve(&self, resources: &RenderResources) -> (r: Result<ResolvedResources, PipelineError>)
        ensures
            match r {
                Ok(h) => {
                    &&& resources.pipeline == Some(h.pipeline)
                    &&& resources.atlas_bind_group == Some(h.atlas_bind_group)
                    &&& resources.camera_bind_group == Some(h.camera_bind_group)
                },
                Err(e) => {
                    &&& (resources.pipeline is None
                        || resources.atlas_bind_group is None
                        || resources.camera_bind_group is None)
                    &&& (e is MissingPipeline <==> resources.pipeline is None)
                    &&& (e is MissingAtlas <==> resources.pipeline is Some
                            && resources.atlas_bind_group is None)
                },
            },
    {
        let pipeline = match resources.pipeline {
            Some(h) => h,
            None => { return Err(PipelineError::MissingPipeline); },
        };
        let atlas_bind_group = match resources.atlas_bind_group {
            Some(h) => h,
            None => { return Err(PipelineError::MissingAtlas); },
        };
        let camera_bind_group = match resources.camera_bind_group {
            Some(h) => h,
            None => { return Err(PipelineError::MissingCameraBindGroup); },
        };
        Ok(ResolvedResources { pipeline, atlas_bind_group, camera_bind_group })
    }
}

/// The commands that one face bucket of one section contributes: bind its
/// buffer and draw its full vertex range, or nothing when it is empty.
pub open spec fn bucket_cmds(pos: ChunkPos, sec: BakedChunkSection, s: int, b: int) -> Seq<RenderCommand> {
    if sec.spec_bucket(b).len() > 0 {
        seq![
            RenderCommand::SetVertexBuffer(pos, s as usize, b as usize),
            RenderCommand::Draw(sec.spec_bucket(b).len() as usize),
        ]
    } else {
        Seq::empty()
    }
}

/// The commands of the first `b` buckets of one section, in the fixed bucket
/// order (the six axis directions, then nonstandard).
pub open spec fn section_cmds_upto(pos: ChunkPos, sec: BakedChunkSection, s: int, b: int) -> Seq<RenderCommand>
    decreases b,
{
    if b <= 0 {
        Seq::empty()
    } else {
        section_cmds_upto(pos, sec, s, b - 1) + bucket_cmds(pos, sec, s, b - 1)
    }
}

/// The commands of the first `n` sections of one baked chunk.
pub open spec fn chunk_cmds_upto(pos: ChunkPos, baked: BakedChunk, n: int) -> Seq<RenderCommand>
    decreases n,
{
    if n <= 0 {
        Seq::empty()
    } else {
        chunk_cmds_upto(pos, baked, n - 1)
            + section_cmds_upto(pos, baked.sections[n - 1], n - 1, BUCKET_COUNT as int)
    }
}

/// The commands one loaded chunk contributes: nothing while its geometry has
/// not been baked (an expected steady-state condition, not an error), else
/// one bind-and-draw pair per non-empty bucket of every section.
pub open spec fn loaded_chunk_cmds(pos: ChunkPos, c: Chunk) -> Seq<RenderCommand> {
    match c.baked {
        None => Seq::empty(),
        Some(baked) => chunk_cmds_upto(pos, baked, baked.sections.len() as int),
    }
}

/// The commands of the first `n` snapshot entries.
pub open spec fn chunks_cmds_upto(snap: Seq<(ChunkPos, Arc<Chunk>)>, n: int) -> Seq<RenderCommand>
    decreases n,
{
    if n <= 0 {
        Seq::empty()
    } else {
        chunks_cmds_upto(snap, n - 1) + loaded_chunk_cmds(snap[n - 1].0, *snap[n - 1].1)
    }
}

/// The full per-frame command stream over a snapshot of the loaded chunks:
/// bind the pipeline, the atlas group at slot 0 and the camera group at slot
/// 1, then every chunk's draws in snapshot order.
pub open spec fn spec_frame_cmds(snap: Seq<(ChunkPos, Arc<Chunk>)>, h: ResolvedResources) -> Seq<RenderCommand> {
    seq![
        RenderCommand::SetPipeline(h.pipeline),
        RenderCommand::SetBindGroup(0u32, h.atlas_bind_group),
        RenderCommand::SetBindGroup(1u32, h.camera_bind_group),
    ] + chunks_cmds_upto(snap, snap.len() as int)
}

/// A section whose buckets are all empty contributes no commands among its
/// first `b` buckets.
proof fn lemma_section_cmds_empty(pos: ChunkPos, sec: BakedChunkSection, s: int, b: int)
    requires
        forall|bb: int| 0 <= bb < BUCKET_COUNT ==> (#[trigger] sec.spec_bucket(bb)).len() == 0,
        b <= BUCKET_COUNT,
    ensures
        section_cmds_upto(pos, sec, s, b).len() == 0,
    decreases b,
{
    if b > 0 {
        lemma_section_cmds_empty(pos, sec, s, b - 1);
    }
}

/// A baked chunk whose buckets are all empty contributes no commands among
/// its first `n` sections.
proof fn lemma_chunk_cmds_empty(pos: ChunkPos, baked: BakedChunk, n: int)
    requires
        forall|sy: int, bb: int| 0 <= sy < baked.sections.len() && 0 <= bb < BUCKET_COUNT ==>
            (#[trigger] baked.sections[sy].spec_bucket(bb)).len() == 0,
        n <= baked.sections.len(),
    ensures
        chunk_cmds_upto(pos, baked, n).len() == 0,
    decreases n,
{
    if n > 0 {
        lemma_chunk_cmds_empty(pos, baked, n - 1);
        lemma_section_cmds_empty(pos, baked.sections[n - 1], n - 1, BUCKET_COUNT as int);
    }
}

/// Rendering a chunk whose baked geometry has zero vertices in every bucket
/// of every section issues zero draw calls: the chunk contributes no commands
/// at all to the frame stream.
pub proof fn lemma_empty_baked_chunk_draws_nothing(pos: ChunkPos, c: Chunk)
    requires
        c.baked matches Some(baked) && forall|sy: int, bb: int|
            0 <= sy < baked.sections.len() && 0 <= bb < BUCKET_COUNT
                ==> (#[trigger] baked.sections[sy].spec_bucket(bb)).len() == 0,
    ensures
        loaded_chunk_cmds(pos, c).len() == 0,
{
    let baked = c.baked->Some_0;
    lemma_chunk_cmds_empty(pos, baked, baked.sections.len() as int);
}

impl TerrainPipeline {
    /// The pure draw-emission phase: turns an already-taken registry snapshot
    /// and already-resolved handles into the frame's exact command stream.
    /// Chunks without baked geometry and empty buckets are skipped, never
    /// errors.
    pub fn render_chunks(&self, snap: &Vec<(ChunkPos, Arc<Chunk>)>, handles: &ResolvedResources) -> (r: Vec<RenderCommand>)
        ensures
            r@ == spec_frame_cmds(snap@, *handles),
    {
        let mut cmds: Vec<RenderCommand> = Vec::new();
        cmds.push(RenderCommand::SetPipeline(handles.pipeline));
        cmds.push(RenderCommand::SetBindGroup(0, handles.atlas_bind_group));
        cmds.push(RenderCommand::SetBindGroup(1, handles.camera_bind_group));
        proof {
            assert(cmds@ =~= seq![
                RenderCommand::SetPipeline(handles.pipeline),
                RenderCommand::SetBindGroup(0u32, handles.atlas_bind_group),
                RenderCommand::SetBindGroup(1u32, handles.camera_bind_group),
            ] + chunks_cmds_upto(snap@, 0));
        }
        let mut i: usize = 0;
        while i < snap.len()
            invariant
                i <= snap.len(),
                cmds@ == seq![
                    RenderCommand::SetPipeline(handles.pipeline),
                    RenderCommand::SetBindGroup(0u32, handles.atlas_bind_group),
                    RenderCommand::SetBindGroup(1u32, handles.camera_bind_group),
                ] + chunks_cmds_upto(snap@, i as int),
            decreases snap.len() - i,
        {
            let chunk: &Chunk = &snap[i].1;
            match &chunk.baked {
                None => {
                    proof {
                        assert(cmds@ =~= seq![
                            RenderCommand::SetPipeline(handles.pipeline),
                            RenderCommand::SetBindGroup(0u32, handles.atlas_bind_group),
                            RenderCommand::SetBindGroup(1u32, handles.camera_bind_group),
                        ] + chunks_cmds_upto(snap@, i as int + 1));
                    }
                },
                Some(baked) => {
                    let pos = snap[i].0;
                    let ghost prefix = cmds@;
                    let mut s: usize = 0;
                    while s < baked.sections.len()
                        invariant
                            s <= baked.sections.len(),
                            cmds@ == prefix + chunk_cmds_upto(pos, *baked, s as int),
                        decreases baked.sections.len() - s,
                    {
                        let sec = &baked.sections[s];
                        let ghost sec_prefix = cmds@;
                        let mut b: usize = 0;
                        while b < BUCKET_COUNT
                            invariant
                                b <= BUCKET_COUNT,
                                cmds@ == sec_prefix + section_cmds_upto(pos, *sec, s as int, b as int),
                            decreases BUCKET_COUNT - b,
                        {
                            let bucket = sec.bucket(b);
                            if bucket.len() > 0 {
                                cmds.push(RenderCommand::SetVertexBuffer(pos, s, b));
                                cmds.push(RenderCommand::Draw(bucket.len()));
                            }
                            proof {
                                assert(cmds@ =~= sec_prefix
                                    + section_cmds_upto(pos, *sec, s as int, b as int + 1));
                            }
                            b += 1;
                        }
                        proof {
                            assert(cmds@ =~= prefix + chunk_cmds_upto(pos, *baked, s as int + 1));
                        }
                        s += 1;
                    }
                    proof {
                        assert(cmds@ =~= seq![
                            RenderCommand::SetPipeline(handles.pipeline),
                            RenderCommand::SetBindGroup(0u32, handles.atlas_bind_group),
                            RenderCommand::SetBindGroup(1u32, handles.camera_bind_group),
                        ] + chunks_cmds_upto(snap@, i as int + 1));
                    }
                },
            }
            i += 1;
        }
        cmds
    }

    /// One frame: resolves the named resources, takes a per-entry snapshot of
    /// the loaded chunks, and emits the frame's command stream. Succeeds
    /// exactly when every named resource is present; the snapshot's entries
    /// are exactly the loaded chunks, in an order the concurrent map leaves
    /// open, and the commands are precisely the stream for that snapshot.
    pub fn render(&self, manager: &ChunkManager, resources: &RenderResources) -> (r: Result<FrameDraws, PipelineError>)
        ensures
            match r {
                Ok(f) => {
                    &&& resources.pipeline is Some
                    &&& resources.atlas_bind_group is Some
                    &&& resources.camera_bind_group is Some
                    &&& is_registry_snapshot(f.snapshot@, manager.spec_chunks())
                    &&& f.commands@ == spec_frame_cmds(f.snapshot@, ResolvedResources {
                            pipeline: resources.pipeline->Some_0,
                            atlas_bind_group: resources.atlas_bind_group->Some_0,
                            camera_bind_group: resources.camera_bind_group->Some_0,
                        })
                },
                Err(e) => {
                    &&& (resources.pipeline is None
                        || resources.atlas_bind_group is None
                        || resources.camera_bind_group is None)
                    &&& (e is MissingPipeline <==> resources.pipeline is None)
                    &&& (e is MissingAtlas <==> resources.pipeline is Some
                            && resources.atlas_bind_group is None)
                },
            },
    {
        let handles = match self.resolve(resources) {
            Ok(h) => h,
            Err(e) => { return Err(e); },
        };
        let snap = manager.iterate();
        let commands = self.render_chunks(&snap, &handles);
        Ok(FrameDraws { snapshot: snap, commands })
    }
}

/// One frame's output: the per-entry snapshot of the loaded chunks it was
/// emitted over, and the command stream for exactly that snapshot.
pub struct FrameDraws {
    pub snapshot: Vec<(ChunkPos, Arc<Chunk>)>,
    pub commands: Vec<RenderCommand>,
}

} // verus!

