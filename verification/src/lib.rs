//! Voxel-world rendering core: a chunked voxel grid, a geometry baker that
//! turns voxel state into direction-partitioned vertex lists, a concurrent
//! chunk registry with a floating world origin, and the terrain render
//! pipeline that resolves its named GPU resources and emits draw commands.

use vstd::prelude::*;

pub mod baker;
pub mod chunk;
pub mod pipeline;
pub mod registry;

verus! {

/// Width of a chunk along the X and Z axes, in voxels.
pub const CHUNK_WIDTH: usize = 16;
/// Number of voxels in one horizontal slice of a chunk.
pub const CHUNK_AREA: usize = 256;
/// Full vertical extent of a chunk, in voxels.
pub const CHUNK_HEIGHT: usize = 256;
/// Total number of voxels in one chunk.
pub const CHUNK_VOLUME: usize = 65536;
/// Height of one vertical section of a chunk.
pub const CHUNK_SECTION_HEIGHT: usize = 1;
/// Number of sections stacked to cover a chunk's full height.
pub const CHUNK_SECTIONS_PER: usize = 256;
/// Number of voxels in one section.
pub const SECTION_VOLUME: usize = 256;

/// World-grid coordinate of a chunk: (x, z) in chunk units.
pub type ChunkPos = (i32, i32);

/// A voxel position: world-absolute x, absolute y, world-absolute z.
pub type BlockPos = (i32, u16, i32);

/// Opaque handle into the material registry: a packed key, or "not present".
#[derive(Clone, Copy, Debug, PartialEq, Eq, Structural)]
pub struct BlockState {
    pub packed_key: Option<u32>,
}

impl BlockState {
    /// True when this state resolves to some material (the key is set).
    pub fn is_present(&self) -> (r: bool)
        ensures
            r == self.packed_key is Some,
    {
        self.packed_key.is_some()
    }
}

} // verus!
