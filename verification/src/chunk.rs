//! The voxel grid: chunks partitioned into vertical sections.

use vstd::prelude::*;
use crate::{BlockState, BlockPos, ChunkPos};
use crate::{CHUNK_WIDTH, CHUNK_AREA, CHUNK_HEIGHT, CHUNK_VOLUME, CHUNK_SECTION_HEIGHT, CHUNK_SECTIONS_PER, SECTION_VOLUME};
use crate::baker::{BakedChunk, BakeError, BlockManager, spec_all_resolvable, is_baked_geometry};

verus! {

/// A rectangular sub-volume of one chunk: a fixed-length run of block state,
/// its vertical offset, and a flag that records whether any entry resolves to
/// a present material.
#[derive(Clone, Debug)]
pub struct ChunkSection {
    pub empty: bool,
    pub blocks: Vec<BlockState>,
    pub offset_y: usize,
}

impl ChunkSection {
    /// Well-formedness of the section standing at vertical index `idx`:
    /// the block run has exactly the section volume, the offset matches the
    /// index, and `empty` holds exactly when no block is present.
    pub open spec fn wf(self, idx: int) -> bool {
        &&& self.blocks.len() == SECTION_VOLUME
        &&& self.offset_y == idx * (CHUNK_SECTION_HEIGHT as int)
        &&& (self.empty <==> forall|j: int|
                0 <= j < self.blocks.len() ==> (#[trigger] self.blocks[j]).packed_key is None)
    }
}

/// A chunk's sections partitioned by render layer: ordinary terrain,
/// transparent geometry, and grass-like overlays.
pub struct RenderLayers {
    pub terrain: Vec<ChunkSection>,
    pub transparent: Vec<ChunkSection>,
    pub grass: Vec<ChunkSection>,
}

/// A fixed-footprint column of the voxel world, keyed by an integer (x, z)
/// coordinate, partitioned into sections, with optional baked geometry.
#[derive(Debug)]
pub struct Chunk {
    pub pos: ChunkPos,
    pub sections: Vec<ChunkSection>,
    pub baked: Option<BakedChunk>,
}

impl Chunk {
    /// Well-formedness: the full vertical extent is covered by well-formed
    /// sections.
    pub open spec fn wf(self) -> bool {
        &&& self.sections.len() == CHUNK_SECTIONS_PER
        &&& forall|i: int| 0 <= i < CHUNK_SECTIONS_PER ==> (#[trigger] self.sections[i]).wf(i)
    }

    /// The block stored at flat voxel index `i` (the flattening used at
    /// construction: consecutive equal-length sections in ascending vertical
    /// order).
    pub open spec fn spec_block_at_index(self, i: int) -> BlockState {
        self.sections[i / (SECTION_VOLUME as int)].blocks[i % (SECTION_VOLUME as int)]
    }

    /// The block at chunk-local coordinates: `y` selects the section and the
    /// in-section offset is `z * width + x`.
    pub open spec fn spec_block_at(self, x: int, y: int, z: int) -> BlockState {
        self.sections[y / (CHUNK_SECTION_HEIGHT as int)]
            .blocks[
                (y % (CHUNK_SECTION_HEIGHT as int)) * (CHUNK_AREA as int)
                + z * (CHUNK_WIDTH as int) + x
            ]
    }

    /// Partitions a flat voxel array of exactly the chunk volume into
    /// consecutive, equal-length sections in ascending vertical order; each
    /// section's `empty` flag is computed by scanning that section for a
    /// present material.
    pub fn new(pos: ChunkPos, blocks: Vec<BlockState>) -> (c: Chunk)
        requires
            blocks.len() == CHUNK_VOLUME,
        ensures
            c.wf(),
            c.pos == pos,
            c.baked is None,
            forall|i: int| 0 <= i < CHUNK_VOLUME ==> c.spec_block_at_index(i) == blocks[i],
    {
        let mut sections: Vec<ChunkSection> = Vec::new();
        let mut s: usize = 0;
        while s < CHUNK_SECTIONS_PER
            invariant
                blocks.len() == CHUNK_VOLUME,
                s <= CHUNK_SECTIONS_PER,
                sections.len() == s,
                forall|i: int| 0 <= i < s ==> (#[trigger] sections[i]).wf(i),
                forall|i: int| 0 <= i < s * (SECTION_VOLUME as int) ==>
                    sections[i / (SECTION_VOLUME as int)].blocks[i % (SECTION_VOLUME as int)]
                        == blocks[i],
            decreases CHUNK_SECTIONS_PER - s,
        {
            let start = s * SECTION_VOLUME;
            let mut sect_blocks: Vec<BlockState> = Vec::new();
            let mut any_present = false;
            let mut j: usize = 0;
            while j < SECTION_VOLUME
                invariant
                    blocks.len() == CHUNK_VOLUME,
                    s < CHUNK_SECTIONS_PER,
                    start == s * SECTION_VOLUME,
                    j <= SECTION_VOLUME,
                    sect_blocks.len() == j,
                    forall|k: int| 0 <= k < j ==>
                        sect_blocks[k] == blocks[start + k],
                    any_present <==> exists|k: int|
                        0 <= k < j && (#[trigger] blocks[start + k]).packed_key is Some,
                decreases SECTION_VOLUME - j,
            {
                let b = blocks[start + j];
                if b.packed_key.is_some() {
                    any_present = true;
                }
                sect_blocks.push(b);
                assert(sect_blocks[j as int] == b);
                j += 1;
            }
            proof {
                if any_present {
                    let k0 = choose|k: int|
                        0 <= k < SECTION_VOLUME && (#[trigger] blocks[start + k]).packed_key is Some;
                    assert(sect_blocks[k0] == blocks[start + k0]);
                } else {
                    assert forall|k: int| 0 <= k < SECTION_VOLUME implies
                        (#[trigger] sect_blocks[k]).packed_key is None by {
                        assert(sect_blocks[k] == blocks[start + k]);
                        assert(!((blocks[start + k]).packed_key is Some));
                    }
                }
            }
            sections.push(ChunkSection {
                empty: !any_present,
                blocks: sect_blocks,
                offset_y: s * CHUNK_SECTION_HEIGHT,
            });
            s += 1;
            assert forall|i: int| 0 <= i < s * (SECTION_VOLUME as int) implies
                sections[i / (SECTION_VOLUME as int)].blocks[i % (SECTION_VOLUME as int)]
                    == blocks[i] by {
                vstd::arithmetic::div_mod::lemma_fundamental_div_mod(i, SECTION_VOLUME as int);
                if i >= (s - 1) * (SECTION_VOLUME as int) {
                    vstd::arithmetic::div_mod::lemma_fundamental_div_mod_converse(
                        i, SECTION_VOLUME as int, s - 1, i - (s - 1) * (SECTION_VOLUME as int));
                }
            }
        }
        Chunk { pos, sections, baked: None }
    }

    /// Looks up the block at a world position: X and Z are taken modulo the
    /// chunk width (tolerating world-absolute coordinates, negative ones
    /// included); Y selects the section directly.
    pub fn blockstate_at_pos(&self, pos: BlockPos) -> (r: BlockState)
        requires
            self.wf(),
            (pos.1 as int) < CHUNK_HEIGHT,
        ensures
            r == self.spec_block_at(
                (pos.0 as int) % (CHUNK_WIDTH as int),
                pos.1 as int,
                (pos.2 as int) % (CHUNK_WIDTH as int),
            ),
    {
        let x = pos.0.checked_rem_euclid(16).unwrap() as usize;
        let y = pos.1 as usize;
        let z = pos.2.checked_rem_euclid(16).unwrap() as usize;
        self.sections[y].blocks[(z * CHUNK_WIDTH) + x]
    }

    /// Bakes this chunk against the material registry and the given floating
    /// world origin, replacing the previous baked geometry wholesale. On a
    /// bake fault (an unresolvable material) the chunk's geometry is dropped.
    pub fn bake(&mut self, block_manager: &BlockManager, origin: ChunkPos) -> (r: Result<(), BakeError>)
        requires
            old(self).wf(),
        ensures
            final(self).pos == old(self).pos,
            final(self).sections == old(self).sections,
            final(self).wf(),
            match r {
                Ok(_) => {
                    &&& spec_all_resolvable(*old(self), *block_manager)
                    &&& final(self).baked matches Some(b)
                        && is_baked_geometry(b, *old(self), *block_manager, origin)
                },
                Err(e) => {
                    &&& !spec_all_resolvable(*old(self), *block_manager)
                    &&& final(self).baked is None
                },
            },
    {
        match crate::baker::bake(block_manager, self, origin) {
            Ok(b) => {
                self.baked = Some(b);
                Ok(())
            },
            Err(e) => {
                self.baked = None;
                Err(e)
            },
        }
    }
}

/// Lookup inverts the flattening used at construction: the chunk-local
/// coordinates corresponding to flat index `i` hold exactly the block that
/// stood at index `i` of the flat array.
pub proof fn lemma_lookup_inverts_flattening(c: Chunk, blocks: Seq<BlockState>, x: int, y: int, z: int)
    requires
        c.wf(),
        blocks.len() == CHUNK_VOLUME,
        forall|i: int| 0 <= i < CHUNK_VOLUME ==> c.spec_block_at_index(i) == blocks[i],
        0 <= x < CHUNK_WIDTH,
        0 <= y < CHUNK_HEIGHT,
        0 <= z < CHUNK_WIDTH,
    ensures
        c.spec_block_at(x, y, z)
            == blocks[y * (CHUNK_AREA as int) + z * (CHUNK_WIDTH as int) + x],
{
    let i = y * (CHUNK_AREA as int) + z * (CHUNK_WIDTH as int) + x;
    vstd::arithmetic::div_mod::lemma_fundamental_div_mod_converse(
        i, SECTION_VOLUME as int, y, z * (CHUNK_WIDTH as int) + x);
}

} // verus!
