//! The baker: converts a chunk's voxel grid plus a material lookup into
//! direction-partitioned vertex lists, culling faces hidden by opaque
//! same-chunk neighbors. Baking is pure with respect to the chunk and
//! deterministic given identical inputs.

use vstd::prelude::*;
use crate::{BlockState, ChunkPos};
use crate::{CHUNK_WIDTH, CHUNK_HEIGHT, CHUNK_SECTIONS_PER, SECTION_VOLUME};
use crate::chunk::Chunk;

verus! {

/// One vertex of baked terrain geometry. Positions are model-space voxel
/// corner coordinates, already re-centered against the floating world origin;
/// `u` and `v` select the corner of the face's texture tile.
#[derive(Clone, Copy, Debug, PartialEq, Eq, Structural)]
pub struct ChunkVertex {
    pub x: i64,
    pub y: i64,
    pub z: i64,
    pub u: u8,
    pub v: u8,
}

/// Render properties of one material: whether it hides the faces of its
/// neighbors, and whether its geometry is standard axis-aligned cube faces
/// (special materials contribute to the catch-all nonstandard bucket
/// instead).
#[derive(Clone, Copy, Debug, PartialEq, Eq, Structural)]
pub struct BlockMaterial {
    pub opaque: bool,
    pub standard: bool,
}

/// The material registry: resolves a block state's packed key to render
/// properties. A key resolves exactly when it indexes into `materials`.
pub struct BlockManager {
    pub materials: Vec<BlockMaterial>,
}

/// The seven face buckets of one baked section, one vertex list per
/// axis-aligned face direction plus the nonstandard bucket.
#[derive(Clone, Debug, PartialEq)]
pub struct BakedChunkSection {
    pub top: Vec<ChunkVertex>,
    pub bottom: Vec<ChunkVertex>,
    pub north: Vec<ChunkVertex>,
    pub east: Vec<ChunkVertex>,
    pub south: Vec<ChunkVertex>,
    pub west: Vec<ChunkVertex>,
    pub nonstandard: Vec<ChunkVertex>,
}

/// Number of face buckets per baked section.
pub const BUCKET_COUNT: usize = 7;
/// Bucket index of the upward (+Y) faces.
pub const DIR_TOP: usize = 0;
/// Bucket index of the downward (-Y) faces.
pub const DIR_BOTTOM: usize = 1;
/// Bucket index of the -Z faces.
pub const DIR_NORTH: usize = 2;
/// Bucket index of the +X faces.
pub const DIR_EAST: usize = 3;
/// Bucket index of the +Z faces.
pub const DIR_SOUTH: usize = 4;
/// Bucket index of the -X faces.
pub const DIR_WEST: usize = 5;
/// Bucket index of the catch-all bucket for non-axis-aligned geometry.
pub const DIR_NONSTANDARD: usize = 6;

impl BakedChunkSection {
    /// The vertices of bucket `b`, in the fixed bucket order: the six axis
    /// directions, then nonstandard.
    pub open spec fn spec_bucket(self, b: int) -> Seq<ChunkVertex> {
        if b == 0 { self.top@ }
        else if b == 1 { self.bottom@ }
        else if b == 2 { self.north@ }
        else if b == 3 { self.east@ }
        else if b == 4 { self.south@ }
        else if b == 5 { self.west@ }
        else { self.nonstandard@ }
    }

    /// The vertices of bucket `b`; buckets are numbered in the fixed order
    /// top, bottom, north, east, south, west, nonstandard.
    pub fn bucket(&self, b: usize) -> (r: &Vec<ChunkVertex>)
        requires
            b < BUCKET_COUNT,
        ensures
            r@ == self.spec_bucket(b as int),
    {
        if b == 0 { &self.top }
        else if b == 1 { &self.bottom }
        else if b == 2 { &self.north }
        else if b == 3 { &self.east }
        else if b == 4 { &self.south }
        else if b == 5 { &self.west }
        else { &self.nonstandard }
    }
}

/// Per-section, read-only baked geometry of one chunk; replaced wholesale
/// (never mutated in place) when the chunk is re-baked.
#[derive(Clone, Debug, PartialEq)]
pub struct BakedChunk {
    pub sections: Vec<BakedChunkSection>,
}

/// A fault of the bake operation: the material registry lacks an entry for a
/// key that some voxel resolved to. Fatal to the bake, not to the process.
#[derive(Clone, Copy, Debug, PartialEq, Eq, Structural)]
pub enum BakeError {
    UnresolvableMaterial { key: u32 },
}

/// Chunk-local coordinates that lie inside the chunk.
pub open spec fn in_bounds(x: int, y: int, z: int) -> bool {
    &&& 0 <= x < CHUNK_WIDTH
    &&& 0 <= y < CHUNK_HEIGHT
    &&& 0 <= z < CHUNK_WIDTH
}

/// A present block state whose key the registry resolves.
pub open spec fn resolvable(bm: BlockManager, s: BlockState) -> bool {
    s.packed_key matches Some(k) && k < bm.materials.len()
}

/// The material a resolvable state resolves to.
pub open spec fn material_of(bm: BlockManager, s: BlockState) -> BlockMaterial {
    bm.materials@[s.packed_key->Some_0 as int]
}

/// Every present voxel of the chunk resolves in the registry; exactly the
/// condition under which a bake succeeds.
pub open spec fn spec_all_resolvable(c: Chunk, bm: BlockManager) -> bool {
    forall|x: int, y: int, z: int|
        in_bounds(x, y, z) && (#[trigger] c.spec_block_at(x, y, z)).packed_key is Some
            ==> resolvable(bm, c.spec_block_at(x, y, z))
}

/// True when the voxel at (x, y, z) hides the face of its neighbor: it lies
/// inside the chunk, is present, and its material is opaque.
pub open spec fn neighbor_hides(c: Chunk, bm: BlockManager, x: int, y: int, z: int) -> bool {
    &&& in_bounds(x, y, z)
    &&& c.spec_block_at(x, y, z).packed_key is Some
    &&& resolvable(bm, c.spec_block_at(x, y, z))
    &&& material_of(bm, c.spec_block_at(x, y, z)).opaque
}

/// Unit offset toward the neighbor in direction `d` (same numbering as the
/// bucket indices).
pub open spec fn dir_offset(d: int) -> (int, int, int) {
    if d == 0 { (0, 1, 0) }
    else if d == 1 { (0, -1, 0) }
    else if d == 2 { (0, 0, -1) }
    else if d == 3 { (1, 0, 0) }
    else if d == 4 { (0, 0, 1) }
    else { (-1, 0, 0) }
}

/// A face of the voxel at (x, y, z) in direction `d` is emitted exactly when
/// the voxel is present and its same-chunk neighbor in that direction exists
/// and does not hide it. Cross-chunk neighbors are not considered: a face on
/// the chunk boundary is not emitted.
pub open spec fn face_visible(c: Chunk, bm: BlockManager, x: int, y: int, z: int, d: int) -> bool {
    let o = dir_offset(d);
    &&& c.spec_block_at(x, y, z).packed_key is Some
    &&& in_bounds(x + o.0, y + o.1, z + o.2)
    &&& !neighbor_hides(c, bm, x + o.0, y + o.1, z + o.2)
}

/// The bucket that a face in direction `d` of a voxel with state `s` goes to:
/// the direction's own bucket for standard materials, the nonstandard bucket
/// for special ones.
pub open spec fn bucket_of(bm: BlockManager, s: BlockState, d: int) -> int {
    if material_of(bm, s).standard { d } else { DIR_NONSTANDARD as int }
}

/// One vertex at corner `c` with texture-tile corner (u, v).
pub open spec fn svert(c: (int, int, int), u: int, v: int) -> ChunkVertex {
    ChunkVertex { x: c.0 as i64, y: c.1 as i64, z: c.2 as i64, u: u as u8, v: v as u8 }
}

/// The six vertices (two triangles) of one quad with corners c0..c3 given in
/// counter-clockwise order seen from outside the voxel.
pub open spec fn face_quad(c0: (int, int, int), c1: (int, int, int), c2: (int, int, int), c3: (int, int, int)) -> Seq<ChunkVertex> {
    seq![
        svert(c0, 0, 0),
        svert(c1, 1, 0),
        svert(c2, 1, 1),
        svert(c0, 0, 0),
        svert(c2, 1, 1),
        svert(c3, 0, 1),
    ]
}

/// The quad of the face in direction `d` of the voxel whose re-centered
/// model-space origin corner is (x, y, z).
pub open spec fn spec_quad(d: int, x: int, y: int, z: int) -> Seq<ChunkVertex> {
    if d == 0 { face_quad((x, y + 1, z), (x, y + 1, z + 1), (x + 1, y + 1, z + 1), (x + 1, y + 1, z)) }
    else if d == 1 { face_quad((x, y, z), (x + 1, y, z), (x + 1, y, z + 1), (x, y, z + 1)) }
    else if d == 2 { face_quad((x, y, z), (x, y + 1, z), (x + 1, y + 1, z), (x + 1, y, z)) }
    else if d == 3 { face_quad((x + 1, y, z), (x + 1, y + 1, z), (x + 1, y + 1, z + 1), (x + 1, y, z + 1)) }
    else if d == 4 { face_quad((x, y, z + 1), (x + 1, y, z + 1), (x + 1, y + 1, z + 1), (x, y + 1, z + 1)) }
    else { face_quad((x, y, z), (x, y, z + 1), (x, y + 1, z + 1), (x, y + 1, z)) }
}

/// What the face of voxel (x, y, z) in direction `d` contributes to bucket
/// `b`: its quad when it is visible and belongs to that bucket, else nothing.
pub open spec fn cq(c: Chunk, bm: BlockManager, ox: int, oz: int, x: int, y: int, z: int, d: int, b: int) -> Seq<ChunkVertex> {
    if face_visible(c, bm, x, y, z, d) && bucket_of(bm, c.spec_block_at(x, y, z), d) == b {
        spec_quad(d, ox + x, y, oz + z)
    } else {
        Seq::empty()
    }
}

/// What the voxel at in-section index `j` of section `sy` contributes to
/// bucket `b`: its six faces' contributions in direction order.
pub open spec fn voxel_contrib(c: Chunk, bm: BlockManager, ox: int, oz: int, sy: int, j: int, b: int) -> Seq<ChunkVertex> {
    let x = j % (CHUNK_WIDTH as int);
    let z = j / (CHUNK_WIDTH as int);
    cq(c, bm, ox, oz, x, sy, z, 0, b)
        + cq(c, bm, ox, oz, x, sy, z, 1, b)
        + cq(c, bm, ox, oz, x, sy, z, 2, b)
        + cq(c, bm, ox, oz, x, sy, z, 3, b)
        + cq(c, bm, ox, oz, x, sy, z, 4, b)
        + cq(c, bm, ox, oz, x, sy, z, 5, b)
}

/// The vertices of bucket `b` of section `sy` contributed by the first `n`
/// voxels of the section, in voxel order.
pub open spec fn bucket_verts_upto(c: Chunk, bm: BlockManager, ox: int, oz: int, sy: int, b: int, n: int) -> Seq<ChunkVertex>
    decreases n,
{
    if n <= 0 {
        Seq::empty()
    } else {
        bucket_verts_upto(c, bm, ox, oz, sy, b, n - 1) + voxel_contrib(c, bm, ox, oz, sy, n - 1, b)
    }
}

/// The full vertex list of bucket `b` of section `sy`.
pub open spec fn section_bucket_verts(c: Chunk, bm: BlockManager, ox: int, oz: int, sy: int, b: int) -> Seq<ChunkVertex> {
    bucket_verts_upto(c, bm, ox, oz, sy, b, SECTION_VOLUME as int)
}

/// Model-space X offset of the chunk's lowest corner once re-centered
/// against the floating world origin.
pub open spec fn origin_offset_x(c: Chunk, origin: ChunkPos) -> int {
    (c.pos.0 - origin.0) * (CHUNK_WIDTH as int)
}

/// Model-space Z offset of the chunk's lowest corner once re-centered
/// against the floating world origin.
pub open spec fn origin_offset_z(c: Chunk, origin: ChunkPos) -> int {
    (c.pos.1 - origin.1) * (CHUNK_WIDTH as int)
}

/// `b` is exactly the geometry that baking chunk `c` against registry `bm`
/// and world origin `origin` yields: one baked section per chunk section,
/// each bucket holding precisely the visible faces' quads in voxel order.
pub open spec fn is_baked_geometry(b: BakedChunk, c: Chunk, bm: BlockManager, origin: ChunkPos) -> bool {
    &&& b.sections.len() == CHUNK_SECTIONS_PER
    &&& forall|sy: int, bb: int| 0 <= sy < CHUNK_SECTIONS_PER && 0 <= bb < BUCKET_COUNT ==>
            (#[trigger] b.sections[sy].spec_bucket(bb))
                == section_bucket_verts(c, bm, origin_offset_x(c, origin), origin_offset_z(c, origin), sy, bb)
}

/// Baking is deterministic: two bakes of the same chunk against the same
/// registry and world origin yield identical vertex lists in every bucket of
/// every section.
pub proof fn lemma_bake_deterministic(b1: BakedChunk, b2: BakedChunk, c: Chunk, bm: BlockManager, origin: ChunkPos)
    requires
        is_baked_geometry(b1, c, bm, origin),
        is_baked_geometry(b2, c, bm, origin),
    ensures
        b1.sections.len() == b2.sections.len(),
        forall|sy: int, bb: int| 0 <= sy < CHUNK_SECTIONS_PER && 0 <= bb < BUCKET_COUNT ==>
            (#[trigger] b1.sections[sy].spec_bucket(bb)) == b2.sections[sy].spec_bucket(bb),
{
}

/// In a chunk where no voxel is present, the first `n` voxels of any section
/// contribute no vertices to any bucket.
proof fn lemma_bucket_upto_all_empty(c: Chunk, bm: BlockManager, ox: int, oz: int, sy: int, b: int, n: int)
    requires
        0 <= sy < CHUNK_SECTIONS_PER,
        n <= SECTION_VOLUME,
        forall|x: int, y: int, z: int| in_bounds(x, y, z)
            ==> (#[trigger] c.spec_block_at(x, y, z)).packed_key is None,
    ensures
        bucket_verts_upto(c, bm, ox, oz, sy, b, n).len() == 0,
    decreases n,
{
    if n > 0 {
        lemma_bucket_upto_all_empty(c, bm, ox, oz, sy, b, n - 1);
        let j = n - 1;
        vstd::arithmetic::div_mod::lemma_fundamental_div_mod(j, CHUNK_WIDTH as int);
        assert(in_bounds(j % (CHUNK_WIDTH as int), sy, j / (CHUNK_WIDTH as int)));
        assert(c.spec_block_at(j % (CHUNK_WIDTH as int), sy, j / (CHUNK_WIDTH as int)).packed_key is None);
    }
}

/// Baking an all-empty chunk yields zero vertices in every bucket of every
/// section.
pub proof fn lemma_bake_all_empty(b: BakedChunk, c: Chunk, bm: BlockManager, origin: ChunkPos)
    requires
        is_baked_geometry(b, c, bm, origin),
        forall|x: int, y: int, z: int| in_bounds(x, y, z)
            ==> (#[trigger] c.spec_block_at(x, y, z)).packed_key is None,
    ensures
        b.sections.len() == CHUNK_SECTIONS_PER,
        forall|sy: int, bb: int| 0 <= sy < CHUNK_SECTIONS_PER && 0 <= bb < BUCKET_COUNT ==>
            (#[trigger] b.sections[sy].spec_bucket(bb)).len() == 0,
{
    let ox = origin_offset_x(c, origin);
    let oz = origin_offset_z(c, origin);
    assert forall|sy: int, bb: int| 0 <= sy < CHUNK_SECTIONS_PER && 0 <= bb < BUCKET_COUNT implies
        (#[trigger] b.sections[sy].spec_bucket(bb)).len() == 0 by {
        lemma_bucket_upto_all_empty(c, bm, ox, oz, sy, bb, SECTION_VOLUME as int);
    }
}

/// Face culling, closed side: a voxel fully surrounded by opaque same-chunk
/// neighbors has no visible face and contributes no vertices to any bucket.
pub proof fn lemma_surrounded_voxel_culled(c: Chunk, bm: BlockManager, ox: int, oz: int, x: int, y: int, z: int)
    requires
        in_bounds(x, y, z),
        neighbor_hides(c, bm, x, y + 1, z),
        neighbor_hides(c, bm, x, y - 1, z),
        neighbor_hides(c, bm, x, y, z - 1),
        neighbor_hides(c, bm, x + 1, y, z),
        neighbor_hides(c, bm, x, y, z + 1),
        neighbor_hides(c, bm, x - 1, y, z),
    ensures
        forall|d: int| 0 <= d < 6 ==> !face_visible(c, bm, x, y, z, d),
        forall|b: int| 0 <= b < BUCKET_COUNT ==>
            (#[trigger] voxel_contrib(c, bm, ox, oz, y, z * (CHUNK_WIDTH as int) + x, b)).len() == 0,
{
    let j = z * (CHUNK_WIDTH as int) + x;
    vstd::arithmetic::div_mod::lemma_fundamental_div_mod_converse(j, CHUNK_WIDTH as int, z, x);
    assert(j % (CHUNK_WIDTH as int) == x && j / (CHUNK_WIDTH as int) == z);
}

/// Face culling, one exposed side: a voxel whose same-chunk neighbors all
/// hide it except the one in direction `d0` has exactly that one face
/// visible; it contributes that face's quad to the bucket matching the
/// direction, and nothing to any other bucket.
pub proof fn lemma_single_exposed_face(c: Chunk, bm: BlockManager, ox: int, oz: int, x: int, y: int, z: int, d0: int)
    requires
        in_bounds(x, y, z),
        0 <= d0 < 6,
        c.spec_block_at(x, y, z).packed_key is Some,
        resolvable(bm, c.spec_block_at(x, y, z)),
        in_bounds(x + dir_offset(d0).0, y + dir_offset(d0).1, z + dir_offset(d0).2),
        !neighbor_hides(c, bm, x + dir_offset(d0).0, y + dir_offset(d0).1, z + dir_offset(d0).2),
        forall|d: int| 0 <= d < 6 && d != d0
            ==> neighbor_hides(c, bm,
                    x + (#[trigger] dir_offset(d)).0, y + dir_offset(d).1, z + dir_offset(d).2),
    ensures
        forall|d: int| 0 <= d < 6 ==> (face_visible(c, bm, x, y, z, d) <==> d == d0),
        voxel_contrib(c, bm, ox, oz, y, z * (CHUNK_WIDTH as int) + x,
            bucket_of(bm, c.spec_block_at(x, y, z), d0))
            == spec_quad(d0, ox + x, y, oz + z),
        forall|b: int| 0 <= b < BUCKET_COUNT && b != bucket_of(bm, c.spec_block_at(x, y, z), d0)
            ==> (#[trigger] voxel_contrib(c, bm, ox, oz, y, z * (CHUNK_WIDTH as int) + x, b)).len() == 0,
{
    let j = z * (CHUNK_WIDTH as int) + x;
    vstd::arithmetic::div_mod::lemma_fundamental_div_mod_converse(j, CHUNK_WIDTH as int, z, x);
    assert(j % (CHUNK_WIDTH as int) == x && j / (CHUNK_WIDTH as int) == z);
    assert forall|d: int| 0 <= d < 6 implies (face_visible(c, bm, x, y, z, d) <==> d == d0) by {
        if d != d0 {
            assert(neighbor_hides(c, bm,
                x + dir_offset(d).0, y + dir_offset(d).1, z + dir_offset(d).2));
        }
    }
    let b0 = bucket_of(bm, c.spec_block_at(x, y, z), d0);
    assert(voxel_contrib(c, bm, ox, oz, y, j, b0) =~= spec_quad(d0, ox + x, y, oz + z));
}

/// True when the voxel at (x, y, z) of the chunk hides faces of its
/// neighbors (present with an opaque material).
fn neighbor_hides_at(c: &Chunk, bm: &BlockManager, x: usize, y: usize, z: usize) -> (r: bool)
    requires
        c.wf(),
        x < CHUNK_WIDTH,
        y < CHUNK_HEIGHT,
        z < CHUNK_WIDTH,
    ensures
        r == neighbor_hides(*c, *bm, x as int, y as int, z as int),
{
    let s = c.sections[y].blocks[z * CHUNK_WIDTH + x];
    proof {
        assert(s == c.spec_block_at(x as int, y as int, z as int));
    }
    match s.packed_key {
        Some(k) => (k as usize) < bm.materials.len() && bm.materials[k as usize].opaque,
        None => false,
    }
}

/// Appends the six vertices of one quad with the given corners.
fn push_face(buf: &mut Vec<ChunkVertex>, c0: (i64, i64, i64), c1: (i64, i64, i64), c2: (i64, i64, i64), c3: (i64, i64, i64))
    ensures
        final(buf)@ == old(buf)@ + face_quad(
            (c0.0 as int, c0.1 as int, c0.2 as int),
            (c1.0 as int, c1.1 as int, c1.2 as int),
            (c2.0 as int, c2.1 as int, c2.2 as int),
            (c3.0 as int, c3.1 as int, c3.2 as int),
        ),
{
    buf.push(ChunkVertex { x: c0.0, y: c0.1, z: c0.2, u: 0, v: 0 });
    buf.push(ChunkVertex { x: c1.0, y: c1.1, z: c1.2, u: 1, v: 0 });
    buf.push(ChunkVertex { x: c2.0, y: c2.1, z: c2.2, u: 1, v: 1 });
    buf.push(ChunkVertex { x: c0.0, y: c0.1, z: c0.2, u: 0, v: 0 });
    buf.push(ChunkVertex { x: c2.0, y: c2.1, z: c2.2, u: 1, v: 1 });
    buf.push(ChunkVertex { x: c3.0, y: c3.1, z: c3.2, u: 0, v: 1 });
    proof {
        assert(buf@ =~= old(buf)@ + face_quad(
            (c0.0 as int, c0.1 as int, c0.2 as int),
            (c1.0 as int, c1.1 as int, c1.2 as int),
            (c2.0 as int, c2.1 as int, c2.2 as int),
            (c3.0 as int, c3.1 as int, c3.2 as int),
        ));
    }
}

/// Appends the quad of the face in direction `d` of the voxel at re-centered
/// model-space corner (x, y, z).
fn push_quad(buf: &mut Vec<ChunkVertex>, d: usize, x: i64, y: i64, z: i64)
    requires
        d < 6,
        -0x20_0000_0000_0000 <= x <= 0x20_0000_0000_0000,
        -0x20_0000_0000_0000 <= y <= 0x20_0000_0000_0000,
        -0x20_0000_0000_0000 <= z <= 0x20_0000_0000_0000,
    ensures
        final(buf)@ == old(buf)@ + spec_quad(d as int, x as int, y as int, z as int),
{
    if d == 0 {
        push_face(buf, (x, y + 1, z), (x, y + 1, z + 1), (x + 1, y + 1, z + 1), (x + 1, y + 1, z));
    } else if d == 1 {
        push_face(buf, (x, y, z), (x + 1, y, z), (x + 1, y, z + 1), (x, y, z + 1));
    } else if d == 2 {
        push_face(buf, (x, y, z), (x, y + 1, z), (x + 1, y + 1, z), (x + 1, y, z));
    } else if d == 3 {
        push_face(buf, (x + 1, y, z), (x + 1, y + 1, z), (x + 1, y + 1, z + 1), (x + 1, y, z + 1));
    } else if d == 4 {
        push_face(buf, (x, y, z + 1), (x + 1, y, z + 1), (x + 1, y + 1, z + 1), (x, y + 1, z + 1));
    } else {
        push_face(buf, (x, y, z), (x, y, z + 1), (x, y + 1, z + 1), (x, y + 1, z));
    }
}

/// Emits the face of the voxel at (x, sy, z) in direction `d`, when visible,
/// into the direction's bucket (for a standard material) or the nonstandard
/// bucket; states exactly what both buckets receive.
fn emit_face(
    c: &Chunk,
    bm: &BlockManager,
    ox: i64,
    oz: i64,
    x: usize,
    sy: usize,
    z: usize,
    d: usize,
    standard: bool,
    dirbuf: &mut Vec<ChunkVertex>,
    nonstandard: &mut Vec<ChunkVertex>,
)
    requires
        c.wf(),
        x < CHUNK_WIDTH,
        sy < CHUNK_HEIGHT,
        z < CHUNK_WIDTH,
        d < 6,
        -68719476752i64 <= ox <= 68719476752i64,
        -68719476752i64 <= oz <= 68719476752i64,
        c.spec_block_at(x as int, sy as int, z as int).packed_key is Some,
        resolvable(*bm, c.spec_block_at(x as int, sy as int, z as int)),
        material_of(*bm, c.spec_block_at(x as int, sy as int, z as int)).standard == standard,
    ensures
        final(dirbuf)@ == old(dirbuf)@
            + cq(*c, *bm, ox as int, oz as int, x as int, sy as int, z as int, d as int, d as int),
        final(nonstandard)@ == old(nonstandard)@
            + cq(*c, *bm, ox as int, oz as int, x as int, sy as int, z as int, d as int, DIR_NONSTANDARD as int),
{
    let visible = if d == 0 {
        sy + 1 < CHUNK_HEIGHT && !neighbor_hides_at(c, bm, x, sy + 1, z)
    } else if d == 1 {
        sy > 0 && !neighbor_hides_at(c, bm, x, sy - 1, z)
    } else if d == 2 {
        z > 0 && !neighbor_hides_at(c, bm, x, sy, z - 1)
    } else if d == 3 {
        x + 1 < CHUNK_WIDTH && !neighbor_hides_at(c, bm, x + 1, sy, z)
    } else if d == 4 {
        z + 1 < CHUNK_WIDTH && !neighbor_hides_at(c, bm, x, sy, z + 1)
    } else {
        x > 0 && !neighbor_hides_at(c, bm, x - 1, sy, z)
    };
    proof {
        assert(visible == face_visible(*c, *bm, x as int, sy as int, z as int, d as int));
    }
    if visible {
        let wx = ox + x as i64;
        let wy = sy as i64;
        let wz = oz + z as i64;
        if standard {
            push_quad(dirbuf, d, wx, wy, wz);
        } else {
            push_quad(nonstandard, d, wx, wy, wz);
        }
    }
    proof {
        assert(dirbuf@ =~= old(dirbuf)@
            + cq(*c, *bm, ox as int, oz as int, x as int, sy as int, z as int, d as int, d as int));
        assert(nonstandard@ =~= old(nonstandard)@
            + cq(*c, *bm, ox as int, oz as int, x as int, sy as int, z as int, d as int, DIR_NONSTANDARD as int));
    }
}

/// Emits every visible face of the voxel at in-section index `j` of section
/// `sy` into the bucket it belongs to, in direction order.
#[verifier::rlimit(50)]
fn emit_voxel(
    c: &Chunk,
    bm: &BlockManager,
    ox: i64,
    oz: i64,
    sy: usize,
    j: usize,
    top: &mut Vec<ChunkVertex>,
    bottom: &mut Vec<ChunkVertex>,
    north: &mut Vec<ChunkVertex>,
    east: &mut Vec<ChunkVertex>,
    south: &mut Vec<ChunkVertex>,
    west: &mut Vec<ChunkVertex>,
    nonstandard: &mut Vec<ChunkVertex>,
)
    requires
        c.wf(),
        sy < CHUNK_SECTIONS_PER,
        j < SECTION_VOLUME,
        -68719476752i64 <= ox <= 68719476752i64,
        -68719476752i64 <= oz <= 68719476752i64,
        c.spec_block_at(j as int % (CHUNK_WIDTH as int), sy as int, j as int / (CHUNK_WIDTH as int)).packed_key is Some
            ==> resolvable(*bm, c.spec_block_at(j as int % (CHUNK_WIDTH as int), sy as int, j as int / (CHUNK_WIDTH as int))),
    ensures
        final(top)@ == old(top)@ + voxel_contrib(*c, *bm, ox as int, oz as int, sy as int, j as int, 0),
        final(bottom)@ == old(bottom)@ + voxel_contrib(*c, *bm, ox as int, oz as int, sy as int, j as int, 1),
        final(north)@ == old(north)@ + voxel_contrib(*c, *bm, ox as int, oz as int, sy as int, j as int, 2),
        final(east)@ == old(east)@ + voxel_contrib(*c, *bm, ox as int, oz as int, sy as int, j as int, 3),
        final(south)@ == old(south)@ + voxel_contrib(*c, *bm, ox as int, oz as int, sy as int, j as int, 4),
        final(west)@ == old(west)@ + voxel_contrib(*c, *bm, ox as int, oz as int, sy as int, j as int, 5),
        final(nonstandard)@ == old(nonstandard)@ + voxel_contrib(*c, *bm, ox as int, oz as int, sy as int, j as int, 6),
{
    let x = j % CHUNK_WIDTH;
    let z = j / CHUNK_WIDTH;
    let state = c.sections[sy].blocks[j];
    proof {
        vstd::arithmetic::div_mod::lemma_fundamental_div_mod(j as int, CHUNK_WIDTH as int);
        assert(state == c.spec_block_at(x as int, sy as int, z as int));
    }
    match state.packed_key {
        None => {}
        Some(key) => {
            let mat = bm.materials[key as usize];
            emit_face(c, bm, ox, oz, x, sy, z, 0, mat.standard, top, nonstandard);
            emit_face(c, bm, ox, oz, x, sy, z, 1, mat.standard, bottom, nonstandard);
            emit_face(c, bm, ox, oz, x, sy, z, 2, mat.standard, north, nonstandard);
            emit_face(c, bm, ox, oz, x, sy, z, 3, mat.standard, east, nonstandard);
            emit_face(c, bm, ox, oz, x, sy, z, 4, mat.standard, south, nonstandard);
            emit_face(c, bm, ox, oz, x, sy, z, 5, mat.standard, west, nonstandard);
        }
    }
    proof {
        assert(top@ =~= old(top)@ + voxel_contrib(*c, *bm, ox as int, oz as int, sy as int, j as int, 0));
        assert(bottom@ =~= old(bottom)@ + voxel_contrib(*c, *bm, ox as int, oz as int, sy as int, j as int, 1));
        assert(north@ =~= old(north)@ + voxel_contrib(*c, *bm, ox as int, oz as int, sy as int, j as int, 2));
        assert(east@ =~= old(east)@ + voxel_contrib(*c, *bm, ox as int, oz as int, sy as int, j as int, 3));
        assert(south@ =~= old(south)@ + voxel_contrib(*c, *bm, ox as int, oz as int, sy as int, j as int, 4));
        assert(west@ =~= old(west)@ + voxel_contrib(*c, *bm, ox as int, oz as int, sy as int, j as int, 5));
        assert(nonstandard@ =~= old(nonstandard)@ + voxel_contrib(*c, *bm, ox as int, oz as int, sy as int, j as int, 6));
    }
}

/// Bakes a chunk: for every voxel resolving to a present material, emits quad
/// geometry for each of its six faces unless culled, partitioned by face
/// direction. Pure with respect to the chunk and deterministic given
/// identical inputs. Fails fast when the registry lacks an entry for a
/// resolved key.
pub fn bake(bm: &BlockManager, chunk: &Chunk, origin: ChunkPos) -> (r: Result<BakedChunk, BakeError>)
    requires
        chunk.wf(),
    ensures
        match r {
            Ok(b) => {
                &&& spec_all_resolvable(*chunk, *bm)
                &&& is_baked_geometry(b, *chunk, *bm, origin)
            },
            Err(e) => {
                &&& !spec_all_resolvable(*chunk, *bm)
                &&& e matches BakeError::UnresolvableMaterial { key } && exists|x: int, y: int, z: int|
                        in_bounds(x, y, z)
                        && (#[trigger] chunk.spec_block_at(x, y, z)).packed_key == Some(key)
                        && key >= bm.materials.len()
            },
        },
{
    let ox: i64 = (chunk.pos.0 as i64 - origin.0 as i64) * 16;
    let oz: i64 = (chunk.pos.1 as i64 - origin.1 as i64) * 16;
    let mut baked_sections: Vec<BakedChunkSection> = Vec::new();
    let mut sy: usize = 0;
    while sy < CHUNK_SECTIONS_PER
        invariant
            chunk.wf(),
            -68719476736i64 <= ox <= 68719476736i64,
            -68719476736i64 <= oz <= 68719476736i64,
            ox as int == origin_offset_x(*chunk, origin),
            oz as int == origin_offset_z(*chunk, origin),
            sy <= CHUNK_SECTIONS_PER,
            baked_sections.len() == sy,
            forall|s: int, b: int| 0 <= s < sy && 0 <= b < BUCKET_COUNT ==>
                (#[trigger] baked_sections[s].spec_bucket(b))
                    == section_bucket_verts(*chunk, *bm, ox as int, oz as int, s, b),
            forall|x: int, y: int, z: int|
                in_bounds(x, y, z) && y < sy
                    && (#[trigger] chunk.spec_block_at(x, y, z)).packed_key is Some
                    ==> resolvable(*bm, chunk.spec_block_at(x, y, z)),
        decreases CHUNK_SECTIONS_PER - sy,
    {
        let mut top: Vec<ChunkVertex> = Vec::new();
        let mut bottom: Vec<ChunkVertex> = Vec::new();
        let mut north: Vec<ChunkVertex> = Vec::new();
        let mut east: Vec<ChunkVertex> = Vec::new();
        let mut south: Vec<ChunkVertex> = Vec::new();
        let mut west: Vec<ChunkVertex> = Vec::new();
        let mut nonstandard: Vec<ChunkVertex> = Vec::new();
        let mut j: usize = 0;
        while j < SECTION_VOLUME
            invariant
                chunk.wf(),
                -68719476736i64 <= ox <= 68719476736i64,
                -68719476736i64 <= oz <= 68719476736i64,
                sy < CHUNK_SECTIONS_PER,
                j <= SECTION_VOLUME,
                top@ == bucket_verts_upto(*chunk, *bm, ox as int, oz as int, sy as int, 0, j as int),
                bottom@ == bucket_verts_upto(*chunk, *bm, ox as int, oz as int, sy as int, 1, j as int),
                north@ == bucket_verts_upto(*chunk, *bm, ox as int, oz as int, sy as int, 2, j as int),
                east@ == bucket_verts_upto(*chunk, *bm, ox as int, oz as int, sy as int, 3, j as int),
                south@ == bucket_verts_upto(*chunk, *bm, ox as int, oz as int, sy as int, 4, j as int),
                west@ == bucket_verts_upto(*chunk, *bm, ox as int, oz as int, sy as int, 5, j as int),
                nonstandard@ == bucket_verts_upto(*chunk, *bm, ox as int, oz as int, sy as int, 6, j as int),
                forall|x: int, z: int|
                    0 <= x < CHUNK_WIDTH && 0 <= z < CHUNK_WIDTH
                        && z * (CHUNK_WIDTH as int) + x < j
                        && (#[trigger] chunk.spec_block_at(x, sy as int, z)).packed_key is Some
                        ==> resolvable(*bm, chunk.spec_block_at(x, sy as int, z)),
            decreases SECTION_VOLUME - j,
        {
            let x = j % CHUNK_WIDTH;
            let z = j / CHUNK_WIDTH;
            let state = chunk.sections[sy].blocks[j];
            proof {
                vstd::arithmetic::div_mod::lemma_fundamental_div_mod(j as int, CHUNK_WIDTH as int);
                assert(state == chunk.spec_block_at(x as int, sy as int, z as int));
            }
            if let Some(key) = state.packed_key {
                if key as usize >= bm.materials.len() {
                    proof {
                        assert(in_bounds(x as int, sy as int, z as int));
                        assert(!resolvable(*bm, chunk.spec_block_at(x as int, sy as int, z as int)));
                        assert(exists|xx: int, yy: int, zz: int|
                            in_bounds(xx, yy, zz)
                            && (#[trigger] chunk.spec_block_at(xx, yy, zz)).packed_key == Some(key)
                            && key >= bm.materials.len());
                        assert(!spec_all_resolvable(*chunk, *bm));
                    }
                    return Err(BakeError::UnresolvableMaterial { key });
                }
            }
            emit_voxel(chunk, bm, ox, oz, sy, j,
                &mut top, &mut bottom, &mut north, &mut east, &mut south, &mut west,
                &mut nonstandard);
            j += 1;
        }
        baked_sections.push(BakedChunkSection { top, bottom, north, east, south, west, nonstandard });
        sy += 1;
        proof {
            assert forall|s: int, b: int| 0 <= s < sy && 0 <= b < BUCKET_COUNT implies
                (#[trigger] baked_sections[s].spec_bucket(b))
                    == section_bucket_verts(*chunk, *bm, ox as int, oz as int, s, b) by {
                if s == sy - 1 {
                    assert(baked_sections[s].spec_bucket(b)
                        == bucket_verts_upto(*chunk, *bm, ox as int, oz as int, s, b, SECTION_VOLUME as int));
                }
            }
        }
    }
    Ok(BakedChunk { sections: baked_sections })
}

} // verus!
