//! The chunk registry: a concurrent map from chunk coordinate to chunk plus
//! the shared floating world origin. All mutation is wholesale replacement of
//! a published value; readers take per-entry snapshots and are never blocked
//! by writers of other entries.

use vstd::prelude::*;
use crate::ChunkPos;
use crate::chunk::Chunk;
use std::sync::Arc;
use arc_swap::ArcSwap;
use dashmap::DashMap;

verus! {

/// The concurrent chunk table: a lock-free map whose values are chunks
/// published behind an atomic pointer swap, so a reader always sees a chunk
/// as an atomic whole. Verus refuses the declaration of the underlying
/// container types themselves, so they stand in a private field and are
/// reached only through the trusted methods below.
#[verifier::external_body]
pub struct ChunkSwapMap {
    inner: DashMap<ChunkPos, ArcSwap<Chunk>>,
}

/// The chunks the table currently holds, by coordinate.
pub uninterp spec fn chunk_entries(m: ChunkSwapMap) -> Map<ChunkPos, Chunk>;

/// `snap` lists exactly the entries of `m`: every listed pair is in the map,
/// no coordinate is listed twice, and every mapped coordinate is listed.
pub open spec fn is_registry_snapshot(snap: Seq<(ChunkPos, Arc<Chunk>)>, m: Map<ChunkPos, Chunk>) -> bool {
    &&& forall|i: int| 0 <= i < snap.len() ==>
            m.contains_key((#[trigger] snap[i]).0) && snap[i].1 == m[snap[i].0]
    &&& forall|i: int, k: int| 0 <= i < k < snap.len() ==> snap[i].0 != snap[k].0
    &&& forall|p: ChunkPos| #[trigger] m.contains_key(p)
            ==> exists|i: int| 0 <= i < snap.len() && (#[trigger] snap[i]).0 == p
}

/// The shared floating world origin, swapped atomically by writers while
/// readers load it without locking.
#[verifier::external_body]
pub struct OriginCell {
    inner: ArcSwap<ChunkPos>,
}

/// The origin coordinate the cell currently publishes.
pub uninterp spec fn origin_of(c: OriginCell) -> ChunkPos;

impl ChunkSwapMap {
    /// Relies on dashmap::DashMap::new: creates an empty map.
    #[verifier::external_body]
    fn empty_map() -> (r: ChunkSwapMap)
        ensures
            chunk_entries(r).dom() == Set::<ChunkPos>::empty(),
    {
        ChunkSwapMap { inner: DashMap::new() }
    }

    /// Relies on dashmap::DashMap::insert: publishes the value at the key,
    /// replacing any previous value there as an atomic whole.
    #[verifier::external_body]
    fn put(&mut self, pos: ChunkPos, chunk: Chunk)
        ensures
            chunk_entries(*final(self)) == chunk_entries(*old(self)).insert(pos, chunk),
    {
        self.inner.insert(pos, ArcSwap::from_pointee(chunk));
    }

    /// Relies on dashmap::DashMap::get and arc_swap::ArcSwapAny::load_full:
    /// returns a snapshot of the chunk published at the key, without blocking
    /// writers of other keys.
    #[verifier::external_body]
    fn find(&self, pos: ChunkPos) -> (r: Option<Arc<Chunk>>)
        ensures
            match r {
                Some(c) => chunk_entries(*self).contains_key(pos)
                    && c == chunk_entries(*self)[pos],
                None => !chunk_entries(*self).contains_key(pos),
            },
    {
        match self.inner.get(&pos) {
            Some(e) => Some(e.value().load_full()),
            None => None,
        }
    }

    /// Relies on dashmap::DashMap::iter and arc_swap::ArcSwapAny::load_full:
    /// yields every entry exactly once, each as a per-entry snapshot taken at
    /// visit time.
    #[verifier::external_body]
    fn snapshot(&self) -> (r: Vec<(ChunkPos, Arc<Chunk>)>)
        ensures
            is_registry_snapshot(r@, chunk_entries(*self)),
    {
        let mut out: Vec<(ChunkPos, Arc<Chunk>)> = Vec::new();
        for e in self.inner.iter() {
            out.push((*e.key(), e.value().load_full()));
        }
        out
    }
}

impl OriginCell {
    /// Relies on arc_swap::ArcSwapAny::new (through ArcSwap::from_pointee):
    /// publishes the initial value.
    #[verifier::external_body]
    fn with_value(pos: ChunkPos) -> (c: OriginCell)
        ensures
            origin_of(c) == pos,
    {
        OriginCell { inner: ArcSwap::from_pointee(pos) }
    }

    /// Relies on arc_swap::ArcSwapAny::load_full: returns the currently
    /// published value without locking.
    #[verifier::external_body]
    fn read(&self) -> (r: ChunkPos)
        ensures
            r == origin_of(*self),
    {
        *self.inner.load_full()
    }

    /// Relies on arc_swap::ArcSwapAny::store: atomically publishes the new
    /// value; every later read returns it.
    #[verifier::external_body]
    fn write(&mut self, pos: ChunkPos)
        ensures
            origin_of(*final(self)) == pos,
    {
        self.inner.store(Arc::new(pos));
    }
}

/// The registry of loaded chunks plus the shared floating world origin.
/// Model coordinates are kept close to the origin to avoid precision loss at
/// large world coordinates, so the origin is re-centered as the viewer moves.
pub struct ChunkManager {
    pub chunk_origin: OriginCell,
    pub loaded_chunks: ChunkSwapMap,
}

impl ChunkManager {
    /// The chunks currently loaded, by coordinate.
    pub open spec fn spec_chunks(self) -> Map<ChunkPos, Chunk> {
        chunk_entries(self.loaded_chunks)
    }

    /// The currently published world origin.
    pub open spec fn spec_origin(self) -> ChunkPos {
        origin_of(self.chunk_origin)
    }

    /// Starts with no chunks loaded and the origin at (0, 0).
    pub fn new() -> (m: ChunkManager)
        ensures
            m.spec_chunks().dom() == Set::<ChunkPos>::empty(),
            m.spec_origin() == ((0i32, 0i32)),
    {
        ChunkManager {
            chunk_origin: OriginCell::with_value((0, 0)),
            loaded_chunks: ChunkSwapMap::empty_map(),
        }
    }

    /// Publishes a chunk at a coordinate, replacing any previous chunk there;
    /// concurrent readers see the old or the new chunk in full, never a mix.
    pub fn insert(&mut self, pos: ChunkPos, chunk: Chunk)
        ensures
            final(self).spec_chunks() == old(self).spec_chunks().insert(pos, chunk),
            final(self).spec_origin() == old(self).spec_origin(),
    {
        self.loaded_chunks.put(pos, chunk);
    }

    /// Looks up the chunk at a coordinate: a snapshot taken at call time, or
    /// nothing when no chunk is loaded there. Never fails and never blocks on
    /// writers of other coordinates.
    pub fn lookup(&self, pos: ChunkPos) -> (r: Option<Arc<Chunk>>)
        ensures
            match r {
                Some(c) => self.spec_chunks().contains_key(pos)
                    && c == self.spec_chunks()[pos],
                None => !self.spec_chunks().contains_key(pos),
            },
    {
        self.loaded_chunks.find(pos)
    }

    /// Produces every loaded (coordinate, chunk) pair exactly once. Snapshot
    /// consistency is per entry, not whole-map-atomic: under concurrent
    /// mutation an iteration may mix pre- and post-update chunks.
    pub fn iterate(&self) -> (r: Vec<(ChunkPos, Arc<Chunk>)>)
        ensures
            is_registry_snapshot(r@, self.spec_chunks()),
    {
        self.loaded_chunks.snapshot()
    }

    /// Atomically swaps the shared world origin; the new value is observable
    /// by readers immediately after the call returns, and the loaded chunks
    /// are untouched.
    pub fn recenter(&mut self, new_origin: ChunkPos)
        ensures
            final(self).spec_origin() == new_origin,
            final(self).spec_chunks() == old(self).spec_chunks(),
    {
        self.chunk_origin.write(new_origin);
    }

    /// Reads the currently published world origin; read once per use, so a
    /// computation that captured an older origin completes with that value.
    pub fn origin(&self) -> (r: ChunkPos)
        ensures
            r == self.spec_origin(),
    {
        self.chunk_origin.read()
    }
}

impl Default for ChunkManager {
    /// Same as `ChunkManager::new`.
    fn default() -> (m: Self)
        ensures
            m.spec_chunks().dom() == Set::<ChunkPos>::empty(),
            m.spec_origin() == ((0i32, 0i32)),
    {
        ChunkManager::new()
    }
}

} // verus!
