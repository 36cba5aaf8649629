//! The durable backing: a region allocator over one flat byte space, a
//! counter cell in one region and an ordered id-to-bytes map in another.
//!
//! Everything here wraps `ic_stable_structures`; the wrappers' contracts are
//! trusted, and speak of the counter's value and the map's contents through
//! the two uninterpreted functions below.  Each region is handed out once:
//! the store attaches one cell and one map, to distinct regions, so no two
//! live handles in this crate read or write the same bytes.  A write that the
//! physical store cannot be grown to hold aborts the process inside the
//! wrapped crate; no wrapper promises anything past such an abort.

use vstd::prelude::*;

use ic_stable_structures::memory_manager::{MemoryId, MemoryManager, VirtualMemory};
use ic_stable_structures::{DefaultMemoryImpl, StableBTreeMap, StableCell};

verus! {

/// The registry of numbered, disjoint logical regions over the one physical
/// byte space.  Wraps `MemoryManager`.
#[verifier::external_body]
pub struct RegionTable {
    table: MemoryManager<DefaultMemoryImpl>,
}

/// A handle on one logical region.  Wraps `VirtualMemory`.
#[verifier::external_body]
pub struct ByteRegion {
    region: VirtualMemory<DefaultMemoryImpl>,
}

/// A durable 8-byte counter living in one region.  Wraps `StableCell`.
#[verifier::external_body]
pub struct IdCell {
    cell: StableCell<u64, VirtualMemory<DefaultMemoryImpl>>,
}

/// A durable ordered map from ids to byte strings living in one region.
/// Wraps `StableBTreeMap`.
#[verifier::external_body]
pub struct ByteMap {
    map: StableBTreeMap<u64, Vec<u8>, VirtualMemory<DefaultMemoryImpl>>,
}

/// The value an `IdCell` holds.
pub uninterp spec fn id_cell_value(c: IdCell) -> u64;

/// The contents of a `ByteMap`.
pub uninterp spec fn byte_map_contents(m: ByteMap) -> Map<u64, Seq<u8>>;

impl RegionTable {
    /// Relies on `MemoryManager::init` over the process's default byte space:
    /// it partitions that space into the numbered regions, re-deriving the
    /// same layout from the same ids on every start.  In a process whose
    /// backing store persists, attach one table per process.
    #[verifier::external_body]
    pub(crate) fn new() -> (t: RegionTable) {
        RegionTable { table: MemoryManager::init(DefaultMemoryImpl::default()) }
    }

    /// Relies on `MemoryManager::get`: each id names a stable region,
    /// disjoint from every differently-numbered one.  The largest id is
    /// reserved by the wrapped crate.
    #[verifier::external_body]
    pub(crate) fn region(&self, id: u8) -> (r: ByteRegion)
        requires
            id != 255,
    {
        ByteRegion { region: self.table.get(MemoryId::new(id)) }
    }
}

impl IdCell {
    /// Relies on `StableCell::init`: it attaches to the cell already present
    /// in the region, or writes `default` into a region not holding one.
    /// The value found is unknown to callers until they read it.
    #[verifier::external_body]
    pub(crate) fn init(region: ByteRegion, default: u64) -> (c: IdCell) {
        IdCell { cell: StableCell::init(region.region, default) }
    }

    /// Relies on `StableCell::get`: it returns the cell's current value.
    #[verifier::external_body]
    pub(crate) fn get(&self) -> (v: u64)
        ensures
            v == id_cell_value(*self),
    {
        *self.cell.get()
    }

    /// Relies on `StableCell::set`: it durably writes the new value and
    /// returns the previous one.
    #[verifier::external_body]
    pub(crate) fn set(&mut self, v: u64) -> (prev: u64)
        ensures
            id_cell_value(*final(self)) == v,
            prev == id_cell_value(*old(self)),
    {
        self.cell.set(v)
    }
}

impl ByteMap {
    /// Relies on `StableBTreeMap::init`: it attaches to the map already
    /// present in the region, or creates an empty one there.  The contents
    /// found are unknown to callers until they read them.
    #[verifier::external_body]
    pub(crate) fn init(region: ByteRegion) -> (m: ByteMap) {
        ByteMap { map: StableBTreeMap::init(region.region) }
    }

    /// Relies on `StableBTreeMap::get`: it returns the value stored under
    /// the key, if any.
    #[verifier::external_body]
    pub(crate) fn get(&self, key: u64) -> (r: Option<Vec<u8>>)
        ensures
            match r {
                Option::Some(v) => byte_map_contents(*self).dom().contains(key) && v@
                    == byte_map_contents(*self)[key],
                Option::None => !byte_map_contents(*self).dom().contains(key),
            },
    {
        self.map.get(&key)
    }

    /// Relies on `StableBTreeMap::insert`: it stores the value under the key
    /// and returns the value previously stored there, if any.
    #[verifier::external_body]
    pub(crate) fn insert(&mut self, key: u64, value: Vec<u8>) -> (prev: Option<Vec<u8>>)
        ensures
            byte_map_contents(*final(self)) == byte_map_contents(*old(self)).insert(key, value@),
            match prev {
                Option::Some(v) => byte_map_contents(*old(self)).dom().contains(key) && v@
                    == byte_map_contents(*old(self))[key],
                Option::None => !byte_map_contents(*old(self)).dom().contains(key),
            },
    {
        self.map.insert(key, value)
    }

    /// Relies on `StableBTreeMap::remove`: it removes the entry under the
    /// key and returns its value, if any.
    #[verifier::external_body]
    pub(crate) fn remove(&mut self, key: u64) -> (prev: Option<Vec<u8>>)
        ensures
            byte_map_contents(*final(self)) == byte_map_contents(*old(self)).remove(key),
            match prev {
                Option::Some(v) => byte_map_contents(*old(self)).dom().contains(key) && v@
                    == byte_map_contents(*old(self))[key],
                Option::None => !byte_map_contents(*old(self)).dom().contains(key),
            },
    {
        self.map.remove(&key)
    }

    /// Relies on `StableBTreeMap::len`: it counts the stored entries.
    #[verifier::external_body]
    pub(crate) fn len(&self) -> (n: u64)
        ensures
            n as nat == byte_map_contents(*self).len(),
    {
        self.map.len()
    }
}

} // verus!
