//! The catalog of known system registers: an immutable table, built once,
//! from identifier to name, coordinates and access mode.
use vstd::prelude::*;

use crate::arm::RegisterCoordinates;

verus! {

/// How a register may be accessed.
#[derive(Clone, Copy, Debug, PartialEq, Eq, Structural)]
pub enum Access {
    ReadWrite,
    ReadOnly,
    WriteOnly,
}

/// One line of the hand-maintained register list.
#[derive(Debug)]
pub struct RegisterDescriptor {
    pub name: String,
    pub coordinates: RegisterCoordinates,
    pub access: Access,
}

/// A register of the catalog, with the identifier derived from its coordinates.
#[derive(Debug)]
pub struct CatalogEntry {
    pub name: String,
    pub coordinates: RegisterCoordinates,
    pub access: Access,
    pub id: u64,
}

/// The catalog entry of a descriptor.
pub open spec fn entry_of(d: RegisterDescriptor) -> CatalogEntry {
    CatalogEntry { name: d.name, coordinates: d.coordinates, access: d.access, id: d.coordinates.id() }
}

/// The catalog built from a register list: one entry per line, in order.
pub open spec fn catalog_of(list: Seq<RegisterDescriptor>) -> Seq<CatalogEntry> {
    list.map_values(|d: RegisterDescriptor| entry_of(d))
}

/// The entries with a given identifier, in catalog order.
pub open spec fn entries_with_id(entries: Seq<CatalogEntry>, id: u64) -> Seq<CatalogEntry> {
    entries.filter(|e: CatalogEntry| e.id == id)
}

/// The entries with a given name, in catalog order.
pub open spec fn entries_named(entries: Seq<CatalogEntry>, name: Seq<char>) -> Seq<CatalogEntry> {
    entries.filter(|e: CatalogEntry| e.name@ == name)
}

/// The table of known registers. It has no way to change once built.
pub struct Catalog {
    entries: Vec<CatalogEntry>,
}

impl View for Catalog {
    type V = Seq<CatalogEntry>;

    closed spec fn view(&self) -> Seq<CatalogEntry> {
        self.entries@
    }
}

impl Catalog {
    /// Builds the catalog from a register list, deriving each identifier
    /// from the coordinates.
    pub fn build(list: &Vec<RegisterDescriptor>) -> (r: Catalog)
        ensures
            r@ == catalog_of(list@),
    {
        let mut entries: Vec<CatalogEntry> = Vec::new();
        for i in 0..list.len()
            invariant
                entries@ == catalog_of(list@.take(i as int)),
        {
            let d = &list[i];
            let entry = CatalogEntry {
                name: d.name.clone(),
                coordinates: d.coordinates,
                access: d.access,
                id: d.coordinates.encode(),
            };
            entries.push(entry);
            assert(list@.take(i + 1) =~= list@.take(i as int).push(list@[i as int]));
            assert(catalog_of(list@.take(i + 1)) =~= catalog_of(list@.take(i as int)).push(
                entry_of(list@[i as int]),
            ));
        }
        assert(list@.take(list.len() as int) =~= list@);
        Catalog { entries }
    }

    /// The number of entries.
    pub fn len(&self) -> (r: usize)
        ensures
            r == self@.len(),
    {
        self.entries.len()
    }

    /// The entry at `index`.
    pub fn entry(&self, index: usize) -> (r: &CatalogEntry)
        requires
            index < self@.len(),
        ensures
            *r == self@[index as int],
    {
        &self.entries[index]
    }

    /// All entries with identifier `id`, in catalog order; empty when none has it.
    pub fn lookup_by_id(&self, id: u64) -> (r: Vec<&CatalogEntry>)
        ensures
            r@.map_values(|e: &CatalogEntry| *e) == entries_with_id(self@, id),
    {
        let mut found: Vec<&CatalogEntry> = Vec::new();
        for i in 0..self.entries.len()
            invariant
                found@.map_values(|e: &CatalogEntry| *e) == entries_with_id(
                    self.entries@.take(i as int),
                    id,
                ),
        {
            let e = &self.entries[i];
            proof {
                reveal(Seq::filter);
                assert(self.entries@.take(i + 1).drop_last() =~= self.entries@.take(i as int));
            }
            if e.id == id {
                found.push(e);
            }
            assert(found@.map_values(|e: &CatalogEntry| *e) =~= entries_with_id(
                self.entries@.take(i + 1),
                id,
            ));
        }
        assert(self.entries@.take(self.entries.len() as int) =~= self.entries@);
        found
    }

    /// All entries named exactly `name`, in catalog order; empty when none is.
    pub fn lookup_by_name(&self, name: &String) -> (r: Vec<&CatalogEntry>)
        ensures
            r@.map_values(|e: &CatalogEntry| *e) == entries_named(self@, name@),
    {
        let mut found: Vec<&CatalogEntry> = Vec::new();
        for i in 0..self.entries.len()
            invariant
                found@.map_values(|e: &CatalogEntry| *e) == entries_named(
                    self.entries@.take(i as int),
                    name@,
                ),
        {
            let e = &self.entries[i];
            proof {
                reveal(Seq::filter);
                assert(self.entries@.take(i + 1).drop_last() =~= self.entries@.take(i as int));
            }
            if e.name == *name {
                found.push(e);
            }
            assert(found@.map_values(|e: &CatalogEntry| *e) =~= entries_named(
                self.entries@.take(i + 1),
                name@,
            ));
        }
        assert(self.entries@.take(self.entries.len() as int) =~= self.entries@);
        found
    }
}

/// Building the catalog twice from the same register list gives the same
/// entries for every identifier and every name.
pub proof fn lemma_build_deterministic(a: Seq<RegisterDescriptor>, b: Seq<RegisterDescriptor>)
    requires
        a == b,
    ensures
        catalog_of(a) == catalog_of(b),
        forall|id: u64| entries_with_id(catalog_of(a), id) == entries_with_id(catalog_of(b), id),
        forall|name: Seq<char>|
            entries_named(catalog_of(a), name) == entries_named(catalog_of(b), name),
{
}

/// Every entry's identifier is the one its coordinates encode.
pub proof fn lemma_catalog_ids(list: Seq<RegisterDescriptor>, i: int)
    requires
        0 <= i < list.len(),
    ensures
        catalog_of(list)[i].id == catalog_of(list)[i].coordinates.id(),
        catalog_of(list)[i].name == list[i].name,
{
}

} // verus!
