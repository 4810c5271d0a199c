//! The interning subsystems and the aggregate that composes them.
//!
//! Each table stores one slot per identifier together with the compilation
//! unit that produced the entry.  `clear_module` evicts exactly the slots of
//! one unit and leaves every other slot unchanged, which is the
//! memory-bounding hook for incremental compilation.

use vstd::prelude::*;
use crate::entities::{DeclId, DeclRepr, TypeId, TypeRepr};
use sway_types::SourceEngine;

verus! {

/// The source-location subsystem comes from the `sway-types` crate; the
/// aggregate only holds it and hands out a shared borrow.
#[verifier::external_type_specification]
#[verifier::external_body]
pub struct ExSourceEngine(SourceEngine);

/// Identifier of the compilation unit that produced an interned entry.  It
/// is the granularity of eviction and carries no other structure.
#[derive(Clone, Copy, PartialEq, Eq, Structural, Debug)]
pub struct ModuleId(pub u16);

/// The entry stored at slot `i` of a table, if `i` is a live identifier.
pub open spec fn resolve_slot<V>(slots: Seq<Option<(V, ModuleId)>>, i: int) -> Option<V> {
    if 0 <= i < slots.len() {
        match slots[i] {
            Some(entry) => Some(entry.0),
            None => None,
        }
    } else {
        None
    }
}

/// One slot after evicting `module`: cleared if the entry came from
/// `module`, unchanged otherwise.
pub open spec fn evict_slot<V>(slot: Option<(V, ModuleId)>, module: ModuleId) -> Option<
    (V, ModuleId),
> {
    match slot {
        Some(entry) => if entry.1 == module {
            None
        } else {
            Some(entry)
        },
        None => None,
    }
}

/// A table after evicting every entry of `module`.
pub open spec fn evict<V>(slots: Seq<Option<(V, ModuleId)>>, module: ModuleId) -> Seq<
    Option<(V, ModuleId)>,
> {
    slots.map_values(|slot: Option<(V, ModuleId)>| evict_slot(slot, module))
}

/// An interning table: a slot per identifier, each holding the entry and the
/// compilation unit it came from until that unit is evicted.
#[derive(Debug)]
pub struct InternTable<V> {
    slots: Vec<Option<(V, ModuleId)>>,
}

impl<V> InternTable<V> {
    /// The table's contents, slot by slot.
    pub closed spec fn entries(self) -> Seq<Option<(V, ModuleId)>> {
        self.slots@
    }

    /// An empty table.
    pub fn new() -> (r: Self)
        ensures
            r.entries() == Seq::<Option<(V, ModuleId)>>::empty(),
    {
        let table = InternTable { slots: Vec::new() };
        proof {
            assert(table.entries() =~= Seq::<Option<(V, ModuleId)>>::empty());
        }
        table
    }

    /// Interns `value` under `module` and returns its identifier, the index
    /// of the new slot.
    pub fn register(&mut self, value: V, module: ModuleId) -> (id: usize)
        ensures
            final(self).entries() == old(self).entries().push(Some((value, module))),
            id == old(self).entries().len(),
    {
        let id = self.slots.len();
        self.slots.push(Some((value, module)));
        id
    }

    /// Looks the identifier up: the interned value, or `None` for an
    /// identifier that was never returned by `register` or whose unit was
    /// evicted.
    pub fn get(&self, id: usize) -> (r: Option<&V>)
        ensures
            match r {
                Some(v) => resolve_slot(self.entries(), id as int) == Some(*v),
                None => resolve_slot(self.entries(), id as int) is None,
            },
    {
        if id < self.slots.len() {
            match &self.slots[id] {
                Some(entry) => Some(&entry.0),
                None => None,
            }
        } else {
            None
        }
    }

    /// Evicts every entry of `module` and nothing else.  A unit with no
    /// entries makes this a no-op.
    pub fn clear_module(&mut self, module: &ModuleId)
        ensures
            final(self).entries() == evict(old(self).entries(), *module),
    {
        let n = self.slots.len();
        let mut i: usize = 0;
        while i < n
            invariant
                n == self.slots@.len(),
                n == old(self).entries().len(),
                i <= n,
                forall|j: int|
                    0 <= j < i ==> self.slots@[j] == evict_slot(
                        old(self).entries()[j],
                        *module,
                    ),
                forall|j: int| i <= j < n ==> self.slots@[j] == old(self).entries()[j],
            decreases n - i,
        {
            let stale = match &self.slots[i] {
                Some(entry) => entry.1 == *module,
                None => false,
            };
            if stale {
                self.slots[i] = None;
            }
            i += 1;
        }
        proof {
            assert(self.entries() =~= evict(old(self).entries(), *module));
        }
    }
}

/// The type table: interned structural type forms.
pub type TypeEngine = InternTable<TypeRepr>;

/// The declaration table: interned declaration forms.
pub type DeclEngine = InternTable<DeclRepr>;

impl InternTable<TypeRepr> {
    /// Interns a type form and returns its handle.
    pub fn register_type(&mut self, repr: TypeRepr, module: ModuleId) -> (id: TypeId)
        ensures
            final(self).entries() == old(self).entries().push(Some((repr, module))),
            id.0 == old(self).entries().len(),
    {
        TypeId(self.register(repr, module))
    }

    /// Resolves a type handle.
    pub fn get_type(&self, id: TypeId) -> (r: Option<&TypeRepr>)
        ensures
            match r {
                Some(v) => resolve_slot(self.entries(), id.0 as int) == Some(*v),
                None => resolve_slot(self.entries(), id.0 as int) is None,
            },
    {
        self.get(id.0)
    }
}

impl InternTable<DeclRepr> {
    /// Interns a declaration form and returns its handle.
    pub fn register_decl(&mut self, repr: DeclRepr, module: ModuleId) -> (id: DeclId)
        ensures
            final(self).entries() == old(self).entries().push(Some((repr, module))),
            id.0 == old(self).entries().len(),
    {
        DeclId(self.register(repr, module))
    }

    /// Resolves a declaration handle.
    pub fn get_decl(&self, id: DeclId) -> (r: Option<&DeclRepr>)
        ensures
            match r {
                Some(v) => resolve_slot(self.entries(), id.0 as int) == Some(*v),
                None => resolve_slot(self.entries(), id.0 as int) is None,
            },
    {
        self.get(id.0)
    }
}

/// The first memoized result for `key`, scanning the newest entry first.
pub open spec fn memo_lookup(entries: Seq<(u64, u64)>, key: u64) -> Option<u64>
    decreases entries.len(),
{
    if entries.len() == 0 {
        None
    } else if entries.last().0 == key {
        Some(entries.last().1)
    } else {
        memo_lookup(entries.drop_last(), key)
    }
}

/// The query-result table: memoized results keyed by query identifier.  The
/// newest entry for a key wins.
#[derive(Debug)]
pub struct QueryEngine {
    results: Vec<(u64, u64)>,
}

impl QueryEngine {
    /// The memoized entries, oldest first.
    pub closed spec fn entries(self) -> Seq<(u64, u64)> {
        self.results@
    }

    /// An empty memo table.
    pub fn new() -> (r: Self)
        ensures
            r.entries() == Seq::<(u64, u64)>::empty(),
    {
        let engine = QueryEngine { results: Vec::new() };
        proof {
            assert(engine.entries() =~= Seq::<(u64, u64)>::empty());
        }
        engine
    }

    /// Memoizes `value` for `key`, shadowing any older entry.
    pub fn insert(&mut self, key: u64, value: u64)
        ensures
            final(self).entries() == old(self).entries().push((key, value)),
    {
        self.results.push((key, value));
    }

    /// The memoized result for `key`, if any.
    pub fn lookup(&self, key: u64) -> (r: Option<u64>)
        ensures
            r == memo_lookup(self.entries(), key),
    {
        let mut i: usize = self.results.len();
        proof {
            assert(self.entries().take(self.results@.len() as int) =~= self.entries());
        }
        while i > 0
            invariant
                i <= self.results@.len(),
                memo_lookup(self.entries(), key) == memo_lookup(
                    self.entries().take(i as int),
                    key,
                ),
            decreases i,
        {
            i -= 1;
            let entry = self.results[i];
            proof {
                assert(self.entries().take(i as int + 1).last() == entry);
                assert(self.entries().take(i as int + 1).drop_last() =~= self.entries().take(
                    i as int,
                ));
            }
            if entry.0 == key {
                return Some(entry.1);
            }
        }
        proof {
            assert(self.entries().take(0) =~= Seq::<(u64, u64)>::empty());
        }
        None
    }
}

/// The composition root of a compilation session: the four interning
/// subsystems, owned exclusively, with read accessors and the eviction hook.
#[derive(Debug)]
pub struct Engines {
    type_engine: TypeEngine,
    decl_engine: DeclEngine,
    query_engine: QueryEngine,
    source_engine: SourceEngine,
}

impl Engines {
    /// The type table's contents.
    pub closed spec fn type_slots(self) -> Seq<Option<(TypeRepr, ModuleId)>> {
        self.type_engine.entries()
    }

    /// The declaration table's contents.
    pub closed spec fn decl_slots(self) -> Seq<Option<(DeclRepr, ModuleId)>> {
        self.decl_engine.entries()
    }

    /// The memo table's contents.
    pub closed spec fn memo_entries(self) -> Seq<(u64, u64)> {
        self.query_engine.entries()
    }

    /// The source-location subsystem.
    pub closed spec fn source_spec(self) -> SourceEngine {
        self.source_engine
    }

    /// What a type handle denotes under this aggregate.
    pub open spec fn resolve_type(self, id: TypeId) -> Option<TypeRepr> {
        resolve_slot(self.type_slots(), id.0 as int)
    }

    /// What a declaration handle denotes under this aggregate.
    pub open spec fn resolve_decl(self, id: DeclId) -> Option<DeclRepr> {
        resolve_slot(self.decl_slots(), id.0 as int)
    }

    /// Composes the four subsystems into one session aggregate.
    pub fn new(
        type_engine: TypeEngine,
        decl_engine: DeclEngine,
        query_engine: QueryEngine,
        source_engine: SourceEngine,
    ) -> (r: Engines)
        ensures
            r.type_slots() == type_engine.entries(),
            r.decl_slots() == decl_engine.entries(),
            r.memo_entries() == query_engine.entries(),
            r.source_spec() == source_engine,
    {
        Engines { type_engine, decl_engine, query_engine, source_engine }
    }

    /// The type table.
    pub fn te(&self) -> (r: &TypeEngine)
        ensures
            r.entries() == self.type_slots(),
    {
        &self.type_engine
    }

    /// The declaration table.
    pub fn de(&self) -> (r: &DeclEngine)
        ensures
            r.entries() == self.decl_slots(),
    {
        &self.decl_engine
    }

    /// The query-result table.
    pub fn qe(&self) -> (r: &QueryEngine)
        ensures
            r.entries() == self.memo_entries(),
    {
        &self.query_engine
    }

    /// The source-location table.
    pub fn se(&self) -> (r: &SourceEngine)
        ensures
            *r == self.source_spec(),
    {
        &self.source_engine
    }

    /// Removes all data associated with `module` from the type and
    /// declaration tables.  Entries of every other unit, the memo table and
    /// the source table stay untouched, and a unit with no entries makes
    /// this a no-op.
    pub fn clear_module(&mut self, module: &ModuleId)
        ensures
            final(self).type_slots() == evict(old(self).type_slots(), *module),
            final(self).decl_slots() == evict(old(self).decl_slots(), *module),
            final(self).memo_entries() == old(self).memo_entries(),
            final(self).source_spec() == old(self).source_spec(),
    {
        self.type_engine.clear_module(module);
        self.decl_engine.clear_module(module);
    }
}

/// Relies on `sway_types::SourceEngine`'s derived `Default` to produce a
/// source table with no entries; nothing is assumed about the value.
#[verifier::external_body]
fn source_engine_default() -> SourceEngine {
    SourceEngine::default()
}

impl Default for Engines {
    /// A session with all four subsystems empty.
    fn default() -> (r: Engines)
        ensures
            r.type_slots() == Seq::<Option<(TypeRepr, ModuleId)>>::empty(),
            r.decl_slots() == Seq::<Option<(DeclRepr, ModuleId)>>::empty(),
            r.memo_entries() == Seq::<(u64, u64)>::empty(),
    {
        Engines::new(
            InternTable::new(),
            InternTable::new(),
            QueryEngine::new(),
            source_engine_default(),
        )
    }
}

} // verus!
