use std::cmp::Ordering;

use engine_context::engines::{Engines, InternTable, ModuleId, QueryEngine};
use engine_context::entities::{DeclRepr, TypeRepr};
use engine_context::hashing::{HashState, FNV_OFFSET_BASIS};
use engine_context::protocols::{
    DisplayWithEngines, HashWithEngines, OrdWithEngines, PartialEqWithEngines,
};
use engine_context::wrapper::{make_hasher, WithEngines};

#[test]
fn eviction_is_local_to_the_cleared_unit() {
    let mut te = InternTable::new();
    let t1 = te.register_type(TypeRepr::Bool, ModuleId(1));
    let t2 = te.register_type(TypeRepr::Unsigned(64), ModuleId(2));
    let mut de = InternTable::new();
    let d1 = de.register_decl(DeclRepr { kind: 7, arity: 0 }, ModuleId(1));
    let d2 = de.register_decl(DeclRepr { kind: 8, arity: 1 }, ModuleId(2));
    let mut engines = Engines::new(
        te,
        de,
        QueryEngine::new(),
        sway_types::SourceEngine::default(),
    );

    engines.clear_module(&ModuleId(1));
    assert_eq!(engines.te().get_type(t1), None);
    assert_eq!(engines.te().get_type(t2), Some(&TypeRepr::Unsigned(64)));
    assert_eq!(engines.de().get_decl(d1), None);
    assert_eq!(engines.de().get_decl(d2), Some(&DeclRepr { kind: 8, arity: 1 }));

    // A second eviction of the same unit is a no-op.
    engines.clear_module(&ModuleId(1));
    assert_eq!(engines.te().get_type(t1), None);
    assert_eq!(engines.te().get_type(t2), Some(&TypeRepr::Unsigned(64)));
    assert_eq!(engines.de().get_decl(d2), Some(&DeclRepr { kind: 8, arity: 1 }));

    // Evicting a unit with no entries never fails and changes nothing.
    engines.clear_module(&ModuleId(99));
    assert_eq!(engines.te().get_type(t2), Some(&TypeRepr::Unsigned(64)));
}

#[test]
fn hash_function_factory_is_deterministic() {
    let mut te = InternTable::new();
    let bool_a = te.register_type(TypeRepr::Bool, ModuleId(1));
    let bool_b = te.register_type(TypeRepr::Bool, ModuleId(2));
    let engines = Engines::new(
        te,
        InternTable::new(),
        QueryEngine::new(),
        sway_types::SourceEngine::default(),
    );
    let hasher = make_hasher(FNV_OFFSET_BASIS, &engines);
    assert_eq!(hasher(&bool_a), hasher(&bool_a));
    let again = make_hasher(FNV_OFFSET_BASIS, &engines);
    assert_eq!(hasher(&bool_a), again(&bool_a));
    // Hash coherence holds through the factory as well.
    assert_eq!(hasher(&bool_a), hasher(&bool_b));
}

#[test]
fn factory_agrees_with_a_fresh_accumulator() {
    let mut te = InternTable::new();
    let unsigned = te.register_type(TypeRepr::Unsigned(16), ModuleId(1));
    let engines = Engines::new(
        te,
        InternTable::new(),
        QueryEngine::new(),
        sway_types::SourceEngine::default(),
    );
    let hasher = make_hasher(41, &engines);
    let mut state = HashState::with_seed(41);
    HashWithEngines::hash(&unsigned, &mut state, &engines);
    assert_eq!(hasher(&unsigned), state.finish());
}

#[test]
fn wrapper_is_transparent() {
    let mut te = InternTable::new();
    let bool_a = te.register_type(TypeRepr::Bool, ModuleId(1));
    let bool_b = te.register_type(TypeRepr::Bool, ModuleId(2));
    let unsigned = te.register_type(TypeRepr::Unsigned(8), ModuleId(1));
    let engines = Engines::new(
        te,
        InternTable::new(),
        QueryEngine::new(),
        sway_types::SourceEngine::default(),
    );

    // Equality through the ordinary protocol matches contextual equivalence.
    assert_eq!(
        engines.help_out(bool_a) == engines.help_out(bool_b),
        PartialEqWithEngines::eq(&bool_a, &bool_b, &engines),
    );
    assert_eq!(
        engines.help_out(bool_a) == engines.help_out(unsigned),
        PartialEqWithEngines::eq(&bool_a, &unsigned, &engines),
    );

    // Ordering matches the contextual comparison.
    assert_eq!(
        engines.help_out(bool_a).cmp(&engines.help_out(unsigned)),
        OrdWithEngines::cmp(&bool_a, &unsigned, &engines),
    );
    assert_eq!(
        engines.help_out(bool_a).partial_cmp(&engines.help_out(unsigned)),
        Some(OrdWithEngines::cmp(&bool_a, &unsigned, &engines)),
    );

    // Formatting matches the contextual rendering.
    assert_eq!(
        engines.help_out(unsigned).fmt(),
        DisplayWithEngines::fmt(&unsigned, &engines),
    );
    assert_eq!(engines.help_out(bool_a).dbg_fmt(), "bool");

    // Hashing matches the contextual feed.
    let mut direct = HashState::new();
    let mut wrapped = HashState::new();
    HashWithEngines::hash(&bool_a, &mut direct, &engines);
    engines.help_out(bool_a).hash(&mut wrapped);
    assert_eq!(direct.finish(), wrapped.finish());

    // The explicit constructor builds the same pairing.
    let w = WithEngines::new(bool_a, &engines);
    assert!(w == engines.help_out(bool_b));
    assert_eq!(w.thing, bool_a);
}

#[test]
fn accessors_expose_the_subsystems() {
    let mut te = InternTable::new();
    let t = te.register_type(TypeRepr::Unit, ModuleId(3));
    let mut qe = QueryEngine::new();
    qe.insert(1, 10);
    qe.insert(2, 20);
    qe.insert(1, 30);
    let engines = Engines::new(
        te,
        InternTable::new(),
        qe,
        sway_types::SourceEngine::default(),
    );
    assert_eq!(engines.te().get_type(t), Some(&TypeRepr::Unit));
    assert_eq!(engines.qe().lookup(1), Some(30));
    assert_eq!(engines.qe().lookup(2), Some(20));
    assert_eq!(engines.qe().lookup(3), None);
    let _source = engines.se();
}

#[test]
fn default_session_is_empty() {
    let engines = Engines::default();
    assert_eq!(engines.te().get_type(engine_context::entities::TypeId(0)), None);
    assert_eq!(engines.qe().lookup(0), None);
}

#[test]
fn wrapped_sequences_order_like_their_elements() {
    let engines = Engines::default();
    let shorter = vec![TypeRepr::Unsigned(1), TypeRepr::Unsigned(2)];
    let longer = vec![TypeRepr::Unsigned(1), TypeRepr::Unsigned(2), TypeRepr::Unsigned(3)];
    let a = engines.help_out(shorter);
    let b = engines.help_out(longer);
    assert_eq!(a.cmp(&b), Ordering::Less);
    assert!(a != b);
}
