use std::cmp::Ordering;

use engine_context::engines::{Engines, InternTable, ModuleId, QueryEngine};
use engine_context::entities::{dec_u64, DeclRepr, TypeId, TypeRepr};
use engine_context::protocols::{
    DebugWithEngines, DisplayWithEngines, HashWithEngines, OrdWithEngines, PartialEqWithEngines,
};
use engine_context::hashing::HashState;

/// A session with two structurally identical booleans interned by different
/// units, and one unsigned type.
fn session() -> (Engines, TypeId, TypeId, TypeId) {
    let mut te = InternTable::new();
    let bool_a = te.register_type(TypeRepr::Bool, ModuleId(1));
    let bool_b = te.register_type(TypeRepr::Bool, ModuleId(2));
    let unsigned = te.register_type(TypeRepr::Unsigned(32), ModuleId(1));
    let engines = Engines::new(
        te,
        InternTable::new(),
        QueryEngine::new(),
        sway_types::SourceEngine::default(),
    );
    (engines, bool_a, bool_b, unsigned)
}

#[test]
fn equivalence_is_reflexive() {
    let (engines, bool_a, _, unsigned) = session();
    assert!(PartialEqWithEngines::eq(&bool_a, &bool_a, &engines));
    assert!(PartialEqWithEngines::eq(&unsigned, &unsigned, &engines));
}

#[test]
fn equivalence_is_symmetric() {
    let (engines, bool_a, bool_b, unsigned) = session();
    assert_eq!(
        PartialEqWithEngines::eq(&bool_a, &bool_b, &engines),
        PartialEqWithEngines::eq(&bool_b, &bool_a, &engines),
    );
    assert_eq!(
        PartialEqWithEngines::eq(&bool_a, &unsigned, &engines),
        PartialEqWithEngines::eq(&unsigned, &bool_a, &engines),
    );
}

#[test]
fn distinct_handles_of_equal_structure_are_equivalent() {
    let (engines, bool_a, bool_b, unsigned) = session();
    assert_ne!(bool_a, bool_b);
    assert!(PartialEqWithEngines::eq(&bool_a, &bool_b, &engines));
    assert!(!PartialEqWithEngines::eq(&bool_a, &unsigned, &engines));
}

#[test]
fn equivalent_handles_hash_identically() {
    let (engines, bool_a, bool_b, unsigned) = session();
    let mut s1 = HashState::new();
    let mut s2 = HashState::new();
    let mut s3 = HashState::new();
    HashWithEngines::hash(&bool_a, &mut s1, &engines);
    HashWithEngines::hash(&bool_b, &mut s2, &engines);
    HashWithEngines::hash(&unsigned, &mut s3, &engines);
    assert_eq!(s1.finish(), s2.finish());
    assert_ne!(s1.finish(), s3.finish());
}

#[test]
fn equivalent_handles_rank_order_equal() {
    let (engines, bool_a, bool_b, unsigned) = session();
    assert_eq!(OrdWithEngines::cmp(&bool_a, &bool_b, &engines), Ordering::Equal);
    assert_eq!(OrdWithEngines::cmp(&bool_a, &unsigned, &engines), Ordering::Less);
    assert_eq!(OrdWithEngines::cmp(&unsigned, &bool_a, &engines), Ordering::Greater);
}

#[test]
fn optional_present_sorts_before_absent() {
    let (engines, bool_a, _, _) = session();
    assert_eq!(
        OrdWithEngines::cmp(&Some(bool_a), &None, &engines),
        Ordering::Less,
    );
    assert_eq!(
        OrdWithEngines::cmp(&None, &Some(bool_a), &engines),
        Ordering::Greater,
    );
    assert_eq!(
        OrdWithEngines::cmp(&None::<TypeId>, &None::<TypeId>, &engines),
        Ordering::Equal,
    );
}

#[test]
fn optional_equivalence_and_hash_sentinel() {
    let (engines, bool_a, bool_b, unsigned) = session();
    assert!(PartialEqWithEngines::eq(&Some(bool_a), &Some(bool_b), &engines));
    assert!(!PartialEqWithEngines::eq(&Some(bool_a), &None, &engines));
    assert!(!PartialEqWithEngines::eq(&Some(bool_a), &Some(unsigned), &engines));
    assert!(PartialEqWithEngines::eq(&None::<TypeId>, &None::<TypeId>, &engines));
    let mut absent = HashState::new();
    let mut sentinel = HashState::new();
    HashWithEngines::hash(&None::<TypeId>, &mut absent, &engines);
    sentinel.write_u8(0);
    assert_eq!(absent.finish(), sentinel.finish());
}

#[test]
fn sequence_comparison_equal_prefix_shorter_wins() {
    let engines = Engines::default();
    let shorter = vec![TypeRepr::Unsigned(1), TypeRepr::Unsigned(2)];
    let longer = vec![TypeRepr::Unsigned(1), TypeRepr::Unsigned(2), TypeRepr::Unsigned(3)];
    assert_eq!(OrdWithEngines::cmp(&shorter, &longer, &engines), Ordering::Less);
    assert_eq!(OrdWithEngines::cmp(&longer, &shorter, &engines), Ordering::Greater);
}

#[test]
fn sequence_comparison_first_difference_decides() {
    let engines = Engines::default();
    let a = vec![TypeRepr::Unsigned(1), TypeRepr::Unsigned(3)];
    let b = vec![TypeRepr::Unsigned(1), TypeRepr::Unsigned(2), TypeRepr::Unsigned(3)];
    assert_eq!(OrdWithEngines::cmp(&a, &b, &engines), Ordering::Greater);
    assert_eq!(OrdWithEngines::cmp(&b, &a, &engines), Ordering::Less);
}

#[test]
fn sequence_equivalence_requires_equal_length() {
    let (engines, bool_a, bool_b, unsigned) = session();
    let two = vec![bool_a, bool_b];
    let three = vec![bool_a, bool_b, unsigned];
    assert!(!PartialEqWithEngines::eq(&two, &three, &engines));
    assert!(PartialEqWithEngines::eq(&two, &vec![bool_b, bool_a], &engines));
    assert!(!PartialEqWithEngines::eq(&two, &vec![bool_a, unsigned], &engines));
}

#[test]
fn sequence_hash_folds_elements_in_order() {
    let (engines, bool_a, bool_b, unsigned) = session();
    let mut via_vec = HashState::new();
    HashWithEngines::hash(&vec![bool_a, unsigned], &mut via_vec, &engines);
    let mut by_hand = HashState::new();
    HashWithEngines::hash(&bool_b, &mut by_hand, &engines);
    HashWithEngines::hash(&unsigned, &mut by_hand, &engines);
    assert_eq!(via_vec.finish(), by_hand.finish());
}

#[test]
fn display_resolves_through_the_context() {
    let (engines, bool_a, _, unsigned) = session();
    assert_eq!(DisplayWithEngines::fmt(&bool_a, &engines), "bool");
    assert_eq!(DisplayWithEngines::fmt(&unsigned, &engines), "u32");
    assert_eq!(DisplayWithEngines::fmt(&TypeRepr::Unit, &engines), "()");
    assert_eq!(DisplayWithEngines::fmt(&TypeId(99), &engines), "<unknown>");
}

#[test]
fn sequence_display_joins_with_comma_space() {
    let engines = Engines::default();
    let items = vec![TypeRepr::Bool, TypeRepr::Unit, TypeRepr::Unsigned(8)];
    assert_eq!(DisplayWithEngines::fmt(&items, &engines), "bool, (), u8");
    assert_eq!(DisplayWithEngines::fmt(&Vec::<TypeRepr>::new(), &engines), "");
    assert_eq!(DebugWithEngines::fmt(&items, &engines), "bool, (), u8");
    assert_eq!(DisplayWithEngines::fmt(&None::<TypeRepr>, &engines), "");
    assert_eq!(DisplayWithEngines::fmt(&Some(TypeRepr::Bool), &engines), "bool");
    assert_eq!(DisplayWithEngines::fmt(&Box::new(TypeRepr::Unit), &engines), "()");
}

#[test]
fn decimal_rendering_is_exact() {
    assert_eq!(dec_u64(0), "0");
    assert_eq!(dec_u64(7), "7");
    assert_eq!(dec_u64(10), "10");
    assert_eq!(dec_u64(1234567890), "1234567890");
    assert_eq!(dec_u64(u64::MAX), "18446744073709551615");
}

#[test]
fn declarations_take_part_in_equivalence_and_hashing() {
    let mut de = InternTable::new();
    let d1 = de.register_decl(DeclRepr { kind: 1, arity: 2 }, ModuleId(1));
    let d2 = de.register_decl(DeclRepr { kind: 1, arity: 2 }, ModuleId(2));
    let d3 = de.register_decl(DeclRepr { kind: 1, arity: 3 }, ModuleId(1));
    let engines = Engines::new(
        InternTable::new(),
        de,
        QueryEngine::new(),
        sway_types::SourceEngine::default(),
    );
    assert!(PartialEqWithEngines::eq(&d1, &d2, &engines));
    assert!(!PartialEqWithEngines::eq(&d1, &d3, &engines));
    let mut s1 = HashState::new();
    let mut s2 = HashState::new();
    HashWithEngines::hash(&d1, &mut s1, &engines);
    HashWithEngines::hash(&d2, &mut s2, &engines);
    assert_eq!(s1.finish(), s2.finish());
}
