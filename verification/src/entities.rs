//! The entity kinds this crate stores in its interning tables.
//!
//! A `TypeId` or `DeclId` is a lightweight handle into the corresponding
//! table.  Two distinct handles can denote structurally identical entries,
//! so their equivalence, ordering, hashing and rendering resolve through the
//! table aggregate; those protocol implementations live in this module too.

use vstd::prelude::*;
use vstd::string::*;
use std::cmp::Ordering;
use crate::engines::Engines;
use crate::hashing::{lemma_absorb_concat, HashState};
use crate::protocols::{
    DebugWithEngines, DisplayWithEngines, EqWithEngines, HashWithEngines, OrdWithEngines,
    PartialEqWithEngines,
};

verus! {

/// The structural form of an interned type.
#[derive(Clone, Copy, PartialEq, Eq, Structural, Debug)]
pub enum TypeRepr {
    Unit,
    Bool,
    Unsigned(u32),
}

/// A handle to an entry of the type table.
#[derive(Clone, Copy, PartialEq, Eq, Structural, Debug)]
pub struct TypeId(pub usize);

/// The structural form of an interned declaration: its kind and its arity.
#[derive(Clone, Copy, PartialEq, Eq, Structural, Debug)]
pub struct DeclRepr {
    pub kind: u64,
    pub arity: u64,
}

/// A handle to an entry of the declaration table.
#[derive(Clone, Copy, PartialEq, Eq, Structural, Debug)]
pub struct DeclId(pub usize);

/// The decimal digit character for `d < 10`.
pub open spec fn dec_digit(d: nat) -> char {
    if d == 0 {
        '0'
    } else if d == 1 {
        '1'
    } else if d == 2 {
        '2'
    } else if d == 3 {
        '3'
    } else if d == 4 {
        '4'
    } else if d == 5 {
        '5'
    } else if d == 6 {
        '6'
    } else if d == 7 {
        '7'
    } else if d == 8 {
        '8'
    } else {
        '9'
    }
}

/// The decimal rendering of `n`, most significant digit first.
pub open spec fn dec_spec(n: nat) -> Seq<char>
    decreases n,
{
    if n < 10 {
        seq![dec_digit(n)]
    } else {
        dec_spec(n / 10).push(dec_digit(n % 10))
    }
}

/// The single decimal digit `d` as a string.
fn dec_digit_str(d: u64) -> (s: String)
    requires
        d < 10,
    ensures
        s@ == seq![dec_digit(d as nat)],
{
    proof {
        reveal_strlit("0");
        reveal_strlit("1");
        reveal_strlit("2");
        reveal_strlit("3");
        reveal_strlit("4");
        reveal_strlit("5");
        reveal_strlit("6");
        reveal_strlit("7");
        reveal_strlit("8");
        reveal_strlit("9");
    }
    let s = if d == 0 {
        String::from_str("0")
    } else if d == 1 {
        String::from_str("1")
    } else if d == 2 {
        String::from_str("2")
    } else if d == 3 {
        String::from_str("3")
    } else if d == 4 {
        String::from_str("4")
    } else if d == 5 {
        String::from_str("5")
    } else if d == 6 {
        String::from_str("6")
    } else if d == 7 {
        String::from_str("7")
    } else if d == 8 {
        String::from_str("8")
    } else {
        String::from_str("9")
    };
    proof {
        assert(s@ =~= seq![dec_digit(d as nat)]);
    }
    s
}

/// Renders `n` in decimal.
pub fn dec_u64(n: u64) -> (s: String)
    ensures
        s@ == dec_spec(n as nat),
    decreases n,
{
    if n < 10 {
        dec_digit_str(n)
    } else {
        let mut s = dec_u64(n / 10);
        let digit = dec_digit_str(n % 10);
        s.append(digit.as_str());
        proof {
            assert(s@ =~= dec_spec((n / 10) as nat).push(dec_digit((n % 10) as nat)));
        }
        s
    }
}

} // verus!

// --- the protocols on type forms and type handles ---

verus! {

/// The rank a type form's variant sorts by.
pub open spec fn repr_rank(r: TypeRepr) -> int {
    match r {
        TypeRepr::Unit => 0,
        TypeRepr::Bool => 1,
        TypeRepr::Unsigned(_) => 2,
    }
}

/// Total order on type forms: by variant rank, then by width.
pub open spec fn repr_cmp_spec(a: TypeRepr, b: TypeRepr) -> Ordering {
    if repr_rank(a) < repr_rank(b) {
        Ordering::Less
    } else if repr_rank(a) > repr_rank(b) {
        Ordering::Greater
    } else {
        match (a, b) {
            (TypeRepr::Unsigned(x), TypeRepr::Unsigned(y)) => if x < y {
                Ordering::Less
            } else if x > y {
                Ordering::Greater
            } else {
                Ordering::Equal
            },
            _ => Ordering::Equal,
        }
    }
}

/// The words a type form feeds to the hash accumulator: a variant tag, then
/// the variant's payload.  Tag `0` is reserved for an unresolvable handle.
pub open spec fn repr_feed(r: TypeRepr) -> Seq<u64> {
    match r {
        TypeRepr::Unit => seq![1u64],
        TypeRepr::Bool => seq![2u64],
        TypeRepr::Unsigned(bits) => seq![3u64, bits as u64],
    }
}

/// The rendering of a type form.
pub open spec fn repr_fmt(r: TypeRepr) -> Seq<char> {
    match r {
        TypeRepr::Unit => seq!['(', ')'],
        TypeRepr::Bool => seq!['b', 'o', 'o', 'l'],
        TypeRepr::Unsigned(bits) => seq!['u'] + dec_spec(bits as nat),
    }
}

/// The rendering of an unresolvable handle.
pub open spec fn unknown_fmt() -> Seq<char> {
    seq!['<', 'u', 'n', 'k', 'n', 'o', 'w', 'n', '>']
}

impl DisplayWithEngines for TypeRepr {
    open spec fn fmt_spec(&self, engines: &Engines) -> Seq<char> {
        repr_fmt(*self)
    }

    fn fmt(&self, engines: &Engines) -> (s: String) {
        match self {
            TypeRepr::Unit => {
                let s = String::from_str("()");
                proof {
                    reveal_strlit("()");
                    assert(s@ =~= seq!['(', ')']);
                }
                s
            },
            TypeRepr::Bool => {
                let s = String::from_str("bool");
                proof {
                    reveal_strlit("bool");
                    assert(s@ =~= seq!['b', 'o', 'o', 'l']);
                }
                s
            },
            TypeRepr::Unsigned(bits) => {
                let mut s = String::from_str("u");
                let digits = dec_u64(*bits as u64);
                s.append(digits.as_str());
                proof {
                    reveal_strlit("u");
                    assert(s@ =~= seq!['u'] + dec_spec(*bits as nat));
                }
                s
            },
        }
    }
}

impl DebugWithEngines for TypeRepr {
    open spec fn dbg_spec(&self, engines: &Engines) -> Seq<char> {
        repr_fmt(*self)
    }

    fn fmt(&self, engines: &Engines) -> (s: String) {
        DisplayWithEngines::fmt(self, engines)
    }
}

impl PartialEqWithEngines for TypeRepr {
    open spec fn eq_spec(&self, other: &Self, engines: &Engines) -> bool {
        *self == *other
    }

    fn eq(&self, other: &Self, engines: &Engines) -> (r: bool) {
        *self == *other
    }

    proof fn lemma_eq_reflexive(a: Self, engines: &Engines) {
    }

    proof fn lemma_eq_symmetric(a: Self, b: Self, engines: &Engines) {
    }

    proof fn lemma_eq_transitive(a: Self, b: Self, c: Self, engines: &Engines) {
    }
}

impl EqWithEngines for TypeRepr {

}

impl HashWithEngines for TypeRepr {
    open spec fn hash_feed(&self, engines: &Engines) -> Seq<u64> {
        repr_feed(*self)
    }

    fn hash(&self, state: &mut HashState, engines: &Engines) {
        match self {
            TypeRepr::Unit => state.write_u64(1),
            TypeRepr::Bool => state.write_u64(2),
            TypeRepr::Unsigned(bits) => {
                state.write_u64(3);
                state.write_u64(*bits as u64);
                proof {
                    lemma_absorb_concat(old(state).digest(), seq![3u64], seq![*bits as u64]);
                    assert(seq![3u64] + seq![*bits as u64] =~= seq![3u64, *bits as u64]);
                }
            },
        }
    }

    proof fn lemma_hash_coherent(a: Self, b: Self, engines: &Engines) {
    }
}

impl OrdWithEngines for TypeRepr {
    open spec fn cmp_spec(&self, other: &Self, engines: &Engines) -> Ordering {
        repr_cmp_spec(*self, *other)
    }

    fn cmp(&self, other: &Self, engines: &Engines) -> (r: Ordering) {
        match (self, other) {
            (TypeRepr::Unit, TypeRepr::Unit) => Ordering::Equal,
            (TypeRepr::Unit, _) => Ordering::Less,
            (TypeRepr::Bool, TypeRepr::Unit) => Ordering::Greater,
            (TypeRepr::Bool, TypeRepr::Bool) => Ordering::Equal,
            (TypeRepr::Bool, TypeRepr::Unsigned(_)) => Ordering::Less,
            (TypeRepr::Unsigned(_), TypeRepr::Unit) => Ordering::Greater,
            (TypeRepr::Unsigned(_), TypeRepr::Bool) => Ordering::Greater,
            (TypeRepr::Unsigned(x), TypeRepr::Unsigned(y)) => if *x < *y {
                Ordering::Less
            } else if *x > *y {
                Ordering::Greater
            } else {
                Ordering::Equal
            },
        }
    }

    proof fn lemma_cmp_eq_coherent(a: Self, b: Self, engines: &Engines) {
    }
}

impl DisplayWithEngines for TypeId {
    open spec fn fmt_spec(&self, engines: &Engines) -> Seq<char> {
        match engines.resolve_type(*self) {
            Some(repr) => repr_fmt(repr),
            None => unknown_fmt(),
        }
    }

    fn fmt(&self, engines: &Engines) -> (s: String) {
        match engines.te().get_type(*self) {
            Some(repr) => DisplayWithEngines::fmt(repr, engines),
            None => {
                let s = String::from_str("<unknown>");
                proof {
                    reveal_strlit("<unknown>");
                    assert(s@ =~= unknown_fmt());
                }
                s
            },
        }
    }
}

impl DebugWithEngines for TypeId {
    open spec fn dbg_spec(&self, engines: &Engines) -> Seq<char> {
        match engines.resolve_type(*self) {
            Some(repr) => repr_fmt(repr),
            None => unknown_fmt(),
        }
    }

    fn fmt(&self, engines: &Engines) -> (s: String) {
        DisplayWithEngines::fmt(self, engines)
    }
}

impl PartialEqWithEngines for TypeId {
    open spec fn eq_spec(&self, other: &Self, engines: &Engines) -> bool {
        engines.resolve_type(*self) == engines.resolve_type(*other)
    }

    fn eq(&self, other: &Self, engines: &Engines) -> (r: bool) {
        match (engines.te().get_type(*self), engines.te().get_type(*other)) {
            (Some(x), Some(y)) => *x == *y,
            (None, None) => true,
            _ => false,
        }
    }

    proof fn lemma_eq_reflexive(a: Self, engines: &Engines) {
    }

    proof fn lemma_eq_symmetric(a: Self, b: Self, engines: &Engines) {
    }

    proof fn lemma_eq_transitive(a: Self, b: Self, c: Self, engines: &Engines) {
    }
}

impl EqWithEngines for TypeId {

}

impl HashWithEngines for TypeId {
    open spec fn hash_feed(&self, engines: &Engines) -> Seq<u64> {
        match engines.resolve_type(*self) {
            Some(repr) => repr_feed(repr),
            None => seq![0u64],
        }
    }

    fn hash(&self, state: &mut HashState, engines: &Engines) {
        match engines.te().get_type(*self) {
            Some(repr) => HashWithEngines::hash(repr, state, engines),
            None => state.write_u8(0),
        }
    }

    proof fn lemma_hash_coherent(a: Self, b: Self, engines: &Engines) {
    }
}

impl OrdWithEngines for TypeId {
    open spec fn cmp_spec(&self, other: &Self, engines: &Engines) -> Ordering {
        match (engines.resolve_type(*self), engines.resolve_type(*other)) {
            (Some(x), Some(y)) => repr_cmp_spec(x, y),
            (Some(_), None) => Ordering::Less,
            (None, Some(_)) => Ordering::Greater,
            (None, None) => Ordering::Equal,
        }
    }

    fn cmp(&self, other: &Self, engines: &Engines) -> (r: Ordering) {
        match (engines.te().get_type(*self), engines.te().get_type(*other)) {
            (Some(x), Some(y)) => OrdWithEngines::cmp(x, y, engines),
            (Some(_), None) => Ordering::Less,
            (None, Some(_)) => Ordering::Greater,
            (None, None) => Ordering::Equal,
        }
    }

    proof fn lemma_cmp_eq_coherent(a: Self, b: Self, engines: &Engines) {
        match (engines.resolve_type(a), engines.resolve_type(b)) {
            (Some(x), Some(y)) => TypeRepr::lemma_cmp_eq_coherent(x, y, engines),
            _ => {},
        }
    }
}

// --- the protocols on declaration forms and declaration handles ---
// Declarations take part in equivalence and hashing only: they have no
// total order, which the protocol family permits.

impl PartialEqWithEngines for DeclRepr {
    open spec fn eq_spec(&self, other: &Self, engines: &Engines) -> bool {
        *self == *other
    }

    fn eq(&self, other: &Self, engines: &Engines) -> (r: bool) {
        self.kind == other.kind && self.arity == other.arity
    }

    proof fn lemma_eq_reflexive(a: Self, engines: &Engines) {
    }

    proof fn lemma_eq_symmetric(a: Self, b: Self, engines: &Engines) {
    }

    proof fn lemma_eq_transitive(a: Self, b: Self, c: Self, engines: &Engines) {
    }
}

impl EqWithEngines for DeclRepr {

}

/// The words a declaration form feeds to the hash accumulator.
pub open spec fn decl_feed(r: DeclRepr) -> Seq<u64> {
    seq![4u64, r.kind, r.arity]
}

impl HashWithEngines for DeclRepr {
    open spec fn hash_feed(&self, engines: &Engines) -> Seq<u64> {
        decl_feed(*self)
    }

    fn hash(&self, state: &mut HashState, engines: &Engines) {
        state.write_u64(4);
        state.write_u64(self.kind);
        state.write_u64(self.arity);
        proof {
            lemma_absorb_concat(old(state).digest(), seq![4u64], seq![self.kind]);
            lemma_absorb_concat(
                old(state).digest(),
                seq![4u64] + seq![self.kind],
                seq![self.arity],
            );
            assert(seq![4u64] + seq![self.kind] + seq![self.arity] =~= decl_feed(*self));
        }
    }

    proof fn lemma_hash_coherent(a: Self, b: Self, engines: &Engines) {
    }
}

impl PartialEqWithEngines for DeclId {
    open spec fn eq_spec(&self, other: &Self, engines: &Engines) -> bool {
        engines.resolve_decl(*self) == engines.resolve_decl(*other)
    }

    fn eq(&self, other: &Self, engines: &Engines) -> (r: bool) {
        match (engines.de().get_decl(*self), engines.de().get_decl(*other)) {
            (Some(x), Some(y)) => x.kind == y.kind && x.arity == y.arity,
            (None, None) => true,
            _ => false,
        }
    }

    proof fn lemma_eq_reflexive(a: Self, engines: &Engines) {
    }

    proof fn lemma_eq_symmetric(a: Self, b: Self, engines: &Engines) {
    }

    proof fn lemma_eq_transitive(a: Self, b: Self, c: Self, engines: &Engines) {
    }
}

impl EqWithEngines for DeclId {

}

impl HashWithEngines for DeclId {
    open spec fn hash_feed(&self, engines: &Engines) -> Seq<u64> {
        match engines.resolve_decl(*self) {
            Some(repr) => decl_feed(repr),
            None => seq![0u64],
        }
    }

    fn hash(&self, state: &mut HashState, engines: &Engines) {
        match engines.de().get_decl(*self) {
            Some(repr) => HashWithEngines::hash(repr, state, engines),
            None => state.write_u8(0),
        }
    }

    proof fn lemma_hash_coherent(a: Self, b: Self, engines: &Engines) {
    }
}

} // verus!
