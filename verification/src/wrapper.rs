//! The context-carrying wrapper and the hash-function factory.
//!
//! `WithEngines` pairs a value with a borrowed engine aggregate so that the
//! context-parameterized protocols become ordinary, context-free ones: the
//! wrapper's equality and ordering delegate into the contextual protocols
//! with the bound context, which is what lets entity graphs live in ordinary
//! containers.  Every operation on the wrapper is transparent: it returns
//! exactly what the corresponding contextual protocol returns.

use vstd::prelude::*;
use std::cmp::Ordering;
use crate::engines::Engines;
use crate::hashing::{absorb, HashState};
use crate::protocols::{
    DebugWithEngines, DisplayWithEngines, EqWithEngines, HashWithEngines, OrdWithEngines,
    PartialEqWithEngines,
};

verus! {

/// An ephemeral pairing of a value and the context it resolves through.
#[derive(Clone, Copy)]
pub struct WithEngines<'a, T> {
    pub thing: T,
    pub engines: &'a Engines,
}

impl<'a, T> WithEngines<'a, T> {
    /// Pairs `thing` with `engines`.
    pub fn new(thing: T, engines: &'a Engines) -> (r: Self)
        ensures
            r.thing == thing,
            r.engines == engines,
    {
        WithEngines { thing, engines }
    }
}

impl Engines {
    /// Helps out some `thing: T` by adding `self` as context.
    pub fn help_out<'a, T>(&'a self, thing: T) -> (r: WithEngines<'a, T>)
        ensures
            r.thing == thing,
            r.engines == self,
    {
        WithEngines { thing, engines: self }
    }
}

impl<'a, T: DisplayWithEngines> WithEngines<'a, T> {
    /// Displays the wrapped value exactly as the contextual protocol would
    /// with the bound context.
    pub fn fmt(&self) -> (s: String)
        ensures
            s@ == self.thing.fmt_spec(self.engines),
    {
        self.thing.fmt(self.engines)
    }
}

impl<'a, T: DebugWithEngines> WithEngines<'a, T> {
    /// Debug-renders the wrapped value exactly as the contextual protocol
    /// would with the bound context.
    pub fn dbg_fmt(&self) -> (s: String)
        ensures
            s@ == self.thing.dbg_spec(self.engines),
    {
        self.thing.fmt(self.engines)
    }
}

impl<'a, T: HashWithEngines> WithEngines<'a, T> {
    /// Feeds the wrapped value into `state` exactly as the contextual
    /// protocol would with the bound context.
    pub fn hash(&self, state: &mut HashState)
        ensures
            final(state).digest() == absorb(
                old(state).digest(),
                self.thing.hash_feed(self.engines),
            ),
    {
        self.thing.hash(state, self.engines)
    }
}

impl<'a, T: OrdWithEngines> WithEngines<'a, T> {
    /// Compares the wrapped values exactly as the contextual protocol would
    /// with the left-hand context.
    pub fn cmp(&self, other: &Self) -> (r: Ordering)
        ensures
            r == self.thing.cmp_spec(&other.thing, self.engines),
    {
        self.thing.cmp(&other.thing, self.engines)
    }
}

impl<'a, T: PartialEqWithEngines> PartialEq for WithEngines<'a, T> {
    fn eq(&self, other: &Self) -> (r: bool) {
        self.thing.eq(&other.thing, self.engines)
    }
}

impl<'a, T: PartialEqWithEngines> vstd::std_specs::cmp::PartialEqSpecImpl for WithEngines<'a, T> {
    open spec fn obeys_eq_spec() -> bool {
        true
    }

    open spec fn eq_spec(&self, other: &Self) -> bool {
        self.thing.eq_spec(&other.thing, self.engines)
    }
}

impl<'a, T: EqWithEngines> Eq for WithEngines<'a, T> {

}

impl<'a, T: OrdWithEngines> PartialOrd for WithEngines<'a, T> {
    fn partial_cmp(&self, other: &Self) -> (r: Option<Ordering>) {
        Some(self.thing.cmp(&other.thing, self.engines))
    }
}

impl<'a, T: OrdWithEngines> vstd::std_specs::cmp::PartialOrdSpecImpl for WithEngines<'a, T> {
    open spec fn obeys_partial_cmp_spec() -> bool {
        true
    }

    open spec fn partial_cmp_spec(&self, other: &Self) -> Option<Ordering> {
        Some(self.thing.cmp_spec(&other.thing, self.engines))
    }
}

/// Builds the pure hash function of one session: the digest of a value is
/// `absorb` of the seed and of the words the value feeds under `engines`, so
/// identical value, context and seed always give the identical digest, and
/// contextually equivalent values collide by construction.
pub fn make_hasher<'a, K: HashWithEngines>(seed: u64, engines: &'a Engines) -> (f: impl Fn(&K) -> u64 + 'a)
    ensures
        forall|k: &K| #[trigger] f.requires((k,)),
        forall|k: &K, r: u64|
            #[trigger] f.ensures((k,), r) ==> r == absorb(seed, k.hash_feed(engines)),
{
    move |key: &K| -> (r: u64)
        ensures
            r == absorb(seed, key.hash_feed(engines)),
        {
            let mut state = HashState::with_seed(seed);
            key.hash(&mut state, engines);
            state.finish()
        }
}

} // verus!
