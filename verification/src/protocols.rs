//! The context-parameterized protocol family and its composite rules.
//!
//! Five protocols mirror the ordinary display, debug, hash, equivalence and
//! ordering contracts but take the engine aggregate as an explicit context,
//! so that interned identifiers are resolved before being compared, hashed
//! or rendered.  Each protocol carries its laws as proof obligations, so
//! every participating type must establish them.  The composite rules lift
//! the protocols over references, optional values, owned indirections and
//! sequences once, for every participating element type.

use vstd::prelude::*;
use vstd::string::*;
use std::cmp::Ordering;
use crate::engines::Engines;
use crate::hashing::{absorb, lemma_absorb_concat, HashState};

verus! {

/// Contextual display: a user-facing rendering, resolving interned
/// identifiers through `engines`.
pub trait DisplayWithEngines {
    /// The rendering this value displays as.
    spec fn fmt_spec(&self, engines: &Engines) -> Seq<char>;

    /// Displays the user-friendly view of the value using `engines` as
    /// context.
    fn fmt(&self, engines: &Engines) -> (s: String)
        ensures
            s@ == self.fmt_spec(engines),
    ;
}

/// Contextual debug: a rendering of the internals, resolving interned
/// identifiers through `engines`.
pub trait DebugWithEngines {
    /// The rendering this value debugs as.
    spec fn dbg_spec(&self, engines: &Engines) -> Seq<char>;

    /// Displays the internals of the value using `engines` as context.
    fn fmt(&self, engines: &Engines) -> (s: String)
        ensures
            s@ == self.dbg_spec(engines),
    ;
}

/// Contextual equivalence: structural equality after resolving through the
/// context.  The relation must be an equivalence relation for every fixed
/// context; the three laws are proof obligations on every implementer.
pub trait PartialEqWithEngines: Sized {
    /// What contextual equivalence means for this type.
    spec fn eq_spec(&self, other: &Self, engines: &Engines) -> bool;

    /// Decides contextual equivalence.
    fn eq(&self, other: &Self, engines: &Engines) -> (r: bool)
        ensures
            r == self.eq_spec(other, engines),
    ;

    /// Law: contextual equivalence is reflexive.
    proof fn lemma_eq_reflexive(a: Self, engines: &Engines)
        ensures
            a.eq_spec(&a, engines),
    ;

    /// Law: contextual equivalence is symmetric.
    proof fn lemma_eq_symmetric(a: Self, b: Self, engines: &Engines)
        ensures
            a.eq_spec(&b, engines) == b.eq_spec(&a, engines),
    ;

    /// Law: contextual equivalence is transitive.
    proof fn lemma_eq_transitive(a: Self, b: Self, c: Self, engines: &Engines)
        requires
            a.eq_spec(&b, engines),
            b.eq_spec(&c, engines),
        ensures
            a.eq_spec(&c, engines),
    ;
}

/// Marker for types whose contextual equivalence is total.
pub trait EqWithEngines: PartialEqWithEngines {

}

/// Contextual hashing: feeds the value's resolved structure, not its raw
/// identifiers, into a hash accumulator.  Coherence with contextual
/// equivalence is a proof obligation on every implementer.
pub trait HashWithEngines: PartialEqWithEngines {
    /// The words this value feeds to the accumulator under `engines`.
    spec fn hash_feed(&self, engines: &Engines) -> Seq<u64>;

    /// Feeds the value's resolved structure into `state`.
    fn hash(&self, state: &mut HashState, engines: &Engines)
        ensures
            final(state).digest() == absorb(old(state).digest(), self.hash_feed(engines)),
    ;

    /// Law: contextually equivalent values feed identical words, so their
    /// digests agree under every seed.
    proof fn lemma_hash_coherent(a: Self, b: Self, engines: &Engines)
        requires
            a.eq_spec(&b, engines),
        ensures
            a.hash_feed(engines) == b.hash_feed(engines),
    ;
}

/// Contextual ordering: a three-way comparison after resolving through the
/// context.  Consistency with contextual equivalence is a proof obligation
/// on every implementer.
pub trait OrdWithEngines: PartialEqWithEngines {
    /// The rank this comparison assigns.
    spec fn cmp_spec(&self, other: &Self, engines: &Engines) -> Ordering;

    /// Compares the two values contextually.
    fn cmp(&self, other: &Self, engines: &Engines) -> (r: Ordering)
        ensures
            r == self.cmp_spec(other, engines),
    ;

    /// Law: contextually equivalent values rank as order-equal.
    proof fn lemma_cmp_eq_coherent(a: Self, b: Self, engines: &Engines)
        requires
            a.eq_spec(&b, engines),
        ensures
            a.cmp_spec(&b, engines) == Ordering::Equal,
    ;
}

} // verus!

// --- composite rules: references ---

verus! {

impl<'a, T: DisplayWithEngines> DisplayWithEngines for &'a T {
    open spec fn fmt_spec(&self, engines: &Engines) -> Seq<char> {
        (**self).fmt_spec(engines)
    }

    fn fmt(&self, engines: &Engines) -> (s: String) {
        (**self).fmt(engines)
    }
}

impl<'a, T: DebugWithEngines> DebugWithEngines for &'a T {
    open spec fn dbg_spec(&self, engines: &Engines) -> Seq<char> {
        (**self).dbg_spec(engines)
    }

    fn fmt(&self, engines: &Engines) -> (s: String) {
        (**self).fmt(engines)
    }
}

impl<'a, T: PartialEqWithEngines> PartialEqWithEngines for &'a T {
    open spec fn eq_spec(&self, other: &Self, engines: &Engines) -> bool {
        (**self).eq_spec(*other, engines)
    }

    fn eq(&self, other: &Self, engines: &Engines) -> (r: bool) {
        (**self).eq(*other, engines)
    }

    proof fn lemma_eq_reflexive(a: Self, engines: &Engines) {
        T::lemma_eq_reflexive(*a, engines);
    }

    proof fn lemma_eq_symmetric(a: Self, b: Self, engines: &Engines) {
        T::lemma_eq_symmetric(*a, *b, engines);
    }

    proof fn lemma_eq_transitive(a: Self, b: Self, c: Self, engines: &Engines) {
        T::lemma_eq_transitive(*a, *b, *c, engines);
    }
}

impl<'a, T: EqWithEngines> EqWithEngines for &'a T {

}

impl<'a, T: HashWithEngines> HashWithEngines for &'a T {
    open spec fn hash_feed(&self, engines: &Engines) -> Seq<u64> {
        (**self).hash_feed(engines)
    }

    fn hash(&self, state: &mut HashState, engines: &Engines) {
        (**self).hash(state, engines)
    }

    proof fn lemma_hash_coherent(a: Self, b: Self, engines: &Engines) {
        T::lemma_hash_coherent(*a, *b, engines);
    }
}

impl<'a, T: OrdWithEngines> OrdWithEngines for &'a T {
    open spec fn cmp_spec(&self, other: &Self, engines: &Engines) -> Ordering {
        (**self).cmp_spec(*other, engines)
    }

    fn cmp(&self, other: &Self, engines: &Engines) -> (r: Ordering) {
        (**self).cmp(*other, engines)
    }

    proof fn lemma_cmp_eq_coherent(a: Self, b: Self, engines: &Engines) {
        T::lemma_cmp_eq_coherent(*a, *b, engines);
    }
}

} // verus!

// --- composite rules: owned indirections ---

verus! {

impl<T: DisplayWithEngines> DisplayWithEngines for Box<T> {
    open spec fn fmt_spec(&self, engines: &Engines) -> Seq<char> {
        (**self).fmt_spec(engines)
    }

    fn fmt(&self, engines: &Engines) -> (s: String) {
        (**self).fmt(engines)
    }
}

impl<T: DebugWithEngines> DebugWithEngines for Box<T> {
    open spec fn dbg_spec(&self, engines: &Engines) -> Seq<char> {
        (**self).dbg_spec(engines)
    }

    fn fmt(&self, engines: &Engines) -> (s: String) {
        (**self).fmt(engines)
    }
}

impl<T: PartialEqWithEngines> PartialEqWithEngines for Box<T> {
    open spec fn eq_spec(&self, other: &Self, engines: &Engines) -> bool {
        (**self).eq_spec(&**other, engines)
    }

    fn eq(&self, other: &Self, engines: &Engines) -> (r: bool) {
        (**self).eq(&**other, engines)
    }

    proof fn lemma_eq_reflexive(a: Self, engines: &Engines) {
        T::lemma_eq_reflexive(*a, engines);
    }

    proof fn lemma_eq_symmetric(a: Self, b: Self, engines: &Engines) {
        T::lemma_eq_symmetric(*a, *b, engines);
    }

    proof fn lemma_eq_transitive(a: Self, b: Self, c: Self, engines: &Engines) {
        T::lemma_eq_transitive(*a, *b, *c, engines);
    }
}

impl<T: EqWithEngines> EqWithEngines for Box<T> {

}

impl<T: HashWithEngines> HashWithEngines for Box<T> {
    open spec fn hash_feed(&self, engines: &Engines) -> Seq<u64> {
        (**self).hash_feed(engines)
    }

    fn hash(&self, state: &mut HashState, engines: &Engines) {
        (**self).hash(state, engines)
    }

    proof fn lemma_hash_coherent(a: Self, b: Self, engines: &Engines) {
        T::lemma_hash_coherent(*a, *b, engines);
    }
}

impl<T: OrdWithEngines> OrdWithEngines for Box<T> {
    open spec fn cmp_spec(&self, other: &Self, engines: &Engines) -> Ordering {
        (**self).cmp_spec(&**other, engines)
    }

    fn cmp(&self, other: &Self, engines: &Engines) -> (r: Ordering) {
        (**self).cmp(&**other, engines)
    }

    proof fn lemma_cmp_eq_coherent(a: Self, b: Self, engines: &Engines) {
        T::lemma_cmp_eq_coherent(*a, *b, engines);
    }
}

} // verus!

// --- composite rules: optional values ---

verus! {

impl<T: DisplayWithEngines> DisplayWithEngines for Option<T> {
    open spec fn fmt_spec(&self, engines: &Engines) -> Seq<char> {
        match self {
            None => Seq::empty(),
            Some(x) => x.fmt_spec(engines),
        }
    }

    fn fmt(&self, engines: &Engines) -> (s: String) {
        match self {
            None => String::new(),
            Some(x) => x.fmt(engines),
        }
    }
}

impl<T: DebugWithEngines> DebugWithEngines for Option<T> {
    open spec fn dbg_spec(&self, engines: &Engines) -> Seq<char> {
        match self {
            None => Seq::empty(),
            Some(x) => x.dbg_spec(engines),
        }
    }

    fn fmt(&self, engines: &Engines) -> (s: String) {
        match self {
            None => String::new(),
            Some(x) => x.fmt(engines),
        }
    }
}

impl<T: PartialEqWithEngines> PartialEqWithEngines for Option<T> {
    open spec fn eq_spec(&self, other: &Self, engines: &Engines) -> bool {
        match (self, other) {
            (None, None) => true,
            (Some(x), Some(y)) => x.eq_spec(y, engines),
            _ => false,
        }
    }

    fn eq(&self, other: &Self, engines: &Engines) -> (r: bool) {
        match (self, other) {
            (None, None) => true,
            (Some(x), Some(y)) => x.eq(y, engines),
            _ => false,
        }
    }

    proof fn lemma_eq_reflexive(a: Self, engines: &Engines) {
        match a {
            None => {},
            Some(x) => T::lemma_eq_reflexive(x, engines),
        }
    }

    proof fn lemma_eq_symmetric(a: Self, b: Self, engines: &Engines) {
        match (a, b) {
            (Some(x), Some(y)) => T::lemma_eq_symmetric(x, y, engines),
            _ => {},
        }
    }

    proof fn lemma_eq_transitive(a: Self, b: Self, c: Self, engines: &Engines) {
        match (a, b, c) {
            (Some(x), Some(y), Some(z)) => T::lemma_eq_transitive(x, y, z, engines),
            _ => {},
        }
    }
}

impl<T: EqWithEngines> EqWithEngines for Option<T> {

}

impl<T: HashWithEngines> HashWithEngines for Option<T> {
    open spec fn hash_feed(&self, engines: &Engines) -> Seq<u64> {
        match self {
            None => seq![0u64],
            Some(x) => x.hash_feed(engines),
        }
    }

    fn hash(&self, state: &mut HashState, engines: &Engines) {
        match self {
            None => state.write_u8(0),
            Some(x) => x.hash(state, engines),
        }
    }

    proof fn lemma_hash_coherent(a: Self, b: Self, engines: &Engines) {
        match (a, b) {
            (Some(x), Some(y)) => T::lemma_hash_coherent(x, y, engines),
            _ => {},
        }
    }
}

impl<T: OrdWithEngines> OrdWithEngines for Option<T> {
    open spec fn cmp_spec(&self, other: &Self, engines: &Engines) -> Ordering {
        match (self, other) {
            (Some(x), Some(y)) => x.cmp_spec(y, engines),
            (Some(_), None) => Ordering::Less,
            (None, Some(_)) => Ordering::Greater,
            (None, None) => Ordering::Equal,
        }
    }

    fn cmp(&self, other: &Self, engines: &Engines) -> (r: Ordering) {
        match (self, other) {
            (Some(x), Some(y)) => x.cmp(y, engines),
            (Some(_), None) => Ordering::Less,
            (None, Some(_)) => Ordering::Greater,
            (None, None) => Ordering::Equal,
        }
    }

    proof fn lemma_cmp_eq_coherent(a: Self, b: Self, engines: &Engines) {
        match (a, b) {
            (Some(x), Some(y)) => T::lemma_cmp_eq_coherent(x, y, engines),
            _ => {},
        }
    }
}

} // verus!

// --- composite rules: ordered sequences ---

verus! {

/// The separator placed between rendered sequence elements.
pub open spec fn separator() -> Seq<char> {
    seq![',', ' ']
}

/// Pairwise contextual equivalence of equally long sequences.
pub open spec fn seq_eq_spec<T: PartialEqWithEngines>(
    a: Seq<T>,
    b: Seq<T>,
    engines: &Engines,
) -> bool {
    a.len() == b.len() && (forall|i: int|
        0 <= i < a.len() ==> #[trigger] a[i].eq_spec(&b[i], engines))
}

/// The words a sequence feeds to the hash accumulator: each element's
/// contribution in order.
pub open spec fn seq_feed<T: HashWithEngines>(s: Seq<T>, engines: &Engines) -> Seq<u64>
    decreases s.len(),
{
    if s.len() == 0 {
        Seq::empty()
    } else {
        seq_feed(s.drop_last(), engines) + s.last().hash_feed(engines)
    }
}

/// Element-wise three-way comparison in sequence order: the first non-equal
/// pairwise result decides; among equal prefixes the shorter sequence sorts
/// first.
pub open spec fn seq_cmp_spec<T: OrdWithEngines>(
    a: Seq<T>,
    b: Seq<T>,
    engines: &Engines,
) -> Ordering
    decreases a.len(),
{
    if a.len() == 0 && b.len() == 0 {
        Ordering::Equal
    } else if a.len() == 0 {
        Ordering::Less
    } else if b.len() == 0 {
        Ordering::Greater
    } else if a[0].cmp_spec(&b[0], engines) != Ordering::Equal {
        a[0].cmp_spec(&b[0], engines)
    } else {
        seq_cmp_spec(a.drop_first(), b.drop_first(), engines)
    }
}

/// Each element's rendering, joined with the separator in sequence order.
pub open spec fn seq_fmt<T: DisplayWithEngines>(s: Seq<T>, engines: &Engines) -> Seq<char>
    decreases s.len(),
{
    if s.len() == 0 {
        Seq::empty()
    } else if s.len() == 1 {
        s[0].fmt_spec(engines)
    } else {
        seq_fmt(s.drop_last(), engines) + separator() + s.last().fmt_spec(engines)
    }
}

/// Each element's debug rendering, joined with the separator in order.
pub open spec fn seq_dbg<T: DebugWithEngines>(s: Seq<T>, engines: &Engines) -> Seq<char>
    decreases s.len(),
{
    if s.len() == 0 {
        Seq::empty()
    } else if s.len() == 1 {
        s[0].dbg_spec(engines)
    } else {
        seq_dbg(s.drop_last(), engines) + separator() + s.last().dbg_spec(engines)
    }
}

/// Pairwise equivalent sequences feed identical words to the accumulator.
pub proof fn lemma_seq_feed_congruent<T: HashWithEngines>(a: Seq<T>, b: Seq<T>, engines: &Engines)
    requires
        seq_eq_spec(a, b, engines),
    ensures
        seq_feed(a, engines) == seq_feed(b, engines),
    decreases a.len(),
{
    if a.len() > 0 {
        assert forall|i: int| 0 <= i < a.drop_last().len() implies #[trigger] a.drop_last()[i]
            .eq_spec(&b.drop_last()[i], engines) by {
            assert(a[i].eq_spec(&b[i], engines));
        }
        lemma_seq_feed_congruent(a.drop_last(), b.drop_last(), engines);
        assert(a.last().eq_spec(&b.last(), engines));
        T::lemma_hash_coherent(a.last(), b.last(), engines);
    }
}

/// Pairwise equivalent sequences rank as order-equal.
pub proof fn lemma_seq_cmp_of_equivalent<T: OrdWithEngines>(a: Seq<T>, b: Seq<T>, engines: &Engines)
    requires
        seq_eq_spec(a, b, engines),
    ensures
        seq_cmp_spec(a, b, engines) == Ordering::Equal,
    decreases a.len(),
{
    if a.len() > 0 {
        assert(a[0].eq_spec(&b[0], engines));
        T::lemma_cmp_eq_coherent(a[0], b[0], engines);
        assert forall|i: int| 0 <= i < a.drop_first().len() implies #[trigger] a.drop_first()[i]
            .eq_spec(&b.drop_first()[i], engines) by {
            assert(a[i + 1].eq_spec(&b[i + 1], engines));
        }
        lemma_seq_cmp_of_equivalent(a.drop_first(), b.drop_first(), engines);
    }
}

impl<T: DisplayWithEngines> DisplayWithEngines for Vec<T> {
    open spec fn fmt_spec(&self, engines: &Engines) -> Seq<char> {
        seq_fmt(self@, engines)
    }

    fn fmt(&self, engines: &Engines) -> (s: String) {
        let mut out = String::new();
        let n = self.len();
        let mut i: usize = 0;
        while i < n
            invariant
                n == self@.len(),
                i <= n,
                out@ == seq_fmt(self@.take(i as int), engines),
            decreases n - i,
        {
            if i > 0 {
                out.append(", ");
                proof {
                    reveal_strlit(", ");
                    assert(", "@ =~= separator());
                }
            }
            let piece = self[i].fmt(engines);
            out.append(piece.as_str());
            proof {
                assert(self@.take(i as int + 1).drop_last() =~= self@.take(i as int));
                assert(self@.take(i as int + 1).last() == self@[i as int]);
            }
            i += 1;
        }
        proof {
            assert(self@.take(n as int) =~= self@);
        }
        out
    }
}

impl<T: DebugWithEngines> DebugWithEngines for Vec<T> {
    open spec fn dbg_spec(&self, engines: &Engines) -> Seq<char> {
        seq_dbg(self@, engines)
    }

    fn fmt(&self, engines: &Engines) -> (s: String) {
        let mut out = String::new();
        let n = self.len();
        let mut i: usize = 0;
        while i < n
            invariant
                n == self@.len(),
                i <= n,
                out@ == seq_dbg(self@.take(i as int), engines),
            decreases n - i,
        {
            if i > 0 {
                out.append(", ");
                proof {
                    reveal_strlit(", ");
                    assert(", "@ =~= separator());
                }
            }
            let piece = self[i].fmt(engines);
            out.append(piece.as_str());
            proof {
                assert(self@.take(i as int + 1).drop_last() =~= self@.take(i as int));
                assert(self@.take(i as int + 1).last() == self@[i as int]);
            }
            i += 1;
        }
        proof {
            assert(self@.take(n as int) =~= self@);
        }
        out
    }
}

impl<T: PartialEqWithEngines> PartialEqWithEngines for Vec<T> {
    open spec fn eq_spec(&self, other: &Self, engines: &Engines) -> bool {
        seq_eq_spec(self@, other@, engines)
    }

    fn eq(&self, other: &Self, engines: &Engines) -> (r: bool) {
        if self.len() != other.len() {
            return false;
        }
        let n = self.len();
        let mut i: usize = 0;
        while i < n
            invariant
                n == self@.len(),
                n == other@.len(),
                i <= n,
                forall|j: int| 0 <= j < i ==> #[trigger] self@[j].eq_spec(&other@[j], engines),
            decreases n - i,
        {
            if !self[i].eq(&other[i], engines) {
                return false;
            }
            i += 1;
        }
        true
    }

    proof fn lemma_eq_reflexive(a: Self, engines: &Engines) {
        assert forall|i: int| 0 <= i < a@.len() implies #[trigger] a@[i].eq_spec(
            &a@[i],
            engines,
        ) by {
            T::lemma_eq_reflexive(a@[i], engines);
        }
    }

    proof fn lemma_eq_symmetric(a: Self, b: Self, engines: &Engines) {
        if seq_eq_spec(a@, b@, engines) {
            assert forall|i: int| 0 <= i < b@.len() implies #[trigger] b@[i].eq_spec(
                &a@[i],
                engines,
            ) by {
                assert(a@[i].eq_spec(&b@[i], engines));
                T::lemma_eq_symmetric(a@[i], b@[i], engines);
            }
        }
        if seq_eq_spec(b@, a@, engines) {
            assert forall|i: int| 0 <= i < a@.len() implies #[trigger] a@[i].eq_spec(
                &b@[i],
                engines,
            ) by {
                assert(b@[i].eq_spec(&a@[i], engines));
                T::lemma_eq_symmetric(b@[i], a@[i], engines);
            }
        }
    }

    proof fn lemma_eq_transitive(a: Self, b: Self, c: Self, engines: &Engines) {
        assert forall|i: int| 0 <= i < a@.len() implies #[trigger] a@[i].eq_spec(
            &c@[i],
            engines,
        ) by {
            assert(a@[i].eq_spec(&b@[i], engines));
            assert(b@[i].eq_spec(&c@[i], engines));
            T::lemma_eq_transitive(a@[i], b@[i], c@[i], engines);
        }
    }
}

impl<T: EqWithEngines> EqWithEngines for Vec<T> {

}

impl<T: HashWithEngines> HashWithEngines for Vec<T> {
    open spec fn hash_feed(&self, engines: &Engines) -> Seq<u64> {
        seq_feed(self@, engines)
    }

    fn hash(&self, state: &mut HashState, engines: &Engines) {
        let n = self.len();
        let mut i: usize = 0;
        while i < n
            invariant
                n == self@.len(),
                i <= n,
                state.digest() == absorb(
                    old(state).digest(),
                    seq_feed(self@.take(i as int), engines),
                ),
            decreases n - i,
        {
            self[i].hash(state, engines);
            proof {
                assert(self@.take(i as int + 1).drop_last() =~= self@.take(i as int));
                assert(self@.take(i as int + 1).last() == self@[i as int]);
                lemma_absorb_concat(
                    old(state).digest(),
                    seq_feed(self@.take(i as int), engines),
                    self@[i as int].hash_feed(engines),
                );
            }
            i += 1;
        }
        proof {
            assert(self@.take(n as int) =~= self@);
        }
    }

    proof fn lemma_hash_coherent(a: Self, b: Self, engines: &Engines) {
        lemma_seq_feed_congruent(a@, b@, engines);
    }
}

impl<T: OrdWithEngines> OrdWithEngines for Vec<T> {
    open spec fn cmp_spec(&self, other: &Self, engines: &Engines) -> Ordering {
        seq_cmp_spec(self@, other@, engines)
    }

    fn cmp(&self, other: &Self, engines: &Engines) -> (r: Ordering) {
        let an = self.len();
        let bn = other.len();
        let n = if an < bn {
            an
        } else {
            bn
        };
        let mut i: usize = 0;
        proof {
            assert(self@.skip(0) =~= self@);
            assert(other@.skip(0) =~= other@);
        }
        while i < n
            invariant
                an == self@.len(),
                bn == other@.len(),
                n == if an < bn {
                    an
                } else {
                    bn
                },
                i <= n,
                seq_cmp_spec(self@, other@, engines) == seq_cmp_spec(
                    self@.skip(i as int),
                    other@.skip(i as int),
                    engines,
                ),
            decreases n - i,
        {
            let c = self[i].cmp(&other[i], engines);
            proof {
                assert(self@.skip(i as int)[0] == self@[i as int]);
                assert(other@.skip(i as int)[0] == other@[i as int]);
            }
            match c {
                Ordering::Equal => {},
                _ => {
                    return c;
                },
            }
            proof {
                assert(self@.skip(i as int).drop_first() =~= self@.skip(i as int + 1));
                assert(other@.skip(i as int).drop_first() =~= other@.skip(i as int + 1));
            }
            i += 1;
        }
        proof {
            assert(self@.skip(n as int).len() == an - n);
            assert(other@.skip(n as int).len() == bn - n);
        }
        if an < bn {
            Ordering::Less
        } else if an > bn {
            Ordering::Greater
        } else {
            Ordering::Equal
        }
    }

    proof fn lemma_cmp_eq_coherent(a: Self, b: Self, engines: &Engines) {
        lemma_seq_cmp_of_equivalent(a@, b@, engines);
    }
}

} // verus!
