//! The laws of the protocol family, stated once over every participating
//! type and proved from the trait obligations and the table contracts.

use vstd::prelude::*;
use std::cmp::Ordering;
use crate::engines::{evict, evict_slot, resolve_slot, ModuleId};
use crate::hashing::absorb;
use crate::protocols::{
    seq_cmp_spec, seq_eq_spec, HashWithEngines, OrdWithEngines, PartialEqWithEngines,
};
use crate::engines::Engines;
use crate::wrapper::WithEngines;
use vstd::std_specs::cmp::{PartialEqSpec, PartialOrdSpec};

verus! {

/// Contextual equivalence is reflexive: every value is equivalent to itself
/// under every fixed context.
pub proof fn lemma_equivalence_reflexive<T: PartialEqWithEngines>(a: T, engines: &Engines)
    ensures
        a.eq_spec(&a, engines),
{
    T::lemma_eq_reflexive(a, engines);
}

/// Contextual equivalence is symmetric under every fixed context.
pub proof fn lemma_equivalence_symmetric<T: PartialEqWithEngines>(a: T, b: T, engines: &Engines)
    ensures
        a.eq_spec(&b, engines) == b.eq_spec(&a, engines),
{
    T::lemma_eq_symmetric(a, b, engines);
}

/// Contextual equivalence is transitive under every fixed context.
pub proof fn lemma_equivalence_transitive<T: PartialEqWithEngines>(
    a: T,
    b: T,
    c: T,
    engines: &Engines,
)
    requires
        a.eq_spec(&b, engines),
        b.eq_spec(&c, engines),
    ensures
        a.eq_spec(&c, engines),
{
    T::lemma_eq_transitive(a, b, c, engines);
}

/// Hash coherence: contextually equivalent values digest identically under
/// the same context and seed.
pub proof fn lemma_hash_coherence<T: HashWithEngines>(a: T, b: T, seed: u64, engines: &Engines)
    requires
        a.eq_spec(&b, engines),
    ensures
        absorb(seed, a.hash_feed(engines)) == absorb(seed, b.hash_feed(engines)),
{
    T::lemma_hash_coherent(a, b, engines);
}

/// Order coherence: contextually equivalent values rank as order-equal.
pub proof fn lemma_order_equivalence_coherence<T: OrdWithEngines>(a: T, b: T, engines: &Engines)
    requires
        a.eq_spec(&b, engines),
    ensures
        a.cmp_spec(&b, engines) == Ordering::Equal,
{
    T::lemma_cmp_eq_coherent(a, b, engines);
}

/// The optional tie-break: a present value sorts strictly before an absent
/// one, whatever the value, and two absent values are order-equal.
pub proof fn lemma_option_tie_break<T: OrdWithEngines>(x: T, engines: &Engines)
    ensures
        <Option<T> as OrdWithEngines>::cmp_spec(&Some(x), &None, engines) == Ordering::Less,
        <Option<T> as OrdWithEngines>::cmp_spec(&None, &Some(x), engines) == Ordering::Greater,
        <Option<T> as OrdWithEngines>::cmp_spec(&None::<T>, &None::<T>, engines)
            == Ordering::Equal,
{
}

/// Among sequences whose compared pairs are all order-equal, the shorter one
/// sorts strictly first.
pub proof fn lemma_seq_cmp_shorter_prefix<T: OrdWithEngines>(a: Seq<T>, b: Seq<T>, engines: &Engines)
    requires
        a.len() < b.len(),
        forall|i: int| 0 <= i < a.len() ==> #[trigger] a[i].cmp_spec(&b[i], engines)
            == Ordering::Equal,
    ensures
        seq_cmp_spec(a, b, engines) == Ordering::Less,
    decreases a.len(),
{
    if a.len() > 0 {
        assert(a[0].cmp_spec(&b[0], engines) == Ordering::Equal);
        assert forall|i: int| 0 <= i < a.drop_first().len() implies #[trigger] a.drop_first()[i]
            .cmp_spec(&b.drop_first()[i], engines) == Ordering::Equal by {
            assert(a[i + 1].cmp_spec(&b[i + 1], engines) == Ordering::Equal);
        }
        lemma_seq_cmp_shorter_prefix(a.drop_first(), b.drop_first(), engines);
    }
}

/// The first pair that is not order-equal decides a sequence comparison,
/// independent of the sequences' lengths.
pub proof fn lemma_seq_cmp_first_difference<T: OrdWithEngines>(
    a: Seq<T>,
    b: Seq<T>,
    j: int,
    engines: &Engines,
)
    requires
        0 <= j < a.len(),
        j < b.len(),
        forall|i: int| 0 <= i < j ==> #[trigger] a[i].cmp_spec(&b[i], engines) == Ordering::Equal,
        a[j].cmp_spec(&b[j], engines) != Ordering::Equal,
    ensures
        seq_cmp_spec(a, b, engines) == a[j].cmp_spec(&b[j], engines),
    decreases j,
{
    if j > 0 {
        assert(a[0].cmp_spec(&b[0], engines) == Ordering::Equal);
        assert forall|i: int| 0 <= i < j - 1 implies #[trigger] a.drop_first()[i].cmp_spec(
            &b.drop_first()[i],
            engines,
        ) == Ordering::Equal by {
            assert(a[i + 1].cmp_spec(&b[i + 1], engines) == Ordering::Equal);
        }
        assert(a.drop_first()[j - 1] == a[j]);
        assert(b.drop_first()[j - 1] == b[j]);
        lemma_seq_cmp_first_difference(a.drop_first(), b.drop_first(), j - 1, engines);
    }
}

/// A length mismatch short-circuits sequence equivalence.
pub proof fn lemma_seq_eq_length_mismatch<T: PartialEqWithEngines>(
    a: Seq<T>,
    b: Seq<T>,
    engines: &Engines,
)
    requires
        a.len() != b.len(),
    ensures
        !seq_eq_spec(a, b, engines),
{
}

/// Eviction is idempotent: clearing the same unit twice changes nothing more.
pub proof fn lemma_evict_idempotent<V>(slots: Seq<Option<(V, ModuleId)>>, module: ModuleId)
    ensures
        evict(evict(slots, module), module) == evict(slots, module),
{
    assert(evict(evict(slots, module), module) =~= evict(slots, module));
}

/// Eviction makes every entry of the cleared unit unresolvable.
pub proof fn lemma_evict_clears_unit<V>(slots: Seq<Option<(V, ModuleId)>>, module: ModuleId, i: int)
    requires
        0 <= i < slots.len(),
        slots[i] matches Some(entry) && entry.1 == module,
    ensures
        resolve_slot(evict(slots, module), i) is None,
{
}

/// Eviction leaves every entry of every other unit resolvable, unchanged.
pub proof fn lemma_evict_keeps_other_units<V>(
    slots: Seq<Option<(V, ModuleId)>>,
    module: ModuleId,
    i: int,
)
    requires
        !(slots[i] matches Some(entry) && entry.1 == module),
    ensures
        resolve_slot(evict(slots, module), i) == resolve_slot(slots, i),
{
    if 0 <= i < slots.len() {
        assert(evict(slots, module)[i] == evict_slot(slots[i], module));
    }
}

/// Wrapper transparency: the ordinary, context-free equality of wrapped
/// values is exactly contextual equivalence under the bound context.
pub proof fn lemma_wrapper_eq_transparent<'a, T: PartialEqWithEngines>(
    a: WithEngines<'a, T>,
    b: WithEngines<'a, T>,
)
    ensures
        a.eq_spec(&b) == a.thing.eq_spec(&b.thing, a.engines),
{
}

/// Wrapper transparency: the ordinary, context-free comparison of wrapped
/// values is exactly the contextual comparison under the bound context.
pub proof fn lemma_wrapper_cmp_transparent<'a, T: OrdWithEngines>(
    a: WithEngines<'a, T>,
    b: WithEngines<'a, T>,
)
    ensures
        a.partial_cmp_spec(&b) == Some(a.thing.cmp_spec(&b.thing, a.engines)),
{
}

} // verus!
