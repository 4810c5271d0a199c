//! The hash accumulator that contextual hashing feeds.
//!
//! The accumulator absorbs a sequence of 64-bit words with the FNV-1a mixing
//! step.  Its digest is a pure function of the seed and of the absorbed
//! words, which is what makes context-aware hashing deterministic within a
//! session.

use vstd::prelude::*;

verus! {

/// Multiplier of the 64-bit FNV-1a mixing step.
pub const FNV_PRIME: u64 = 0x100000001b3;

/// Offset basis of 64-bit FNV-1a, the default seed.
pub const FNV_OFFSET_BASIS: u64 = 0xcbf29ce484222325;

/// One absorption step: fold a word into the running state.
pub open spec fn mix_step(state: u64, word: u64) -> u64 {
    (state ^ word).wrapping_mul(FNV_PRIME)
}

/// The state reached from `state` after absorbing `words` in order.
pub open spec fn absorb(state: u64, words: Seq<u64>) -> u64
    decreases words.len(),
{
    if words.len() == 0 {
        state
    } else {
        absorb(mix_step(state, words[0]), words.drop_first())
    }
}

/// Absorbing a concatenation equals absorbing the two parts in order.
pub proof fn lemma_absorb_concat(state: u64, a: Seq<u64>, b: Seq<u64>)
    ensures
        absorb(state, a + b) == absorb(absorb(state, a), b),
    decreases a.len(),
{
    if a.len() == 0 {
        assert(a + b =~= b);
    } else {
        assert((a + b)[0] == a[0]);
        assert((a + b).drop_first() =~= a.drop_first() + b);
        lemma_absorb_concat(mix_step(state, a[0]), a.drop_first(), b);
    }
}

/// A running hash state.  The digest it will report is `absorb(seed, words)`
/// for the seed it was created with and the words absorbed so far.
pub struct HashState {
    state: u64,
}

impl HashState {
    /// The digest the accumulator would report now.
    pub closed spec fn digest(self) -> u64 {
        self.state
    }

    /// A fresh accumulator seeded with `seed`.
    pub fn with_seed(seed: u64) -> (r: HashState)
        ensures
            r.digest() == seed,
    {
        HashState { state: seed }
    }

    /// A fresh accumulator seeded with the FNV-1a offset basis.
    pub fn new() -> (r: HashState)
        ensures
            r.digest() == FNV_OFFSET_BASIS,
    {
        HashState::with_seed(FNV_OFFSET_BASIS)
    }

    /// Absorb one word.
    pub fn write_u64(&mut self, word: u64)
        ensures
            final(self).digest() == absorb(old(self).digest(), seq![word]),
    {
        proof {
            assert(seq![word].drop_first() =~= Seq::<u64>::empty());
            assert(absorb(mix_step(old(self).digest(), word), Seq::<u64>::empty())
                == mix_step(old(self).digest(), word));
        }
        self.state = (self.state ^ word).wrapping_mul(FNV_PRIME);
    }

    /// Absorb one byte, as the word of its value.
    pub fn write_u8(&mut self, byte: u8)
        ensures
            final(self).digest() == absorb(old(self).digest(), seq![byte as u64]),
    {
        self.write_u64(byte as u64);
    }

    /// Report the digest.
    pub fn finish(&self) -> (r: u64)
        ensures
            r == self.digest(),
    {
        self.state
    }
}

} // verus!
