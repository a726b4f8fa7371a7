//! The middle-square Weyl sequence generator.
use vstd::prelude::*;
use vstd::wrapping::u64_specs;

use crate::bits::{rotl64, rotl64_spec};
use crate::generator::{fill_bytes_via_next, fill_spec, BitGenerator};
use crate::words::{le_u64_at, u64_pair};

verus! {

/// Mask of the high 32 bits of a 64-bit word.
pub const HIGH_HALF: u64 = 0xffff_ffff_0000_0000;

/// Whether `word`, with its low bit forced to 1, may serve as the stream
/// constant: its high 32 bits must not all be zero.
pub open spec fn stream_ok(word: u64) -> bool {
    (word | 1) & HIGH_HALF != 0
}

/// Middle-square Weyl sequence generator: the square of `x` plus a Weyl
/// sequence `w` that grows by the odd stream constant `s`, 64 bits per step.
#[derive(Clone)]
pub struct MswsRng {
    x: u64,
    w: u64,
    s: u64,
}

impl MswsRng {
    /// The stream constant.
    pub closed spec fn stream_spec(&self) -> u64 {
        self.s
    }

    /// The middle-square value.
    pub closed spec fn x_spec(&self) -> u64 {
        self.x
    }

    /// The Weyl sequence.
    pub closed spec fn w_spec(&self) -> u64 {
        self.w
    }

    /// The engine built from an accepted stream word and a starting `x`.
    pub closed spec fn from_words_spec(stream_word: u64, x: u64) -> Self {
        MswsRng { x, w: 0, s: stream_word | 1 }
    }

    /// Whether a word drawn for the stream constant is accepted.
    pub fn accepts_stream_word(word: u64) -> (r: bool)
        ensures
            r == stream_ok(word),
    {
        (word | 1) & HIGH_HALF != 0
    }

    /// Builds the engine from a stream word (forced odd) and a starting `x`.
    pub fn from_words(stream_word: u64, x: u64) -> (r: Self)
        requires
            stream_ok(stream_word),
        ensures
            r == Self::from_words_spec(stream_word, x),
            r.stream_spec() == stream_word | 1,
            r.x_spec() == x,
            r.w_spec() == 0,
    {
        MswsRng { x, w: 0, s: stream_word | 1 }
    }

    /// Builds the engine from two little-endian words: the first (forced
    /// odd) is the stream constant, the second the starting `x`.
    pub fn from_seed(seed: [u8; 16]) -> (r: Self)
        requires
            stream_ok(le_u64_at(seed@, 0)),
        ensures
            r == Self::seeded(seed@),
            r.stream_spec() == le_u64_at(seed@, 0) | 1,
            r.x_spec() == le_u64_at(seed@, 8),
            r.w_spec() == 0,
    {
        let (s, x) = u64_pair(&seed);
        Self::from_words(s, x)
    }

    /// Builds the engine as `from_seed` does, or gives `None` where the first
    /// word, forced odd, has no bit set in its high half.
    pub fn try_from_seed(seed: [u8; 16]) -> (r: Option<Self>)
        ensures
            r.is_none() <==> (le_u64_at(seed@, 0) | 1) & 0xffff_ffff_0000_0000 == 0,
            r.is_some() ==> r == Some(Self::seeded(seed@)),
    {
        let (s, x) = u64_pair(&seed);
        if Self::accepts_stream_word(s) {
            Some(Self::from_words(s, x))
        } else {
            None
        }
    }

    /// Fills `dest` with little-endian bytes of successive outputs.
    pub fn fill_bytes(&mut self, dest: &mut [u8])
        ensures
            fill_spec(*old(self), old(dest)@.len() as nat) == (*final(self), final(dest)@),
    {
        fill_bytes_via_next(self, dest)
    }
}

impl BitGenerator for MswsRng {
    open spec fn seed_ok(seed: Seq<u8>) -> bool {
        seed.len() == 16 && stream_ok(le_u64_at(seed, 0))
    }

    closed spec fn seeded(seed: Seq<u8>) -> Self {
        Self::from_words_spec(le_u64_at(seed, 0), le_u64_at(seed, 8))
    }

    open spec fn out32(&self) -> u32 {
        self.out64() as u32
    }

    open spec fn after32(&self) -> Self {
        self.after64()
    }

    open spec fn out64(&self) -> u64 {
        rotl64_spec(self.after64().x_spec(), 32)
    }

    closed spec fn after64(&self) -> Self {
        let w = u64_specs::wrapping_add(self.w, self.s);
        MswsRng { x: u64_specs::wrapping_add(u64_specs::wrapping_mul(self.x, self.x), w), w, s: self.s }
    }

    fn next_u32(&mut self) -> (r: u32) {
        #[verifier::truncate] (self.next_u64() as u32)
    }

    fn next_u64(&mut self) -> (r: u64) {
        self.x = self.x.wrapping_mul(self.x);
        self.w = self.w.wrapping_add(self.s);
        self.x = self.x.wrapping_add(self.w);
        rotl64(self.x, 32)
    }
}

/// Seeding and stepping of `MswsRng`: the seeded fields, and one step adds
/// the stream constant to the Weyl sequence and sets `x` to its square plus
/// the new Weyl value, keeping `x` unrotated.
pub proof fn lemma_msws_model(g: MswsRng, seed: Seq<u8>)
    ensures
        MswsRng::seeded(seed).stream_spec() == le_u64_at(seed, 0) | 1,
        MswsRng::seeded(seed).x_spec() == le_u64_at(seed, 8),
        MswsRng::seeded(seed).w_spec() == 0,
        g.after64().w_spec() == u64_specs::wrapping_add(g.w_spec(), g.stream_spec()),
        g.after64().x_spec() == u64_specs::wrapping_add(
            u64_specs::wrapping_mul(g.x_spec(), g.x_spec()),
            g.after64().w_spec(),
        ),
        g.after64().stream_spec() == g.stream_spec(),
{
}

/// The seeds `MswsRng` accepts are exactly those whose first word, forced
/// odd, has a bit set in its high half; an accepted seed gives an odd stream
/// constant with a bit set in its high half.
pub proof fn lemma_msws_seed_validity(seed: Seq<u8>)
    requires
        seed.len() == 16,
    ensures
        MswsRng::seed_ok(seed) <==> (le_u64_at(seed, 0) | 1) & 0xffff_ffff_0000_0000 != 0,
        MswsRng::seed_ok(seed) ==> MswsRng::seeded(seed).stream_spec() & 1 == 1
            && MswsRng::seeded(seed).stream_spec() & 0xffff_ffff_0000_0000 != 0,
{
    let a = le_u64_at(seed, 0);
    assert((a | 1) & 1 == 1) by (bit_vector);
}

/// A seed of sixteen zero bytes is refused by `MswsRng`.
pub proof fn lemma_msws_zero_seed_refused(seed: Seq<u8>)
    requires
        seed == Seq::new(16, |i: int| 0u8),
    ensures
        !MswsRng::seed_ok(seed),
{
    assert(le_u64_at(seed, 0) == 0);
    assert((0u64 | 1) & 0xffff_ffff_0000_0000u64 == 0) by (bit_vector);
}

/// A 32-bit output of `MswsRng` is the low half of a 64-bit output, and both
/// take the same step.
pub proof fn lemma_msws_narrow_is_low_half(g: MswsRng)
    ensures
        g.out32() == g.out64() as u32,
        g.after32() == g.after64(),
{
}

} // verus!
