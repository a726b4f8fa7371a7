//! The XSM generators, 32-bit and 64-bit.
use vstd::prelude::*;
use vstd::wrapping::{u32_specs, u64_specs};

use crate::bits::{rotl32, rotl32_spec, rotl64, rotl64_spec};
use crate::generator::{fill_bytes_via_next, fill_spec, BitGenerator};
use crate::words::{le_u32_at, le_u64_at, u32_triple, u64_triple};

verus! {

/// Multiplier of `Xsm32Rng`.
pub const XSM32_K: u32 = 0x6595a395;

/// Multiplier of `Xsm64Rng`.
pub const XSM64_K: u64 = 0xa3ec647659359acd;

/// The history that one step of `Xsm32Rng` leaves, from the LCG halves.
pub open spec fn xsm32_mix(high: u32, low: u32) -> u32 {
    let tmp = u32_specs::wrapping_mul(
        u32_specs::wrapping_add(high, rotl32_spec(high ^ low, 11)),
        XSM32_K,
    );
    tmp ^ (tmp >> 16u32)
}

/// The high half of the LCG of `Xsm32Rng` after one step: the old low half
/// and the carry out of adding `adder` to it are added in.
pub open spec fn xsm32_next_high(low: u32, high: u32, adder: u32) -> u32 {
    let new_low = u32_specs::wrapping_add(low, adder);
    let carry: u32 = if new_low < adder { 1 } else { 0 };
    u32_specs::wrapping_add(high, u32_specs::wrapping_add(low, carry))
}

/// The product that one step of `Xsm64Rng` makes from the LCG halves.
pub open spec fn xsm64_tmp(high: u64, low: u64) -> u64 {
    u64_specs::wrapping_mul(u64_specs::wrapping_add(high, rotl64_spec(high ^ low, 19)), XSM64_K)
}

/// The high half of the LCG of `Xsm64Rng` after one step: the old low half
/// and the carry out of adding `adder` to it are added in.
pub open spec fn xsm64_next_high(low: u64, high: u64, adder: u64) -> u64 {
    let new_low = u64_specs::wrapping_add(low, adder);
    let carry: u64 = if new_low < adder { 1 } else { 0 };
    u64_specs::wrapping_add(high, u64_specs::wrapping_add(low, carry))
}

/// XSM, 32-bit version: a 64-bit LCG held in two words with an odd adder,
/// mixed with a history word; 32 bits per step.
#[derive(Clone)]
pub struct Xsm32Rng {
    lcg_low: u32,
    lcg_high: u32,
    lcg_adder: u32,
    history: u32,
}

impl Xsm32Rng {
    /// The low half of the LCG.
    pub closed spec fn low_spec(&self) -> u32 {
        self.lcg_low
    }

    /// The high half of the LCG.
    pub closed spec fn high_spec(&self) -> u32 {
        self.lcg_high
    }

    /// The adder of the LCG.
    pub closed spec fn adder_spec(&self) -> u32 {
        self.lcg_adder
    }

    /// The history word.
    pub closed spec fn history_spec(&self) -> u32 {
        self.history
    }

    /// Builds the engine from three little-endian words (low, high and adder
    /// of the LCG, the adder forced odd), then takes one step whose output is
    /// discarded.
    pub fn from_seed(seed: [u8; 12]) -> (r: Self)
        ensures
            r == Self::seeded(seed@),
            r.adder_spec() == le_u32_at(seed@, 8) | 1,
            r.low_spec() == u32_specs::wrapping_add(le_u32_at(seed@, 0), le_u32_at(seed@, 8) | 1),
            r.high_spec() == xsm32_next_high(
                le_u32_at(seed@, 0),
                le_u32_at(seed@, 4),
                le_u32_at(seed@, 8) | 1,
            ),
            r.history_spec() == xsm32_mix(le_u32_at(seed@, 4), le_u32_at(seed@, 0)),
    {
        let (low, high, adder) = u32_triple(&seed);
        let mut rng = Xsm32Rng { lcg_low: low, lcg_high: high, lcg_adder: adder | 1, history: 0 };
        rng.next_u32();
        rng
    }

    /// Fills `dest` with little-endian bytes of successive outputs.
    pub fn fill_bytes(&mut self, dest: &mut [u8])
        ensures
            fill_spec(*old(self), old(dest)@.len() as nat) == (*final(self), final(dest)@),
    {
        fill_bytes_via_next(self, dest)
    }
}

impl BitGenerator for Xsm32Rng {
    open spec fn seed_ok(seed: Seq<u8>) -> bool {
        seed.len() == 12
    }

    closed spec fn seeded(seed: Seq<u8>) -> Self {
        Xsm32Rng {
            lcg_low: le_u32_at(seed, 0),
            lcg_high: le_u32_at(seed, 4),
            lcg_adder: le_u32_at(seed, 8) | 1,
            history: 0,
        }.after32()
    }

    open spec fn out32(&self) -> u32 {
        let rv = u32_specs::wrapping_mul(self.history_spec(), XSM32_K);
        u32_specs::wrapping_add(rv ^ (rv >> 16u32), xsm32_mix(self.high_spec(), self.low_spec()))
    }

    closed spec fn after32(&self) -> Self {
        Xsm32Rng {
            lcg_low: u32_specs::wrapping_add(self.lcg_low, self.lcg_adder),
            lcg_high: xsm32_next_high(self.lcg_low, self.lcg_high, self.lcg_adder),
            lcg_adder: self.lcg_adder,
            history: xsm32_mix(self.lcg_high, self.lcg_low),
        }
    }

    open spec fn out64(&self) -> u64 {
        (self.out32() as u64) | ((self.after32().out32() as u64) << 32u64)
    }

    open spec fn after64(&self) -> Self {
        self.after32().after32()
    }

    fn next_u32(&mut self) -> (r: u32) {
        let mut rv = self.history.wrapping_mul(XSM32_K);
        let mut tmp = self.lcg_high.wrapping_add(rotl32(self.lcg_high ^ self.lcg_low, 11));
        tmp = tmp.wrapping_mul(XSM32_K);
        let old_low = self.lcg_low;
        self.lcg_low = self.lcg_low.wrapping_add(self.lcg_adder);
        let carry: u32 = if self.lcg_low < self.lcg_adder { 1 } else { 0 };
        self.lcg_high = self.lcg_high.wrapping_add(old_low.wrapping_add(carry));
        rv = rv ^ (rv >> 16);
        self.history = tmp ^ (tmp >> 16);
        rv.wrapping_add(self.history)
    }

    fn next_u64(&mut self) -> (r: u64) {
        let lo = self.next_u32();
        let hi = self.next_u32();
        (lo as u64) | ((hi as u64) << 32)
    }
}

/// XSM, 64-bit version: a 128-bit LCG held in two words with an odd adder,
/// mixed with a history word; 64 bits per step.
#[derive(Clone)]
pub struct Xsm64Rng {
    lcg_low: u64,
    lcg_high: u64,
    lcg_adder: u64,
    history: u64,
}

impl Xsm64Rng {
    /// The low half of the LCG.
    pub closed spec fn low_spec(&self) -> u64 {
        self.lcg_low
    }

    /// The high half of the LCG.
    pub closed spec fn high_spec(&self) -> u64 {
        self.lcg_high
    }

    /// The adder of the LCG.
    pub closed spec fn adder_spec(&self) -> u64 {
        self.lcg_adder
    }

    /// The history word.
    pub closed spec fn history_spec(&self) -> u64 {
        self.history
    }

    /// Builds the engine from three little-endian words (low, high and adder
    /// of the LCG, the adder forced odd), then takes one step whose output is
    /// discarded.
    pub fn from_seed(seed: [u8; 24]) -> (r: Self)
        ensures
            r == Self::seeded(seed@),
            r.adder_spec() == le_u64_at(seed@, 16) | 1,
            r.low_spec() == u64_specs::wrapping_add(le_u64_at(seed@, 0), le_u64_at(seed@, 16) | 1),
            r.high_spec() == xsm64_next_high(
                le_u64_at(seed@, 0),
                le_u64_at(seed@, 8),
                le_u64_at(seed@, 16) | 1,
            ),
            r.history_spec() == xsm64_tmp(le_u64_at(seed@, 8), le_u64_at(seed@, 0)) ^ (xsm64_tmp(
                le_u64_at(seed@, 8),
                le_u64_at(seed@, 0),
            ) >> 32u64),
    {
        let (low, high, adder) = u64_triple(&seed);
        let mut rng = Xsm64Rng { lcg_low: low, lcg_high: high, lcg_adder: adder | 1, history: 0 };
        rng.next_u64();
        rng
    }

    /// Fills `dest` with little-endian bytes of successive outputs.
    pub fn fill_bytes(&mut self, dest: &mut [u8])
        ensures
            fill_spec(*old(self), old(dest)@.len() as nat) == (*final(self), final(dest)@),
    {
        fill_bytes_via_next(self, dest)
    }
}

impl BitGenerator for Xsm64Rng {
    open spec fn seed_ok(seed: Seq<u8>) -> bool {
        seed.len() == 24
    }

    closed spec fn seeded(seed: Seq<u8>) -> Self {
        Xsm64Rng {
            lcg_low: le_u64_at(seed, 0),
            lcg_high: le_u64_at(seed, 8),
            lcg_adder: le_u64_at(seed, 16) | 1,
            history: 0,
        }.after64()
    }

    open spec fn out32(&self) -> u32 {
        self.out64() as u32
    }

    open spec fn after32(&self) -> Self {
        self.after64()
    }

    open spec fn out64(&self) -> u64 {
        let h = u64_specs::wrapping_mul(self.history_spec(), XSM64_K);
        u64_specs::wrapping_add(xsm64_tmp(self.high_spec(), self.low_spec()), h ^ (h >> 32u64))
    }

    closed spec fn after64(&self) -> Self {
        let tmp = xsm64_tmp(self.lcg_high, self.lcg_low);
        Xsm64Rng {
            lcg_low: u64_specs::wrapping_add(self.lcg_low, self.lcg_adder),
            lcg_high: xsm64_next_high(self.lcg_low, self.lcg_high, self.lcg_adder),
            lcg_adder: self.lcg_adder,
            history: tmp ^ (tmp >> 32u64),
        }
    }

    fn next_u32(&mut self) -> (r: u32) {
        #[verifier::truncate] (self.next_u64() as u32)
    }

    fn next_u64(&mut self) -> (r: u64) {
        let h = self.history.wrapping_mul(XSM64_K);
        let mut tmp = self.lcg_high.wrapping_add(rotl64(self.lcg_high ^ self.lcg_low, 19));
        tmp = tmp.wrapping_mul(XSM64_K);
        let old_low = self.lcg_low;
        self.lcg_low = self.lcg_low.wrapping_add(self.lcg_adder);
        let carry: u64 = if self.lcg_low < self.lcg_adder { 1 } else { 0 };
        self.lcg_high = self.lcg_high.wrapping_add(old_low.wrapping_add(carry));
        self.history = tmp ^ (tmp >> 32);
        tmp.wrapping_add(h ^ (h >> 32))
    }
}

/// One step of `Xsm32Rng`: the low half of the LCG grows by the adder, the
/// high half takes the old low half and the carry, the adder is kept, and
/// the history becomes the mixed product. Seeding is one such step from the
/// three seed words and a zero history.
pub proof fn lemma_xsm32_model(g: Xsm32Rng, seed: Seq<u8>)
    ensures
        g.after32().low_spec() == u32_specs::wrapping_add(g.low_spec(), g.adder_spec()),
        g.after32().high_spec() == xsm32_next_high(g.low_spec(), g.high_spec(), g.adder_spec()),
        g.after32().adder_spec() == g.adder_spec(),
        g.after32().history_spec() == xsm32_mix(g.high_spec(), g.low_spec()),
        Xsm32Rng::seeded(seed).adder_spec() == le_u32_at(seed, 8) | 1,
        Xsm32Rng::seeded(seed).low_spec() == u32_specs::wrapping_add(
            le_u32_at(seed, 0),
            le_u32_at(seed, 8) | 1,
        ),
        Xsm32Rng::seeded(seed).high_spec() == xsm32_next_high(
            le_u32_at(seed, 0),
            le_u32_at(seed, 4),
            le_u32_at(seed, 8) | 1,
        ),
        Xsm32Rng::seeded(seed).history_spec() == xsm32_mix(le_u32_at(seed, 4), le_u32_at(seed, 0)),
{
}

/// One step of `Xsm64Rng`: the low half of the LCG grows by the adder, the
/// high half takes the old low half and the carry, the adder is kept, and
/// the history becomes the mixed product. Seeding is one such step from the
/// three seed words and a zero history.
pub proof fn lemma_xsm64_model(g: Xsm64Rng, seed: Seq<u8>)
    ensures
        g.after64().low_spec() == u64_specs::wrapping_add(g.low_spec(), g.adder_spec()),
        g.after64().high_spec() == xsm64_next_high(g.low_spec(), g.high_spec(), g.adder_spec()),
        g.after64().adder_spec() == g.adder_spec(),
        g.after64().history_spec() == xsm64_tmp(g.high_spec(), g.low_spec()) ^ (xsm64_tmp(
            g.high_spec(),
            g.low_spec(),
        ) >> 32u64),
        Xsm64Rng::seeded(seed).adder_spec() == le_u64_at(seed, 16) | 1,
        Xsm64Rng::seeded(seed).low_spec() == u64_specs::wrapping_add(
            le_u64_at(seed, 0),
            le_u64_at(seed, 16) | 1,
        ),
        Xsm64Rng::seeded(seed).high_spec() == xsm64_next_high(
            le_u64_at(seed, 0),
            le_u64_at(seed, 8),
            le_u64_at(seed, 16) | 1,
        ),
        Xsm64Rng::seeded(seed).history_spec() == xsm64_tmp(le_u64_at(seed, 8), le_u64_at(seed, 0))
            ^ (xsm64_tmp(le_u64_at(seed, 8), le_u64_at(seed, 0)) >> 32u64),
{
}

/// Whatever the seed, the adder of both XSM engines is odd once the engine
/// is built, the warm-up step included.
pub proof fn lemma_xsm_adder_odd(seed: Seq<u8>)
    ensures
        Xsm32Rng::seeded(seed).adder_spec() & 1 == 1,
        Xsm64Rng::seeded(seed).adder_spec() & 1 == 1,
{
    let a = le_u32_at(seed, 8);
    let b = le_u64_at(seed, 16);
    assert((a | 1) & 1 == 1) by (bit_vector);
    assert((b | 1) & 1 == 1) by (bit_vector);
}

/// A 64-bit output of `Xsm32Rng` is two successive 32-bit outputs, the first
/// in the low half; a 32-bit output of `Xsm64Rng` is the low half of a 64-bit
/// output.
pub proof fn lemma_xsm_output_widths(a: Xsm32Rng, b: Xsm64Rng)
    ensures
        a.out64() == (a.out32() as u64) | ((a.after32().out32() as u64) << 32u64),
        a.after64() == a.after32().after32(),
        b.out32() == b.out64() as u32,
        b.after32() == b.after64(),
{
}

} // verus!
