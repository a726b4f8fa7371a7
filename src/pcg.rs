//! Permuted congruential generators and the multiply-with-Weyl generator.
use vstd::prelude::*;
use vstd::wrapping::{u128_specs, u64_specs};

use crate::bits::{rotr32, rotr32_spec, rotr64, rotr64_spec};
use crate::generator::{fill_bytes_via_next, fill_spec, BitGenerator};
use crate::words::{le_u64_at, u64_pair};

verus! {

/// Multiplier of the 64-bit congruential cores.
pub const PCG_MULT_64: u64 = 6364136223846793005;

/// Increment of the Weyl sequence of `MwpRng`.
pub const MWP_WEYL: u64 = 1442695040888963407;

/// Multiplier of the 128-bit multiplicative core,
/// 2549297995355413924 in the high half and 4865540595714422341 in the low.
pub const PCG_MULT_128: u128 = 0x2360ed051fc65da44385df649fccf645;

/// One step of the 64-bit linear congruential core: `state * M + increment`.
pub open spec fn lcg64(state: u64, increment: u64) -> u64 {
    u64_specs::wrapping_add(u64_specs::wrapping_mul(state, PCG_MULT_64), increment)
}

/// XSH RR: xorshift the high bits down, keep 32 of them, and rotate right by
/// the top five bits of `state`.
pub open spec fn xsh_rr(state: u64) -> u32 {
    rotr32_spec((((state >> 18u64) ^ state) >> 27u64) as u32, (state >> 59u64) as u32)
}

/// XSL RR (64/32): xor the high half into the low half and rotate right by
/// the top five bits of `state`.
pub open spec fn xsl_rr_64(state: u64) -> u32 {
    rotr32_spec(((state >> 32u64) as u32) ^ (state as u32), (state >> 59u64) as u32)
}

/// XSL RR (128/64): xor the high half into the low half and rotate right by
/// the top six bits of `state`.
pub open spec fn xsl_rr_128(state: u128) -> u64 {
    rotr64_spec(((state >> 64u128) as u64) ^ (state as u64), (state >> 122u128) as u32)
}

/// RXS M XS: a xorshift by an amount taken from the top five bits, a
/// multiplication, and a fixed xorshift by 42.
pub open spec fn rxs_m_xs(state: u64) -> u64 {
    let s1 = state ^ (state >> (5u64 + ((state >> 59u64) & 63u64)));
    let s2 = u64_specs::wrapping_mul(s1, PCG_MULT_64);
    s2 ^ (s2 >> 42u64)
}

fn xsh_rr_exec(state: u64) -> (r: u32)
    ensures
        r == xsh_rr(state),
{
    assert(state >> 59u64 < 32u64) by (bit_vector);
    let xsh: u32 = #[verifier::truncate] ((((state >> 18) ^ state) >> 27) as u32);
    rotr32(xsh, (state >> 59) as u32)
}

fn xsl_rr_64_exec(state: u64) -> (r: u32)
    ensures
        r == xsl_rr_64(state),
{
    assert(state >> 59u64 < 32u64) by (bit_vector);
    let xsl: u32 = ((state >> 32) as u32) ^ #[verifier::truncate] (state as u32);
    rotr32(xsl, (state >> 59) as u32)
}

fn xsl_rr_128_exec(state: u128) -> (r: u64)
    ensures
        r == xsl_rr_128(state),
{
    assert(state >> 122u128 < 64u128) by (bit_vector);
    let xsl: u64 = ((state >> 64) as u64) ^ #[verifier::truncate] (state as u64);
    rotr64(xsl, (state >> 122) as u32)
}

fn rxs_m_xs_exec(state: u64) -> (r: u64)
    ensures
        r == rxs_m_xs(state),
{
    assert((state >> 59u64) & 63u64 < 32u64) by (bit_vector);
    let rshift: u64 = (state >> 59) & 63;
    let s1 = state ^ (state >> (5 + rshift));
    let s2 = s1.wrapping_mul(PCG_MULT_64);
    s2 ^ (s2 >> 42)
}

/// PCG with a 64-bit linear congruential core and XSH RR output
/// ("xorshift high bits, random rotation"), 32 bits per step.
#[derive(Clone)]
pub struct PcgXsh64LcgRng {
    state: u64,
    increment: u64,
}

impl PcgXsh64LcgRng {
    /// The state of the congruential core.
    pub closed spec fn state_spec(&self) -> u64 {
        self.state
    }

    /// The increment of the congruential core.
    pub closed spec fn increment_spec(&self) -> u64 {
        self.increment
    }

    /// Builds the engine from two little-endian words: the first is the
    /// state, the second (forced odd) the increment; the core then takes one
    /// step before the first output.
    pub fn from_seed(seed: [u8; 16]) -> (r: Self)
        ensures
            r == Self::seeded(seed@),
            r.increment_spec() == le_u64_at(seed@, 8) | 1,
            r.state_spec() == lcg64(le_u64_at(seed@, 0), le_u64_at(seed@, 8) | 1),
    {
        let (s, i) = u64_pair(&seed);
        let increment = i | 1;
        PcgXsh64LcgRng { state: s.wrapping_mul(PCG_MULT_64).wrapping_add(increment), increment }
    }

    /// Fills `dest` with little-endian bytes of successive outputs.
    pub fn fill_bytes(&mut self, dest: &mut [u8])
        ensures
            fill_spec(*old(self), old(dest)@.len() as nat) == (*final(self), final(dest)@),
    {
        fill_bytes_via_next(self, dest)
    }
}

impl BitGenerator for PcgXsh64LcgRng {
    open spec fn seed_ok(seed: Seq<u8>) -> bool {
        seed.len() == 16
    }

    closed spec fn seeded(seed: Seq<u8>) -> Self {
        let increment = le_u64_at(seed, 8) | 1;
        PcgXsh64LcgRng { state: lcg64(le_u64_at(seed, 0), increment), increment }
    }

    open spec fn out32(&self) -> u32 {
        xsh_rr(self.state_spec())
    }

    closed spec fn after32(&self) -> Self {
        PcgXsh64LcgRng { state: lcg64(self.state, self.increment), increment: self.increment }
    }

    open spec fn out64(&self) -> u64 {
        (self.out32() as u64) | ((self.after32().out32() as u64) << 32u64)
    }

    open spec fn after64(&self) -> Self {
        self.after32().after32()
    }

    fn next_u32(&mut self) -> (r: u32) {
        let state = self.state;
        self.state = state.wrapping_mul(PCG_MULT_64).wrapping_add(self.increment);
        xsh_rr_exec(state)
    }

    fn next_u64(&mut self) -> (r: u64) {
        let lo = self.next_u32();
        let hi = self.next_u32();
        (lo as u64) | ((hi as u64) << 32)
    }
}

/// PCG with a 64-bit linear congruential core and XSL RR output
/// ("xorshift low bits, random rotation"), 32 bits per step.
#[derive(Clone)]
pub struct PcgXsl64LcgRng {
    state: u64,
    increment: u64,
}

impl PcgXsl64LcgRng {
    /// The state of the congruential core.
    pub closed spec fn state_spec(&self) -> u64 {
        self.state
    }

    /// The increment of the congruential core.
    pub closed spec fn increment_spec(&self) -> u64 {
        self.increment
    }

    /// Builds the engine from two little-endian words: the first is the
    /// state, the second (forced odd) the increment; the core then takes one
    /// step before the first output.
    pub fn from_seed(seed: [u8; 16]) -> (r: Self)
        ensures
            r == Self::seeded(seed@),
            r.increment_spec() == le_u64_at(seed@, 8) | 1,
            r.state_spec() == lcg64(le_u64_at(seed@, 0), le_u64_at(seed@, 8) | 1),
    {
        let (s, i) = u64_pair(&seed);
        let increment = i | 1;
        PcgXsl64LcgRng { state: s.wrapping_mul(PCG_MULT_64).wrapping_add(increment), increment }
    }

    /// Fills `dest` with little-endian bytes of successive outputs.
    pub fn fill_bytes(&mut self, dest: &mut [u8])
        ensures
            fill_spec(*old(self), old(dest)@.len() as nat) == (*final(self), final(dest)@),
    {
        fill_bytes_via_next(self, dest)
    }
}

impl BitGenerator for PcgXsl64LcgRng {
    open spec fn seed_ok(seed: Seq<u8>) -> bool {
        seed.len() == 16
    }

    closed spec fn seeded(seed: Seq<u8>) -> Self {
        let increment = le_u64_at(seed, 8) | 1;
        PcgXsl64LcgRng { state: lcg64(le_u64_at(seed, 0), increment), increment }
    }

    open spec fn out32(&self) -> u32 {
        xsl_rr_64(self.state_spec())
    }

    closed spec fn after32(&self) -> Self {
        PcgXsl64LcgRng { state: lcg64(self.state, self.increment), increment: self.increment }
    }

    open spec fn out64(&self) -> u64 {
        (self.out32() as u64) | ((self.after32().out32() as u64) << 32u64)
    }

    open spec fn after64(&self) -> Self {
        self.after32().after32()
    }

    fn next_u32(&mut self) -> (r: u32) {
        let state = self.state;
        self.state = state.wrapping_mul(PCG_MULT_64).wrapping_add(self.increment);
        xsl_rr_64_exec(state)
    }

    fn next_u64(&mut self) -> (r: u64) {
        let lo = self.next_u32();
        let hi = self.next_u32();
        (lo as u64) | ((hi as u64) << 32)
    }
}

/// The 128-bit state built from two words, the first as the high half.
pub open spec fn join128(hi: u64, lo: u64) -> u128 {
    ((hi as u128) << 64u128) | (lo as u128)
}

/// PCG with a 128-bit multiplicative congruential core and XSL RR output,
/// 64 bits per step.
#[derive(Clone)]
pub struct PcgXsl128McgRng {
    state: u128,
}

impl PcgXsl128McgRng {
    /// The state of the multiplicative core.
    pub closed spec fn state_spec(&self) -> u128 {
        self.state
    }

    /// Builds the engine from two little-endian words, the first as the high
    /// half of the state and the second as the low half; the core then takes
    /// one step before the first output.
    pub fn from_seed(seed: [u8; 16]) -> (r: Self)
        ensures
            r == Self::seeded(seed@),
            r.state_spec() == u128_specs::wrapping_mul(
                join128(le_u64_at(seed@, 0), le_u64_at(seed@, 8)),
                PCG_MULT_128,
            ),
    {
        let (hi, lo) = u64_pair(&seed);
        let state: u128 = ((hi as u128) << 64) | (lo as u128);
        PcgXsl128McgRng { state: state.wrapping_mul(PCG_MULT_128) }
    }

    /// Fills `dest` with little-endian bytes of successive outputs.
    pub fn fill_bytes(&mut self, dest: &mut [u8])
        ensures
            fill_spec(*old(self), old(dest)@.len() as nat) == (*final(self), final(dest)@),
    {
        fill_bytes_via_next(self, dest)
    }
}

impl BitGenerator for PcgXsl128McgRng {
    open spec fn seed_ok(seed: Seq<u8>) -> bool {
        seed.len() == 16
    }

    closed spec fn seeded(seed: Seq<u8>) -> Self {
        PcgXsl128McgRng {
            state: u128_specs::wrapping_mul(
                join128(le_u64_at(seed, 0), le_u64_at(seed, 8)),
                PCG_MULT_128,
            ),
        }
    }

    open spec fn out32(&self) -> u32 {
        self.out64() as u32
    }

    open spec fn after32(&self) -> Self {
        self.after64()
    }

    open spec fn out64(&self) -> u64 {
        xsl_rr_128(self.state_spec())
    }

    closed spec fn after64(&self) -> Self {
        PcgXsl128McgRng { state: u128_specs::wrapping_mul(self.state, PCG_MULT_128) }
    }

    fn next_u32(&mut self) -> (r: u32) {
        #[verifier::truncate] (self.next_u64() as u32)
    }

    fn next_u64(&mut self) -> (r: u64) {
        let state = self.state;
        self.state = state.wrapping_mul(PCG_MULT_128);
        xsl_rr_128_exec(state)
    }
}

/// A multiplicative congruential generator combined with a Weyl sequence.
///
/// The 32-bit and 64-bit outputs advance the state in the same way but apply
/// different output functions (XSH RR and RXS M XS), so a 64-bit output is
/// not made of two 32-bit ones.
#[derive(Clone)]
pub struct MwpRng {
    m: u64,
    w: u64,
}

impl MwpRng {
    /// The multiplicative part of the state.
    pub closed spec fn m_spec(&self) -> u64 {
        self.m
    }

    /// The Weyl counter.
    pub closed spec fn w_spec(&self) -> u64 {
        self.w
    }

    /// The combined state after one step, from which both outputs are made.
    pub open spec fn mixed(&self) -> u64 {
        u64_specs::wrapping_mul(self.m_spec(), PCG_MULT_64) ^ u64_specs::wrapping_add(
            self.w_spec(),
            MWP_WEYL,
        )
    }

    /// Builds the engine from two little-endian words: the first (forced
    /// odd) is the multiplicative part, the second the Weyl counter.
    pub fn from_seed(seed: [u8; 16]) -> (r: Self)
        ensures
            r == Self::seeded(seed@),
            r.m_spec() == le_u64_at(seed@, 0) | 1,
            r.w_spec() == le_u64_at(seed@, 8),
    {
        let (m, w) = u64_pair(&seed);
        MwpRng { m: m | 1, w }
    }

    /// Fills `dest` with little-endian bytes of successive outputs.
    pub fn fill_bytes(&mut self, dest: &mut [u8])
        ensures
            fill_spec(*old(self), old(dest)@.len() as nat) == (*final(self), final(dest)@),
    {
        fill_bytes_via_next(self, dest)
    }

    fn advance(&mut self) -> (r: u64)
        ensures
            *final(self) == old(self).after64(),
            r == old(self).mixed(),
    {
        self.m = self.m.wrapping_mul(PCG_MULT_64);
        self.w = self.w.wrapping_add(MWP_WEYL);
        self.m ^ self.w
    }
}

impl BitGenerator for MwpRng {
    open spec fn seed_ok(seed: Seq<u8>) -> bool {
        seed.len() == 16
    }

    closed spec fn seeded(seed: Seq<u8>) -> Self {
        MwpRng { m: le_u64_at(seed, 0) | 1, w: le_u64_at(seed, 8) }
    }

    open spec fn out32(&self) -> u32 {
        xsh_rr(self.mixed())
    }

    open spec fn after32(&self) -> Self {
        self.after64()
    }

    open spec fn out64(&self) -> u64 {
        rxs_m_xs(self.mixed())
    }

    closed spec fn after64(&self) -> Self {
        MwpRng {
            m: u64_specs::wrapping_mul(self.m, PCG_MULT_64),
            w: u64_specs::wrapping_add(self.w, MWP_WEYL),
        }
    }

    fn next_u32(&mut self) -> (r: u32) {
        let state = self.advance();
        xsh_rr_exec(state)
    }

    fn next_u64(&mut self) -> (r: u64) {
        let state = self.advance();
        rxs_m_xs_exec(state)
    }
}

/// Seeding and stepping of `PcgXsh64LcgRng`: the seeded fields, and one
/// 32-bit step advances the core and keeps the increment.
pub proof fn lemma_pcg_xsh_model(g: PcgXsh64LcgRng, seed: Seq<u8>)
    ensures
        PcgXsh64LcgRng::seeded(seed).increment_spec() == le_u64_at(seed, 8) | 1,
        PcgXsh64LcgRng::seeded(seed).state_spec() == lcg64(le_u64_at(seed, 0), le_u64_at(seed, 8) | 1),
        g.after32().state_spec() == lcg64(g.state_spec(), g.increment_spec()),
        g.after32().increment_spec() == g.increment_spec(),
{
}

/// Seeding and stepping of `PcgXsl64LcgRng`: the seeded fields, and one
/// 32-bit step advances the core and keeps the increment.
pub proof fn lemma_pcg_xsl_model(g: PcgXsl64LcgRng, seed: Seq<u8>)
    ensures
        PcgXsl64LcgRng::seeded(seed).increment_spec() == le_u64_at(seed, 8) | 1,
        PcgXsl64LcgRng::seeded(seed).state_spec() == lcg64(le_u64_at(seed, 0), le_u64_at(seed, 8) | 1),
        g.after32().state_spec() == lcg64(g.state_spec(), g.increment_spec()),
        g.after32().increment_spec() == g.increment_spec(),
{
}

/// Seeding and stepping of `PcgXsl128McgRng`: the seeded state, and one
/// step multiplies the state by the 128-bit multiplier.
pub proof fn lemma_pcg_xsl_128_model(g: PcgXsl128McgRng, seed: Seq<u8>)
    ensures
        PcgXsl128McgRng::seeded(seed).state_spec() == u128_specs::wrapping_mul(
            join128(le_u64_at(seed, 0), le_u64_at(seed, 8)),
            PCG_MULT_128,
        ),
        g.after64().state_spec() == u128_specs::wrapping_mul(g.state_spec(), PCG_MULT_128),
{
}

/// Seeding and stepping of `MwpRng`: the seeded fields; both widths take
/// the same step, which multiplies `m` and advances the Weyl counter; and
/// an odd `m` stays odd.
pub proof fn lemma_mwp_model(g: MwpRng, seed: Seq<u8>)
    ensures
        MwpRng::seeded(seed).m_spec() == le_u64_at(seed, 0) | 1,
        MwpRng::seeded(seed).w_spec() == le_u64_at(seed, 8),
        g.after32() == g.after64(),
        g.after64().m_spec() == u64_specs::wrapping_mul(g.m_spec(), PCG_MULT_64),
        g.after64().w_spec() == u64_specs::wrapping_add(g.w_spec(), MWP_WEYL),
        g.m_spec() & 1 == 1 ==> g.after64().m_spec() & 1 == 1,
{
    let m = g.m_spec();
    if m & 1 == 1 {
        assert(m % 2 == 1) by (bit_vector)
            requires
                m & 1 == 1,
        ;
        let p = m as nat * PCG_MULT_64 as nat;
        assert(p % 2 == 1) by (nonlinear_arith)
            requires
                m % 2 == 1,
                p == m as nat * PCG_MULT_64 as nat,
                PCG_MULT_64 % 2 == 1,
        ;
        let q = p % 0x1_0000_0000_0000_0000;
        assert(q % 2 == 1) by (nonlinear_arith)
            requires
                p % 2 == 1,
                q == p % 0x1_0000_0000_0000_0000,
        ;
        let r = u64_specs::wrapping_mul(m, PCG_MULT_64);
        assert(r == q);
        assert(r & 1 == 1) by (bit_vector)
            requires
                r % 2 == 1,
        ;
    }
}

/// Whatever the seed, the increment of both 64/32 PCG engines and the
/// multiplicative part of `MwpRng` are odd once the engine is built.
pub proof fn lemma_odd_after_seeding(seed: Seq<u8>)
    ensures
        PcgXsh64LcgRng::seeded(seed).increment_spec() & 1 == 1,
        PcgXsl64LcgRng::seeded(seed).increment_spec() & 1 == 1,
        MwpRng::seeded(seed).m_spec() & 1 == 1,
{
    let a = le_u64_at(seed, 0);
    let b = le_u64_at(seed, 8);
    assert((a | 1) & 1 == 1) by (bit_vector);
    assert((b | 1) & 1 == 1) by (bit_vector);
}

/// A 64-bit output of `PcgXsh64LcgRng` is two successive 32-bit outputs, the
/// first in the low half, and leaves the engine where those two leave it.
pub proof fn lemma_xsh_64_is_two_32(g: PcgXsh64LcgRng)
    ensures
        g.out64() == (g.out32() as u64) | ((g.after32().out32() as u64) << 32u64),
        g.after64() == g.after32().after32(),
{
}

/// A 64-bit output of `PcgXsl64LcgRng` is two successive 32-bit outputs, the
/// first in the low half, and leaves the engine where those two leave it.
pub proof fn lemma_xsl_64_is_two_32(g: PcgXsl64LcgRng)
    ensures
        g.out64() == (g.out32() as u64) | ((g.after32().out32() as u64) << 32u64),
        g.after64() == g.after32().after32(),
{
}

/// A 32-bit output of `PcgXsl128McgRng` is the low half of a 64-bit output,
/// and both take the same step.
pub proof fn lemma_xsl_128_narrow_is_low_half(g: PcgXsl128McgRng)
    ensures
        g.out32() == g.out64() as u32,
        g.after32() == g.after64(),
{
}

} // verus!
