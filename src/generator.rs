//! The interface shared by every engine, the byte-serialization helper built
//! on it, and the laws that hold of every engine.
use vstd::prelude::*;

verus! {

/// A deterministic generator of 32-bit and 64-bit words.
///
/// Each engine states its behaviour as spec functions: the state after a
/// 32-bit or 64-bit output, and that output. The executable methods are
/// proved to follow them exactly.
pub trait BitGenerator: Sized {
    /// Whether `seed` is a seed the engine accepts.
    spec fn seed_ok(seed: Seq<u8>) -> bool;

    /// The state an engine starts in when built from `seed`.
    spec fn seeded(seed: Seq<u8>) -> Self;

    /// The 32-bit word produced from this state.
    spec fn out32(&self) -> u32;

    /// The state after producing a 32-bit word.
    spec fn after32(&self) -> Self;

    /// The 64-bit word produced from this state.
    spec fn out64(&self) -> u64;

    /// The state after producing a 64-bit word.
    spec fn after64(&self) -> Self;

    fn next_u32(&mut self) -> (r: u32)
        ensures
            r == old(self).out32(),
            *final(self) == old(self).after32(),
    ;

    fn next_u64(&mut self) -> (r: u64)
        ensures
            r == old(self).out64(),
            *final(self) == old(self).after64(),
    ;
}

/// A request for one word of output.
pub enum Call {
    Next32,
    Next64,
}

/// The words (widened to 64 bits) that `g` produces under `calls`.
pub open spec fn outputs<G: BitGenerator>(g: G, calls: Seq<Call>) -> Seq<u64>
    decreases calls.len(),
{
    if calls.len() == 0 {
        Seq::empty()
    } else {
        match calls[0] {
            Call::Next32 => seq![g.out32() as u64] + outputs(g.after32(), calls.drop_first()),
            Call::Next64 => seq![g.out64()] + outputs(g.after64(), calls.drop_first()),
        }
    }
}

/// The little-endian bytes of a 64-bit word.
pub open spec fn le_bytes64(w: u64) -> Seq<u8> {
    Seq::new(8, |k: int| (w >> ((8 * k) as u64)) as u8)
}

/// The little-endian bytes of a 32-bit word.
pub open spec fn le_bytes32(w: u32) -> Seq<u8> {
    Seq::new(4, |k: int| (w >> ((8 * k) as u32)) as u8)
}

/// The state reached and the bytes written when `n` bytes are filled from `g`:
/// whole 64-bit words first, then for the rest either the leading bytes of
/// one more 64-bit word (five to seven bytes) or of one 32-bit word (one to
/// four bytes).
pub open spec fn fill_spec<G: BitGenerator>(g: G, n: nat) -> (G, Seq<u8>)
    decreases n,
{
    if n >= 8 {
        let rest = fill_spec(g.after64(), (n - 8) as nat);
        (rest.0, le_bytes64(g.out64()) + rest.1)
    } else if n > 4 {
        (g.after64(), le_bytes64(g.out64()).take(n as int))
    } else if n > 0 {
        (g.after32(), le_bytes32(g.out32()).take(n as int))
    } else {
        (g, Seq::empty())
    }
}

fn write_le64(dest: &mut [u8], pos: usize, w: u64, len: usize)
    requires
        len <= 8,
        pos + len <= old(dest)@.len(),
    ensures
        final(dest)@ == old(dest)@.take(pos as int) + le_bytes64(w).take(len as int) + old(
            dest,
        )@.skip(pos + len),
{
    let total = dest.len();
    let mut k: usize = 0;
    while k < len
        invariant
            total == dest@.len(),
            k <= len,
            len <= 8,
            pos + len <= old(dest)@.len(),
            dest@.len() == old(dest)@.len(),
            dest@ == old(dest)@.take(pos as int) + le_bytes64(w).take(k as int) + old(dest)@.skip(
                pos + k,
            ),
        decreases len - k,
    {
        let sh: u64 = 8 * k as u64;
        dest[pos + k] = #[verifier::truncate] ((w >> sh) as u8);
        k = k + 1;
        assert(dest@ =~= old(dest)@.take(pos as int) + le_bytes64(w).take(k as int) + old(
            dest,
        )@.skip(pos + k));
    }
}

fn write_le32(dest: &mut [u8], pos: usize, w: u32, len: usize)
    requires
        len <= 4,
        pos + len <= old(dest)@.len(),
    ensures
        final(dest)@ == old(dest)@.take(pos as int) + le_bytes32(w).take(len as int) + old(
            dest,
        )@.skip(pos + len),
{
    let total = dest.len();
    let mut k: usize = 0;
    while k < len
        invariant
            total == dest@.len(),
            k <= len,
            len <= 4,
            pos + len <= old(dest)@.len(),
            dest@.len() == old(dest)@.len(),
            dest@ == old(dest)@.take(pos as int) + le_bytes32(w).take(k as int) + old(dest)@.skip(
                pos + k,
            ),
        decreases len - k,
    {
        let sh: u32 = 8 * k as u32;
        dest[pos + k] = #[verifier::truncate] ((w >> sh) as u8);
        k = k + 1;
        assert(dest@ =~= old(dest)@.take(pos as int) + le_bytes32(w).take(k as int) + old(
            dest,
        )@.skip(pos + k));
    }
}

/// Fills `dest` with the little-endian bytes of successive words of `rng`.
pub fn fill_bytes_via_next<G: BitGenerator>(rng: &mut G, dest: &mut [u8])
    ensures
        fill_spec(*old(rng), old(dest)@.len() as nat) == (*final(rng), final(dest)@),
{
    let n = dest.len();
    let ghost start = *rng;
    let mut pos: usize = 0;
    while n - pos >= 8
        invariant
            pos <= n,
            n == dest@.len(),
            start == *old(rng),
            n == old(dest)@.len(),
            fill_spec(start, n as nat) == (
                fill_spec(*rng, (n - pos) as nat).0,
                dest@.take(pos as int) + fill_spec(*rng, (n - pos) as nat).1,
            ),
        decreases n - pos,
    {
        let ghost before = dest@;
        let ghost g = *rng;
        let w = rng.next_u64();
        write_le64(dest, pos, w, 8);
        let ghost rest = fill_spec(*rng, (n - pos - 8) as nat);
        assert(dest@.take(pos + 8) =~= before.take(pos as int) + le_bytes64(w));
        assert(before.take(pos as int) + fill_spec(g, (n - pos) as nat).1 =~= dest@.take(pos + 8)
            + rest.1);
        pos = pos + 8;
    }
    let rem = n - pos;
    let ghost before = dest@;
    if rem > 4 {
        let w = rng.next_u64();
        write_le64(dest, pos, w, rem);
        assert(dest@ =~= before.take(pos as int) + le_bytes64(w).take(rem as int));
    } else if rem > 0 {
        let w = rng.next_u32();
        write_le32(dest, pos, w, rem);
        assert(dest@ =~= before.take(pos as int) + le_bytes32(w).take(rem as int));
    } else {
        assert(dest@ =~= before.take(pos as int) + Seq::<u8>::empty());
    }
}

/// Two engines of one kind built from the same accepted seed start in the
/// same state, produce the same words under the same sequence of calls, and
/// fill a buffer of any length with the same bytes.
pub proof fn lemma_determinism<G: BitGenerator>(
    seed_a: Seq<u8>,
    seed_b: Seq<u8>,
    calls: Seq<Call>,
    n: nat,
)
    requires
        seed_a == seed_b,
        G::seed_ok(seed_a),
    ensures
        outputs(G::seeded(seed_a), calls) == outputs(G::seeded(seed_b), calls),
        fill_spec(G::seeded(seed_a), n) == fill_spec(G::seeded(seed_b), n),
        G::seeded(seed_a) == G::seeded(seed_b),
{
}

/// Filling eight bytes writes the little-endian bytes of one 64-bit output
/// and takes one 64-bit step.
pub proof fn lemma_fill_one_word<G: BitGenerator>(g: G)
    ensures
        fill_spec(g, 8) == (g.after64(), le_bytes64(g.out64())),
{
    assert(fill_spec(g.after64(), 0) == (g.after64(), Seq::<u8>::empty()));
    assert(le_bytes64(g.out64()) + Seq::<u8>::empty() =~= le_bytes64(g.out64()));
}

/// Filling sixteen bytes writes the little-endian bytes of two successive
/// 64-bit outputs, one after the other.
pub proof fn lemma_fill_two_words<G: BitGenerator>(g: G)
    ensures
        fill_spec(g, 16) == (g.after64().after64(), le_bytes64(g.out64()) + le_bytes64(
            g.after64().out64(),
        )),
{
    lemma_fill_one_word(g.after64());
}

/// Filling one to four bytes writes the leading bytes of one 32-bit output.
pub proof fn lemma_fill_within_narrow_word<G: BitGenerator>(g: G, n: nat)
    requires
        0 < n <= 4,
    ensures
        fill_spec(g, n) == (g.after32(), le_bytes32(g.out32()).take(n as int)),
{
}

/// For an engine whose 32-bit output is the low half of its 64-bit output
/// and takes the same step, filling fewer than eight bytes writes the leading
/// bytes of one 64-bit output.
pub proof fn lemma_fill_short<G: BitGenerator>(g: G, n: nat)
    requires
        0 < n < 8,
        g.out32() == g.out64() as u32,
        g.after32() == g.after64(),
    ensures
        fill_spec(g, n) == (g.after64(), le_bytes64(g.out64()).take(n as int)),
{
    if n <= 4 {
        let w = g.out64();
        assert((w as u32) as u8 == w as u8) by (bit_vector);
        assert(((w as u32) >> 8u32) as u8 == (w >> 8u64) as u8) by (bit_vector);
        assert(((w as u32) >> 16u32) as u8 == (w >> 16u64) as u8) by (bit_vector);
        assert(((w as u32) >> 24u32) as u8 == (w >> 24u64) as u8) by (bit_vector);
        assert((w as u32) >> 0u32 == w as u32) by (bit_vector);
        assert(w >> 0u64 == w) by (bit_vector);
        assert(le_bytes32(w as u32).take(n as int) =~= le_bytes64(w).take(n as int));
    }
}

} // verus!
