//! The generator state: seeding, drawing words and bytes, and splitting.
use crate::mix::{
    good_gamma, lemma_mix_gamma_always_good, mix64, mix_gamma, spec_mix64, spec_mix_gamma,
    transitions, GOLDEN_GAMMA, MIN_TRANSITIONS,
};
use vstd::arithmetic::div_mod::{
    lemma_add_mod_noop_right, lemma_mod_add_multiples_vanish, lemma_small_mod,
};
use vstd::prelude::*;

verus! {

/// Mathematical model of a generator: the accumulator and its odd increment.
pub struct GenState {
    pub seed: u64,
    pub gamma: u64,
}

impl GenState {
    /// The state after one draw.
    pub open spec fn step(self) -> GenState {
        GenState { seed: self.seed.wrapping_add(self.gamma), gamma: self.gamma }
    }

    /// The state after `k` draws.
    pub open spec fn advance(self, k: nat) -> GenState
        decreases k,
    {
        if k == 0 {
            self
        } else {
            self.step().advance((k - 1) as nat)
        }
    }

    /// The next `n` words drawn from this state.
    pub open spec fn draws(self, n: nat) -> Seq<u64> {
        Seq::new(n, |i: int| self.advance((i + 1) as nat).seed)
    }

    /// The child that a split mints from this state.
    pub open spec fn split_child(self) -> GenState {
        GenState {
            seed: spec_mix64(self.step().seed),
            gamma: spec_mix_gamma(self.step().step().seed),
        }
    }

    /// What is left of this state after a split.
    pub open spec fn split_parent(self) -> GenState {
        self.advance(2)
    }

    /// The increment is odd and well dispersed.
    pub open spec fn wf(self) -> bool {
        good_gamma(self.gamma)
    }
}

/// The state that a 64-bit seed yields.
pub open spec fn seeded(s: u64) -> GenState {
    GenState { seed: spec_mix64(s), gamma: spec_mix_gamma(s.wrapping_add(GOLDEN_GAMMA)) }
}

/// `x` reduced modulo 2^64.
pub open spec fn wrap64(x: int) -> u64 {
    (x % 0x1_0000_0000_0000_0000) as u64
}

/// Little-endian encoding of a 64-bit word.
pub open spec fn le_bytes(w: u64) -> Seq<u8> {
    seq![
        (w & 0xff) as u8,
        ((w >> 8u64) & 0xff) as u8,
        ((w >> 16u64) & 0xff) as u8,
        ((w >> 24u64) & 0xff) as u8,
        ((w >> 32u64) & 0xff) as u8,
        ((w >> 40u64) & 0xff) as u8,
        ((w >> 48u64) & 0xff) as u8,
        ((w >> 56u64) & 0xff) as u8,
    ]
}

/// Little-endian encoding of a 32-bit word.
pub open spec fn le_bytes32(w: u32) -> Seq<u8> {
    seq![
        (w & 0xff) as u8,
        ((w >> 8u32) & 0xff) as u8,
        ((w >> 16u32) & 0xff) as u8,
        ((w >> 24u32) & 0xff) as u8,
    ]
}

/// The 64-bit word whose little-endian encoding is the first eight bytes of `b`.
pub open spec fn u64_from_le(b: Seq<u8>) -> u64
    recommends
        b.len() >= 8,
{
    (b[0] as int + 0x100 * b[1] as int + 0x1_0000 * b[2] as int + 0x100_0000 * b[3] as int
        + 0x1_0000_0000 * b[4] as int + 0x100_0000_0000 * b[5] as int + 0x1_0000_0000_0000
        * b[6] as int + 0x100_0000_0000_0000 * b[7] as int) as u64
}

/// The bytes with which a buffer of length `len` is filled from state `g`: whole
/// words in little-endian order, then a tail of five to seven bytes taken from one
/// more 64-bit draw, or of one to four bytes taken from one 32-bit draw.
pub open spec fn fill_output(g: GenState, len: nat) -> Seq<u8>
    decreases len,
{
    if len >= 8 {
        le_bytes(g.step().seed) + fill_output(g.step(), (len - 8) as nat)
    } else if len > 4 {
        le_bytes(g.step().seed).take(len as int)
    } else if len > 0 {
        le_bytes32((g.step().seed >> 32u64) as u32).take(len as int)
    } else {
        Seq::empty()
    }
}

/// Number of draws that filling `len` bytes consumes.
pub open spec fn words_for(len: nat) -> nat {
    (len + 7) / 8
}

/// Concatenated little-endian encodings of `ws`.
pub open spec fn bytes_of_words(ws: Seq<u64>) -> Seq<u8>
    decreases ws.len(),
{
    if ws.len() == 0 {
        Seq::empty()
    } else {
        le_bytes(ws[0]) + bytes_of_words(ws.drop_first())
    }
}

/// Condition under which building a generator from bytes fails.
#[derive(Debug, Clone, Copy, PartialEq, Eq, Structural)]
pub enum SeedError {
    /// The buffer does not hold exactly eight bytes.
    InvalidSeedLength,
}

#[verifier::external_type_specification]
#[verifier::external_body]
pub struct ExRandError(rand_core::Error);

/// Relies on rand_core::le::read_u64_into: the eight bytes are read as one
/// little-endian word.
#[verifier::external_body]
fn read_u64_le(bytes: &[u8; 8]) -> (r: u64)
    ensures
        r == u64_from_le(bytes@),
{
    let mut dst: [u64; 1] = [1];
    rand_core::le::read_u64_into(bytes, &mut dst);
    dst[0]
}

/// Relies on rand_core::impls::fill_bytes_via_next: while eight or more bytes are
/// left it writes `next_u64` in little-endian order; a tail of five to seven bytes
/// takes the first bytes of one more `next_u64`, a tail of one to four bytes the
/// first bytes of one `next_u32`. The draws go through the `RngCore` impl of
/// `SMGen` below, whose methods are the verified `next_u64` and `next_u32`.
#[verifier::external_body]
fn fill_via_next(g: &mut SMGen, dest: &mut [u8])
    ensures
        final(dest)@ == fill_output(old(g)@, old(dest)@.len()),
        final(g)@ == old(g)@.advance(words_for(old(dest)@.len())),
{
    rand_core::impls::fill_bytes_via_next(g, dest)
}

/// SplitMix generator state.
///
/// Each draw adds the fixed odd `gamma` to `seed` and returns the new `seed`.
/// Splitting derives an uncorrelated child through the mixing functions.
/// Not for cryptographic use.
#[derive(Debug, Clone, PartialEq, Eq, Structural)]
pub struct SMGen {
    seed: u64,
    gamma: u64,
}

impl View for SMGen {
    type V = GenState;

    closed spec fn view(&self) -> GenState {
        GenState { seed: self.seed, gamma: self.gamma }
    }
}

impl SMGen {
    /// Builds a generator from a 64-bit seed.
    pub fn seed_from_u64(seed: u64) -> (r: SMGen)
        ensures
            r@ == seeded(seed),
            r@.wf(),
    {
        SMGen { seed: mix64(seed), gamma: mix_gamma(seed.wrapping_add(GOLDEN_GAMMA)) }
    }

    /// Builds a generator from eight bytes read as a little-endian word.
    pub fn from_seed(seed: [u8; 8]) -> (r: SMGen)
        ensures
            r@ == seeded(u64_from_le(seed@)),
            r@.wf(),
    {
        let s = read_u64_le(&seed);
        SMGen::seed_from_u64(s)
    }

    /// Builds a generator from a buffer, which must hold exactly eight bytes.
    pub fn from_bytes(bytes: &[u8]) -> (r: Result<SMGen, SeedError>)
        ensures
            bytes@.len() == 8 ==> r is Ok && r->Ok_0@ == seeded(u64_from_le(bytes@)),
            bytes@.len() != 8 ==> r == Err::<SMGen, SeedError>(SeedError::InvalidSeedLength),
    {
        if bytes.len() != 8 {
            return Err(SeedError::InvalidSeedLength);
        }
        let seed: [u8; 8] = [
            bytes[0],
            bytes[1],
            bytes[2],
            bytes[3],
            bytes[4],
            bytes[5],
            bytes[6],
            bytes[7],
        ];
        assert(seed@ =~= bytes@);
        Ok(SMGen::from_seed(seed))
    }

    /// The current accumulator.
    pub fn seed(&self) -> (r: u64)
        ensures
            r == self@.seed,
    {
        self.seed
    }

    /// The increment added on every draw.
    pub fn gamma(&self) -> (r: u64)
        ensures
            r == self@.gamma,
    {
        self.gamma
    }

    /// Advances the accumulator by `gamma` and returns it.
    pub fn next_u64(&mut self) -> (r: u64)
        ensures
            final(self)@ == old(self)@.step(),
            r == final(self)@.seed,
    {
        self.seed = self.seed.wrapping_add(self.gamma);
        self.seed
    }

    /// The high 32 bits of the next 64-bit word.
    pub fn next_u32(&mut self) -> (r: u32)
        ensures
            final(self)@ == old(self)@.step(),
            r == (final(self)@.seed >> 32u64) as u32,
    {
        (self.next_u64() >> 32) as u32
    }

    /// Splits off an uncorrelated child generator, advancing this one twice.
    pub fn split(&mut self) -> (r: SMGen)
        ensures
            r@ == old(self)@.split_child(),
            final(self)@ == old(self)@.split_parent(),
            final(self)@.seed == old(self)@.seed.wrapping_add(old(self)@.gamma).wrapping_add(
                old(self)@.gamma,
            ),
            final(self)@.gamma == old(self)@.gamma,
            r@.wf(),
    {
        self.seed = self.seed.wrapping_add(self.gamma);
        let seed = mix64(self.seed);
        self.seed = self.seed.wrapping_add(self.gamma);
        let gamma = mix_gamma(self.seed);
        proof {
            reveal_with_fuel(GenState::advance, 3);
        }
        SMGen { seed, gamma }
    }

    /// Fills `dest` with successive draws in little-endian order.
    pub fn fill_bytes(&mut self, dest: &mut [u8])
        ensures
            final(dest)@ == fill_output(old(self)@, old(dest)@.len()),
            final(self)@ == old(self)@.advance(words_for(old(dest)@.len())),
    {
        fill_via_next(self, dest)
    }

    /// As `fill_bytes`; never fails.
    pub fn try_fill_bytes(&mut self, dest: &mut [u8]) -> (r: Result<(), rand_core::Error>)
        ensures
            r is Ok,
            final(dest)@ == fill_output(old(self)@, old(dest)@.len()),
            final(self)@ == old(self)@.advance(words_for(old(dest)@.len())),
    {
        self.fill_bytes(dest);
        Ok(())
    }
}

impl rand_core::RngCore for SMGen {
    fn next_u32(&mut self) -> u32 {
        SMGen::next_u32(self)
    }

    fn next_u64(&mut self) -> u64 {
        SMGen::next_u64(self)
    }

    fn fill_bytes(&mut self, dest: &mut [u8]) {
        SMGen::fill_bytes(self, dest)
    }

    fn try_fill_bytes(&mut self, dest: &mut [u8]) -> Result<(), rand_core::Error> {
        SMGen::try_fill_bytes(self, dest)
    }
}

impl rand_core::SeedableRng for SMGen {
    type Seed = [u8; 8];

    fn from_seed(seed: [u8; 8]) -> SMGen {
        SMGen::from_seed(seed)
    }

    fn seed_from_u64(state: u64) -> SMGen {
        SMGen::seed_from_u64(state)
    }
}

} // verus!

verus! {

/// After `k` draws the accumulator is the start plus `k` increments, modulo 2^64,
/// and the increment has not changed.
pub proof fn lemma_advance_closed_form(g: GenState, k: nat)
    ensures
        g.advance(k).seed == wrap64(g.seed + k * g.gamma),
        g.advance(k).gamma == g.gamma,
    decreases k,
{
    let m: int = 0x1_0000_0000_0000_0000;
    if k == 0 {
        lemma_small_mod(g.seed as nat, m as nat);
    } else {
        let h = g.step();
        lemma_advance_closed_form(h, (k - 1) as nat);
        let t: int = g.seed + g.gamma;
        if t >= m {
            lemma_mod_add_multiples_vanish(t - m, m);
            lemma_small_mod((t - m) as nat, m as nat);
        } else {
            lemma_small_mod(t as nat, m as nat);
        }
        assert(h.seed as int == t % m);
        let r: int = (k - 1) * g.gamma;
        lemma_add_mod_noop_right(r, t, m);
        assert(r + t == g.seed + k * g.gamma) by (nonlinear_arith)
            requires
                r == (k - 1) * g.gamma,
                t == g.seed + g.gamma,
        ;
        assert(h.seed + r == r + h.seed);
    }
}

/// The `i`-th of `n` draws is the start plus `i + 1` increments, modulo 2^64.
pub proof fn lemma_draws_closed_form(g: GenState, n: nat)
    ensures
        forall|i: int|
            0 <= i < n ==> #[trigger] g.draws(n)[i] == wrap64(g.seed + (i + 1) * g.gamma),
{
    assert forall|i: int| 0 <= i < n implies #[trigger] g.draws(n)[i] == wrap64(
        g.seed + (i + 1) * g.gamma,
    ) by {
        lemma_advance_closed_form(g, (i + 1) as nat);
    }
}

/// Two draws from a state leave it at the start plus twice the increment, modulo 2^64.
pub proof fn lemma_two_draws(g: GenState)
    ensures
        g.draws(2)[1] == wrap64(g.seed + 2 * g.gamma),
        g.advance(2).seed == wrap64(g.seed + 2 * g.gamma),
{
    lemma_draws_closed_form(g, 2);
    lemma_advance_closed_form(g, 2);
}

/// Generators built from one seed yield the same words, however many are drawn.
pub proof fn lemma_seeding_deterministic(s: u64, a: GenState, b: GenState, n: nat)
    requires
        a == seeded(s),
        b == seeded(s),
    ensures
        a.draws(n) == b.draws(n),
{
}

/// Every seed yields an odd gamma with enough bit transitions.
pub proof fn lemma_seeded_gamma_good(s: u64)
    ensures
        seeded(s).gamma & 1 == 1,
        transitions(seeded(s).gamma) >= MIN_TRANSITIONS,
        seeded(s).wf(),
{
    lemma_mix_gamma_always_good(s.wrapping_add(GOLDEN_GAMMA));
}

/// Splitting equal states yields equal children and equal parents.
pub proof fn lemma_split_deterministic(a: GenState, b: GenState)
    requires
        a == b,
    ensures
        a.split_child() == b.split_child(),
        a.split_parent() == b.split_parent(),
{
}

/// A split moves the parent's accumulator by twice its increment, modulo 2^64,
/// keeps its increment, and mints a child with a good increment.
pub proof fn lemma_split_advances_parent(g: GenState)
    ensures
        g.split_parent().seed == wrap64(g.seed + 2 * g.gamma),
        g.split_parent().gamma == g.gamma,
        g.split_child().wf(),
{
    lemma_two_draws(g);
    lemma_advance_closed_form(g, 2);
    lemma_mix_gamma_always_good(g.step().step().seed);
}

/// Filling `8 * k` bytes yields the little-endian encodings of the next `k` draws,
/// one after another, and consumes exactly those draws.
pub proof fn lemma_fill_whole_words(g: GenState, k: nat)
    ensures
        fill_output(g, 8 * k) == bytes_of_words(g.draws(k)),
        words_for(8 * k) == k,
    decreases k,
{
    if k > 0 {
        let h = g.step();
        lemma_fill_whole_words(h, (k - 1) as nat);
        assert(8 * k - 8 == 8 * (k - 1));
        assert(g.draws(k).drop_first() =~= h.draws((k - 1) as nat));
        assert(h.advance(0) == h);
        assert(g.draws(k)[0] == h.seed);
    } else {
        assert(g.draws(0) =~= Seq::<u64>::empty());
    }
}

} // verus!
