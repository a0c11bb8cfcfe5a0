//! A generator handle whose duplication is an explicit split.
use crate::generator::{fill_output, seeded, u64_from_le, words_for, GenState, SMGen};
use vstd::prelude::*;

verus! {

/// A handle around `SMGen` whose way of making a second handle is `split`: the
/// new handle holds a child generator and this one is advanced. It offers no
/// silent duplication, so no copy of a handle ever repeats another's stream.
#[derive(Debug)]
pub struct SMGenClone {
    inner: SMGen,
}

impl View for SMGenClone {
    type V = GenState;

    closed spec fn view(&self) -> GenState {
        self.inner@
    }
}

impl SMGenClone {
    /// Wraps an existing generator.
    pub fn new(inner: SMGen) -> (r: SMGenClone)
        ensures
            r@ == inner@,
    {
        SMGenClone { inner }
    }

    /// Builds a handle from a 64-bit seed.
    pub fn seed_from_u64(seed: u64) -> (r: SMGenClone)
        ensures
            r@ == seeded(seed),
            r@.wf(),
    {
        SMGenClone { inner: SMGen::seed_from_u64(seed) }
    }

    /// Builds a handle from eight bytes read as a little-endian word.
    pub fn from_seed(seed: [u8; 8]) -> (r: SMGenClone)
        ensures
            r@ == seeded(u64_from_le(seed@)),
            r@.wf(),
    {
        SMGenClone { inner: SMGen::from_seed(seed) }
    }

    /// Makes a second handle: it holds the child of a split of this handle's
    /// generator, and this handle keeps the advanced parent.
    pub fn split(&mut self) -> (r: SMGenClone)
        ensures
            r@ == old(self)@.split_child(),
            final(self)@ == old(self)@.split_parent(),
            r@.wf(),
    {
        SMGenClone { inner: self.inner.split() }
    }

    /// The generator inside this handle.
    pub fn into_inner(self) -> (r: SMGen)
        ensures
            r@ == self@,
    {
        self.inner
    }

    /// Draws the next 64-bit word.
    pub fn next_u64(&mut self) -> (r: u64)
        ensures
            final(self)@ == old(self)@.step(),
            r == final(self)@.seed,
    {
        self.inner.next_u64()
    }

    /// Draws the high 32 bits of the next 64-bit word.
    pub fn next_u32(&mut self) -> (r: u32)
        ensures
            final(self)@ == old(self)@.step(),
            r == (final(self)@.seed >> 32u64) as u32,
    {
        self.inner.next_u32()
    }

    /// Fills `dest` with successive draws in little-endian order.
    pub fn fill_bytes(&mut self, dest: &mut [u8])
        ensures
            final(dest)@ == fill_output(old(self)@, old(dest)@.len()),
            final(self)@ == old(self)@.advance(words_for(old(dest)@.len())),
    {
        self.inner.fill_bytes(dest)
    }

    /// As `fill_bytes`; never fails.
    pub fn try_fill_bytes(&mut self, dest: &mut [u8]) -> (r: Result<(), rand_core::Error>)
        ensures
            r is Ok,
            final(dest)@ == fill_output(old(self)@, old(dest)@.len()),
            final(self)@ == old(self)@.advance(words_for(old(dest)@.len())),
    {
        self.inner.try_fill_bytes(dest)
    }
}

impl rand_core::RngCore for SMGenClone {
    fn next_u32(&mut self) -> u32 {
        SMGenClone::next_u32(self)
    }

    fn next_u64(&mut self) -> u64 {
        SMGenClone::next_u64(self)
    }

    fn fill_bytes(&mut self, dest: &mut [u8]) {
        SMGenClone::fill_bytes(self, dest)
    }

    fn try_fill_bytes(&mut self, dest: &mut [u8]) -> Result<(), rand_core::Error> {
        SMGenClone::try_fill_bytes(self, dest)
    }
}

impl rand_core::SeedableRng for SMGenClone {
    type Seed = [u8; 8];

    fn from_seed(seed: [u8; 8]) -> SMGenClone {
        SMGenClone::from_seed(seed)
    }

    fn seed_from_u64(state: u64) -> SMGenClone {
        SMGenClone::seed_from_u64(state)
    }
}

} // verus!
