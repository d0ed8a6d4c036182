//! The random source: the thread-local generator of the `rand` crate, together
//! with a record of what it has handed out. The record is what lets a function
//! that draws say how its result follows from the draws it made.

use vstd::prelude::*;

verus! {

/// One thing that a random source handed out.
pub enum Draw {
    /// The number `value`, drawn from `low..=high`.
    Number { low: usize, high: usize, value: usize },
    /// The bytes with which a buffer was filled.
    Bytes { bytes: Seq<u8> },
}

/// The thread-local generator of the `rand` crate, opaque to the verifier.
#[verifier::external_type_specification]
#[verifier::external_body]
pub struct ExThreadRng(rand::rngs::ThreadRng);

/// A handle to the current thread's generator, from `rand::rng`. Nothing is
/// claimed of it.
#[verifier::external_body]
fn thread_generator() -> rand::rngs::ThreadRng {
    rand::rng()
}

/// One draw from `low..=high`, by `Rng::random_range`. The claim is only that the
/// draw lies in the range; the call panics on an empty range, which `requires`
/// leaves out.
#[verifier::external_body]
fn sample_range(rng: &mut rand::rngs::ThreadRng, low: usize, high: usize) -> (drawn: usize)
    requires
        low <= high,
    ensures
        low <= drawn <= high,
{
    rand::Rng::random_range(rng, low..=high)
}

/// Overwrites `buf` with random bytes, by `RngCore::fill_bytes`. The claim is only
/// that the length stays as it was.
#[verifier::external_body]
fn fill_bytes(rng: &mut rand::rngs::ThreadRng, buf: &mut Vec<u8>)
    ensures
        final(buf)@.len() == old(buf)@.len(),
{
    rand::RngCore::fill_bytes(rng, buf.as_mut_slice())
}

/// A source of random numbers and bytes that remembers what it handed out.
pub struct RandomSource {
    rng: rand::rngs::ThreadRng,
    handed_out: Ghost<Seq<Draw>>,
}

impl RandomSource {
    /// Everything this source has handed out so far, oldest first.
    pub closed spec fn history(&self) -> Seq<Draw> {
        self.handed_out@
    }

    /// A source on the current thread's generator, which has handed out nothing
    /// yet.
    pub fn new() -> (source: RandomSource)
        ensures
            source.history() == Seq::<Draw>::empty(),
    {
        RandomSource { rng: thread_generator(), handed_out: Ghost(Seq::empty()) }
    }

    /// Draws one number from `low..=high` and records the draw.
    pub fn draw_in_range(&mut self, low: usize, high: usize) -> (value: usize)
        requires
            low <= high,
        ensures
            low <= value <= high,
            final(self).history() == old(self).history().push(Draw::Number { low, high, value }),
    {
        let value: usize = sample_range(&mut self.rng, low, high);
        self.handed_out = Ghost(self.handed_out@.push(Draw::Number { low, high, value }));
        value
    }

    /// Overwrites `buf` with random bytes, keeping its length, and records the
    /// bytes.
    pub fn fill(&mut self, buf: &mut Vec<u8>)
        ensures
            final(buf)@.len() == old(buf)@.len(),
            final(self).history() == old(self).history().push(
                Draw::Bytes { bytes: final(buf)@ },
            ),
    {
        fill_bytes(&mut self.rng, buf);
        self.handed_out = Ghost(self.handed_out@.push(Draw::Bytes { bytes: buf@ }));
    }
}

} // verus!
