//! The batch generator: up to three blobs, each of one of the allowed sizes,
//! filled with random bytes.

use vstd::prelude::*;
use crate::random::{Draw, RandomSource};

verus! {

/// The largest number of blobs in one batch.
pub const MAX_BATCH: usize = 3;

/// The byte lengths a generated blob may have.
pub const BLOB_SIZES: [usize; 3] = [100, 512, 1024];

/// Whether `len` is one of the allowed blob lengths.
pub open spec fn is_allowed_size(len: int) -> bool {
    len == 100 || len == 512 || len == 1024
}

/// Whether `batch` is one that the generator may produce: at most `MAX_BATCH`
/// blobs, each of an allowed length.
pub open spec fn is_generated_batch(batch: Seq<Vec<u8>>) -> bool {
    &&& batch.len() <= MAX_BATCH
    &&& forall|i: int| 0 <= i < batch.len() ==> is_allowed_size(#[trigger] batch[i]@.len() as int)
}

/// The blob length that the draw `draw` selects.
pub fn blob_size_at(draw: usize) -> (size: usize)
    requires
        draw < BLOB_SIZES@.len(),
    ensures
        size == BLOB_SIZES@[draw as int],
        is_allowed_size(size as int),
{
    BLOB_SIZES[draw]
}

/// A buffer of `size` zero bytes, ready to be filled.
pub fn zeroed_blob(size: usize) -> (blob: Vec<u8>)
    ensures
        blob@.len() == size,
        forall|i: int| 0 <= i < size ==> blob@[i] == 0u8,
{
    let mut blob: Vec<u8> = Vec::with_capacity(size);
    let mut i: usize = 0;
    while i < size
        invariant
            i <= size,
            blob@.len() == i,
            forall|j: int| 0 <= j < i ==> blob@[j] == 0u8,
        decreases size - i,
    {
        blob.push(0u8);
        i += 1;
    }
    blob
}

/// The number that selects the blob length `len`.
pub open spec fn size_draw_of(len: nat) -> usize {
    if len == 100 {
        0
    } else if len == 512 {
        1
    } else {
        2
    }
}

/// What a source hands out for the blobs of `batch`, in order: for each blob the
/// number that selects its length, then its bytes.
pub open spec fn blob_draws(batch: Seq<Vec<u8>>) -> Seq<Draw>
    decreases batch.len(),
{
    if batch.len() == 0 {
        Seq::empty()
    } else {
        blob_draws(batch.drop_last()).push(
            Draw::Number { low: 0, high: 2, value: size_draw_of(batch.last()@.len()) },
        ).push(Draw::Bytes { bytes: batch.last()@ })
    }
}

/// What a source hands out for `batch`: the number of its blobs, drawn from zero
/// to `MAX_BATCH`, then the draws of each blob.
pub open spec fn batch_draws(batch: Seq<Vec<u8>>) -> Seq<Draw> {
    seq![Draw::Number { low: 0, high: MAX_BATCH, value: batch.len() as usize }] + blob_draws(batch)
}

/// Generates one batch: draws how many blobs it holds, from zero to `MAX_BATCH`,
/// then for each blob draws one of the allowed lengths and fills it with random
/// bytes. The batch is the one that these draws describe, and nothing else is
/// drawn.
pub fn generate_batch(source: &mut RandomSource) -> (batch: Vec<Vec<u8>>)
    ensures
        is_generated_batch(batch@),
        final(source).history() == old(source).history() + batch_draws(batch@),
{
    let ghost before = source.history();
    let count: usize = source.draw_in_range(0, MAX_BATCH);
    let ghost counted = before.push(Draw::Number { low: 0, high: MAX_BATCH, value: count });
    let mut batch: Vec<Vec<u8>> = Vec::with_capacity(count);
    let mut i: usize = 0;
    while i < count
        invariant
            i <= count <= MAX_BATCH,
            batch@.len() == i,
            forall|j: int| 0 <= j < i ==> is_allowed_size(#[trigger] batch@[j]@.len() as int),
            source.history() == counted + blob_draws(batch@),
        decreases count - i,
    {
        let ghost earlier = batch@;
        let draw: usize = source.draw_in_range(0, BLOB_SIZES.len() - 1);
        let mut blob: Vec<u8> = zeroed_blob(blob_size_at(draw));
        source.fill(&mut blob);
        batch.push(blob);
        i += 1;
        proof {
            assert(batch@.drop_last() == earlier);
        }
    }
    batch
}

} // verus!
