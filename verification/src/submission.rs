//! The submission step: a batch of payloads becomes a list of wire blobs and a
//! transaction plan whose gas limit covers the shares they occupy.

use vstd::prelude::*;
use crate::blob::{encode_blob, shares_needed, WireBlob, MAX_BLOB_LEN};
use crate::batch::{is_allowed_size, is_generated_batch};
use crate::gas::{clip, estimate_gas, gas_estimate, PFB_GAS_FIXED_COST};
use crate::namespace::Namespace;
use crate::signer::Signer;

verus! {

/// The gas price of every submission, in millionths of the fee unit.
pub const GAS_PRICE_MICROS: u64 = 2101;

/// What a pay-for-blob transaction is submitted with.
#[derive(Clone, Copy, Debug, PartialEq, Eq, Structural)]
pub struct TxPlan {
    /// The gas limit, in gas units.
    pub gas_limit: u64,
    /// The gas price, in millionths of the fee unit.
    pub gas_price_micros: u64,
}

/// A batch ready to be handed to the network.
#[derive(Clone, Debug, PartialEq, Eq)]
pub struct Submission {
    pub blobs: Vec<WireBlob>,
    pub plan: TxPlan,
}

/// Why a batch could not be prepared.
#[derive(Clone, Copy, Debug, PartialEq, Eq, Structural)]
pub enum SubmitError {
    /// The payload at `index` is longer than a blob can carry.
    BlobTooLong { index: usize },
}

/// The number of shares that the payloads of `batch` occupy together.
pub open spec fn batch_shares(batch: Seq<Vec<u8>>) -> nat
    decreases batch.len(),
{
    if batch.len() == 0 {
        0
    } else {
        batch_shares(batch.drop_last()) + shares_needed(batch.last()@.len())
    }
}

/// Whether every payload of `batch` before position `end` is one that a blob can
/// carry.
pub open spec fn all_fit(batch: Seq<Vec<u8>>, end: int) -> bool {
    forall|i: int| 0 <= i < end ==> (#[trigger] batch[i])@.len() <= MAX_BLOB_LEN
}

/// The plan for a transaction whose blobs occupy `shares` shares: the estimated
/// gas as the limit, at the fixed price.
pub fn plan_transaction(shares: usize) -> (plan: TxPlan)
    ensures
        plan.gas_limit as int == gas_estimate(shares as int),
        plan.gas_price_micros == GAS_PRICE_MICROS,
{
    TxPlan { gas_limit: estimate_gas(shares), gas_price_micros: GAS_PRICE_MICROS }
}

/// Prepares `batch` for submission in `namespace` on behalf of `signer`: encodes
/// each payload in order, adds up the shares and plans the transaction. Fails at
/// the first payload that is too long for a blob, and only then.
pub fn prepare_submission(batch: &Vec<Vec<u8>>, namespace: Namespace, signer: Signer) -> (prepared:
    Result<Submission, SubmitError>)
    ensures
        prepared is Ok <==> all_fit(batch@, batch@.len() as int),
        prepared matches Ok(s) ==> {
            &&& s.blobs@.len() == batch@.len()
            &&& forall|i: int|
                0 <= i < batch@.len() ==> (#[trigger] s.blobs@[i]).carries(
                    namespace,
                    batch@[i]@,
                    signer,
                )
            &&& s.plan.gas_limit as int == gas_estimate(batch_shares(batch@) as int)
            &&& s.plan.gas_price_micros == GAS_PRICE_MICROS
        },
        prepared matches Err(e) ==> {
            &&& e matches SubmitError::BlobTooLong { index }
            &&& index < batch@.len()
            &&& batch@[index as int]@.len() > MAX_BLOB_LEN
            &&& all_fit(batch@, index as int)
        },
{
    let mut blobs: Vec<WireBlob> = Vec::with_capacity(batch.len());
    let mut shares: usize = 0;
    let mut i: usize = 0;
    while i < batch.len()
        invariant
            i <= batch@.len(),
            blobs@.len() == i,
            all_fit(batch@, i as int),
            forall|j: int|
                0 <= j < i ==> (#[trigger] blobs@[j]).carries(namespace, batch@[j]@, signer),
            shares as int == clip(batch_shares(batch@.take(i as int)) as int, usize::MAX as int),
        decreases batch@.len() - i,
    {
        match encode_blob(namespace, &batch[i], signer) {
            Ok(encoded) => {
                proof {
                    assert(batch@.take(i + 1).drop_last() == batch@.take(i as int));
                    assert(batch@.take(i + 1).last() == batch@[i as int]);
                }
                shares = shares.saturating_add(encoded.shares);
                blobs.push(encoded.wire);
            },
            Err(_) => {
                return Err(SubmitError::BlobTooLong { index: i });
            },
        }
        i += 1;
    }
    proof {
        assert(batch@.take(batch@.len() as int) == batch@);
        lemma_gas_of_clipped(batch_shares(batch@) as int);
    }
    Ok(Submission { blobs, plan: plan_transaction(shares) })
}

/// The gas estimate does not change when the share count is first cut off at
/// `usize::MAX`.
pub proof fn lemma_gas_of_clipped(shares: int)
    requires
        0 <= shares,
    ensures
        gas_estimate(clip(shares, usize::MAX as int)) == gas_estimate(shares),
{
}

/// A batch without blobs occupies no share, so its gas limit is exactly the
/// fixed cost.
pub proof fn lemma_gas_of_empty_batch(batch: Seq<Vec<u8>>)
    requires
        batch.len() == 0,
    ensures
        batch_shares(batch) == 0,
        gas_estimate(batch_shares(batch) as int) == PFB_GAS_FIXED_COST,
{
}

/// A batch of payloads of the generated lengths is always accepted: none of them
/// is too long for a blob.
pub proof fn lemma_generated_batch_fits(batch: Seq<Vec<u8>>)
    requires
        is_generated_batch(batch),
    ensures
        all_fit(batch, batch.len() as int),
{
    assert forall|i: int| 0 <= i < batch.len() implies (#[trigger] batch[i])@.len()
        <= MAX_BLOB_LEN by {
        assert(is_allowed_size(batch[i]@.len() as int));
    }
}

} // verus!
