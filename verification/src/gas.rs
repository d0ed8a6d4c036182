//! Gas estimation for a pay-for-blob transaction.

use vstd::prelude::*;

verus! {

/// Size in bytes of one share, the unit in which the network measures a blob.
pub const SHARE_SIZE: usize = 512;

/// Gas charged for each byte of share space that a batch occupies.
pub const GAS_PER_BLOB_BYTE: usize = 8;

/// Gas charged for every pay-for-blob transaction, whatever it carries.
pub const PFB_GAS_FIXED_COST: usize = 75_000;

/// The smaller of `v` and `cap`.
pub open spec fn clip(v: int, cap: int) -> int {
    if v <= cap {
        v
    } else {
        cap
    }
}

/// The gas estimate for a batch that occupies `shares` shares, on a machine whose
/// `usize` ends at `cap`: each of the three steps stops at `cap`.
pub open spec fn gas_estimate_capped(shares: int, cap: int) -> int {
    clip(
        clip(clip(shares * SHARE_SIZE as int, cap) * GAS_PER_BLOB_BYTE as int, cap)
            + PFB_GAS_FIXED_COST as int,
        cap,
    )
}

/// The gas estimate for a batch that occupies `shares` shares.
pub open spec fn gas_estimate(shares: int) -> int {
    gas_estimate_capped(shares, usize::MAX as int)
}

/// Estimates the gas limit of a pay-for-blob transaction whose blobs occupy
/// `shares` shares: share bytes times the price of a byte, plus the fixed cost,
/// each step saturating at `usize::MAX`.
pub fn estimate_gas(shares: usize) -> (gas: u64)
    ensures
        gas as int == gas_estimate(shares as int),
{
    let bytes: usize = mul_saturating(shares, SHARE_SIZE);
    let variable: usize = mul_saturating(bytes, GAS_PER_BLOB_BYTE);
    let total: usize = variable.saturating_add(PFB_GAS_FIXED_COST);
    total as u64
}

/// The product of `a` and `b`, or `usize::MAX` where the product does not fit.
fn mul_saturating(a: usize, b: usize) -> (p: usize)
    ensures
        p as int == clip(a as int * b as int, usize::MAX as int),
{
    match a.checked_mul(b) {
        Some(v) => v,
        None => usize::MAX,
    }
}

/// A batch that occupies more shares never costs less gas.
pub proof fn lemma_gas_monotonic(fewer: int, more: int)
    requires
        fewer <= more,
    ensures
        gas_estimate(fewer) <= gas_estimate(more),
{
}

/// The estimate never falls below the fixed cost and never passes `usize::MAX`:
/// it stops there instead of wrapping around.
pub proof fn lemma_gas_bounded(shares: nat)
    ensures
        PFB_GAS_FIXED_COST <= gas_estimate(shares as int) <= usize::MAX,
{
}

/// At the largest share count that a `usize` holds the estimate is `usize::MAX`.
pub proof fn lemma_gas_saturates()
    ensures
        gas_estimate(usize::MAX as int) == usize::MAX,
{
}

/// A batch without shares costs exactly the fixed amount.
pub proof fn lemma_gas_of_nothing()
    ensures
        gas_estimate(0) == PFB_GAS_FIXED_COST,
{
}

} // verus!
