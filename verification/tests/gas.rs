use blob_spammer::gas::{estimate_gas, GAS_PER_BLOB_BYTE, PFB_GAS_FIXED_COST, SHARE_SIZE};

#[test]
fn fee_schedule_constants() {
    assert_eq!(SHARE_SIZE, 512);
    assert_eq!(GAS_PER_BLOB_BYTE, 8);
    assert_eq!(PFB_GAS_FIXED_COST, 75_000);
}

#[test]
fn gas_of_no_shares_is_the_fixed_cost() {
    assert_eq!(estimate_gas(0), 75_000);
}

#[test]
fn gas_of_one_share() {
    assert_eq!(estimate_gas(1), 79_096);
}

#[test]
fn gas_of_a_few_shares() {
    assert_eq!(estimate_gas(2), 83_192);
    assert_eq!(estimate_gas(3), 87_288);
    assert_eq!(estimate_gas(6), 99_576);
    assert_eq!(estimate_gas(1_000), 4_171_000);
}

#[test]
fn gas_follows_the_formula() {
    for shares in [0usize, 1, 7, 64, 4_096, 1_000_000] {
        let expected = shares * SHARE_SIZE * GAS_PER_BLOB_BYTE + PFB_GAS_FIXED_COST;
        assert_eq!(estimate_gas(shares), expected as u64);
    }
}

#[test]
fn gas_never_decreases_with_shares() {
    let samples = [
        0usize,
        1,
        2,
        3,
        100,
        65_536,
        usize::MAX / 4_096 - 19,
        usize::MAX / 4_096 - 18,
        usize::MAX / 4_096,
        usize::MAX / 4_096 + 1,
        usize::MAX / 512,
        usize::MAX / 512 + 1,
        usize::MAX - 1,
        usize::MAX,
    ];
    for pair in samples.windows(2) {
        assert!(pair[0] <= pair[1]);
        assert!(estimate_gas(pair[0]) <= estimate_gas(pair[1]));
    }
}

#[test]
fn gas_saturates_at_the_largest_share_count() {
    assert_eq!(estimate_gas(usize::MAX), usize::MAX as u64);
}

#[test]
fn gas_saturates_in_each_step() {
    // the share bytes no longer fit
    assert_eq!(estimate_gas(usize::MAX / 512 + 1), usize::MAX as u64);
    // the share bytes fit, their price does not
    assert_eq!(estimate_gas(usize::MAX / 4_096 + 1), usize::MAX as u64);
    // the price fits, the fixed cost on top of it does not
    let shares = usize::MAX / 4_096;
    assert!(shares * 4_096 > usize::MAX - 75_000);
    assert_eq!(estimate_gas(shares), usize::MAX as u64);
}

#[test]
fn gas_just_below_saturation_is_exact() {
    let shares = (usize::MAX - 75_000) / 4_096;
    assert_eq!(estimate_gas(shares), (shares * 4_096 + 75_000) as u64);
    assert!(estimate_gas(shares) < usize::MAX as u64);
}
