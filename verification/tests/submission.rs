use blob_spammer::blob::{
    WireBlob, FIRST_SHARE_CONTENT, MAX_BLOB_LEN, NEXT_SHARE_CONTENT, SHARE_VERSION_SIGNED,
};
use blob_spammer::namespace::{namespace_at, Namespace, SUFFIX_AAA, SUFFIX_BBB};
use blob_spammer::signer::{Signer, SIGNER_ADDRESS};
use blob_spammer::submission::{
    plan_transaction, prepare_submission, TxPlan, GAS_PRICE_MICROS,
};
use celestia_types::state::AccAddress;
use celestia_types::Blob;

fn signer() -> Signer {
    Signer::parse(SIGNER_ADDRESS).unwrap()
}

fn gas_limit_of(len: usize) -> u64 {
    let batch = vec![vec![0xabu8; len]];
    prepare_submission(&batch, namespace_at(0), signer()).unwrap().plan.gas_limit
}

#[test]
fn share_room_constants() {
    assert_eq!(FIRST_SHARE_CONTENT, 458);
    assert_eq!(NEXT_SHARE_CONTENT, 482);
    assert_eq!(SHARE_VERSION_SIGNED, 1);
    assert_eq!(MAX_BLOB_LEN as u64, u32::MAX as u64);
    assert_eq!(GAS_PRICE_MICROS, 2101);
}

#[test]
fn plan_for_no_shares() {
    assert_eq!(plan_transaction(0), TxPlan { gas_limit: 75_000, gas_price_micros: 2101 });
}

#[test]
fn plan_for_some_shares() {
    assert_eq!(plan_transaction(1), TxPlan { gas_limit: 79_096, gas_price_micros: 2101 });
    assert_eq!(plan_transaction(3), TxPlan { gas_limit: 87_288, gas_price_micros: 2101 });
    assert_eq!(
        plan_transaction(usize::MAX),
        TxPlan { gas_limit: usize::MAX as u64, gas_price_micros: 2101 }
    );
}

#[test]
fn one_small_blob_in_the_first_namespace() {
    let payload: Vec<u8> = (0..100u8).collect();
    let batch = vec![payload.clone()];
    let namespace = Namespace { suffix: *b"\0\0aaa-test" };
    let prepared = prepare_submission(&batch, namespace, signer()).unwrap();

    let mut id = vec![0u8; 18];
    id.extend_from_slice(b"\0\0aaa-test");
    assert_eq!(
        prepared.blobs,
        vec![WireBlob {
            namespace_version: 0,
            namespace_id: id,
            data: payload,
            share_version: 1,
            signer: signer().bytes.to_vec(),
        }]
    );
    // one share of 512 bytes at 8 gas a byte, and the fixed cost
    assert_eq!(prepared.plan, TxPlan { gas_limit: 1 * 512 * 8 + 75_000, gas_price_micros: 2101 });
    assert_eq!(prepared.plan.gas_limit, 79_096);
}

#[test]
fn empty_batch_costs_the_fixed_amount() {
    let prepared = prepare_submission(&Vec::new(), namespace_at(1), signer()).unwrap();
    assert!(prepared.blobs.is_empty());
    assert_eq!(prepared.plan, TxPlan { gas_limit: 75_000, gas_price_micros: 2101 });
}

#[test]
fn gas_limit_for_each_allowed_length() {
    assert_eq!(gas_limit_of(100), 79_096);
    assert_eq!(gas_limit_of(512), 83_192);
    assert_eq!(gas_limit_of(1024), 87_288);
}

#[test]
fn gas_limit_at_the_share_boundaries() {
    assert_eq!(gas_limit_of(0), 79_096);
    assert_eq!(gas_limit_of(1), 79_096);
    assert_eq!(gas_limit_of(457), 79_096);
    assert_eq!(gas_limit_of(458), 79_096);
    assert_eq!(gas_limit_of(459), 83_192);
    assert_eq!(gas_limit_of(940), 83_192);
    assert_eq!(gas_limit_of(941), 87_288);
    assert_eq!(gas_limit_of(458 + 10 * 482), 11 * 4_096 + 75_000);
    assert_eq!(gas_limit_of(458 + 10 * 482 + 1), 12 * 4_096 + 75_000);
}

#[test]
fn gas_limit_agrees_with_the_share_count_of_the_blob_type() {
    let account = AccAddress::from(signer().bytes);
    let ns = celestia_types::nmt::Namespace::const_v0(SUFFIX_AAA);
    for len in [0usize, 1, 100, 457, 458, 459, 512, 939, 940, 941, 1024, 1422, 1423, 5000] {
        let shares = Blob::new(ns, vec![1u8; len], Some(account)).unwrap().shares_len();
        assert_eq!(gas_limit_of(len), (shares * 512 * 8 + 75_000) as u64);
    }
}

#[test]
fn batch_of_three_adds_up_the_shares() {
    let batch = vec![vec![1u8; 100], vec![2u8; 512], vec![3u8; 1024]];
    let prepared = prepare_submission(&batch, namespace_at(1), signer()).unwrap();
    assert_eq!(prepared.blobs.len(), 3);
    // 1 + 2 + 3 shares
    assert_eq!(prepared.plan.gas_limit, 6 * 4_096 + 75_000);
    assert_eq!(prepared.plan.gas_limit, 99_576);
    assert_eq!(prepared.plan.gas_price_micros, 2101);
}

#[test]
fn wire_blobs_keep_order_payload_namespace_and_signer() {
    let batch = vec![vec![1u8; 100], vec![2u8; 512], vec![3u8; 1024]];
    let namespace = Namespace { suffix: SUFFIX_BBB };
    let prepared = prepare_submission(&batch, namespace, signer()).unwrap();
    let mut id = vec![0u8; 18];
    id.extend_from_slice(&SUFFIX_BBB);
    assert_eq!(id.len(), 28);
    for (wire, payload) in prepared.blobs.iter().zip(batch.iter()) {
        assert_eq!(wire.namespace_version, 0);
        assert_eq!(wire.namespace_id, id);
        assert_eq!(&wire.data, payload);
        assert_eq!(wire.share_version, 1);
        assert_eq!(wire.signer, signer().bytes.to_vec());
    }
}

#[test]
fn wire_blob_is_the_raw_form_of_the_blob_type() {
    let payload = vec![9u8; 512];
    let account = AccAddress::from(signer().bytes);
    let ns = celestia_types::nmt::Namespace::const_v0(SUFFIX_AAA);
    let raw = celestia_types::blob::RawBlob::from(
        Blob::new(ns, payload.clone(), Some(account)).unwrap(),
    );
    let prepared = prepare_submission(&vec![payload], namespace_at(0), signer()).unwrap();
    let wire = &prepared.blobs[0];
    assert_eq!(wire.namespace_version, raw.namespace_version);
    assert_eq!(wire.namespace_id, raw.namespace_id);
    assert_eq!(wire.data, raw.data);
    assert_eq!(wire.share_version, raw.share_version);
    assert_eq!(wire.signer, raw.signer);
}
