use nautilink::{
    create_crate, mix_crates, split_crate, transfer_ownership, update_child_parent,
    update_parent_children, CreateCrate, ErrorCode, LedgerError, MixCrates, OperationType, Pubkey,
    RecordStore, SplitCrate, StoreError, TransferOwnership, UpdateChild, UpdateParent,
};

fn key(n: u8) -> Pubkey {
    Pubkey::new_from_array([n; 32])
}

fn alice() -> Pubkey {
    key(101)
}

fn bob() -> Pubkey {
    key(102)
}

fn text(s: &str) -> String {
    s.to_string()
}

fn rejected(code: ErrorCode) -> LedgerError {
    LedgerError::Rejected(code)
}

/// Creates a crate with the given weight under `at`, controlled by `who`.
fn create(store: &mut RecordStore, at: Pubkey, who: Pubkey, weight: u32) -> Result<Pubkey, LedgerError> {
    create_crate(
        store,
        CreateCrate { crate_record: at, authority: who },
        text("CRATE"),
        text("did:crate"),
        text("did:owner"),
        text("did:device"),
        text("here"),
        weight,
        10,
        text("hash"),
        text("cid"),
    )
}

fn transfer(
    store: &mut RecordStore,
    at: Pubkey,
    who: Pubkey,
    parent: Pubkey,
    weight: u32,
) -> Result<Pubkey, LedgerError> {
    transfer_ownership(
        store,
        TransferOwnership { crate_record: at, authority: who, parent_crate: parent },
        text("MOVED"),
        text("did:crate:moved"),
        text("did:owner:moved"),
        text("did:device:moved"),
        text("there"),
        weight,
        20,
        text("hash-moved"),
        text("cid-moved"),
    )
}

fn mix(
    store: &mut RecordStore,
    at: Pubkey,
    who: Pubkey,
    parents: Vec<Pubkey>,
) -> Result<Pubkey, LedgerError> {
    mix_crates(
        store,
        MixCrates { crate_record: at, authority: who },
        text("MIXED"),
        text("did:crate:mixed"),
        text("did:owner:mixed"),
        text("did:device:mixed"),
        text("mixer"),
        30,
        text("hash-mixed"),
        text("cid-mixed"),
        parents,
    )
}

fn split(
    store: &mut RecordStore,
    at: Pubkey,
    who: Pubkey,
    parent: Pubkey,
    weight: u32,
    children: Vec<Pubkey>,
    weights: Vec<u32>,
) -> Result<Pubkey, LedgerError> {
    split_crate(
        store,
        SplitCrate { crate_record: at, authority: who, parent_crate: parent },
        text("PART"),
        text("did:crate:part"),
        text("did:owner:part"),
        text("did:device:part"),
        text("splitter"),
        weight,
        40,
        text("hash-part"),
        text("cid-part"),
        children,
        weights,
    )
}

/// What a test may look at to see that a record was left alone.
fn snapshot(store: &RecordStore, at: Pubkey) -> (String, u32, i64, OperationType, [u8; 32], Vec<Pubkey>, Vec<Pubkey>, Vec<u32>, Vec<u32>) {
    let r = store.get(&at).unwrap();
    (
        format!(
            "{}|{}|{}|{}|{}|{}|{}",
            r.crate_id, r.crate_did, r.owner_did, r.device_did, r.location, r.hash, r.ipfs_cid
        ),
        r.weight,
        r.timestamp,
        r.operation_type,
        r.authority.to_bytes(),
        r.parent_crates.clone(),
        r.child_crates.clone(),
        r.parent_weights.clone(),
        r.split_distribution.clone(),
    )
}

#[test]
fn create_writes_the_payload_and_no_lineage() {
    let mut store = RecordStore::new();
    let made = create_crate(
        &mut store,
        CreateCrate { crate_record: key(1), authority: alice() },
        text("CRATE-001"),
        text("did:crate:001"),
        text("did:owner:alice"),
        text("did:device:nfc"),
        text("59.33,18.06"),
        100,
        1_700_000_000,
        text("0xabc"),
        text("QmCid"),
    );
    assert_eq!(made, Ok(key(1)));
    let r = store.get(&key(1)).unwrap();
    assert!(r.authority == alice());
    assert_eq!(r.crate_id, "CRATE-001");
    assert_eq!(r.crate_did, "did:crate:001");
    assert_eq!(r.owner_did, "did:owner:alice");
    assert_eq!(r.device_did, "did:device:nfc");
    assert_eq!(r.location, "59.33,18.06");
    assert_eq!(r.weight, 100);
    assert_eq!(r.timestamp, 1_700_000_000);
    assert_eq!(r.hash, "0xabc");
    assert_eq!(r.ipfs_cid, "QmCid");
    assert!(r.parent_crates.is_empty());
    assert!(r.child_crates.is_empty());
    assert!(r.parent_weights.is_empty());
    assert!(r.split_distribution.is_empty());
    assert_eq!(r.operation_type, OperationType::Created);
}

#[test]
fn create_refuses_a_key_that_is_taken() {
    let mut store = RecordStore::new();
    assert_eq!(create(&mut store, key(1), alice(), 100), Ok(key(1)));
    let before = snapshot(&store, key(1));
    assert_eq!(
        create(&mut store, key(1), bob(), 5),
        Err(LedgerError::Storage(StoreError::KeyAlreadyExists))
    );
    assert_eq!(snapshot(&store, key(1)), before);
}

#[test]
fn transfer_records_the_parent_and_its_weight() {
    let mut store = RecordStore::new();
    create(&mut store, key(1), alice(), 100).unwrap();
    assert_eq!(transfer(&mut store, key(2), alice(), key(1), 100), Ok(key(2)));
    let r = store.get(&key(2)).unwrap();
    assert!(r.authority == alice());
    assert_eq!(r.crate_id, "MOVED");
    assert_eq!(r.location, "there");
    assert_eq!(r.weight, 100);
    assert_eq!(r.timestamp, 20);
    assert_eq!(r.parent_crates, vec![key(1)]);
    assert_eq!(r.parent_weights, vec![100]);
    assert!(r.child_crates.is_empty());
    assert!(r.split_distribution.is_empty());
    assert_eq!(r.operation_type, OperationType::Transferred);
}

#[test]
fn transfer_with_another_weight_fails() {
    let mut store = RecordStore::new();
    create(&mut store, key(1), alice(), 100).unwrap();
    for weight in [0, 99, 101, u32::MAX] {
        assert_eq!(
            transfer(&mut store, key(2), alice(), key(1), weight),
            Err(rejected(ErrorCode::WeightMismatchOnTransfer))
        );
        assert!(!store.contains_key(&key(2)));
    }
}

#[test]
fn transfer_needs_the_parents_authority() {
    let mut store = RecordStore::new();
    create(&mut store, key(1), alice(), 100).unwrap();
    assert_eq!(
        transfer(&mut store, key(2), bob(), key(1), 100),
        Err(rejected(ErrorCode::UnauthorizedUpdate))
    );
    assert_eq!(
        transfer(&mut store, key(2), bob(), key(1), 7),
        Err(rejected(ErrorCode::UnauthorizedUpdate))
    );
    assert!(!store.contains_key(&key(2)));
}

#[test]
fn transfer_needs_the_parent_and_a_free_key() {
    let mut store = RecordStore::new();
    create(&mut store, key(1), alice(), 100).unwrap();
    assert_eq!(
        transfer(&mut store, key(2), alice(), key(9), 100),
        Err(LedgerError::Storage(StoreError::NotFound))
    );
    assert_eq!(
        transfer(&mut store, key(1), alice(), key(1), 100),
        Err(LedgerError::Storage(StoreError::KeyAlreadyExists))
    );
    assert_eq!(store.get(&key(1)).unwrap().operation_type, OperationType::Created);
}

#[test]
fn mix_weighs_the_sum_of_its_parents() {
    let mut store = RecordStore::new();
    create(&mut store, key(1), alice(), 25).unwrap();
    create(&mut store, key(2), alice(), 0).unwrap();
    create(&mut store, key(3), alice(), 17).unwrap();
    assert_eq!(mix(&mut store, key(4), alice(), vec![key(3), key(1), key(2)]), Ok(key(4)));
    let r = store.get(&key(4)).unwrap();
    assert_eq!(r.weight, 42);
    assert_eq!(r.parent_crates, vec![key(3), key(1), key(2)]);
    assert_eq!(r.parent_weights, vec![17, 25, 0]);
    assert!(r.child_crates.is_empty());
    assert!(r.split_distribution.is_empty());
    assert_eq!(r.operation_type, OperationType::Mixed);
    assert!(r.authority == alice());
    assert_eq!(r.crate_id, "MIXED");
    assert_eq!(r.timestamp, 30);
}

#[test]
fn mix_up_to_the_largest_weight() {
    let mut store = RecordStore::new();
    create(&mut store, key(1), alice(), u32::MAX - 1).unwrap();
    create(&mut store, key(2), alice(), 1).unwrap();
    assert_eq!(mix(&mut store, key(3), alice(), vec![key(1), key(2)]), Ok(key(3)));
    assert_eq!(store.get(&key(3)).unwrap().weight, u32::MAX);
}

#[test]
fn mix_past_the_largest_weight_overflows() {
    let mut store = RecordStore::new();
    create(&mut store, key(1), alice(), u32::MAX).unwrap();
    create(&mut store, key(2), alice(), 1).unwrap();
    assert_eq!(
        mix(&mut store, key(3), alice(), vec![key(1), key(2)]),
        Err(rejected(ErrorCode::WeightOverflow))
    );
    assert!(!store.contains_key(&key(3)));
    assert_eq!(
        mix(&mut store, key(3), alice(), vec![key(1), key(1), key(1)]),
        Err(rejected(ErrorCode::WeightOverflow))
    );
    assert!(!store.contains_key(&key(3)));
}

#[test]
fn mix_with_one_parent_fails() {
    let mut store = RecordStore::new();
    create(&mut store, key(1), alice(), 10).unwrap();
    assert_eq!(
        mix(&mut store, key(2), alice(), vec![key(1)]),
        Err(rejected(ErrorCode::MixRequiresMultipleParents))
    );
    assert_eq!(
        mix(&mut store, key(2), alice(), vec![]),
        Err(rejected(ErrorCode::MixRequiresMultipleParents))
    );
    assert!(!store.contains_key(&key(2)));
}

#[test]
fn mix_with_eleven_parents_fails() {
    let mut store = RecordStore::new();
    let parents: Vec<Pubkey> = (1..=11).map(key).collect();
    for p in &parents {
        create(&mut store, *p, alice(), 1).unwrap();
    }
    assert_eq!(
        mix(&mut store, key(50), alice(), parents.clone()),
        Err(rejected(ErrorCode::TooManyParents))
    );
    assert!(!store.contains_key(&key(50)));
    let ten: Vec<Pubkey> = parents[..10].to_vec();
    assert_eq!(mix(&mut store, key(50), alice(), ten), Ok(key(50)));
    assert_eq!(store.get(&key(50)).unwrap().weight, 10);
    assert_eq!(store.get(&key(50)).unwrap().parent_weights, vec![1; 10]);
}

#[test]
fn mix_needs_the_authority_of_every_parent() {
    let mut store = RecordStore::new();
    create(&mut store, key(1), alice(), 10).unwrap();
    create(&mut store, key(2), bob(), 20).unwrap();
    create(&mut store, key(3), alice(), 30).unwrap();
    assert_eq!(
        mix(&mut store, key(4), alice(), vec![key(1), key(2), key(3)]),
        Err(rejected(ErrorCode::UnauthorizedUpdate))
    );
    assert_eq!(
        mix(&mut store, key(4), bob(), vec![key(2), key(3)]),
        Err(rejected(ErrorCode::UnauthorizedUpdate))
    );
    assert_eq!(
        mix(&mut store, key(4), alice(), vec![key(2)]),
        Err(rejected(ErrorCode::UnauthorizedUpdate))
    );
    assert!(!store.contains_key(&key(4)));
}

#[test]
fn mix_needs_every_parent_and_a_free_key() {
    let mut store = RecordStore::new();
    create(&mut store, key(1), alice(), 10).unwrap();
    create(&mut store, key(2), alice(), 20).unwrap();
    assert_eq!(
        mix(&mut store, key(4), alice(), vec![key(1), key(9)]),
        Err(LedgerError::Storage(StoreError::NotFound))
    );
    assert_eq!(
        mix(&mut store, key(2), alice(), vec![key(1), key(2)]),
        Err(LedgerError::Storage(StoreError::KeyAlreadyExists))
    );
    assert_eq!(store.get(&key(2)).unwrap().weight, 20);
}

#[test]
fn split_records_the_distribution() {
    let mut store = RecordStore::new();
    create(&mut store, key(1), alice(), 100).unwrap();
    assert_eq!(
        split(&mut store, key(2), alice(), key(1), 40, vec![key(2), key(3)], vec![40, 60]),
        Ok(key(2))
    );
    let r = store.get(&key(2)).unwrap();
    assert_eq!(r.weight, 40);
    assert_eq!(r.parent_crates, vec![key(1)]);
    assert_eq!(r.parent_weights, vec![100]);
    assert_eq!(r.child_crates, vec![key(2), key(3)]);
    assert_eq!(r.split_distribution, vec![40, 60]);
    assert_eq!(r.operation_type, OperationType::Split);
    assert!(r.authority == alice());
    assert_eq!(r.crate_id, "PART");
    assert_eq!(r.timestamp, 40);
}

#[test]
fn split_keeps_the_weight_the_caller_gave() {
    let mut store = RecordStore::new();
    create(&mut store, key(1), alice(), 100).unwrap();
    assert_eq!(
        split(&mut store, key(2), alice(), key(1), 7, vec![key(2), key(3)], vec![40, 60]),
        Ok(key(2))
    );
    assert_eq!(store.get(&key(2)).unwrap().weight, 7);
    assert_eq!(store.get(&key(2)).unwrap().split_distribution, vec![40, 60]);
}

#[test]
fn split_must_give_out_the_parents_weight() {
    let mut store = RecordStore::new();
    create(&mut store, key(1), alice(), 100).unwrap();
    assert_eq!(
        split(&mut store, key(2), alice(), key(1), 40, vec![key(2), key(3)], vec![40, 50]),
        Err(rejected(ErrorCode::SplitWeightMismatch))
    );
    assert_eq!(
        split(&mut store, key(2), alice(), key(1), 40, vec![key(2), key(3)], vec![40, 61]),
        Err(rejected(ErrorCode::SplitWeightMismatch))
    );
    assert!(!store.contains_key(&key(2)));
    assert_eq!(
        split(&mut store, key(2), alice(), key(1), 40, vec![key(2), key(3)], vec![100, 0]),
        Ok(key(2))
    );
}

#[test]
fn split_weights_that_wrap_around_do_not_pass() {
    let mut store = RecordStore::new();
    create(&mut store, key(1), alice(), 4).unwrap();
    assert_eq!(
        split(&mut store, key(2), alice(), key(1), 1, vec![key(2), key(3)], vec![u32::MAX, 5]),
        Err(rejected(ErrorCode::SplitWeightMismatch))
    );
    assert!(!store.contains_key(&key(2)));
}

#[test]
fn split_with_one_child_fails() {
    let mut store = RecordStore::new();
    create(&mut store, key(1), alice(), 100).unwrap();
    assert_eq!(
        split(&mut store, key(2), alice(), key(1), 100, vec![key(2)], vec![100]),
        Err(rejected(ErrorCode::SplitRequiresMultipleChildren))
    );
    assert_eq!(
        split(&mut store, key(2), alice(), key(1), 100, vec![], vec![]),
        Err(rejected(ErrorCode::SplitRequiresMultipleChildren))
    );
    assert!(!store.contains_key(&key(2)));
}

#[test]
fn split_with_eleven_children_fails() {
    let mut store = RecordStore::new();
    create(&mut store, key(1), alice(), 11).unwrap();
    let children: Vec<Pubkey> = (10..21).map(key).collect();
    assert_eq!(
        split(&mut store, key(2), alice(), key(1), 1, children.clone(), vec![1; 11]),
        Err(rejected(ErrorCode::TooManyChildren))
    );
    assert!(!store.contains_key(&key(2)));
    let mut weights = vec![1; 10];
    weights[9] = 2;
    assert_eq!(
        split(&mut store, key(2), alice(), key(1), 1, children[..10].to_vec(), weights),
        Ok(key(2))
    );
}

#[test]
fn split_needs_one_weight_for_each_child() {
    let mut store = RecordStore::new();
    create(&mut store, key(1), alice(), 100).unwrap();
    assert_eq!(
        split(&mut store, key(2), alice(), key(1), 40, vec![key(2), key(3)], vec![40, 30, 30]),
        Err(rejected(ErrorCode::ChildKeyWeightMismatch))
    );
    assert_eq!(
        split(&mut store, key(2), alice(), key(1), 40, vec![key(2), key(3), key(4)], vec![40, 60]),
        Err(rejected(ErrorCode::ChildKeyWeightMismatch))
    );
    assert_eq!(
        split(&mut store, key(2), alice(), key(1), 40, vec![key(2), key(3)], vec![100]),
        Err(rejected(ErrorCode::ChildKeyWeightMismatch))
    );
    assert!(!store.contains_key(&key(2)));
}

#[test]
fn split_needs_the_parents_authority() {
    let mut store = RecordStore::new();
    create(&mut store, key(1), alice(), 100).unwrap();
    assert_eq!(
        split(&mut store, key(2), bob(), key(1), 40, vec![key(2), key(3)], vec![40, 60]),
        Err(rejected(ErrorCode::UnauthorizedUpdate))
    );
    assert_eq!(
        split(&mut store, key(2), bob(), key(1), 40, vec![key(2)], vec![1, 2, 3]),
        Err(rejected(ErrorCode::UnauthorizedUpdate))
    );
    assert!(!store.contains_key(&key(2)));
}

#[test]
fn split_needs_the_parent_and_a_free_key() {
    let mut store = RecordStore::new();
    create(&mut store, key(1), alice(), 100).unwrap();
    assert_eq!(
        split(&mut store, key(2), alice(), key(9), 40, vec![key(2), key(3)], vec![40, 60]),
        Err(LedgerError::Storage(StoreError::NotFound))
    );
    assert_eq!(
        split(&mut store, key(1), alice(), key(1), 40, vec![key(2), key(3)], vec![40, 60]),
        Err(LedgerError::Storage(StoreError::KeyAlreadyExists))
    );
    assert_eq!(store.get(&key(1)).unwrap().operation_type, OperationType::Created);
}

#[test]
fn parent_links_are_replaced_wholesale() {
    let mut store = RecordStore::new();
    create(&mut store, key(1), alice(), 100).unwrap();
    let before = snapshot(&store, key(1));
    assert_eq!(
        update_parent_children(
            &mut store,
            UpdateParent { parent_crate: key(1), authority: alice() },
            vec![key(2), key(3)],
        ),
        Ok(())
    );
    assert_eq!(store.get(&key(1)).unwrap().child_crates, vec![key(2), key(3)]);
    assert_eq!(
        update_parent_children(
            &mut store,
            UpdateParent { parent_crate: key(1), authority: alice() },
            vec![key(77)],
        ),
        Ok(())
    );
    let after = snapshot(&store, key(1));
    assert_eq!(after.6, vec![key(77)]);
    assert_eq!((after.0, after.1, after.2, after.3, after.4), (before.0, before.1, before.2, before.3, before.4));
    assert_eq!((after.5, after.7, after.8), (before.5, before.7, before.8));
}

#[test]
fn parent_links_need_the_authority_and_the_record() {
    let mut store = RecordStore::new();
    create(&mut store, key(1), alice(), 100).unwrap();
    assert_eq!(
        update_parent_children(
            &mut store,
            UpdateParent { parent_crate: key(1), authority: bob() },
            vec![key(2)],
        ),
        Err(rejected(ErrorCode::UnauthorizedUpdate))
    );
    assert!(store.get(&key(1)).unwrap().child_crates.is_empty());
    assert_eq!(
        update_parent_children(
            &mut store,
            UpdateParent { parent_crate: key(9), authority: alice() },
            vec![key(2)],
        ),
        Err(LedgerError::Storage(StoreError::NotFound))
    );
    assert!(!store.contains_key(&key(9)));
}

#[test]
fn child_link_is_appended_once() {
    let mut store = RecordStore::new();
    create(&mut store, key(1), alice(), 100).unwrap();
    let request = UpdateChild { child_crate: key(1), authority: alice() };
    assert_eq!(update_child_parent(&mut store, request, key(5)), Ok(()));
    assert_eq!(store.get(&key(1)).unwrap().parent_crates, vec![key(5)]);
    assert_eq!(update_child_parent(&mut store, request, key(5)), Ok(()));
    assert_eq!(store.get(&key(1)).unwrap().parent_crates, vec![key(5)]);
    assert_eq!(update_child_parent(&mut store, request, key(6)), Ok(()));
    assert_eq!(update_child_parent(&mut store, request, key(5)), Ok(()));
    assert_eq!(update_child_parent(&mut store, request, key(6)), Ok(()));
    assert_eq!(store.get(&key(1)).unwrap().parent_crates, vec![key(5), key(6)]);
}

#[test]
fn child_link_to_a_known_parent_changes_nothing() {
    let mut store = RecordStore::new();
    create(&mut store, key(1), alice(), 100).unwrap();
    transfer(&mut store, key(2), alice(), key(1), 100).unwrap();
    let before = snapshot(&store, key(2));
    assert_eq!(
        update_child_parent(
            &mut store,
            UpdateChild { child_crate: key(2), authority: alice() },
            key(1),
        ),
        Ok(())
    );
    assert_eq!(snapshot(&store, key(2)), before);
}

#[test]
fn child_link_needs_the_authority_and_the_record() {
    let mut store = RecordStore::new();
    create(&mut store, key(1), alice(), 100).unwrap();
    assert_eq!(
        update_child_parent(
            &mut store,
            UpdateChild { child_crate: key(1), authority: bob() },
            key(5),
        ),
        Err(rejected(ErrorCode::UnauthorizedUpdate))
    );
    assert!(store.get(&key(1)).unwrap().parent_crates.is_empty());
    assert_eq!(
        update_child_parent(
            &mut store,
            UpdateChild { child_crate: key(9), authority: alice() },
            key(5),
        ),
        Err(LedgerError::Storage(StoreError::NotFound))
    );
}

#[test]
fn existing_records_keep_their_identity() {
    let mut store = RecordStore::new();
    create(&mut store, key(1), alice(), 100).unwrap();
    create(&mut store, key(2), alice(), 50).unwrap();
    let one = snapshot(&store, key(1));
    let two = snapshot(&store, key(2));

    transfer(&mut store, key(3), alice(), key(1), 100).unwrap();
    mix(&mut store, key(4), alice(), vec![key(1), key(2)]).unwrap();
    split(&mut store, key(5), alice(), key(2), 20, vec![key(5), key(6)], vec![20, 30]).unwrap();
    assert!(transfer(&mut store, key(7), bob(), key(1), 100).is_err());
    assert!(mix(&mut store, key(7), alice(), vec![key(1)]).is_err());
    assert!(split(&mut store, key(7), alice(), key(2), 20, vec![key(5), key(6)], vec![1, 1]).is_err());
    assert_eq!(snapshot(&store, key(1)), one);
    assert_eq!(snapshot(&store, key(2)), two);

    update_parent_children(
        &mut store,
        UpdateParent { parent_crate: key(1), authority: alice() },
        vec![key(3), key(4)],
    )
    .unwrap();
    update_child_parent(&mut store, UpdateChild { child_crate: key(1), authority: alice() }, key(9))
        .unwrap();
    let now = snapshot(&store, key(1));
    assert_eq!((now.0, now.1, now.2, now.3, now.4), (one.0, one.1, one.2, one.3, one.4));
    assert_eq!((now.7, now.8), (one.7, one.8));
    assert_eq!(now.5, vec![key(9)]);
    assert_eq!(now.6, vec![key(3), key(4)]);
    assert_eq!(snapshot(&store, key(2)), two);
}

#[test]
fn end_to_end_split_then_mix() {
    let (a, b, c, d) = (key(1), key(2), key(3), key(4));
    let mut store = RecordStore::new();
    assert_eq!(create(&mut store, a, alice(), 100), Ok(a));
    let a_minted = snapshot(&store, a);

    assert_eq!(split(&mut store, b, alice(), a, 40, vec![b, c], vec![40, 60]), Ok(b));
    assert_eq!(split(&mut store, c, alice(), a, 60, vec![b, c], vec![40, 60]), Ok(c));
    assert_eq!(snapshot(&store, a), a_minted);
    for child in [b, c] {
        let r = store.get(&child).unwrap();
        assert_eq!(r.parent_crates, vec![a]);
        assert_eq!(r.parent_weights, vec![100]);
        assert_eq!(r.split_distribution, vec![40, 60]);
        assert_eq!(r.operation_type, OperationType::Split);
    }
    assert_eq!(store.get(&b).unwrap().weight, 40);
    assert_eq!(store.get(&c).unwrap().weight, 60);

    assert_eq!(
        update_parent_children(
            &mut store,
            UpdateParent { parent_crate: a, authority: alice() },
            vec![b, c],
        ),
        Ok(())
    );
    let a_now = snapshot(&store, a);
    assert_eq!(a_now.6, vec![b, c]);
    assert_eq!((a_now.0, a_now.1, a_now.2, a_now.3, a_now.4), (a_minted.0, a_minted.1, a_minted.2, a_minted.3, a_minted.4));
    assert_eq!((a_now.5, a_now.7, a_now.8), (a_minted.5, a_minted.7, a_minted.8));

    assert_eq!(mix(&mut store, d, alice(), vec![b, c]), Ok(d));
    let r = store.get(&d).unwrap();
    assert_eq!(r.weight, 100);
    assert_eq!(r.parent_crates, vec![b, c]);
    assert_eq!(r.parent_weights, vec![40, 60]);
    assert_eq!(r.operation_type, OperationType::Mixed);
}
