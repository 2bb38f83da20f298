use vstd::prelude::*;

use crate::context::{CreateCrate, MixCrates, SplitCrate, TransferOwnership, UpdateChild, UpdateParent};
use crate::errors::{ErrorCode, LedgerError};
use crate::guard::require_authority;
use crate::key::Pubkey;
use crate::model::{
    after_mint, after_update_child, after_update_parent, all_found, create_verdict,
    created_record, identities_preserved, ledger_consistent, mix_verdict, mixed_record,
    repair_verdict, split_record, split_verdict, transfer_verdict, transferred_record,
    weights_of, Description,
};
use crate::record::{CrateRecord, OperationType};
use crate::store::{LinkUpdate, RecordStore};
use crate::weights::{sum_with_overflow_check, validate_conservation};

verus! {

/// Mixes the records under `parent_keys` into one new record, minted under
/// `ctx.crate_record` with the caller as authority. The caller must control
/// every parent, there must be between two and ten of them, and their
/// weights must add up to a weight: that sum is the new record's weight.
/// On failure the ledger is as it was.
pub fn mix_crates(
    store: &mut RecordStore,
    ctx: MixCrates,
    crate_id: String,
    crate_did: String,
    owner_did: String,
    device_did: String,
    location: String,
    timestamp: i64,
    hash: String,
    ipfs_cid: String,
    parent_keys: Vec<Pubkey>,
) -> (result: Result<Pubkey, LedgerError>)
    ensures
        result == mix_verdict(old(store)@, ctx, parent_keys@),
        final(store)@ == after_mint(
            old(store)@,
            result,
            mixed_record(
                ctx.authority,
                (Description {
                    crate_id: crate_id@,
                    crate_did: crate_did@,
                    owner_did: owner_did@,
                    device_did: device_did@,
                    location: location@,
                    hash: hash@,
                    ipfs_cid: ipfs_cid@,
                }),
                timestamp,
                parent_keys@,
                weights_of(old(store)@, parent_keys@),
            ),
        ),
        identities_preserved(old(store)@, final(store)@),
        ledger_consistent(old(store)@) ==> ledger_consistent(final(store)@),
        result is Ok ==> final(store)@[ctx.crate_record].well_formed(),
{
    let ghost before = store@;
    let mut parent_weights: Vec<u32> = Vec::new();
    match store.get_many(&parent_keys) {
        Err(e) => {
            return Err(LedgerError::Storage(e));
        },
        Ok(parents) => {
            let mut i: usize = 0;
            while i < parents.len()
                invariant
                    i <= parents@.len(),
                    parents@.len() == parent_keys@.len(),
                    before == old(store)@,
                    before == store@,
                    all_found(before, parent_keys@),
                    forall|j: int|
                        0 <= j < parent_keys@.len() ==> (*parents@[j])@
                            == before[#[trigger] parent_keys@[j]],
                    forall|j: int|
                        0 <= j < i ==> (#[trigger] before[parent_keys@[j]]).authority
                            == ctx.authority,
                    parent_weights@ == weights_of(before, parent_keys@).take(i as int),
                decreases parents@.len() - i,
            {
                match require_authority(&ctx.authority, &parents[i].authority) {
                    Err(e) => {
                        assert(before[parent_keys@[i as int]].authority != ctx.authority);
                        return Err(LedgerError::Rejected(e));
                    },
                    Ok(_) => {},
                }
                parent_weights.push(parents[i].weight);
                assert(parent_weights@ =~= weights_of(before, parent_keys@).take(i + 1));
                i += 1;
            }
            assert(parent_weights@ =~= weights_of(before, parent_keys@));
        },
    }
    if parent_keys.len() < 2 {
        return Err(LedgerError::Rejected(ErrorCode::MixRequiresMultipleParents));
    }
    if parent_keys.len() > CrateRecord::MAX_PARENTS {
        return Err(LedgerError::Rejected(ErrorCode::TooManyParents));
    }
    let total = match sum_with_overflow_check(&parent_weights) {
        Ok(total) => total,
        Err(_) => {
            return Err(LedgerError::Rejected(ErrorCode::WeightOverflow));
        },
    };
    let record = CrateRecord {
        authority: ctx.authority,
        crate_id,
        crate_did,
        owner_did,
        device_did,
        location,
        weight: total,
        timestamp,
        hash,
        ipfs_cid,
        parent_crates: parent_keys,
        child_crates: Vec::new(),
        parent_weights,
        split_distribution: Vec::new(),
        operation_type: OperationType::Mixed,
    };
    match store.create(ctx.crate_record, record) {
        Ok(_) => Ok(ctx.crate_record),
        Err(e) => Err(LedgerError::Storage(e)),
    }
}

/// Splits the record under `ctx.parent_crate` among `child_keys`, giving
/// `child_weights[i]` to `child_keys[i]`, and mints a record of the split
/// under `ctx.crate_record` with the caller as authority. The caller must
/// control the parent, there must be between two and ten children with one
/// weight each, and the weights must add up to the parent's weight exactly.
/// On failure the ledger is as it was.
pub fn split_crate(
    store: &mut RecordStore,
    ctx: SplitCrate,
    crate_id: String,
    crate_did: String,
    owner_did: String,
    device_did: String,
    location: String,
    weight: u32,
    timestamp: i64,
    hash: String,
    ipfs_cid: String,
    child_keys: Vec<Pubkey>,
    child_weights: Vec<u32>,
) -> (result: Result<Pubkey, LedgerError>)
    ensures
        result == split_verdict(old(store)@, ctx, child_keys@, child_weights@),
        final(store)@ == after_mint(
            old(store)@,
            result,
            split_record(
                ctx.authority,
                (Description {
                    crate_id: crate_id@,
                    crate_did: crate_did@,
                    owner_did: owner_did@,
                    device_did: device_did@,
                    location: location@,
                    hash: hash@,
                    ipfs_cid: ipfs_cid@,
                }),
                weight,
                timestamp,
                ctx.parent_crate,
                old(store)@[ctx.parent_crate].weight,
                child_keys@,
                child_weights@,
            ),
        ),
        identities_preserved(old(store)@, final(store)@),
        ledger_consistent(old(store)@) ==> ledger_consistent(final(store)@),
        result is Ok ==> final(store)@[ctx.crate_record].well_formed(),
{
    let parent_weight = match store.get(&ctx.parent_crate) {
        Err(e) => {
            return Err(LedgerError::Storage(e));
        },
        Ok(parent) => {
            match require_authority(&ctx.authority, &parent.authority) {
                Err(e) => {
                    return Err(LedgerError::Rejected(e));
                },
                Ok(_) => {},
            }
            parent.weight
        },
    };
    if child_keys.len() < 2 {
        return Err(LedgerError::Rejected(ErrorCode::SplitRequiresMultipleChildren));
    }
    if child_keys.len() > CrateRecord::MAX_CHILDREN {
        return Err(LedgerError::Rejected(ErrorCode::TooManyChildren));
    }
    if child_keys.len() != child_weights.len() {
        return Err(LedgerError::Rejected(ErrorCode::ChildKeyWeightMismatch));
    }
    let conserved = match sum_with_overflow_check(&child_weights) {
        Ok(total_child_weight) => validate_conservation(parent_weight, total_child_weight).is_ok(),
        Err(_) => false,
    };
    if !conserved {
        return Err(LedgerError::Rejected(ErrorCode::SplitWeightMismatch));
    }
    let mut parent_crates: Vec<Pubkey> = Vec::new();
    parent_crates.push(ctx.parent_crate);
    let mut parent_weights: Vec<u32> = Vec::new();
    parent_weights.push(parent_weight);
    let record = CrateRecord {
        authority: ctx.authority,
        crate_id,
        crate_did,
        owner_did,
        device_did,
        location,
        weight,
        timestamp,
        hash,
        ipfs_cid,
        parent_crates,
        child_crates: child_keys,
        parent_weights,
        split_distribution: child_weights,
        operation_type: OperationType::Split,
    };
    proof {
        assert(record@.parent_crates =~= seq![ctx.parent_crate]);
        assert(record@.parent_weights =~= seq![parent_weight]);
    }
    match store.create(ctx.crate_record, record) {
        Ok(_) => Ok(ctx.crate_record),
        Err(e) => Err(LedgerError::Storage(e)),
    }
}

/// Hands the crate of the record under `ctx.parent_crate` on: mints a
/// record under `ctx.crate_record` with the caller as authority and that
/// record as its one parent. The caller must control the parent, and
/// `weight` must be the parent's weight. On failure the ledger is as it
/// was.
pub fn transfer_ownership(
    store: &mut RecordStore,
    ctx: TransferOwnership,
    crate_id: String,
    crate_did: String,
    owner_did: String,
    device_did: String,
    location: String,
    weight: u32,
    timestamp: i64,
    hash: String,
    ipfs_cid: String,
) -> (result: Result<Pubkey, LedgerError>)
    ensures
        result == transfer_verdict(old(store)@, ctx, weight),
        final(store)@ == after_mint(
            old(store)@,
            result,
            transferred_record(
                ctx.authority,
                (Description {
                    crate_id: crate_id@,
                    crate_did: crate_did@,
                    owner_did: owner_did@,
                    device_did: device_did@,
                    location: location@,
                    hash: hash@,
                    ipfs_cid: ipfs_cid@,
                }),
                weight,
                timestamp,
                ctx.parent_crate,
                old(store)@[ctx.parent_crate].weight,
            ),
        ),
        identities_preserved(old(store)@, final(store)@),
        ledger_consistent(old(store)@) ==> ledger_consistent(final(store)@),
        result is Ok ==> final(store)@[ctx.crate_record].well_formed(),
{
    let parent_weight = match store.get(&ctx.parent_crate) {
        Err(e) => {
            return Err(LedgerError::Storage(e));
        },
        Ok(parent) => {
            match require_authority(&ctx.authority, &parent.authority) {
                Err(e) => {
                    return Err(LedgerError::Rejected(e));
                },
                Ok(_) => {},
            }
            parent.weight
        },
    };
    match validate_conservation(parent_weight, weight) {
        Err(_) => {
            return Err(LedgerError::Rejected(ErrorCode::WeightMismatchOnTransfer));
        },
        Ok(_) => {},
    }
    let mut parent_crates: Vec<Pubkey> = Vec::new();
    parent_crates.push(ctx.parent_crate);
    let mut parent_weights: Vec<u32> = Vec::new();
    parent_weights.push(parent_weight);
    let record = CrateRecord {
        authority: ctx.authority,
        crate_id,
        crate_did,
        owner_did,
        device_did,
        location,
        weight,
        timestamp,
        hash,
        ipfs_cid,
        parent_crates,
        child_crates: Vec::new(),
        parent_weights,
        split_distribution: Vec::new(),
        operation_type: OperationType::Transferred,
    };
    proof {
        assert(record@.parent_crates =~= seq![ctx.parent_crate]);
        assert(record@.parent_weights =~= seq![parent_weight]);
    }
    match store.create(ctx.crate_record, record) {
        Ok(_) => Ok(ctx.crate_record),
        Err(e) => Err(LedgerError::Storage(e)),
    }
}

/// Mints the first record of a crate under `ctx.crate_record`: the payload
/// as given, the caller as authority, no parents and no children. Any
/// caller may do so. On failure the ledger is as it was.
pub fn create_crate(
    store: &mut RecordStore,
    ctx: CreateCrate,
    crate_id: String,
    crate_did: String,
    owner_did: String,
    device_did: String,
    location: String,
    weight: u32,
    timestamp: i64,
    hash: String,
    ipfs_cid: String,
) -> (result: Result<Pubkey, LedgerError>)
    ensures
        result == create_verdict(old(store)@, ctx),
        final(store)@ == after_mint(
            old(store)@,
            result,
            created_record(
                ctx.authority,
                (Description {
                    crate_id: crate_id@,
                    crate_did: crate_did@,
                    owner_did: owner_did@,
                    device_did: device_did@,
                    location: location@,
                    hash: hash@,
                    ipfs_cid: ipfs_cid@,
                }),
                weight,
                timestamp,
            ),
        ),
        identities_preserved(old(store)@, final(store)@),
        ledger_consistent(old(store)@) ==> ledger_consistent(final(store)@),
        result is Ok ==> final(store)@[ctx.crate_record].well_formed(),
{
    let record = CrateRecord {
        authority: ctx.authority,
        crate_id,
        crate_did,
        owner_did,
        device_did,
        location,
        weight,
        timestamp,
        hash,
        ipfs_cid,
        parent_crates: Vec::new(),
        child_crates: Vec::new(),
        parent_weights: Vec::new(),
        split_distribution: Vec::new(),
        operation_type: OperationType::Created,
    };
    match store.create(ctx.crate_record, record) {
        Ok(_) => Ok(ctx.crate_record),
        Err(e) => Err(LedgerError::Storage(e)),
    }
}

/// Whether `key` is one of `keys`.
fn holds_key(keys: &Vec<Pubkey>, key: &Pubkey) -> (found: bool)
    ensures
        found == keys@.contains(*key),
{
    let mut i: usize = 0;
    while i < keys.len()
        invariant
            i <= keys@.len(),
            forall|j: int| 0 <= j < i ==> keys@[j] != *key,
        decreases keys@.len() - i,
    {
        if keys[i] == *key {
            return true;
        }
        i += 1;
    }
    false
}

/// `keys` with `key` added at the end.
fn keys_with(keys: &Vec<Pubkey>, key: Pubkey) -> (longer: Vec<Pubkey>)
    ensures
        longer@ == keys@.push(key),
{
    let mut longer: Vec<Pubkey> = Vec::new();
    let mut i: usize = 0;
    while i < keys.len()
        invariant
            i <= keys@.len(),
            longer@ == keys@.take(i as int),
        decreases keys@.len() - i,
    {
        longer.push(keys[i]);
        assert(longer@ =~= keys@.take(i + 1));
        i += 1;
    }
    assert(keys@.take(i as int) =~= keys@);
    longer.push(key);
    longer
}

/// Makes the record under `ctx.child_crate` name `parent_key` among its
/// parents: appends the key where it is missing and changes nothing where
/// it is there. The caller must control the child. On failure the ledger is
/// as it was.
pub fn update_child_parent(store: &mut RecordStore, ctx: UpdateChild, parent_key: Pubkey) -> (result:
    Result<(), LedgerError>)
    ensures
        result == repair_verdict(old(store)@, ctx.child_crate, ctx.authority),
        final(store)@ == after_update_child(old(store)@, ctx, parent_key),
        identities_preserved(old(store)@, final(store)@),
        ledger_consistent(old(store)@) ==> ledger_consistent(final(store)@),
{
    let missing = match store.get(&ctx.child_crate) {
        Err(e) => {
            return Err(LedgerError::Storage(e));
        },
        Ok(child) => {
            match require_authority(&ctx.authority, &child.authority) {
                Err(e) => {
                    return Err(LedgerError::Rejected(e));
                },
                Ok(_) => {},
            }
            if holds_key(&child.parent_crates, &parent_key) {
                None
            } else {
                Some(keys_with(&child.parent_crates, parent_key))
            }
        },
    };
    match missing {
        None => {
            assert(store@ =~= after_update_child(old(store)@, ctx, parent_key));
            Ok(())
        },
        Some(parents) => {
            match store.mutate_links(&ctx.child_crate, LinkUpdate::Parents(parents)) {
                Ok(_) => Ok(()),
                Err(e) => Err(LedgerError::Storage(e)),
            }
        },
    }
}

/// Replaces the child links of the record under `ctx.parent_crate` by
/// `child_keys`, whatever they name. The caller must control the parent.
/// On failure the ledger is as it was.
pub fn update_parent_children(
    store: &mut RecordStore,
    ctx: UpdateParent,
    child_keys: Vec<Pubkey>,
) -> (result: Result<(), LedgerError>)
    ensures
        result == repair_verdict(old(store)@, ctx.parent_crate, ctx.authority),
        final(store)@ == after_update_parent(old(store)@, ctx, child_keys@),
        identities_preserved(old(store)@, final(store)@),
        ledger_consistent(old(store)@) ==> ledger_consistent(final(store)@),
{
    match store.get(&ctx.parent_crate) {
        Err(e) => {
            return Err(LedgerError::Storage(e));
        },
        Ok(parent) => {
            match require_authority(&ctx.authority, &parent.authority) {
                Err(e) => {
                    return Err(LedgerError::Rejected(e));
                },
                Ok(_) => {},
            }
        },
    }
    match store.mutate_links(&ctx.parent_crate, LinkUpdate::Children(child_keys)) {
        Ok(_) => Ok(()),
        Err(e) => Err(LedgerError::Storage(e)),
    }
}

} // verus!
