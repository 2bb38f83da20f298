use vstd::prelude::*;

use crate::context::{CreateCrate, MixCrates, SplitCrate, TransferOwnership, UpdateChild, UpdateParent};
use crate::errors::{ErrorCode, LedgerError, StoreError};
use crate::key::Pubkey;
use crate::record::{CrateRecord, CrateRecordView, OperationType};
use crate::weights::weight_sum;

verus! {

/// The ledger as a mathematical object: the record stored under each key.
pub type Ledger = Map<Pubkey, CrateRecordView>;

/// What a record says of its crate in words: seven opaque strings.
pub struct Description {
    pub crate_id: Seq<char>,
    pub crate_did: Seq<char>,
    pub owner_did: Seq<char>,
    pub device_did: Seq<char>,
    pub location: Seq<char>,
    pub hash: Seq<char>,
    pub ipfs_cid: Seq<char>,
}

/// The record that a create mints: the payload as given, the caller as
/// authority, no lineage.
pub open spec fn created_record(
    authority: Pubkey,
    description: Description,
    weight: u32,
    timestamp: i64,
) -> CrateRecordView {
    CrateRecordView {
        authority,
        crate_id: description.crate_id,
        crate_did: description.crate_did,
        owner_did: description.owner_did,
        device_did: description.device_did,
        location: description.location,
        weight,
        timestamp,
        hash: description.hash,
        ipfs_cid: description.ipfs_cid,
        parent_crates: Seq::empty(),
        child_crates: Seq::empty(),
        parent_weights: Seq::empty(),
        split_distribution: Seq::empty(),
        operation_type: OperationType::Created,
    }
}

/// The record that a transfer mints: the payload as given, and as lineage
/// its one parent with the parent's weight.
pub open spec fn transferred_record(
    authority: Pubkey,
    description: Description,
    weight: u32,
    timestamp: i64,
    parent_key: Pubkey,
    parent_weight: u32,
) -> CrateRecordView {
    CrateRecordView {
        parent_crates: seq![parent_key],
        parent_weights: seq![parent_weight],
        operation_type: OperationType::Transferred,
        ..created_record(authority, description, weight, timestamp)
    }
}

/// The record that a mix mints: the declared parents in the declared order,
/// their weights in the same order, and the sum of those weights as its own
/// weight.
pub open spec fn mixed_record(
    authority: Pubkey,
    description: Description,
    timestamp: i64,
    parent_keys: Seq<Pubkey>,
    parent_weights: Seq<u32>,
) -> CrateRecordView {
    CrateRecordView {
        parent_crates: parent_keys,
        parent_weights,
        operation_type: OperationType::Mixed,
        ..created_record(authority, description, weight_sum(parent_weights) as u32, timestamp)
    }
}

/// The record that a split mints: its one parent with the parent's weight,
/// the declared children, and the weight given to each. The record's own
/// weight is what the caller supplied, whatever the split gives out.
pub open spec fn split_record(
    authority: Pubkey,
    description: Description,
    weight: u32,
    timestamp: i64,
    parent_key: Pubkey,
    parent_weight: u32,
    child_keys: Seq<Pubkey>,
    child_weights: Seq<u32>,
) -> CrateRecordView {
    CrateRecordView {
        parent_crates: seq![parent_key],
        child_crates: child_keys,
        parent_weights: seq![parent_weight],
        split_distribution: child_weights,
        operation_type: OperationType::Split,
        ..created_record(authority, description, weight, timestamp)
    }
}

/// `parents` with `key` at the end, unless it is among them already.
pub open spec fn with_parent_link(parents: Seq<Pubkey>, key: Pubkey) -> Seq<Pubkey> {
    if parents.contains(key) {
        parents
    } else {
        parents.push(key)
    }
}

/// How often `key` occurs among `keys`.
pub open spec fn occurrences(keys: Seq<Pubkey>, key: Pubkey) -> nat
    decreases keys.len(),
{
    if keys.len() == 0 {
        0
    } else {
        occurrences(keys.drop_last(), key) + if keys.last() == key {
            1nat
        } else {
            0nat
        }
    }
}

/// Every one of `keys` has a record in `ledger`.
pub open spec fn all_found(ledger: Ledger, keys: Seq<Pubkey>) -> bool {
    forall|i: int| 0 <= i < keys.len() ==> ledger.contains_key(#[trigger] keys[i])
}

/// `caller` is the authority of the record under every one of `keys`.
pub open spec fn all_controlled(ledger: Ledger, keys: Seq<Pubkey>, caller: Pubkey) -> bool {
    forall|i: int| 0 <= i < keys.len() ==> (#[trigger] ledger[keys[i]]).authority == caller
}

/// The weights of the records under `keys`, in the order of `keys`.
pub open spec fn weights_of(ledger: Ledger, keys: Seq<Pubkey>) -> Seq<u32> {
    Seq::new(keys.len(), |i: int| ledger[keys[i]].weight)
}

/// The outcome of a create: the new key, unless a record is stored under
/// it already.
pub open spec fn create_verdict(ledger: Ledger, ctx: CreateCrate) -> Result<Pubkey, LedgerError> {
    if ledger.contains_key(ctx.crate_record) {
        Err(LedgerError::Storage(StoreError::KeyAlreadyExists))
    } else {
        Ok(ctx.crate_record)
    }
}

/// The outcome of a transfer that names `weight`. The parent is read, then
/// the caller is held against its authority, then the weight against its
/// weight, and last the new key against the store.
pub open spec fn transfer_verdict(ledger: Ledger, ctx: TransferOwnership, weight: u32) -> Result<
    Pubkey,
    LedgerError,
> {
    if !ledger.contains_key(ctx.parent_crate) {
        Err(LedgerError::Storage(StoreError::NotFound))
    } else if ledger[ctx.parent_crate].authority != ctx.authority {
        Err(LedgerError::Rejected(ErrorCode::UnauthorizedUpdate))
    } else if ledger[ctx.parent_crate].weight != weight {
        Err(LedgerError::Rejected(ErrorCode::WeightMismatchOnTransfer))
    } else if ledger.contains_key(ctx.crate_record) {
        Err(LedgerError::Storage(StoreError::KeyAlreadyExists))
    } else {
        Ok(ctx.crate_record)
    }
}

/// The outcome of a mix of the records under `parent_keys`. All parents are
/// read, then the caller is held against the authority of each, then their
/// number against the bounds, then the sum of their weights against the
/// largest weight, and last the new key against the store.
pub open spec fn mix_verdict(ledger: Ledger, ctx: MixCrates, parent_keys: Seq<Pubkey>) -> Result<
    Pubkey,
    LedgerError,
> {
    if !all_found(ledger, parent_keys) {
        Err(LedgerError::Storage(StoreError::NotFound))
    } else if !all_controlled(ledger, parent_keys, ctx.authority) {
        Err(LedgerError::Rejected(ErrorCode::UnauthorizedUpdate))
    } else if parent_keys.len() < 2 {
        Err(LedgerError::Rejected(ErrorCode::MixRequiresMultipleParents))
    } else if parent_keys.len() > CrateRecord::MAX_PARENTS {
        Err(LedgerError::Rejected(ErrorCode::TooManyParents))
    } else if weight_sum(weights_of(ledger, parent_keys)) > u32::MAX {
        Err(LedgerError::Rejected(ErrorCode::WeightOverflow))
    } else if ledger.contains_key(ctx.crate_record) {
        Err(LedgerError::Storage(StoreError::KeyAlreadyExists))
    } else {
        Ok(ctx.crate_record)
    }
}

/// The outcome of a split into `child_keys` with `child_weights`. The parent
/// is read, then the caller is held against its authority, then the number
/// of children against the bounds and against the number of weights, then
/// the sum of the weights against the parent's weight, and last the new key
/// against the store.
pub open spec fn split_verdict(
    ledger: Ledger,
    ctx: SplitCrate,
    child_keys: Seq<Pubkey>,
    child_weights: Seq<u32>,
) -> Result<Pubkey, LedgerError> {
    if !ledger.contains_key(ctx.parent_crate) {
        Err(LedgerError::Storage(StoreError::NotFound))
    } else if ledger[ctx.parent_crate].authority != ctx.authority {
        Err(LedgerError::Rejected(ErrorCode::UnauthorizedUpdate))
    } else if child_keys.len() < 2 {
        Err(LedgerError::Rejected(ErrorCode::SplitRequiresMultipleChildren))
    } else if child_keys.len() > CrateRecord::MAX_CHILDREN {
        Err(LedgerError::Rejected(ErrorCode::TooManyChildren))
    } else if child_keys.len() != child_weights.len() {
        Err(LedgerError::Rejected(ErrorCode::ChildKeyWeightMismatch))
    } else if weight_sum(child_weights) != ledger[ctx.parent_crate].weight {
        Err(LedgerError::Rejected(ErrorCode::SplitWeightMismatch))
    } else if ledger.contains_key(ctx.crate_record) {
        Err(LedgerError::Storage(StoreError::KeyAlreadyExists))
    } else {
        Ok(ctx.crate_record)
    }
}

/// The outcome of a repair of the links of the record under `key`, asked
/// for by `caller`.
pub open spec fn repair_verdict(ledger: Ledger, key: Pubkey, caller: Pubkey) -> Result<
    (),
    LedgerError,
> {
    if !ledger.contains_key(key) {
        Err(LedgerError::Storage(StoreError::NotFound))
    } else if ledger[key].authority != caller {
        Err(LedgerError::Rejected(ErrorCode::UnauthorizedUpdate))
    } else {
        Ok(())
    }
}

/// The ledger after a repair of a parent's child links: on success the
/// parent's `child_crates` is `child_keys`, and nothing else has changed.
pub open spec fn after_update_parent(ledger: Ledger, ctx: UpdateParent, child_keys: Seq<Pubkey>) -> Ledger {
    match repair_verdict(ledger, ctx.parent_crate, ctx.authority) {
        Ok(_) => ledger.insert(
            ctx.parent_crate,
            CrateRecordView { child_crates: child_keys, ..ledger[ctx.parent_crate] },
        ),
        Err(_) => ledger,
    }
}

/// The ledger after a repair of a child's parent links: on success the
/// child's `parent_crates` holds `parent_key`, at the end if it was not
/// there before, and nothing else has changed.
pub open spec fn after_update_child(ledger: Ledger, ctx: UpdateChild, parent_key: Pubkey) -> Ledger {
    match repair_verdict(ledger, ctx.child_crate, ctx.authority) {
        Ok(_) => ledger.insert(
            ctx.child_crate,
            CrateRecordView {
                parent_crates: with_parent_link(ledger[ctx.child_crate].parent_crates, parent_key),
                ..ledger[ctx.child_crate]
            },
        ),
        Err(_) => ledger,
    }
}

/// The ledger after an operation that mints `record` on success.
pub open spec fn after_mint(
    ledger: Ledger,
    verdict: Result<Pubkey, LedgerError>,
    record: CrateRecordView,
) -> Ledger {
    match verdict {
        Ok(key) => ledger.insert(key, record),
        Err(_) => ledger,
    }
}

/// Every record of `before` is still in `after`, under the same key, and
/// at most its two lists of links have changed.
pub open spec fn identities_preserved(before: Ledger, after: Ledger) -> bool {
    forall|key: Pubkey| #[trigger]
        before.contains_key(key) ==> after.contains_key(key) && before[key].same_but_links(
            after[key],
        )
}

/// Every record of `ledger` has a lineage that accounts for its weight.
pub open spec fn ledger_consistent(ledger: Ledger) -> bool {
    forall|key: Pubkey| #[trigger] ledger.contains_key(key) ==> ledger[key].lineage_consistent()
}

} // verus!
