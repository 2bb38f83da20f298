use vstd::prelude::*;

use crate::context::{MixCrates, SplitCrate, TransferOwnership, UpdateChild, UpdateParent};
use crate::errors::{ErrorCode, LedgerError};
use crate::key::Pubkey;
use crate::model::{
    after_mint, after_update_child, after_update_parent, all_controlled, all_found,
    identities_preserved, mix_verdict, mixed_record, occurrences, repair_verdict, split_verdict,
    transfer_verdict, weights_of, with_parent_link, Description, Ledger,
};
use crate::record::{CrateRecord, CrateRecordView};
use crate::weights::weight_sum;

verus! {

/// A mix conserves weight. Whenever it succeeds, the record it mints weighs
/// exactly the sum of its parents' weights. Whenever that sum is more than
/// a weight can hold, the mix fails and the ledger stays as it was; and
/// where the parents exist, the caller controls them and their number is
/// within bounds, the failure is `WeightOverflow`.
pub proof fn law_mix_conserves_weight(
    ledger: Ledger,
    ctx: MixCrates,
    description: Description,
    timestamp: i64,
    parent_keys: Seq<Pubkey>,
)
    ensures
        ({
            let weights = weights_of(ledger, parent_keys);
            let verdict = mix_verdict(ledger, ctx, parent_keys);
            let minted = mixed_record(ctx.authority, description, timestamp, parent_keys, weights);
            let after = after_mint(ledger, verdict, minted);
            &&& verdict is Ok ==> after[ctx.crate_record].weight == weight_sum(weights)
            &&& weight_sum(weights) > u32::MAX ==> verdict is Err && after == ledger
            &&& weight_sum(weights) > u32::MAX && all_found(ledger, parent_keys) && all_controlled(
                ledger,
                parent_keys,
                ctx.authority,
            ) && 2 <= parent_keys.len() <= CrateRecord::MAX_PARENTS ==> verdict == Err::<
                Pubkey,
                LedgerError,
            >(LedgerError::Rejected(ErrorCode::WeightOverflow))
        }),
{
}

/// A split conserves weight. Where the parent exists, the caller controls
/// it, between two and ten children are named with one weight each, and the
/// new key is free, the split succeeds exactly when the child weights add
/// up to the parent's weight. Where they add up to anything else, it fails
/// with `SplitWeightMismatch` and the ledger stays as it was.
pub proof fn law_split_conserves_weight(
    ledger: Ledger,
    ctx: SplitCrate,
    minted: CrateRecordView,
    child_keys: Seq<Pubkey>,
    child_weights: Seq<u32>,
)
    requires
        ledger.contains_key(ctx.parent_crate),
        ledger[ctx.parent_crate].authority == ctx.authority,
        2 <= child_keys.len() <= CrateRecord::MAX_CHILDREN,
        child_keys.len() == child_weights.len(),
    ensures
        ({
            let verdict = split_verdict(ledger, ctx, child_keys, child_weights);
            let parent_weight = ledger[ctx.parent_crate].weight;
            &&& weight_sum(child_weights) == parent_weight && !ledger.contains_key(ctx.crate_record)
                ==> verdict == Ok::<Pubkey, LedgerError>(ctx.crate_record)
            &&& weight_sum(child_weights) != parent_weight ==> verdict == Err::<
                Pubkey,
                LedgerError,
            >(LedgerError::Rejected(ErrorCode::SplitWeightMismatch)) && after_mint(
                ledger,
                verdict,
                minted,
            ) == ledger
        }),
{
}

/// A transfer cannot change the weight. Naming a weight other than the
/// parent's never succeeds, and fails with `WeightMismatchOnTransfer` where
/// the caller controls the parent.
pub proof fn law_transfer_keeps_weight(ledger: Ledger, ctx: TransferOwnership, weight: u32)
    requires
        ledger.contains_key(ctx.parent_crate),
        weight != ledger[ctx.parent_crate].weight,
    ensures
        transfer_verdict(ledger, ctx, weight) is Err,
        ledger[ctx.parent_crate].authority == ctx.authority ==> transfer_verdict(
            ledger,
            ctx,
            weight,
        ) == Err::<Pubkey, LedgerError>(LedgerError::Rejected(ErrorCode::WeightMismatchOnTransfer)),
{
}

/// Authority is enforced on a transfer: a caller other than the parent's
/// authority gets `UnauthorizedUpdate`, whatever else it asks for.
pub proof fn law_transfer_needs_authority(ledger: Ledger, ctx: TransferOwnership, weight: u32)
    requires
        ledger.contains_key(ctx.parent_crate),
        ledger[ctx.parent_crate].authority != ctx.authority,
    ensures
        transfer_verdict(ledger, ctx, weight) == Err::<Pubkey, LedgerError>(
            LedgerError::Rejected(ErrorCode::UnauthorizedUpdate),
        ),
{
}

/// Authority is enforced on a mix: where one of the parents has an
/// authority other than the caller, the caller gets `UnauthorizedUpdate`,
/// whatever else it asks for.
pub proof fn law_mix_needs_authority(
    ledger: Ledger,
    ctx: MixCrates,
    parent_keys: Seq<Pubkey>,
    i: int,
)
    requires
        all_found(ledger, parent_keys),
        0 <= i < parent_keys.len(),
        ledger[parent_keys[i]].authority != ctx.authority,
    ensures
        mix_verdict(ledger, ctx, parent_keys) == Err::<Pubkey, LedgerError>(
            LedgerError::Rejected(ErrorCode::UnauthorizedUpdate),
        ),
{
}

/// Authority is enforced on a split: a caller other than the parent's
/// authority gets `UnauthorizedUpdate`, whatever else it asks for.
pub proof fn law_split_needs_authority(
    ledger: Ledger,
    ctx: SplitCrate,
    child_keys: Seq<Pubkey>,
    child_weights: Seq<u32>,
)
    requires
        ledger.contains_key(ctx.parent_crate),
        ledger[ctx.parent_crate].authority != ctx.authority,
    ensures
        split_verdict(ledger, ctx, child_keys, child_weights) == Err::<Pubkey, LedgerError>(
            LedgerError::Rejected(ErrorCode::UnauthorizedUpdate),
        ),
{
}

/// Authority is enforced on both repairs of links: a caller other than the
/// authority of the record to repair gets `UnauthorizedUpdate`, and the
/// ledger stays as it was.
pub proof fn law_repair_needs_authority(
    ledger: Ledger,
    to_parent: UpdateParent,
    child_keys: Seq<Pubkey>,
    to_child: UpdateChild,
    parent_key: Pubkey,
)
    ensures
        ledger.contains_key(to_parent.parent_crate) && ledger[to_parent.parent_crate].authority
            != to_parent.authority ==> {
            &&& repair_verdict(ledger, to_parent.parent_crate, to_parent.authority) == Err::<
                (),
                LedgerError,
            >(LedgerError::Rejected(ErrorCode::UnauthorizedUpdate))
            &&& after_update_parent(ledger, to_parent, child_keys) == ledger
        },
        ledger.contains_key(to_child.child_crate) && ledger[to_child.child_crate].authority
            != to_child.authority ==> {
            &&& repair_verdict(ledger, to_child.child_crate, to_child.authority) == Err::<
                (),
                LedgerError,
            >(LedgerError::Rejected(ErrorCode::UnauthorizedUpdate))
            &&& after_update_child(ledger, to_child, parent_key) == ledger
        },
{
}

/// The bounds of a mix are enforced: of parents that exist and that the
/// caller controls, fewer than two give `MixRequiresMultipleParents` and
/// more than ten give `TooManyParents`.
pub proof fn law_mix_bounds(ledger: Ledger, ctx: MixCrates, parent_keys: Seq<Pubkey>)
    requires
        all_found(ledger, parent_keys),
        all_controlled(ledger, parent_keys, ctx.authority),
    ensures
        parent_keys.len() < 2 ==> mix_verdict(ledger, ctx, parent_keys) == Err::<
            Pubkey,
            LedgerError,
        >(LedgerError::Rejected(ErrorCode::MixRequiresMultipleParents)),
        parent_keys.len() > CrateRecord::MAX_PARENTS ==> mix_verdict(ledger, ctx, parent_keys) == Err::<
            Pubkey,
            LedgerError,
        >(LedgerError::Rejected(ErrorCode::TooManyParents)),
{
}

/// The bounds of a split are enforced: of a parent that exists and that the
/// caller controls, fewer than two children give
/// `SplitRequiresMultipleChildren`, more than ten give `TooManyChildren`,
/// and a number of children within bounds that is not the number of weights
/// gives `ChildKeyWeightMismatch`.
pub proof fn law_split_bounds(
    ledger: Ledger,
    ctx: SplitCrate,
    child_keys: Seq<Pubkey>,
    child_weights: Seq<u32>,
)
    requires
        ledger.contains_key(ctx.parent_crate),
        ledger[ctx.parent_crate].authority == ctx.authority,
    ensures
        child_keys.len() < 2 ==> split_verdict(ledger, ctx, child_keys, child_weights) == Err::<
            Pubkey,
            LedgerError,
        >(LedgerError::Rejected(ErrorCode::SplitRequiresMultipleChildren)),
        child_keys.len() > CrateRecord::MAX_CHILDREN ==> split_verdict(ledger, ctx, child_keys, child_weights) == Err::<
            Pubkey,
            LedgerError,
        >(LedgerError::Rejected(ErrorCode::TooManyChildren)),
        2 <= child_keys.len() <= CrateRecord::MAX_CHILDREN && child_keys.len() != child_weights.len() ==> split_verdict(
            ledger,
            ctx,
            child_keys,
            child_weights,
        ) == Err::<Pubkey, LedgerError>(LedgerError::Rejected(ErrorCode::ChildKeyWeightMismatch)),
{
}

/// A key that is not among `keys` occurs there zero times, and one that is
/// among them at least once.
pub proof fn lemma_occurrences_contains(keys: Seq<Pubkey>, key: Pubkey)
    ensures
        keys.contains(key) <==> occurrences(keys, key) >= 1,
    decreases keys.len(),
{
    if keys.len() > 0 {
        let front = keys.drop_last();
        lemma_occurrences_contains(front, key);
        if front.contains(key) {
            let i = choose|i: int| 0 <= i < front.len() && front[i] == key;
            assert(keys[i] == key);
        }
        if keys.contains(key) && keys.last() != key {
            let i = choose|i: int| 0 <= i < keys.len() && keys[i] == key;
            assert(front[i] == key);
        }
        if keys.last() == key {
            assert(keys[keys.len() - 1] == key);
        }
    }
}

/// Repairing a child's link to the same parent twice does what repairing it
/// once does: the second call changes nothing. Where the key occurred among
/// the child's parents at most once before, it occurs exactly once after.
pub proof fn law_child_link_repair_is_idempotent(
    ledger: Ledger,
    ctx: UpdateChild,
    parent_key: Pubkey,
)
    ensures
        ({
            let once = after_update_child(ledger, ctx, parent_key);
            let twice = after_update_child(once, ctx, parent_key);
            &&& repair_verdict(once, ctx.child_crate, ctx.authority) == repair_verdict(
                ledger,
                ctx.child_crate,
                ctx.authority,
            )
            &&& twice == once
            &&& repair_verdict(ledger, ctx.child_crate, ctx.authority) is Ok && occurrences(
                ledger[ctx.child_crate].parent_crates,
                parent_key,
            ) <= 1 ==> occurrences(twice[ctx.child_crate].parent_crates, parent_key) == 1
        }),
{
    let once = after_update_child(ledger, ctx, parent_key);
    let twice = after_update_child(once, ctx, parent_key);
    if repair_verdict(ledger, ctx.child_crate, ctx.authority) is Ok {
        let parents = ledger[ctx.child_crate].parent_crates;
        let linked = with_parent_link(parents, parent_key);
        assert(once[ctx.child_crate].parent_crates == linked);
        lemma_occurrences_contains(parents, parent_key);
        if !parents.contains(parent_key) {
            assert(linked.drop_last() =~= parents);
            assert(linked[linked.len() - 1] == parent_key);
        }
        assert(linked.contains(parent_key));
        assert(with_parent_link(linked, parent_key) == linked);
        assert(twice =~= once);
    }
}

/// Minting never touches a record that exists: under a key that was free,
/// a new record leaves every other record as it was.
pub proof fn law_mint_preserves_identities(
    ledger: Ledger,
    verdict: Result<Pubkey, LedgerError>,
    minted: CrateRecordView,
)
    requires
        verdict matches Ok(key) ==> !ledger.contains_key(key),
    ensures
        identities_preserved(ledger, after_mint(ledger, verdict, minted)),
        forall|key: Pubkey| #[trigger]
            ledger.contains_key(key) ==> after_mint(ledger, verdict, minted)[key] == ledger[key],
{
}

/// Repairing links never changes who controls a record, what it says of its
/// crate, its weight, its recorded weights or how it came to be: at most
/// the list of links that was asked for differs.
pub proof fn law_repair_preserves_identities(
    ledger: Ledger,
    to_parent: UpdateParent,
    child_keys: Seq<Pubkey>,
    to_child: UpdateChild,
    parent_key: Pubkey,
)
    ensures
        identities_preserved(ledger, after_update_parent(ledger, to_parent, child_keys)),
        identities_preserved(ledger, after_update_child(ledger, to_child, parent_key)),
{
}

/// What holds of one step holds of any number of steps: a ledger that was
/// reached through operations that each preserve identities has preserved
/// them from the start.
pub proof fn law_identities_preserved_through_steps(first: Ledger, second: Ledger, third: Ledger)
    requires
        identities_preserved(first, second),
        identities_preserved(second, third),
    ensures
        identities_preserved(first, first),
        identities_preserved(first, third),
{
    assert forall|key: Pubkey| #[trigger] first.contains_key(key) implies third.contains_key(key)
        && first[key].same_but_links(third[key]) by {
        assert(second.contains_key(key));
    }
}

} // verus!
