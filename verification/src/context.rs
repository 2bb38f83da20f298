use vstd::prelude::*;

use crate::key::Pubkey;

verus! {

/// The accounts of a create: the key to mint the record under, and the
/// caller, who becomes its authority.
#[derive(Clone, Copy, Debug)]
pub struct CreateCrate {
    pub crate_record: Pubkey,
    pub authority: Pubkey,
}

/// The accounts of a transfer: the key to mint under, the caller, and the
/// record that is handed on.
#[derive(Clone, Copy, Debug)]
pub struct TransferOwnership {
    pub crate_record: Pubkey,
    pub authority: Pubkey,
    pub parent_crate: Pubkey,
}

/// The accounts of a mix: the key to mint under and the caller. The parents
/// are named by the operation's own argument.
#[derive(Clone, Copy, Debug)]
pub struct MixCrates {
    pub crate_record: Pubkey,
    pub authority: Pubkey,
}

/// The accounts of a split: the key to mint under, the caller, and the
/// record that is split.
#[derive(Clone, Copy, Debug)]
pub struct SplitCrate {
    pub crate_record: Pubkey,
    pub authority: Pubkey,
    pub parent_crate: Pubkey,
}

/// The accounts of a repair of a parent's child links.
#[derive(Clone, Copy, Debug)]
pub struct UpdateParent {
    pub parent_crate: Pubkey,
    pub authority: Pubkey,
}

/// The accounts of a repair of a child's parent links.
#[derive(Clone, Copy, Debug)]
pub struct UpdateChild {
    pub child_crate: Pubkey,
    pub authority: Pubkey,
}

} // verus!
