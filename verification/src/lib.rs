//! A provenance ledger for physical crates.
//!
//! Each record tells what a crate was after one event: it was created, it
//! changed hands, several crates were mixed into it, or it came out of a
//! split. Records are minted once and never rewritten; only their lists of
//! parent and child links can be repaired later, and only by the record's
//! authority. Weight is conserved: a mix weighs what its parents weigh, and
//! a split gives out exactly what its parent weighs.
//!
//! [`model`] states what every operation does as functions on a
//! mathematical ledger, [`ops`] holds the operations themselves, proved
//! against that model, and [`laws`] the properties that follow.

pub mod context;
pub mod errors;
pub mod guard;
pub mod key;
pub mod laws;
pub mod model;
pub mod ops;
pub mod record;
pub mod store;
pub mod weights;

pub use crate::context::{
    CreateCrate, MixCrates, SplitCrate, TransferOwnership, UpdateChild, UpdateParent,
};
pub use crate::errors::{ErrorCode, LedgerError, StoreError};
pub use crate::guard::require_authority;
pub use crate::key::Pubkey;
pub use crate::ops::{
    create_crate, mix_crates, split_crate, transfer_ownership, update_child_parent,
    update_parent_children,
};
pub use crate::record::{CrateRecord, OperationType};
pub use crate::store::{LinkUpdate, RecordStore};
pub use crate::weights::{sum_with_overflow_check, validate_conservation, WeightError};
