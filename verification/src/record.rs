use vstd::prelude::*;

use crate::key::Pubkey;
use crate::weights::weight_sum;

verus! {

/// How a record came into existence. Fixed when the record is minted.
#[derive(Clone, Copy, Debug, PartialEq, Eq, Structural)]
pub enum OperationType {
    Created,
    Transferred,
    Mixed,
    Split,
}

/// One entry of the provenance ledger: a crate as it stood after one event.
#[derive(Clone, Debug)]
pub struct CrateRecord {
    /// The party that controls this record.
    pub authority: Pubkey,
    pub crate_id: String,
    /// Decentralized identifier of the crate.
    pub crate_did: String,
    /// Decentralized identifier of the owner.
    pub owner_did: String,
    /// Decentralized identifier of the device that scanned the crate.
    pub device_did: String,
    pub location: String,
    pub weight: u32,
    pub timestamp: i64,
    pub hash: String,
    pub ipfs_cid: String,
    /// Keys of the records this one descends from.
    pub parent_crates: Vec<Pubkey>,
    /// Keys of the records that descend from this one.
    pub child_crates: Vec<Pubkey>,
    /// The weights of the parents at the time of minting, in the order of
    /// `parent_crates`.
    pub parent_weights: Vec<u32>,
    /// For a split: the weight given to each declared child.
    pub split_distribution: Vec<u32>,
    pub operation_type: OperationType,
}

/// The mathematical value of a `CrateRecord`.
pub struct CrateRecordView {
    pub authority: Pubkey,
    pub crate_id: Seq<char>,
    pub crate_did: Seq<char>,
    pub owner_did: Seq<char>,
    pub device_did: Seq<char>,
    pub location: Seq<char>,
    pub weight: u32,
    pub timestamp: i64,
    pub hash: Seq<char>,
    pub ipfs_cid: Seq<char>,
    pub parent_crates: Seq<Pubkey>,
    pub child_crates: Seq<Pubkey>,
    pub parent_weights: Seq<u32>,
    pub split_distribution: Seq<u32>,
    pub operation_type: OperationType,
}

impl View for CrateRecord {
    type V = CrateRecordView;

    open spec fn view(&self) -> CrateRecordView {
        CrateRecordView {
            authority: self.authority,
            crate_id: self.crate_id@,
            crate_did: self.crate_did@,
            owner_did: self.owner_did@,
            device_did: self.device_did@,
            location: self.location@,
            weight: self.weight,
            timestamp: self.timestamp,
            hash: self.hash@,
            ipfs_cid: self.ipfs_cid@,
            parent_crates: self.parent_crates@,
            child_crates: self.child_crates@,
            parent_weights: self.parent_weights@,
            split_distribution: self.split_distribution@,
            operation_type: self.operation_type,
        }
    }
}

impl CrateRecord {
    /// The most parents a mix may name.
    pub const MAX_PARENTS: usize = 10;

    /// The most children a split may name.
    pub const MAX_CHILDREN: usize = 10;

    /// Bytes reserved for a stored record: the authority, seven strings of up
    /// to 64 bytes behind a length prefix, weight and timestamp, four
    /// prefixed lists of up to ten entries, and the operation tag.
    pub const MAX_SIZE: usize = 32
        + (4 + 64) + (4 + 64) + (4 + 64) + (4 + 64) + (4 + 64)
        + (4 + 8)
        + (4 + 64) + (4 + 64)
        + (4 + CrateRecord::MAX_PARENTS * 32)
        + (4 + CrateRecord::MAX_CHILDREN * 32)
        + (4 + CrateRecord::MAX_PARENTS * 4)
        + (4 + CrateRecord::MAX_CHILDREN * 4)
        + 1;
}

impl CrateRecordView {
    /// Everything about a record but its two lists of links is the same in
    /// `self` and `other`.
    pub open spec fn same_but_links(self, other: CrateRecordView) -> bool {
        other == (CrateRecordView {
            parent_crates: other.parent_crates,
            child_crates: other.child_crates,
            ..self
        })
    }

    /// What every minting operation establishes of the record it writes:
    /// one recorded weight per parent, and the lineage its operation calls
    /// for.
    pub open spec fn well_formed(self) -> bool {
        &&& self.parent_crates.len() == self.parent_weights.len()
        &&& self.lineage_consistent()
        &&& match self.operation_type {
            OperationType::Split => self.child_crates.len() == self.split_distribution.len(),
            _ => self.child_crates.len() == 0,
        }
    }

    /// What holds of a record from minting on, whatever links are repaired
    /// later: the recorded weights belong to the first parents, and they
    /// account for the weight as the operation demands.
    pub open spec fn lineage_consistent(self) -> bool {
        &&& self.parent_weights.len() <= self.parent_crates.len()
        &&& match self.operation_type {
            OperationType::Created => {
                &&& self.parent_weights.len() == 0
                &&& self.split_distribution.len() == 0
            },
            OperationType::Transferred => {
                &&& self.parent_weights == seq![self.weight]
                &&& self.split_distribution.len() == 0
            },
            OperationType::Mixed => {
                &&& 2 <= self.parent_weights.len() <= CrateRecord::MAX_PARENTS
                &&& weight_sum(self.parent_weights) == self.weight
                &&& self.split_distribution.len() == 0
            },
            OperationType::Split => {
                &&& self.parent_weights.len() == 1
                &&& 2 <= self.split_distribution.len() <= CrateRecord::MAX_CHILDREN
                &&& weight_sum(self.split_distribution) == self.parent_weights[0]
            },
        }
    }
}

} // verus!
