use vstd::prelude::*;

verus! {

/// The reasons for which the ledger's rules refuse an operation.
#[derive(Clone, Copy, Debug, PartialEq, Eq, Structural)]
pub enum ErrorCode {
    /// A transfer named a weight other than the parent's.
    WeightMismatchOnTransfer,
    /// A mix named fewer than two parents.
    MixRequiresMultipleParents,
    /// A split named fewer than two children.
    SplitRequiresMultipleChildren,
    /// A mix named more parents than a record can hold.
    TooManyParents,
    /// A split named more children than a record can hold.
    TooManyChildren,
    /// A split named a different number of child keys than of child weights.
    ChildKeyWeightMismatch,
    /// The child weights of a split do not add up to the parent's weight.
    SplitWeightMismatch,
    /// The parent weights of a mix do not fit in a weight.
    WeightOverflow,
    /// The caller is not the authority of a record the operation reads.
    UnauthorizedUpdate,
}

/// The reasons for which the record store refuses a request.
#[derive(Clone, Copy, Debug, PartialEq, Eq, Structural)]
pub enum StoreError {
    /// A record is already stored under the key.
    KeyAlreadyExists,
    /// No record is stored under the key.
    NotFound,
}

/// Why an operation on the ledger failed: refused by a rule, or by the store.
#[derive(Clone, Copy, Debug, PartialEq, Eq, Structural)]
pub enum LedgerError {
    Rejected(ErrorCode),
    Storage(StoreError),
}

impl ErrorCode {
    /// The text that `message` returns for each code.
    pub open spec fn message_text(self) -> Seq<char> {
        match self {
            ErrorCode::WeightMismatchOnTransfer => "Weight must remain the same during transfer"@,
            ErrorCode::MixRequiresMultipleParents => "Mix requires at least 2 parents"@,
            ErrorCode::SplitRequiresMultipleChildren => "Split requires at least 2 children"@,
            ErrorCode::TooManyParents => "Too many parents (max 10)"@,
            ErrorCode::TooManyChildren => "Too many children (max 10)"@,
            ErrorCode::ChildKeyWeightMismatch => "Child key/weight mismatch"@,
            ErrorCode::SplitWeightMismatch => "Split weights do not sum to parent weight"@,
            ErrorCode::WeightOverflow => "Weight overflow"@,
            ErrorCode::UnauthorizedUpdate => "Unauthorized update attempt"@,
        }
    }

    /// A sentence for people that says what went wrong.
    pub fn message(&self) -> (text: &'static str)
        ensures
            text@ == self.message_text(),
    {
        match self {
            ErrorCode::WeightMismatchOnTransfer => "Weight must remain the same during transfer",
            ErrorCode::MixRequiresMultipleParents => "Mix requires at least 2 parents",
            ErrorCode::SplitRequiresMultipleChildren => "Split requires at least 2 children",
            ErrorCode::TooManyParents => "Too many parents (max 10)",
            ErrorCode::TooManyChildren => "Too many children (max 10)",
            ErrorCode::ChildKeyWeightMismatch => "Child key/weight mismatch",
            ErrorCode::SplitWeightMismatch => "Split weights do not sum to parent weight",
            ErrorCode::WeightOverflow => "Weight overflow",
            ErrorCode::UnauthorizedUpdate => "Unauthorized update attempt",
        }
    }
}

} // verus!
