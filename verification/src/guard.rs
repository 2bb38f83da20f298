use vstd::prelude::*;

use crate::errors::ErrorCode;
use crate::key::Pubkey;

verus! {

/// Lets the caller through exactly when it is the recorded authority.
/// Identity is all that counts: there is no delegation.
pub fn require_authority(caller: &Pubkey, authority: &Pubkey) -> (verdict: Result<(), ErrorCode>)
    ensures
        *caller == *authority ==> verdict == Ok::<(), ErrorCode>(()),
        *caller != *authority ==> verdict == Err::<(), ErrorCode>(ErrorCode::UnauthorizedUpdate),
{
    if *caller == *authority {
        Ok(())
    } else {
        Err(ErrorCode::UnauthorizedUpdate)
    }
}

} // verus!
