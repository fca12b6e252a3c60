use crate::types::{Address, NftError};
use vstd::prelude::*;

verus! {

/// Succeeds exactly when the acting identity is the required one.
pub fn require_caller(context_caller: &Address, required: &Address) -> (r: Result<(), NftError>)
    ensures
        r is Ok <==> context_caller@ == required@,
        r matches Err(e) ==> e == NftError::Unauthorized,
{
    if context_caller.id == required.id {
        Ok(())
    } else {
        Err(NftError::Unauthorized)
    }
}

} // verus!
