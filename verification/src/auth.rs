//! The authorization check: whether a caller holds the role that an
//! operation is reserved to.

use vstd::prelude::*;
use crate::types::{AccountId, Error};

verus! {

/// What a caller gets who asks for an operation that is reserved to
/// `holder`: leave to go on if the caller is that account, else
/// `Unauthorized`.
pub open spec fn authorized(caller: AccountId, holder: AccountId) -> Result<(), Error> {
    if caller == holder {
        Ok(())
    } else {
        Err(Error::Unauthorized)
    }
}

/// Checks that `caller` is `holder`, the deposit manager or arbitrator that
/// an operation is reserved to.
pub fn authorize(caller: AccountId, holder: AccountId) -> (checked: Result<(), Error>)
    ensures
        checked == authorized(caller, holder),
        checked is Ok <==> caller == holder,
{
    if caller == holder {
        Ok(())
    } else {
        Err(Error::Unauthorized)
    }
}

} // verus!
