//! Recording a purchase of credits.

use vstd::prelude::*;
use crate::error::GameError;
use crate::state::user_account::UserAccount;

verus! {

/// Records a purchase of credits. The balance is kept elsewhere: the
/// record is checked and left as it is. Refused with `InvalidPayload`
/// when the identity is longer than 64 bytes.
pub fn handler(user_account: &UserAccount, user_id: &[u8], ac_amount: u64) -> (r: Result<
    u64,
    GameError,
>)
    ensures
        user_id@.len() <= 64 ==> r == Ok::<u64, GameError>(ac_amount),
        user_id@.len() > 64 ==> r == Err::<u64, GameError>(GameError::InvalidPayload),
{
    if user_id.len() > 64 {
        return Err(GameError::InvalidPayload);
    }
    Ok(ac_amount)
}

} // verus!
