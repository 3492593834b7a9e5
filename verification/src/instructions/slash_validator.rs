//! Slashing a validator's bond.

use vstd::prelude::*;
use crate::bytes::bytes_equal;
use crate::error::GameError;
use crate::state::config_account::ConfigAccount;
use crate::state::validator_reputation::ValidatorReputation;

verus! {

/// The reason code of malicious behaviour.
pub const REASON_MALICIOUS: u8 = 0;

/// The reason code of negligence.
pub const REASON_NEGLIGENT: u8 = 1;

/// The reason code of inactivity.
pub const REASON_INACTIVE: u8 = 2;

/// The share of the reputation, in percent, that a slash for `reason`
/// takes away: 50 for malice, 20 for negligence, 10 for inactivity.
pub open spec fn penalty_percent(reason: u8) -> u8 {
    if reason == REASON_MALICIOUS {
        50
    } else if reason == REASON_NEGLIGENT {
        20
    } else if reason == REASON_INACTIVE {
        10
    } else {
        0
    }
}

/// Whether a slash is taken: the caller signed and is the configured
/// authority, the amount is positive, the reason is known, the record is
/// the validator's, and the bond covers the amount.
pub open spec fn slash_check(
    account: ValidatorReputation,
    authority: Seq<u8>,
    caller: Seq<u8>,
    caller_signed: bool,
    validator: Seq<u8>,
    amount: u64,
    reason: u8,
) -> Result<(), GameError> {
    if !caller_signed {
        Err(GameError::Unauthorized)
    } else if caller != authority {
        Err(GameError::Unauthorized)
    } else if amount == 0 {
        Err(GameError::InvalidPayload)
    } else if reason > REASON_INACTIVE {
        Err(GameError::InvalidPayload)
    } else if account.validator@ != validator {
        Err(GameError::InvalidPayload)
    } else if account.stake < amount {
        Err(GameError::InsufficientFunds)
    } else {
        Ok(())
    }
}

/// Deducts `amount` from a validator's bond and returns the share of the
/// reputation, in percent, that the caller is to take away. Only the
/// configured authority may.
pub fn handler(
    validator_account: &mut ValidatorReputation,
    config: &ConfigAccount,
    caller: &[u8; 32],
    caller_signed: bool,
    validator: &[u8; 32],
    amount: u64,
    reason: u8,
) -> (r: Result<u8, GameError>)
    ensures
        match slash_check(
            *old(validator_account),
            config.authority@,
            caller@,
            caller_signed,
            validator@,
            amount,
            reason,
        ) {
            Ok(_) => r is Ok && r->Ok_0 == penalty_percent(reason) && *final(validator_account) == (
            ValidatorReputation {
                stake: (old(validator_account).stake - amount) as u64,
                ..*old(validator_account)
            }),
            Err(e) => r is Err && r->Err_0 == e && *final(validator_account) == *old(
                validator_account,
            ),
        },
{
    if !caller_signed {
        return Err(GameError::Unauthorized);
    }
    if !bytes_equal(caller, &config.authority) {
        return Err(GameError::Unauthorized);
    }
    if amount == 0 {
        return Err(GameError::InvalidPayload);
    }
    if reason > REASON_INACTIVE {
        return Err(GameError::InvalidPayload);
    }
    if !bytes_equal(&validator_account.validator, validator) {
        return Err(GameError::InvalidPayload);
    }
    if validator_account.stake < amount {
        return Err(GameError::InsufficientFunds);
    }
    validator_account.stake = validator_account.stake - amount;
    let percent: u8 = if reason == REASON_MALICIOUS {
        50
    } else if reason == REASON_NEGLIGENT {
        20
    } else {
        10
    };
    Ok(percent)
}

} // verus!
