//! Buying or extending a subscription.

use vstd::prelude::*;
use crate::error::GameError;
use crate::state::user_account::{UserAccount, SECONDS_PER_DAY};

verus! {

/// The tiers of subscription.
#[derive(Clone, Copy, Debug, PartialEq, Eq, Structural)]
pub enum SubscriptionTier {
    Free,
    Pro,
    ProPlus,
}

/// The stored code of the free tier.
pub const TIER_FREE: u8 = 0;

/// The highest stored tier code.
pub const TIER_PRO_PLUS: u8 = 2;

impl SubscriptionTier {
    /// The tier that a code stands for, if any.
    pub open spec fn spec_from_code(code: u8) -> Option<SubscriptionTier> {
        if code == 0 {
            Some(SubscriptionTier::Free)
        } else if code == 1 {
            Some(SubscriptionTier::Pro)
        } else if code == 2 {
            Some(SubscriptionTier::ProPlus)
        } else {
            None
        }
    }

    /// The tier that a code stands for, if any.
    pub fn from_code(code: u8) -> (t: Option<SubscriptionTier>)
        ensures
            t == Self::spec_from_code(code),
    {
        match code {
            0 => Some(SubscriptionTier::Free),
            1 => Some(SubscriptionTier::Pro),
            2 => Some(SubscriptionTier::ProPlus),
            _ => None,
        }
    }
}

/// The time from which a purchase counts: the current expiry while the
/// subscription still runs, else now.
pub open spec fn subscription_base(user: UserAccount, now: i64) -> i64 {
    if user.subscription_expiry > now {
        user.subscription_expiry
    } else {
        now
    }
}

/// Whether a subscription may be bought: the tier is a paid one, and the
/// new expiry can be represented.
pub open spec fn subscription_check(user: UserAccount, user_id: Seq<u8>, tier: u8, duration_days: u8, now: i64) -> Result<
    (),
    GameError,
> {
    if user_id.len() > 64 {
        Err(GameError::InvalidPayload)
    } else if tier == TIER_FREE || tier > TIER_PRO_PLUS {
        Err(GameError::InvalidTier)
    } else if subscription_base(user, now) + duration_days * SECONDS_PER_DAY > i64::MAX {
        Err(GameError::Overflow)
    } else {
        Ok(())
    }
}

/// Buys a subscription of `duration_days`, or extends the running one by
/// them, and sets the tier.
pub fn handler(user_account: &mut UserAccount, user_id: &[u8], tier: u8, duration_days: u8, now: i64) -> (r:
    Result<(), GameError>)
    ensures
        match subscription_check(*old(user_account), user_id@, tier, duration_days, now) {
            Ok(_) => r is Ok && *final(user_account) == (UserAccount {
                subscription_expiry: (subscription_base(*old(user_account), now) + duration_days
                    * SECONDS_PER_DAY) as i64,
                subscription_tier: tier,
                ..*old(user_account)
            }),
            Err(e) => r is Err && r->Err_0 == e && *final(user_account) == *old(user_account),
        },
{
    if user_id.len() > 64 {
        return Err(GameError::InvalidPayload);
    }
    match SubscriptionTier::from_code(tier) {
        None => {
            return Err(GameError::InvalidTier);
        },
        Some(SubscriptionTier::Free) => {
            return Err(GameError::InvalidTier);
        },
        Some(_) => {},
    }
    let duration_seconds: i64 = duration_days as i64 * SECONDS_PER_DAY;
    let base = if user_account.subscription_expiry > now {
        user_account.subscription_expiry
    } else {
        now
    };
    let expiry = match base.checked_add(duration_seconds) {
        Some(e) => e,
        None => {
            return Err(GameError::Overflow);
        },
    };
    user_account.subscription_expiry = expiry;
    user_account.subscription_tier = tier;
    Ok(())
}

} // verus!
