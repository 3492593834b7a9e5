//! Claiming the daily login reward.

use vstd::prelude::*;
use crate::error::GameError;
use crate::state::config_account::ConfigAccount;
use crate::state::user_account::{UserAccount, SECONDS_PER_DAY};

verus! {

/// The factor by which the daily grant is multiplied: the subscription
/// multiplier while a subscription runs, times the rank multiplier, each
/// at least 1 where it applies.
pub open spec fn daily_multiplier(user: UserAccount, config: ConfigAccount, now: i64) -> int {
    (if user.subscription_expiry > now && user.subscription_tier > 0 {
        config.pro_gp_multiplier as int
    } else {
        1
    }) * (if user.active_multiplier < 1 {
        1
    } else {
        user.active_multiplier as int
    })
}

/// The points that a daily claim grants.
pub open spec fn daily_grant(user: UserAccount, config: ConfigAccount, now: i64) -> int {
    config.gp_daily_amount * daily_multiplier(user, config, now)
}

/// Whether the daily reward may be claimed, and if so how much it is.
pub open spec fn daily_login_check(user: UserAccount, config: ConfigAccount, user_id: Seq<u8>, now: i64) -> Result<
    u64,
    GameError,
> {
    if user_id.len() > 64 {
        Err(GameError::InvalidPayload)
    } else if now - user.last_claim < SECONDS_PER_DAY {
        Err(GameError::DailyClaimCooldown)
    } else if daily_grant(user, config, now) > u64::MAX {
        Err(GameError::Overflow)
    } else if user.lifetime_gp_earned + daily_grant(user, config, now) > u64::MAX {
        Err(GameError::Overflow)
    } else {
        Ok(daily_grant(user, config, now) as u64)
    }
}

/// Grants the daily login reward and returns the points granted.
pub fn handler(user_account: &mut UserAccount, config: &ConfigAccount, user_id: &[u8], now: i64) -> (r:
    Result<u64, GameError>)
    ensures
        match daily_login_check(*old(user_account), *config, user_id@, now) {
            Ok(granted) => r == Ok::<u64, GameError>(granted) && *final(user_account) == (UserAccount {
                last_claim: now,
                lifetime_gp_earned: (old(user_account).lifetime_gp_earned + granted) as u64,
                ..*old(user_account)
            }),
            Err(e) => r is Err && r->Err_0 == e && *final(user_account) == *old(user_account),
        },
{
    if user_id.len() > 64 {
        return Err(GameError::InvalidPayload);
    }
    if !user_account.can_claim_daily(now) {
        return Err(GameError::DailyClaimCooldown);
    }
    let subscription: u64 = if user_account.has_active_subscription(now) {
        config.pro_gp_multiplier as u64
    } else {
        1
    };
    let rank: u64 = if user_account.active_multiplier < 1 {
        1
    } else {
        user_account.active_multiplier as u64
    };
    assert(subscription * rank <= 255 * 255) by (nonlinear_arith)
        requires
            subscription <= 255,
            rank <= 255,
    ;
    let total = subscription * rank;
    let granted = match config.gp_daily_amount.checked_mul(total) {
        Some(g) => g,
        None => {
            return Err(GameError::Overflow);
        },
    };
    let lifetime = match user_account.lifetime_gp_earned.checked_add(granted) {
        Some(l) => l,
        None => {
            return Err(GameError::Overflow);
        },
    };
    user_account.last_claim = now;
    user_account.lifetime_gp_earned = lifetime;
    Ok(granted)
}

} // verus!
