//! Claiming the reward for a watched advertisement.

use vstd::prelude::*;
use crate::error::GameError;
use crate::state::config_account::ConfigAccount;
use crate::state::user_account::UserAccount;

verus! {

/// Whether the reward may be claimed: a proof that the advertisement was
/// watched is present, and the cooldown has passed.
pub open spec fn ad_reward_check(
    user: UserAccount,
    config: ConfigAccount,
    user_id: Seq<u8>,
    ad_verification_signature: Seq<u8>,
    now: i64,
) -> Result<(), GameError> {
    if user_id.len() > 64 {
        Err(GameError::InvalidPayload)
    } else if ad_verification_signature.len() == 0 {
        Err(GameError::InvalidAdVerification)
    } else if now - user.last_ad_watch < config.ad_cooldown_seconds {
        Err(GameError::AdCooldownActive)
    } else if user.lifetime_gp_earned + config.gp_per_ad > u64::MAX {
        Err(GameError::Overflow)
    } else {
        Ok(())
    }
}

/// Grants the reward for a watched advertisement and returns the points
/// granted.
pub fn handler(
    user_account: &mut UserAccount,
    config: &ConfigAccount,
    user_id: &[u8],
    ad_verification_signature: &[u8],
    now: i64,
) -> (r: Result<u64, GameError>)
    ensures
        match ad_reward_check(*old(user_account), *config, user_id@, ad_verification_signature@, now) {
            Ok(_) => r == Ok::<u64, GameError>(config.gp_per_ad as u64) && *final(user_account) == (
            UserAccount {
                last_ad_watch: now,
                lifetime_gp_earned: (old(user_account).lifetime_gp_earned + config.gp_per_ad) as u64,
                ..*old(user_account)
            }),
            Err(e) => r is Err && r->Err_0 == e && *final(user_account) == *old(user_account),
        },
{
    if user_id.len() > 64 {
        return Err(GameError::InvalidPayload);
    }
    if ad_verification_signature.len() == 0 {
        return Err(GameError::InvalidAdVerification);
    }
    if !user_account.can_watch_ad(now, config.ad_cooldown_seconds) {
        return Err(GameError::AdCooldownActive);
    }
    let reward = config.gp_per_ad as u64;
    let lifetime = match user_account.lifetime_gp_earned.checked_add(reward) {
        Some(l) => l,
        None => {
            return Err(GameError::Overflow);
        },
    };
    user_account.last_ad_watch = now;
    user_account.lifetime_gp_earned = lifetime;
    Ok(reward)
}

} // verus!
