//! Recording the consumption of credits.

use vstd::prelude::*;
use crate::error::GameError;
use crate::state::config_account::ConfigAccount;
use crate::state::user_account::UserAccount;

verus! {

/// Number of models with a configured cost.
pub const MODEL_COUNT: u8 = 10;

/// The credits that a call costs: the model's cost per thousand tokens
/// times the thousands of tokens used.
pub open spec fn credit_cost(config: ConfigAccount, model_id: u8, tokens_used: u32) -> int {
    config.ai_model_costs@[model_id as int] * tokens_used
}

/// Whether the consumption may be recorded, and if so what it costs.
pub open spec fn consume_check(
    user: UserAccount,
    config: ConfigAccount,
    user_id: Seq<u8>,
    model_id: u8,
    tokens_used: u32,
) -> Result<u64, GameError> {
    if user_id.len() > 64 {
        Err(GameError::InvalidPayload)
    } else if model_id >= MODEL_COUNT {
        Err(GameError::InvalidPayload)
    } else if user.api_calls_made == u32::MAX {
        Err(GameError::Overflow)
    } else if user.total_ac_spent + credit_cost(config, model_id, tokens_used) > u64::MAX {
        Err(GameError::Overflow)
    } else {
        Ok(credit_cost(config, model_id, tokens_used) as u64)
    }
}

/// Records one call and what it cost, and returns the cost.
pub fn handler(
    user_account: &mut UserAccount,
    config: &ConfigAccount,
    user_id: &[u8],
    model_id: u8,
    tokens_used: u32,
) -> (r: Result<u64, GameError>)
    ensures
        match consume_check(*old(user_account), *config, user_id@, model_id, tokens_used) {
            Ok(cost) => r == Ok::<u64, GameError>(cost) && *final(user_account) == (UserAccount {
                api_calls_made: (old(user_account).api_calls_made + 1) as u32,
                total_ac_spent: (old(user_account).total_ac_spent + cost) as u64,
                ..*old(user_account)
            }),
            Err(e) => r is Err && r->Err_0 == e && *final(user_account) == *old(user_account),
        },
{
    if user_id.len() > 64 {
        return Err(GameError::InvalidPayload);
    }
    if model_id >= MODEL_COUNT {
        return Err(GameError::InvalidPayload);
    }
    let per_thousand = config.ai_model_costs[model_id as usize] as u64;
    assert(per_thousand * (tokens_used as u64) <= 0xFFFF_FFFF * 0xFFFF_FFFF) by (nonlinear_arith)
        requires
            per_thousand <= 0xFFFF_FFFF,
            tokens_used <= 0xFFFF_FFFF,
    ;
    let cost: u64 = per_thousand * (tokens_used as u64);
    if user_account.api_calls_made == u32::MAX {
        return Err(GameError::Overflow);
    }
    let spent = match user_account.total_ac_spent.checked_add(cost) {
        Some(s) => s,
        None => {
            return Err(GameError::Overflow);
        },
    };
    user_account.api_calls_made = user_account.api_calls_made + 1;
    user_account.total_ac_spent = spent;
    Ok(cost)
}

} // verus!
