//! The parameters of the economy, passed explicitly to whoever needs them.

use vstd::prelude::*;

verus! {

/// The configuration record in its stored layout.
#[derive(Clone, Copy, Debug)]
pub struct ConfigAccount {
    /// The identity that may update the configuration.
    pub authority: [u8; 32],
    /// Price of one credit, as the eight bytes of a binary64 number, low
    /// byte first. The library stores these bytes and does not read them.
    pub ac_price_usd: [u8; 8],
    /// Price of one credit in the host's smallest unit.
    pub ac_price_lamports: u64,
    /// Points granted per daily login.
    pub gp_daily_amount: u64,
    /// Points that starting a game costs.
    pub gp_cost_per_game: u32,
    /// Points granted per advertisement watched.
    pub gp_per_ad: u32,
    /// Most advertisements per day.
    pub max_daily_ads: u8,
    /// Highest point balance.
    pub max_gp_balance: u64,
    /// Seconds that must pass between two advertisements.
    pub ad_cooldown_seconds: i64,
    /// Multiplier of the daily grant for subscribers.
    pub pro_gp_multiplier: u8,
    /// The least stake with which a dispute can be filed.
    pub dispute_deposit_gp: u32,
    /// Cost per thousand tokens, per model.
    pub ai_model_costs: [u32; 10],
    /// The season that is running.
    pub current_season_id: u64,
    /// Length of a season in seconds.
    pub season_duration_seconds: i64,
    /// Creation time.
    pub created_at: i64,
    /// Time of the last update.
    pub last_updated: i64,
}

impl ConfigAccount {
    /// The byte-size ceiling of a stored configuration.
    pub const MAX_SIZE: usize = 8 + 32 + 8 + 8 + 8 + 4 + 4 + 1 + 8 + 8 + 1 + 4 + (4 * 10) + 8 + 8 + 8
        + 8;
}

} // verus!
