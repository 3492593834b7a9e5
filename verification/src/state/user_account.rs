//! The user record: statistics and aggregates. Spendable balances are kept
//! elsewhere; this record only counts.

use vstd::prelude::*;

verus! {

/// Seconds in a day.
pub const SECONDS_PER_DAY: i64 = 86400;

/// Seconds in a season of seven days.
pub const SECONDS_PER_SEASON: i64 = 604800;

/// The user record in its stored layout.
#[derive(Clone, Copy, Debug)]
pub struct UserAccount {
    /// The identity, null-padded.
    pub user_id: [u8; 64],
    /// Time of the last daily claim; 0 when there was none.
    pub last_claim: i64,
    /// Time of the last advertisement watched; 0 when there was none.
    pub last_ad_watch: i64,
    /// When the subscription runs out; 0 without one.
    pub subscription_expiry: i64,
    /// Subscription tier: 0 free, 1 pro, 2 pro plus.
    pub subscription_tier: u8,
    /// Points earned over the account's lifetime.
    pub lifetime_gp_earned: u64,
    /// Games played.
    pub games_played: u32,
    /// Games won.
    pub games_won: u32,
    /// Current run of wins.
    pub win_streak: u32,
    /// Credits spent over the account's lifetime.
    pub total_ac_spent: u64,
    /// Calls made.
    pub api_calls_made: u32,
    /// Current tier, 0 to 5.
    pub current_tier: u8,
    /// The season that the season figures belong to.
    pub current_season_id: u64,
    /// Score this season.
    pub season_score: u64,
    /// Wins this season.
    pub season_wins: u32,
    /// Games this season.
    pub season_games: u32,
    /// Rank on the leaderboard; 0 when not ranked.
    pub leaderboard_rank: u16,
    /// Reward multiplier that the rank gives.
    pub active_multiplier: u8,
}

/// The tier that lifetime points give: 0 below 1000, then 1, 2, 3, 4 from
/// 1000, 5000, 20000, 50000, and 5 from 100000.
pub open spec fn tier_of(lifetime_gp: u64) -> u8 {
    if lifetime_gp <= 999 {
        0
    } else if lifetime_gp <= 4999 {
        1
    } else if lifetime_gp <= 19999 {
        2
    } else if lifetime_gp <= 49999 {
        3
    } else if lifetime_gp <= 99999 {
        4
    } else {
        5
    }
}

/// The season score: a million per win, plus the win rate in hundredths
/// of a percent.
pub open spec fn score_of(wins: u32, games: u32) -> int {
    wins * 1_000_000 + (if games > 0 {
        (wins * 10_000) / (games as int)
    } else {
        0
    })
}

/// The reward multiplier that a rank gives: 5 for the top 5, 4 to rank 10,
/// 3 to rank 25, 2 to rank 50, else 1.
pub open spec fn multiplier_of(rank: u16) -> u8 {
    if rank == 0 {
        1
    } else if rank <= 5 {
        5
    } else if rank <= 10 {
        4
    } else if rank <= 25 {
        3
    } else if rank <= 50 {
        2
    } else {
        1
    }
}

impl UserAccount {
    /// The byte-size ceiling of a stored user record.
    pub const MAX_SIZE: usize = 8 + 64 + 8 + 8 + 8 + 1 + 8 + 4 + 4 + 4 + 8 + 4 + 1 + 8 + 8 + 4 + 4 + 2
        + 1;

    /// A record without history for an identity.
    pub fn new(user_id: [u8; 64]) -> (u: UserAccount)
        ensures
            u == (UserAccount {
                user_id,
                last_claim: 0,
                last_ad_watch: 0,
                subscription_expiry: 0,
                subscription_tier: 0,
                lifetime_gp_earned: 0,
                games_played: 0,
                games_won: 0,
                win_streak: 0,
                total_ac_spent: 0,
                api_calls_made: 0,
                current_tier: 0,
                current_season_id: 0,
                season_score: 0,
                season_wins: 0,
                season_games: 0,
                leaderboard_rank: 0,
                active_multiplier: 1,
            }),
    {
        UserAccount {
            user_id,
            last_claim: 0,
            last_ad_watch: 0,
            subscription_expiry: 0,
            subscription_tier: 0,
            lifetime_gp_earned: 0,
            games_played: 0,
            games_won: 0,
            win_streak: 0,
            total_ac_spent: 0,
            api_calls_made: 0,
            current_tier: 0,
            current_season_id: 0,
            season_score: 0,
            season_wins: 0,
            season_games: 0,
            leaderboard_rank: 0,
            active_multiplier: 1,
        }
    }

    /// Whether a paid subscription is running at `now`.
    pub fn has_active_subscription(&self, now: i64) -> (r: bool)
        ensures
            r == (self.subscription_expiry > now && self.subscription_tier > 0),
    {
        self.subscription_expiry > now && self.subscription_tier > 0
    }

    /// Whether a day has passed since the last daily claim.
    pub fn can_claim_daily(&self, now: i64) -> (r: bool)
        ensures
            r == (now - self.last_claim >= SECONDS_PER_DAY),
    {
        (now as i128) - (self.last_claim as i128) >= SECONDS_PER_DAY as i128
    }

    /// Whether the cooldown has passed since the last advertisement.
    pub fn can_watch_ad(&self, now: i64, cooldown_seconds: i64) -> (r: bool)
        ensures
            r == (now - self.last_ad_watch >= cooldown_seconds),
    {
        (now as i128) - (self.last_ad_watch as i128) >= cooldown_seconds as i128
    }

    /// The tier that lifetime points give.
    pub fn calculate_tier(lifetime_gp: u64) -> (t: u8)
        ensures
            t == tier_of(lifetime_gp),
    {
        if lifetime_gp <= 999 {
            0
        } else if lifetime_gp <= 4999 {
            1
        } else if lifetime_gp <= 19999 {
            2
        } else if lifetime_gp <= 49999 {
            3
        } else if lifetime_gp <= 99999 {
            4
        } else {
            5
        }
    }

    /// The season score of a record of wins and games.
    pub fn calculate_score(wins: u32, games: u32) -> (s: u64)
        ensures
            s == score_of(wins, games),
    {
        let win_rate: u64 = if games > 0 {
            (wins as u64 * 10_000) / games as u64
        } else {
            0
        };
        assert(wins as u64 * 10_000 <= 0xFFFF_FFFF * 10_000);
        (wins as u64 * 1_000_000) + win_rate
    }

    /// The reward multiplier that a rank gives.
    pub fn calculate_multiplier(rank: u16) -> (m: u8)
        ensures
            m == multiplier_of(rank),
    {
        if rank == 0 {
            1
        } else if rank <= 5 {
            5
        } else if rank <= 10 {
            4
        } else if rank <= 25 {
            3
        } else if rank <= 50 {
            2
        } else {
            1
        }
    }
}

} // verus!
