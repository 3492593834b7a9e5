use solana_games_program::error::GameError;
use solana_games_program::instructions::game_payment::current_season;
use solana_games_program::instructions::pro_subscription::SubscriptionTier;
use solana_games_program::instructions::{
    ad_reward, ai_credit_consume, ai_credit_purchase, daily_login, game_payment, pro_subscription,
};
use solana_games_program::state::config_account::ConfigAccount;
use solana_games_program::state::user_account::UserAccount;

const MATCH_ID: &[u8] = b"123e4567-e89b-12d3-a456-426614174000";

fn config() -> ConfigAccount {
    ConfigAccount {
        authority: [9u8; 32],
        ac_price_usd: [0u8; 8],
        ac_price_lamports: 0,
        gp_daily_amount: 1000,
        gp_cost_per_game: 10,
        gp_per_ad: 5,
        max_daily_ads: 10,
        max_gp_balance: 1_000_000,
        ad_cooldown_seconds: 300,
        pro_gp_multiplier: 3,
        dispute_deposit_gp: 100,
        ai_model_costs: [1, 2, 3, 4, 5, 6, 7, 8, 9, 10],
        current_season_id: 0,
        season_duration_seconds: 604800,
        created_at: 0,
        last_updated: 0,
    }
}

fn user() -> UserAccount {
    let mut id = [0u8; 64];
    id[..5].copy_from_slice(b"alice");
    UserAccount::new(id)
}

#[test]
fn tiers_scores_and_multipliers() {
    for (gp, tier) in [
        (0u64, 0u8),
        (999, 0),
        (1000, 1),
        (4999, 1),
        (5000, 2),
        (19999, 2),
        (20000, 3),
        (49999, 3),
        (50000, 4),
        (99999, 4),
        (100000, 5),
        (u64::MAX, 5),
    ] {
        assert_eq!(UserAccount::calculate_tier(gp), tier);
    }
    assert_eq!(UserAccount::calculate_score(0, 0), 0);
    assert_eq!(UserAccount::calculate_score(3, 4), 3_007_500);
    assert_eq!(UserAccount::calculate_score(1, 3), 1_003_333);
    assert_eq!(UserAccount::calculate_score(5, 0), 5_000_000);
    assert_eq!(
        UserAccount::calculate_score(u32::MAX, 1),
        u32::MAX as u64 * 1_000_000 + u32::MAX as u64 * 10_000
    );
    for (rank, mult) in [
        (0u16, 1u8),
        (1, 5),
        (5, 5),
        (6, 4),
        (10, 4),
        (11, 3),
        (25, 3),
        (26, 2),
        (50, 2),
        (51, 1),
        (100, 1),
        (u16::MAX, 1),
    ] {
        assert_eq!(UserAccount::calculate_multiplier(rank), mult);
    }
    assert_eq!(UserAccount::MAX_SIZE, 157);
    assert_eq!(ConfigAccount::MAX_SIZE, 166);
}

#[test]
fn cooldowns_compare_exactly() {
    let mut u = user();
    u.last_claim = 1_000;
    u.last_ad_watch = 1_000;
    assert!(!u.can_claim_daily(1_000 + 86_399));
    assert!(u.can_claim_daily(1_000 + 86_400));
    assert!(!u.can_watch_ad(1_299, 300));
    assert!(u.can_watch_ad(1_300, 300));
    u.last_claim = i64::MIN;
    assert!(u.can_claim_daily(i64::MAX));
    u.last_claim = i64::MAX;
    assert!(!u.can_claim_daily(i64::MIN));
    u.subscription_expiry = 500;
    u.subscription_tier = 1;
    assert!(u.has_active_subscription(499));
    assert!(!u.has_active_subscription(500));
    u.subscription_tier = 0;
    assert!(!u.has_active_subscription(499));
}

#[test]
fn daily_login_grants_with_multipliers() {
    let c = config();
    let mut u = user();
    assert_eq!(daily_login::handler(&mut u, &c, b"alice", 86_400), Ok(1000));
    assert_eq!(u.lifetime_gp_earned, 1000);
    assert_eq!(u.last_claim, 86_400);
    assert_eq!(
        daily_login::handler(&mut u, &c, b"alice", 86_400 + 86_399),
        Err(GameError::DailyClaimCooldown)
    );
    assert_eq!(u.lifetime_gp_earned, 1000);
    u.subscription_expiry = 1_000_000;
    u.subscription_tier = 1;
    u.active_multiplier = 4;
    assert_eq!(daily_login::handler(&mut u, &c, b"alice", 2 * 86_400), Ok(12_000));
    assert_eq!(u.lifetime_gp_earned, 13_000);
    u.active_multiplier = 0;
    u.subscription_tier = 0;
    assert_eq!(daily_login::handler(&mut u, &c, b"alice", 3 * 86_400), Ok(1000));
    assert_eq!(
        daily_login::handler(&mut u, &c, &[b'a'; 65], 9 * 86_400),
        Err(GameError::InvalidPayload)
    );
}

#[test]
fn daily_login_refuses_on_overflow() {
    let mut c = config();
    let mut u = user();
    u.active_multiplier = 2;
    c.gp_daily_amount = u64::MAX / 2 + 1;
    assert_eq!(daily_login::handler(&mut u, &c, b"alice", 86_400), Err(GameError::Overflow));
    c.gp_daily_amount = 10;
    u.lifetime_gp_earned = u64::MAX - 19;
    assert_eq!(daily_login::handler(&mut u, &c, b"alice", 86_400), Err(GameError::Overflow));
    assert_eq!(u.last_claim, 0);
    u.lifetime_gp_earned = u64::MAX - 20;
    assert_eq!(daily_login::handler(&mut u, &c, b"alice", 86_400), Ok(20));
    assert_eq!(u.lifetime_gp_earned, u64::MAX);
}

#[test]
fn seasons_are_weeks_since_the_epoch() {
    assert_eq!(current_season(0), 0);
    assert_eq!(current_season(604_799), 0);
    assert_eq!(current_season(604_800), 1);
    assert_eq!(current_season(i64::MAX), (i64::MAX / 604_800) as u64);
    assert_eq!(current_season(-1), 0);
    assert_eq!(current_season(-604_800), u64::MAX);
    assert_eq!(current_season(i64::MIN), (i64::MIN / 604_800) as u64);
}

#[test]
fn game_start_counts_and_resets_per_season() {
    let mut u = user();
    u.season_wins = 3;
    u.season_score = 9;
    u.season_games = 7;
    assert_eq!(game_payment::handler(&mut u, MATCH_ID, b"alice", 10), Ok(()));
    assert_eq!((u.games_played, u.current_season_id, u.season_games), (1, 0, 8));
    assert_eq!((u.season_wins, u.season_score), (3, 9));
    assert_eq!(game_payment::handler(&mut u, MATCH_ID, b"alice", 604_800 * 5), Ok(()));
    assert_eq!((u.games_played, u.current_season_id, u.season_games), (2, 5, 1));
    assert_eq!((u.season_wins, u.season_score), (0, 0));
    assert_eq!(game_payment::handler(&mut u, b"short", b"alice", 10), Err(GameError::InvalidPayload));
    assert_eq!(
        game_payment::handler(&mut u, MATCH_ID, &[b'a'; 65], 10),
        Err(GameError::InvalidPayload)
    );
    u.games_played = u32::MAX;
    assert_eq!(game_payment::handler(&mut u, MATCH_ID, b"alice", 10), Err(GameError::Overflow));
    u.games_played = 5;
    u.season_games = u32::MAX;
    assert_eq!(
        game_payment::handler(&mut u, MATCH_ID, b"alice", 604_800 * 5),
        Err(GameError::Overflow)
    );
    assert_eq!(u.games_played, 5);
    assert_eq!(game_payment::handler(&mut u, MATCH_ID, b"alice", 604_800 * 6), Ok(()));
    assert_eq!((u.games_played, u.season_games), (6, 1));
}

#[test]
fn ad_reward_needs_proof_and_cooldown() {
    let c = config();
    let mut u = user();
    assert_eq!(ad_reward::handler(&mut u, &c, b"alice", &[], 1_000), Err(GameError::InvalidAdVerification));
    assert_eq!(ad_reward::handler(&mut u, &c, b"alice", &[1], 299), Err(GameError::AdCooldownActive));
    assert_eq!(ad_reward::handler(&mut u, &c, b"alice", &[1], 300), Ok(5));
    assert_eq!(u.lifetime_gp_earned, 5);
    assert_eq!(u.last_ad_watch, 300);
    assert_eq!(ad_reward::handler(&mut u, &c, b"alice", &[1], 599), Err(GameError::AdCooldownActive));
    u.lifetime_gp_earned = u64::MAX - 4;
    assert_eq!(ad_reward::handler(&mut u, &c, b"alice", &[1], 600), Err(GameError::Overflow));
    assert_eq!(u.last_ad_watch, 300);
    assert_eq!(ad_reward::handler(&mut u, &c, &[b'a'; 65], &[1], 600), Err(GameError::InvalidPayload));
}

#[test]
fn subscriptions_start_or_extend() {
    let mut u = user();
    assert_eq!(pro_subscription::handler(&mut u, b"alice", 0, 30, 1_000), Err(GameError::InvalidTier));
    assert_eq!(pro_subscription::handler(&mut u, b"alice", 3, 30, 1_000), Err(GameError::InvalidTier));
    assert_eq!(pro_subscription::handler(&mut u, b"alice", 1, 30, 1_000), Ok(()));
    assert_eq!(u.subscription_expiry, 1_000 + 30 * 86_400);
    assert_eq!(u.subscription_tier, 1);
    assert_eq!(pro_subscription::handler(&mut u, b"alice", 2, 10, 2_000), Ok(()));
    assert_eq!(u.subscription_expiry, 1_000 + 40 * 86_400);
    assert_eq!(u.subscription_tier, 2);
    assert_eq!(pro_subscription::handler(&mut u, b"alice", 1, 1, 1_000 + 40 * 86_400), Ok(()));
    assert_eq!(u.subscription_expiry, 1_000 + 41 * 86_400);
    assert_eq!(
        pro_subscription::handler(&mut u, b"alice", 1, 1, i64::MAX - 86_399),
        Err(GameError::Overflow)
    );
    assert_eq!(u.subscription_expiry, 1_000 + 41 * 86_400);
    assert_eq!(pro_subscription::handler(&mut u, b"alice", 1, 0, i64::MAX), Ok(()));
    assert_eq!(u.subscription_expiry, i64::MAX);
    assert_eq!(SubscriptionTier::from_code(2), Some(SubscriptionTier::ProPlus));
    assert_eq!(SubscriptionTier::from_code(3), None);
}

#[test]
fn credits_are_recorded() {
    let c = config();
    let mut u = user();
    assert_eq!(ai_credit_purchase::handler(&u, b"alice", 55), Ok(55));
    assert_eq!(ai_credit_purchase::handler(&u, &[b'a'; 65], 55), Err(GameError::InvalidPayload));
    assert_eq!(ai_credit_consume::handler(&mut u, &c, b"alice", 3, 7), Ok(28));
    assert_eq!((u.api_calls_made, u.total_ac_spent), (1, 28));
    assert_eq!(ai_credit_consume::handler(&mut u, &c, b"alice", 9, 2), Ok(20));
    assert_eq!((u.api_calls_made, u.total_ac_spent), (2, 48));
    assert_eq!(ai_credit_consume::handler(&mut u, &c, b"alice", 10, 2), Err(GameError::InvalidPayload));
    u.total_ac_spent = u64::MAX - 9;
    assert_eq!(ai_credit_consume::handler(&mut u, &c, b"alice", 0, 10), Err(GameError::Overflow));
    assert_eq!(u.api_calls_made, 2);
    assert_eq!(ai_credit_consume::handler(&mut u, &c, b"alice", 0, 9), Ok(9));
    u.api_calls_made = u32::MAX;
    u.total_ac_spent = 0;
    assert_eq!(ai_credit_consume::handler(&mut u, &c, b"alice", 0, 9), Err(GameError::Overflow));
    assert_eq!(u.total_ac_spent, 0);
}
