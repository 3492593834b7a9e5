//! The persistent records.

pub mod game_config;
pub mod match_state;
pub mod move_state;
pub mod game_leaderboard;
pub mod config_account;
pub mod dispute;
pub mod validator_reputation;
pub mod batch_anchor;
pub mod signer_registry;
pub mod user_account;
pub mod game_registry;
