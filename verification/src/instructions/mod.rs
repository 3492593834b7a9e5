//! The transitions: one module per request that the host may submit.
//!
//! Each `handler` takes the record, the caller as the host identified it,
//! and the request's plain values. It either applies the whole transition
//! or refuses and changes nothing.

pub mod create_match;
pub mod join_match;
pub mod commit_hand;
pub mod start_match;
pub mod anchor_match_record;
pub mod calculate_scores;
pub mod close_match_account;
pub mod end_match;
pub mod submit_move;
pub mod submit_batch_moves;
pub mod flag_dispute;
pub mod resolve_dispute;
pub mod slash_validator;
pub mod anchor_batch;
pub mod register_signer;
pub mod ad_reward;
pub mod ai_credit_consume;
pub mod ai_credit_purchase;
pub mod daily_login;
pub mod game_payment;
pub mod pro_subscription;
pub mod register_game;
pub mod update_game;
