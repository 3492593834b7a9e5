//! The errors that the library returns, and the coarse kind each belongs to.

use vstd::prelude::*;

verus! {

/// Why a requested transition was refused. A refused transition changes nothing.
#[derive(Clone, Copy, Debug, PartialEq, Eq, Structural)]
pub enum GameError {
    MatchFull,
    InvalidPhase,
    NotPlayerTurn,
    PlayerNotInMatch,
    InvalidAction,
    InvalidPayload,
    Unauthorized,
    MatchNotFound,
    MoveValidationFailed,
    MatchAlreadyEnded,
    MatchNotReady,
    InvalidMoveIndex,
    InvalidTimestamp,
    InsufficientFunds,
    InsufficientPlayers,
    SignerAlreadyExists,
    SignerRegistryFull,
    SignerNotFound,
    InvalidBatchId,
    DisputeNotFound,
    DisputeAlreadyResolved,
    InsufficientGPForDispute,
    GPDepositAlreadyProcessed,
    InvalidNonce,
    CardHashMismatch,
    DailyClaimCooldown,
    AdCooldownActive,
    InvalidAdVerification,
    InvalidTier,
    Overflow,
    InsufficientGP,
    InsufficientAC,
    MaxDailyAdsReached,
    GPBalanceExceeded,
    /// The identity is already on the match's roster.
    PlayerAlreadyJoined,
    /// The actor has already declared, or another player holds the suit.
    SuitAlreadyClaimed,
    /// The player already has a hand commitment on file.
    HandAlreadyCommitted,
}

/// The coarse taxonomy of refusals.
#[derive(Clone, Copy, Debug, PartialEq, Eq, Structural)]
pub enum ErrorKind {
    /// The caller lacks the required identity or signature.
    Authorization,
    /// The operation is not valid in the record's current phase.
    Phase,
    /// It is not the acting player's turn.
    TurnOrder,
    /// The input is malformed or out of bounds.
    Payload,
    /// The nonce is not strictly increasing.
    Replay,
    /// A registry, match or leaderboard is full.
    Capacity,
    /// The request conflicts with what the record already holds.
    StateConflict,
    /// A counter would overflow.
    Arithmetic,
}

impl GameError {
    /// The kind of this error, as a specification.
    pub open spec fn spec_kind(self) -> ErrorKind {
        match self {
            GameError::Unauthorized
            | GameError::PlayerNotInMatch
            | GameError::SignerNotFound => ErrorKind::Authorization,
            GameError::InvalidPhase
            | GameError::MatchAlreadyEnded
            | GameError::MatchNotReady
            | GameError::InsufficientPlayers => ErrorKind::Phase,
            GameError::NotPlayerTurn => ErrorKind::TurnOrder,
            GameError::InvalidNonce => ErrorKind::Replay,
            GameError::MatchFull
            | GameError::SignerRegistryFull
            | GameError::MaxDailyAdsReached
            | GameError::GPBalanceExceeded => ErrorKind::Capacity,
            GameError::SignerAlreadyExists
            | GameError::DisputeAlreadyResolved
            | GameError::GPDepositAlreadyProcessed
            | GameError::DailyClaimCooldown
            | GameError::AdCooldownActive
            | GameError::PlayerAlreadyJoined
            | GameError::SuitAlreadyClaimed
            | GameError::HandAlreadyCommitted => ErrorKind::StateConflict,
            GameError::Overflow => ErrorKind::Arithmetic,
            GameError::InvalidAction
            | GameError::InvalidPayload
            | GameError::MatchNotFound
            | GameError::MoveValidationFailed
            | GameError::InvalidMoveIndex
            | GameError::InvalidTimestamp
            | GameError::InsufficientFunds
            | GameError::InvalidBatchId
            | GameError::DisputeNotFound
            | GameError::InsufficientGPForDispute
            | GameError::CardHashMismatch
            | GameError::InvalidAdVerification
            | GameError::InvalidTier
            | GameError::InsufficientGP
            | GameError::InsufficientAC => ErrorKind::Payload,
        }
    }

    /// The kind of this error.
    pub fn kind(&self) -> (k: ErrorKind)
        ensures
            k == self.spec_kind(),
    {
        match self {
            GameError::Unauthorized
            | GameError::PlayerNotInMatch
            | GameError::SignerNotFound => ErrorKind::Authorization,
            GameError::InvalidPhase
            | GameError::MatchAlreadyEnded
            | GameError::MatchNotReady
            | GameError::InsufficientPlayers => ErrorKind::Phase,
            GameError::NotPlayerTurn => ErrorKind::TurnOrder,
            GameError::InvalidNonce => ErrorKind::Replay,
            GameError::MatchFull
            | GameError::SignerRegistryFull
            | GameError::MaxDailyAdsReached
            | GameError::GPBalanceExceeded => ErrorKind::Capacity,
            GameError::SignerAlreadyExists
            | GameError::DisputeAlreadyResolved
            | GameError::GPDepositAlreadyProcessed
            | GameError::DailyClaimCooldown
            | GameError::AdCooldownActive
            | GameError::PlayerAlreadyJoined
            | GameError::SuitAlreadyClaimed
            | GameError::HandAlreadyCommitted => ErrorKind::StateConflict,
            GameError::Overflow => ErrorKind::Arithmetic,
            _ => ErrorKind::Payload,
        }
    }

    /// The text shown for this error, as a specification.
    pub open spec fn spec_message(self) -> Seq<char> {
        match self {
            GameError::MatchFull => "Match is full"@,
            GameError::InvalidPhase => "Invalid game phase"@,
            GameError::NotPlayerTurn => "Not player's turn"@,
            GameError::PlayerNotInMatch => "Player not in match"@,
            GameError::InvalidAction => "Invalid action"@,
            GameError::InvalidPayload => "Invalid payload"@,
            GameError::Unauthorized => "Unauthorized"@,
            GameError::MatchNotFound => "Match not found"@,
            GameError::MoveValidationFailed => "Move validation failed"@,
            GameError::MatchAlreadyEnded => "Match already ended"@,
            GameError::MatchNotReady => "Match not ready"@,
            GameError::InvalidMoveIndex => "Invalid move index"@,
            GameError::InvalidTimestamp => "Invalid timestamp"@,
            GameError::InsufficientFunds => "Insufficient funds"@,
            GameError::InsufficientPlayers => "Not enough players to start match (minimum 2 required)"@,
            GameError::SignerAlreadyExists => "Signer already exists in registry"@,
            GameError::SignerRegistryFull => "Signer registry is full"@,
            GameError::SignerNotFound => "Signer not found in registry"@,
            GameError::InvalidBatchId => "Invalid batch ID"@,
            GameError::DisputeNotFound => "Dispute not found"@,
            GameError::DisputeAlreadyResolved => "Dispute already resolved"@,
            GameError::InsufficientGPForDispute => "Insufficient GP balance for dispute deposit"@,
            GameError::GPDepositAlreadyProcessed => "GP deposit already processed"@,
            GameError::InvalidNonce => "Invalid nonce - must be greater than last nonce"@,
            GameError::CardHashMismatch => "Card hash mismatch - cards don't match committed hand"@,
            GameError::DailyClaimCooldown => "Daily claim cooldown active - must wait 24 hours"@,
            GameError::AdCooldownActive => "Ad cooldown active - must wait before watching another ad"@,
            GameError::InvalidAdVerification => "Invalid ad verification signature"@,
            GameError::InvalidTier => "Invalid subscription tier"@,
            GameError::Overflow => "Arithmetic overflow"@,
            GameError::InsufficientGP => "Insufficient GP balance"@,
            GameError::InsufficientAC => "Insufficient AC balance"@,
            GameError::MaxDailyAdsReached => "Maximum daily ads limit reached"@,
            GameError::GPBalanceExceeded => "GP balance exceeds maximum cap"@,
            GameError::PlayerAlreadyJoined => "Player already joined the match"@,
            GameError::SuitAlreadyClaimed => "Suit already claimed"@,
            GameError::HandAlreadyCommitted => "Hand already committed"@,
        }
    }

    /// The text shown for this error.
    pub fn message(&self) -> (s: &'static str)
        ensures
            s@ == self.spec_message(),
    {
        match self {
            GameError::MatchFull => "Match is full",
            GameError::InvalidPhase => "Invalid game phase",
            GameError::NotPlayerTurn => "Not player's turn",
            GameError::PlayerNotInMatch => "Player not in match",
            GameError::InvalidAction => "Invalid action",
            GameError::InvalidPayload => "Invalid payload",
            GameError::Unauthorized => "Unauthorized",
            GameError::MatchNotFound => "Match not found",
            GameError::MoveValidationFailed => "Move validation failed",
            GameError::MatchAlreadyEnded => "Match already ended",
            GameError::MatchNotReady => "Match not ready",
            GameError::InvalidMoveIndex => "Invalid move index",
            GameError::InvalidTimestamp => "Invalid timestamp",
            GameError::InsufficientFunds => "Insufficient funds",
            GameError::InsufficientPlayers => "Not enough players to start match (minimum 2 required)",
            GameError::SignerAlreadyExists => "Signer already exists in registry",
            GameError::SignerRegistryFull => "Signer registry is full",
            GameError::SignerNotFound => "Signer not found in registry",
            GameError::InvalidBatchId => "Invalid batch ID",
            GameError::DisputeNotFound => "Dispute not found",
            GameError::DisputeAlreadyResolved => "Dispute already resolved",
            GameError::InsufficientGPForDispute => "Insufficient GP balance for dispute deposit",
            GameError::GPDepositAlreadyProcessed => "GP deposit already processed",
            GameError::InvalidNonce => "Invalid nonce - must be greater than last nonce",
            GameError::CardHashMismatch => "Card hash mismatch - cards don't match committed hand",
            GameError::DailyClaimCooldown => "Daily claim cooldown active - must wait 24 hours",
            GameError::AdCooldownActive => "Ad cooldown active - must wait before watching another ad",
            GameError::InvalidAdVerification => "Invalid ad verification signature",
            GameError::InvalidTier => "Invalid subscription tier",
            GameError::Overflow => "Arithmetic overflow",
            GameError::InsufficientGP => "Insufficient GP balance",
            GameError::InsufficientAC => "Insufficient AC balance",
            GameError::MaxDailyAdsReached => "Maximum daily ads limit reached",
            GameError::GPBalanceExceeded => "GP balance exceeds maximum cap",
            GameError::PlayerAlreadyJoined => "Player already joined the match",
            GameError::SuitAlreadyClaimed => "Suit already claimed",
            GameError::HandAlreadyCommitted => "Hand already committed",
        }
    }
}

} // verus!
