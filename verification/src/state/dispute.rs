//! The dispute record: one per match and flagger.

use vstd::prelude::*;
use crate::error::GameError;

verus! {

/// Why a match is disputed.
#[derive(Clone, Copy, Debug, PartialEq, Eq, Structural)]
pub enum DisputeReason {
    InvalidMove,
    PlayerTimeout,
    SuspectedCheating,
    ScoreError,
    Other,
}

/// How a dispute was decided.
#[derive(Clone, Copy, Debug, PartialEq, Eq, Structural)]
pub enum DisputeResolution {
    ResolvedInFavorOfFlagger,
    ResolvedInFavorOfDefendant,
    MatchVoided,
    PartialRefund,
}

/// The highest code that names a dispute reason.
pub const MAX_REASON: u8 = 4;

/// The stored code of "not resolved".
pub const UNRESOLVED: u8 = 0;

/// The stored code of a resolution in the flagger's favour.
pub const RESOLVED_FOR_FLAGGER: u8 = 1;

/// The highest stored code of a resolution.
pub const MAX_RESOLUTION: u8 = 4;

/// The most votes that a dispute can hold.
pub const MAX_VOTES: usize = 10;

impl DisputeResolution {
    /// The resolution that a stored code from 1 to 4 stands for; other
    /// codes read as `PartialRefund`.
    pub open spec fn spec_from_code(code: u8) -> DisputeResolution {
        if code == 1 {
            DisputeResolution::ResolvedInFavorOfFlagger
        } else if code == 2 {
            DisputeResolution::ResolvedInFavorOfDefendant
        } else if code == 3 {
            DisputeResolution::MatchVoided
        } else {
            DisputeResolution::PartialRefund
        }
    }

    /// The resolution that a stored code from 1 to 4 stands for; other
    /// codes read as `PartialRefund`.
    pub fn from_code(code: u8) -> (r: DisputeResolution)
        ensures
            r == Self::spec_from_code(code),
    {
        match code {
            1 => DisputeResolution::ResolvedInFavorOfFlagger,
            2 => DisputeResolution::ResolvedInFavorOfDefendant,
            3 => DisputeResolution::MatchVoided,
            _ => DisputeResolution::PartialRefund,
        }
    }
}

/// The vote of one validator.
#[derive(Clone, Copy, Debug)]
pub struct ValidatorVote {
    /// Who voted.
    pub validator: [u8; 32],
    /// What for.
    pub resolution: DisputeResolution,
    /// When.
    pub timestamp: i64,
}

/// The dispute record in its stored layout.
#[derive(Clone, Copy, Debug)]
pub struct Dispute {
    /// The disputed match.
    pub match_id: [u8; 36],
    /// Who filed the dispute.
    pub flagger: [u8; 32],
    /// The flagger's player identity, null-padded.
    pub flagger_user_id: [u8; 64],
    /// Reason code.
    pub reason: u8,
    /// Hash of the evidence.
    pub evidence_hash: [u8; 32],
    /// The stake put up with the dispute.
    pub gp_deposit: u32,
    /// Whether the stake is refunded; while false it counts as forfeited.
    pub gp_refunded: bool,
    /// Filing time.
    pub created_at: i64,
    /// Resolution time; 0 while unresolved.
    pub resolved_at: i64,
    /// Resolution code; 0 while unresolved, else 1 to 4.
    pub resolution: u8,
    /// The votes; the first `vote_count` are in use.
    pub validator_votes: [ValidatorVote; 10],
    /// Number of votes in use.
    pub vote_count: u8,
}

impl Dispute {
    /// The byte-size ceiling of a stored dispute.
    pub const MAX_SIZE: usize = 8 + 36 + 32 + 64 + 1 + 32 + 4 + 1 + 8 + 8 + 1 + (32 + 1 + 8) * 10 + 1;

    /// The votes cast, in the order in which they came.
    pub open spec fn votes(&self) -> Seq<ValidatorVote> {
        self.validator_votes@.take(
            if self.vote_count <= 10 {
                self.vote_count as int
            } else {
                10
            },
        )
    }

    /// Whether a resolution is on record.
    pub open spec fn resolved(&self) -> bool {
        self.resolution != UNRESOLVED && self.resolved_at != 0
    }

    /// Whether a resolution is on record.
    pub fn is_resolved(&self) -> (r: bool)
        ensures
            r == self.resolved(),
    {
        self.resolution != UNRESOLVED && self.resolved_at != 0
    }

    /// The reason of the dispute; unknown codes read as `Other`.
    pub fn get_reason(&self) -> (r: DisputeReason)
        ensures
            r == (if self.reason == 0 {
                DisputeReason::InvalidMove
            } else if self.reason == 1 {
                DisputeReason::PlayerTimeout
            } else if self.reason == 2 {
                DisputeReason::SuspectedCheating
            } else if self.reason == 3 {
                DisputeReason::ScoreError
            } else {
                DisputeReason::Other
            }),
    {
        match self.reason {
            0 => DisputeReason::InvalidMove,
            1 => DisputeReason::PlayerTimeout,
            2 => DisputeReason::SuspectedCheating,
            3 => DisputeReason::ScoreError,
            _ => DisputeReason::Other,
        }
    }

    /// The resolution on record, if any.
    pub fn get_resolution(&self) -> (r: Option<DisputeResolution>)
        ensures
            self.resolution == UNRESOLVED ==> r is None,
            self.resolution != UNRESOLVED ==> r == Some(
                DisputeResolution::spec_from_code(self.resolution),
            ),
    {
        if self.resolution == UNRESOLVED {
            return None;
        }
        Some(DisputeResolution::from_code(self.resolution))
    }

    /// Appends a vote. Refused with `InvalidPayload`, and nothing changed,
    /// when ten votes are on record. Votes can be added after the dispute
    /// was resolved; they do not change the resolution.
    pub fn add_vote(&mut self, vote: ValidatorVote) -> (r: Result<(), GameError>)
        ensures
            old(self).vote_count < MAX_VOTES ==> r is Ok && final(self).votes() == old(self).votes().push(
                vote,
            ) && final(self).vote_count == old(self).vote_count + 1,
            old(self).vote_count >= MAX_VOTES ==> r == Err::<(), GameError>(GameError::InvalidPayload)
                && *final(self) == *old(self),
            *final(self) == (Dispute {
                validator_votes: final(self).validator_votes,
                vote_count: final(self).vote_count,
                ..*old(self)
            }),
    {
        if self.vote_count >= 10 {
            return Err(GameError::InvalidPayload);
        }
        let slot = self.vote_count as usize;
        self.validator_votes[slot] = vote;
        self.vote_count = self.vote_count + 1;
        assert(self.votes() =~= old(self).votes().push(vote));
        Ok(())
    }
}

} // verus!
