//! Resolving a dispute.
//!
//! The first resolution is final: once a dispute is resolved, no further
//! call resolves it again, and its resolution, its resolution time and the
//! fate of the stake stay as they are. Votes may still be added to the
//! record afterwards; they are kept and not counted.

use vstd::prelude::*;
use crate::error::GameError;
use crate::state::dispute::{
    Dispute, DisputeResolution, ValidatorVote, MAX_RESOLUTION, MAX_VOTES, RESOLVED_FOR_FLAGGER,
    UNRESOLVED,
};

verus! {

/// Whether a validator's resolution is taken: the validator signed, the
/// dispute is not resolved yet, the resolution code is one of the four,
/// the stake has not been dealt with, and there is room for the vote.
pub open spec fn resolve_check(d: Dispute, validator_signed: bool, resolution: u8) -> Result<
    (),
    GameError,
> {
    if !validator_signed {
        Err(GameError::Unauthorized)
    } else if d.resolved() {
        Err(GameError::DisputeAlreadyResolved)
    } else if resolution < 1 || resolution > MAX_RESOLUTION {
        Err(GameError::InvalidAction)
    } else if d.gp_refunded && d.resolution != UNRESOLVED {
        Err(GameError::GPDepositAlreadyProcessed)
    } else if d.vote_count >= MAX_VOTES {
        Err(GameError::InvalidPayload)
    } else {
        Ok(())
    }
}

/// The vote that a resolving call leaves on the record.
pub open spec fn vote_of(validator: [u8; 32], resolution: u8, now: i64) -> ValidatorVote {
    ValidatorVote {
        validator,
        resolution: DisputeResolution::spec_from_code(resolution),
        timestamp: now,
    }
}

/// The first resolution is final: on a resolved dispute every resolving
/// call is refused.
pub proof fn lemma_first_resolution_final(d: Dispute, validator_signed: bool, resolution: u8)
    requires
        d.resolved(),
    ensures
        resolve_check(d, validator_signed, resolution) is Err,
        validator_signed ==> resolve_check(d, validator_signed, resolution) == Err::<(), GameError>(
            GameError::DisputeAlreadyResolved,
        ),
{
}

/// Records a validator's resolution of a dispute: the resolution and its
/// time are set, the validator's vote is appended, and the stake is
/// refunded exactly if the resolution favours the flagger.
pub fn handler(
    dispute: &mut Dispute,
    validator: [u8; 32],
    validator_signed: bool,
    resolution: u8,
    now: i64,
) -> (r: Result<(), GameError>)
    ensures
        match resolve_check(*old(dispute), validator_signed, resolution) {
            Ok(_) => {
                &&& r is Ok
                &&& final(dispute).resolution == resolution
                &&& final(dispute).resolved_at == now
                &&& final(dispute).gp_refunded == (old(dispute).gp_refunded || resolution
                    == RESOLVED_FOR_FLAGGER)
                &&& final(dispute).votes() == old(dispute).votes().push(
                    vote_of(validator, resolution, now),
                )
                &&& final(dispute).vote_count == old(dispute).vote_count + 1
                &&& *final(dispute) == (Dispute {
                    resolution: final(dispute).resolution,
                    resolved_at: final(dispute).resolved_at,
                    gp_refunded: final(dispute).gp_refunded,
                    validator_votes: final(dispute).validator_votes,
                    vote_count: final(dispute).vote_count,
                    ..*old(dispute)
                })
            },
            Err(e) => r is Err && r->Err_0 == e && *final(dispute) == *old(dispute),
        },
{
    if !validator_signed {
        return Err(GameError::Unauthorized);
    }
    if dispute.is_resolved() {
        return Err(GameError::DisputeAlreadyResolved);
    }
    if resolution < 1 || resolution > MAX_RESOLUTION {
        return Err(GameError::InvalidAction);
    }
    if dispute.gp_refunded && dispute.resolution != UNRESOLVED {
        return Err(GameError::GPDepositAlreadyProcessed);
    }
    if dispute.vote_count as usize >= MAX_VOTES {
        return Err(GameError::InvalidPayload);
    }
    let vote = ValidatorVote {
        validator,
        resolution: DisputeResolution::from_code(resolution),
        timestamp: now,
    };
    dispute.resolution = resolution;
    dispute.resolved_at = now;
    if resolution == RESOLVED_FOR_FLAGGER {
        dispute.gp_refunded = true;
    }
    match dispute.add_vote(vote) {
        Ok(_) => Ok(()),
        Err(e) => Err(e),
    }
}

} // verus!
