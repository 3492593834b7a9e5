//! Filing a dispute.

use vstd::prelude::*;
use crate::bytes::{all_zero, is_all_zero, pad_bytes, padded};
use crate::error::GameError;
use crate::state::config_account::ConfigAccount;
use crate::state::dispute::{Dispute, DisputeResolution, ValidatorVote, MAX_REASON, UNRESOLVED};
use crate::state::match_state::MATCH_ID_LEN;

verus! {

/// Whether a dispute may be filed: the flagger signed, the match
/// identifier has the fixed width, the reason is known, there is evidence,
/// and the stake reaches the configured minimum.
pub open spec fn flag_check(
    flagger_signed: bool,
    match_id: Seq<u8>,
    user_id: Seq<u8>,
    reason: u8,
    evidence_hash: Seq<u8>,
    gp_deposit: u32,
    required_deposit: u32,
) -> Result<(), GameError> {
    if !flagger_signed {
        Err(GameError::Unauthorized)
    } else if match_id.len() != MATCH_ID_LEN {
        Err(GameError::InvalidPayload)
    } else if reason > MAX_REASON {
        Err(GameError::InvalidAction)
    } else if all_zero(evidence_hash) {
        Err(GameError::InvalidPayload)
    } else if gp_deposit < required_deposit {
        Err(GameError::InsufficientGPForDispute)
    } else if user_id.len() > 64 {
        Err(GameError::InvalidPayload)
    } else {
        Ok(())
    }
}

/// Files a dispute against a match. The stake is recorded as forfeited
/// until a resolution in the flagger's favour refunds it.
pub fn handler(
    config: &ConfigAccount,
    flagger: [u8; 32],
    flagger_signed: bool,
    match_id: &[u8],
    user_id: &[u8],
    reason: u8,
    evidence_hash: [u8; 32],
    gp_deposit: u32,
    now: i64,
) -> (r: Result<Dispute, GameError>)
    ensures
        match flag_check(
            flagger_signed,
            match_id@,
            user_id@,
            reason,
            evidence_hash@,
            gp_deposit,
            config.dispute_deposit_gp,
        ) {
            Ok(_) => {
                &&& r is Ok
                &&& r->Ok_0.match_id@ == match_id@
                &&& r->Ok_0.flagger == flagger
                &&& r->Ok_0.flagger_user_id@ == padded(user_id@, 64)
                &&& r->Ok_0.reason == reason
                &&& r->Ok_0.evidence_hash == evidence_hash
                &&& r->Ok_0.gp_deposit == gp_deposit
                &&& !r->Ok_0.gp_refunded
                &&& r->Ok_0.created_at == now
                &&& r->Ok_0.resolved_at == 0
                &&& r->Ok_0.resolution == UNRESOLVED
                &&& r->Ok_0.vote_count == 0
                &&& r->Ok_0.votes() == Seq::<ValidatorVote>::empty()
                &&& !r->Ok_0.resolved()
            },
            Err(e) => r is Err && r->Err_0 == e,
        },
{
    if !flagger_signed {
        return Err(GameError::Unauthorized);
    }
    if match_id.len() != MATCH_ID_LEN {
        return Err(GameError::InvalidPayload);
    }
    if reason > MAX_REASON {
        return Err(GameError::InvalidAction);
    }
    if is_all_zero(&evidence_hash) {
        return Err(GameError::InvalidPayload);
    }
    if gp_deposit < config.dispute_deposit_gp {
        return Err(GameError::InsufficientGPForDispute);
    }
    let user = match pad_bytes::<64>(user_id) {
        Some(u) => u,
        None => {
            return Err(GameError::InvalidPayload);
        },
    };
    let id = match pad_bytes::<36>(match_id) {
        Some(id) => id,
        None => {
            return Err(GameError::InvalidPayload);
        },
    };
    assert(id@ =~= match_id@);
    let blank = ValidatorVote {
        validator: [0u8; 32],
        resolution: DisputeResolution::ResolvedInFavorOfFlagger,
        timestamp: 0,
    };
    let dispute = Dispute {
        match_id: id,
        flagger,
        flagger_user_id: user,
        reason,
        evidence_hash,
        gp_deposit,
        gp_refunded: false,
        created_at: now,
        resolved_at: 0,
        resolution: UNRESOLVED,
        validator_votes: [blank; 10],
        vote_count: 0,
    };
    assert(dispute.votes() =~= Seq::<ValidatorVote>::empty());
    Ok(dispute)
}

} // verus!
