//! Closing the record of an ended match and reclaiming what it reserved.

use vstd::prelude::*;
use crate::bytes::slice_matches;
use crate::error::GameError;
use crate::state::match_state::{Match, MatchView, PHASE_ENDED};

verus! {

/// Whether the record may be closed: the match has ended and the closer
/// signed. Any signer may close an ended match; the closer need not be the
/// match authority.
pub open spec fn close_check(v: MatchView, match_id: Seq<u8>, closer_signed: bool) -> Result<
    (),
    GameError,
> {
    if match_id != v.match_id {
        Err(GameError::InvalidPayload)
    } else if v.phase != PHASE_ENDED {
        Err(GameError::InvalidPhase)
    } else if !closer_signed {
        Err(GameError::Unauthorized)
    } else {
        Ok(())
    }
}

/// What the closer is refunded at once: the balance above the reserve that
/// the record must keep.
pub open spec fn excess_balance(balance: u64, reserve: u64) -> u64 {
    if balance > reserve {
        (balance - reserve) as u64
    } else {
        0
    }
}

/// Decides whether the record of a match may be closed, and how much of
/// its balance exceeds the reserve. The record itself is reclaimed by the
/// host.
pub fn handler(
    match_account: &Match,
    closer_signed: bool,
    match_id: &[u8],
    balance: u64,
    reserve: u64,
) -> (r: Result<u64, GameError>)
    ensures
        match close_check(match_account@, match_id@, closer_signed) {
            Ok(_) => r is Ok && r->Ok_0 == excess_balance(balance, reserve),
            Err(e) => r is Err && r->Err_0 == e,
        },
{
    if !slice_matches(match_id, &match_account.match_id) {
        return Err(GameError::InvalidPayload);
    }
    if match_account.phase != PHASE_ENDED {
        return Err(GameError::InvalidPhase);
    }
    if !closer_signed {
        return Err(GameError::Unauthorized);
    }
    if balance > reserve {
        Ok(balance - reserve)
    } else {
        Ok(0)
    }
}

} // verus!
