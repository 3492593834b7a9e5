//! Starting a match.

use vstd::prelude::*;
use crate::bytes::{bytes_equal, slice_matches, zeros};
use crate::error::GameError;
use crate::lifecycle::evolves;
use crate::state::game_config::{max_players_of, min_players_of};
use crate::state::match_state::{Match, MatchView, PHASE_DEALING, PHASE_PLAYING};

verus! {

/// What starting does: refuses, or moves the match to the playing phase,
/// closes the roster and clears any floor-card state.
pub open spec fn start_spec(v: MatchView, match_id: Seq<u8>, caller: Seq<u8>, caller_signed: bool) -> Result<
    MatchView,
    GameError,
> {
    if match_id != v.match_id {
        Err(GameError::InvalidPayload)
    } else if !caller_signed {
        Err(GameError::Unauthorized)
    } else if caller != v.authority {
        Err(GameError::Unauthorized)
    } else if v.phase != PHASE_DEALING {
        Err(GameError::InvalidPhase)
    } else if v.player_count < min_players_of(v.game_type) {
        Err(GameError::InsufficientPlayers)
    } else if v.player_count > max_players_of(v.game_type) {
        Err(GameError::InsufficientPlayers)
    } else {
        Ok(
            MatchView {
                phase: PHASE_PLAYING,
                all_players_joined: true,
                floor_card_revealed: false,
                floor_card_hash: zeros(32),
                ..v
            },
        )
    }
}

/// A start keeps the record well formed; the match then plays with a
/// roster within the game type's limits.
pub proof fn lemma_start_sound(v: MatchView, match_id: Seq<u8>, caller: Seq<u8>, caller_signed: bool)
    requires
        v.wf(),
        start_spec(v, match_id, caller, caller_signed) is Ok,
    ensures
        start_spec(v, match_id, caller, caller_signed)->Ok_0.wf(),
        evolves(v, start_spec(v, match_id, caller, caller_signed)->Ok_0),
        start_spec(v, match_id, caller, caller_signed)->Ok_0.phase == PHASE_PLAYING,
        min_players_of(v.game_type) <= v.player_count <= max_players_of(v.game_type),
{
}

/// Moves a match from dealing to playing. Only the match authority may.
pub fn handler(match_account: &mut Match, caller: &[u8; 32], caller_signed: bool, match_id: &[u8]) -> (r:
    Result<(), GameError>)
    ensures
        match start_spec(old(match_account)@, match_id@, caller@, caller_signed) {
            Ok(v) => r is Ok && final(match_account)@ == v,
            Err(e) => r is Err && r->Err_0 == e && *final(match_account) == *old(match_account),
        },
        r is Ok && old(match_account)@.wf() ==> final(match_account)@.wf() && evolves(
            old(match_account)@,
            final(match_account)@,
        ),
{
    if !slice_matches(match_id, &match_account.match_id) {
        return Err(GameError::InvalidPayload);
    }
    if !caller_signed {
        return Err(GameError::Unauthorized);
    }
    if !bytes_equal(caller, &match_account.authority) {
        return Err(GameError::Unauthorized);
    }
    if match_account.phase != PHASE_DEALING {
        return Err(GameError::InvalidPhase);
    }
    if !match_account.has_minimum_players() {
        return Err(GameError::InsufficientPlayers);
    }
    if match_account.player_count > match_account.get_max_players() {
        return Err(GameError::InsufficientPlayers);
    }
    match_account.phase = PHASE_PLAYING;
    match_account.set_all_players_joined(true);
    match_account.set_floor_card_revealed(false);
    match_account.clear_floor_card_hash();
    proof {
        if old(match_account)@.wf() {
            lemma_start_sound(old(match_account)@, match_id@, caller@, caller_signed);
        }
    }
    Ok(())
}

} // verus!
