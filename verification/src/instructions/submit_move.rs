//! Submitting one move.

use vstd::prelude::*;
use crate::bytes::{slice_matches, zeros};
use crate::error::GameError;
use crate::lifecycle::evolves;
use crate::state::game_config::min_players_of;
use crate::state::match_state::{lemma_roster_position, Match, MatchView, PHASE_ENDED, PHASE_PLAYING};
use crate::state::move_state::{
    Move, MoveView, ACTION_CALL_SHOWDOWN, ACTION_DECLARE_INTENT, ACTION_DECLINE, ACTION_PICK_UP,
    ACTION_REBUTTAL, MAX_PAYLOAD_LEN,
};
use crate::validation::{move_check, validate_move};

verus! {

/// How old, in seconds, a match may be for a further move to be accepted.
pub const MAX_MATCH_AGE: i64 = 3000;

/// One move as a player requests it.
pub struct MoveRequest {
    /// Action code.
    pub action_type: u8,
    /// Payload bytes.
    pub payload: Seq<u8>,
    /// The player's nonce for this move.
    pub nonce: u64,
}

/// Whether the action consumes the actor's turn.
pub open spec fn is_turn_action(action_type: u8) -> bool {
    action_type == ACTION_PICK_UP || action_type == ACTION_DECLINE
}

/// Decides a move: the roster slot of the actor when the move is
/// accepted, else the first rule that it breaks.
pub open spec fn submit_check(
    v: MatchView,
    match_id: Seq<u8>,
    player_signed: bool,
    user_id: Seq<u8>,
    req: MoveRequest,
    now: i64,
) -> Result<int, GameError> {
    if !player_signed {
        Err(GameError::Unauthorized)
    } else if match_id != v.match_id {
        Err(GameError::InvalidPayload)
    } else if v.phase != PHASE_PLAYING {
        Err(GameError::InvalidPhase)
    } else if v.ended_at != 0 {
        Err(GameError::MatchAlreadyEnded)
    } else if v.player_count < min_players_of(v.game_type) {
        Err(GameError::InsufficientPlayers)
    } else if req.action_type > ACTION_REBUTTAL {
        Err(GameError::InvalidAction)
    } else if req.payload.len() > MAX_PAYLOAD_LEN {
        Err(GameError::InvalidPayload)
    } else if user_id.len() > 64 {
        Err(GameError::InvalidPayload)
    } else if v.player_index(user_id) is None {
        Err(GameError::PlayerNotInMatch)
    } else {
        let slot = v.player_index(user_id)->0;
        if is_turn_action(req.action_type) && v.current_player != slot {
            Err(GameError::NotPlayerTurn)
        } else if now < v.created_at {
            Err(GameError::InvalidTimestamp)
        } else if v.move_count > 0 && now - v.created_at > MAX_MATCH_AGE {
            Err(GameError::InvalidTimestamp)
        } else if req.nonce <= v.nonce_of(slot) {
            Err(GameError::InvalidNonce)
        } else if move_check(v, slot, req.action_type, req.payload) is Err {
            Err(move_check(v, slot, req.action_type, req.payload)->Err_0)
        } else if v.move_count == u32::MAX {
            Err(GameError::Overflow)
        } else {
            Ok(slot)
        }
    }
}

/// The slot whose turn comes after `slot`.
pub open spec fn next_player(v: MatchView, slot: int) -> u8 {
    ((slot + 1) % (v.player_count as int)) as u8
}

/// The match after an accepted move of the player in `slot`: the nonce is
/// recorded and the move counted; a declaration records the suit; a
/// pick-up takes the floor card into the hand and passes the turn; a
/// decline clears the reveal flag and passes the turn; a showdown call
/// ends the match.
pub open spec fn apply_move(v: MatchView, slot: int, req: MoveRequest, now: i64) -> MatchView {
    let base = MatchView {
        last_nonce: v.last_nonce.update(slot, req.nonce),
        move_count: (v.move_count + 1) as u32,
        ..v
    };
    if req.action_type == ACTION_DECLARE_INTENT {
        MatchView { declared_suits: v.declared_suits.update(slot, Some(req.payload[0])), ..base }
    } else if req.action_type == ACTION_PICK_UP {
        MatchView {
            floor_card_revealed: false,
            floor_card_hash: zeros(32),
            hand_sizes: v.hand_sizes.update(slot, (v.hand_sizes[slot] + 1) as u8),
            current_player: next_player(v, slot),
            ..base
        }
    } else if req.action_type == ACTION_DECLINE {
        MatchView { floor_card_revealed: false, current_player: next_player(v, slot), ..base }
    } else if req.action_type == ACTION_CALL_SHOWDOWN {
        MatchView { phase: PHASE_ENDED, ended_at: now, ..base }
    } else {
        base
    }
}

/// The record of an accepted move: the next entry of the match's log.
pub open spec fn recorded_move(v: MatchView, slot: int, req: MoveRequest, now: i64) -> MoveView {
    MoveView {
        match_id: v.match_id,
        actor: v.players[slot],
        move_index: v.move_count,
        action_type: req.action_type,
        payload: req.payload,
        timestamp: now,
    }
}

/// What submitting a move does: refuses, or gives the match after the move
/// and the move's record.
pub open spec fn submit_spec(
    v: MatchView,
    match_id: Seq<u8>,
    player_signed: bool,
    user_id: Seq<u8>,
    req: MoveRequest,
    now: i64,
) -> Result<(MatchView, MoveView), GameError> {
    match submit_check(v, match_id, player_signed, user_id, req, now) {
        Ok(slot) => Ok((apply_move(v, slot, req, now), recorded_move(v, slot, req, now))),
        Err(e) => Err(e),
    }
}

/// Replay protection: a move whose nonce does not exceed the player's last
/// nonce is refused, whatever else holds of it; an accepted move carried a
/// larger nonce, which is then the player's last; and a move that is
/// accepted with one nonce is accepted with any nonce above the player's
/// last.
pub proof fn lemma_nonce_monotonic(
    v: MatchView,
    match_id: Seq<u8>,
    player_signed: bool,
    user_id: Seq<u8>,
    req: MoveRequest,
    now: i64,
    other_nonce: u64,
)
    requires
        v.shaped(),
    ensures
        submit_spec(v, match_id, player_signed, user_id, req, now) is Ok && other_nonce > v.nonce_of(
            v.player_index(user_id)->0,
        ) ==> submit_spec(
            v,
            match_id,
            player_signed,
            user_id,
            MoveRequest { nonce: other_nonce, ..req },
            now,
        ) is Ok,
        v.player_index(user_id) is Some && req.nonce <= v.nonce_of(v.player_index(user_id)->0)
            ==> submit_spec(v, match_id, player_signed, user_id, req, now) is Err,
        submit_spec(v, match_id, player_signed, user_id, req, now) is Ok ==> {
            let slot = v.player_index(user_id)->0;
            let after = submit_spec(v, match_id, player_signed, user_id, req, now)->Ok_0.0;
            &&& v.player_index(user_id) is Some
            &&& req.nonce > v.nonce_of(slot)
            &&& after.nonce_of(slot) == req.nonce
            &&& forall|i: int| 0 <= i < 10 && i != slot ==> after.nonce_of(i) == v.nonce_of(i)
        },
{
    if v.player_index(user_id) is Some {
        lemma_roster_position(v.players, crate::bytes::padded(user_id, 64));
    }
}

/// An accepted move keeps the record well formed; in particular no suit
/// gets a second claimant, and the turn pointer stays inside the roster.
pub proof fn lemma_submit_sound(
    v: MatchView,
    match_id: Seq<u8>,
    player_signed: bool,
    user_id: Seq<u8>,
    req: MoveRequest,
    now: i64,
)
    requires
        v.wf(),
        submit_spec(v, match_id, player_signed, user_id, req, now) is Ok,
    ensures
        submit_spec(v, match_id, player_signed, user_id, req, now)->Ok_0.0.wf(),
        evolves(v, submit_spec(v, match_id, player_signed, user_id, req, now)->Ok_0.0),
        submit_spec(v, match_id, player_signed, user_id, req, now)->Ok_0.0.move_count == v.move_count
            + 1,
        submit_spec(v, match_id, player_signed, user_id, req, now)->Ok_0.1.move_index
            == v.move_count,
{
    lemma_roster_position(v.players, crate::bytes::padded(user_id, 64));
    let slot = v.player_index(user_id)->0;
    let w = apply_move(v, slot, req, now);
    assert(0 <= slot < v.players.len());
    if req.action_type == ACTION_DECLARE_INTENT {
        let suit = req.payload[0];
        assert(!v.suit_locked(suit));
        assert forall|i: int, j: int|
            0 <= i < 10 && 0 <= j < 10 && i != j && w.declared_suits[i] is Some implies w.declared_suits[i]
            != w.declared_suits[j] by {
            if i == slot {
                assert(v.declared_suits[j] != Some(suit));
            } else if j == slot {
                assert(v.declared_suits[i] != Some(suit));
            }
        }
    }
    if is_turn_action(req.action_type) {
        assert(0 <= (slot + 1) % (v.player_count as int) < v.player_count) by (nonlinear_arith)
            requires
                v.player_count > 0,
                slot >= 0,
        ;
    }
    assert forall|i: int| 0 <= i < 10 && v.commitment(i) is Some implies #[trigger] w.commitment(i)
        == v.commitment(i) by {}
}

/// Suit exclusivity: in a well-formed match no two players hold the same
/// suit.
pub proof fn lemma_suit_exclusive(v: MatchView, suit: u8, i: int, j: int)
    requires
        v.wf(),
        0 <= i < 10,
        0 <= j < 10,
        v.declared_suits[i] == Some(suit),
        v.declared_suits[j] == Some(suit),
    ensures
        i == j,
{
}

/// Submits one move of the player `user_id`. On acceptance the match is
/// advanced and the move's record returned; on refusal nothing changes.
pub fn handler(
    match_account: &mut Match,
    player_signed: bool,
    match_id: &[u8],
    user_id: &[u8],
    action_type: u8,
    payload: &[u8],
    nonce: u64,
    now: i64,
) -> (r: Result<Move, GameError>)
    ensures
        match submit_spec(
            old(match_account)@,
            match_id@,
            player_signed,
            user_id@,
            MoveRequest { action_type, payload: payload@, nonce },
            now,
        ) {
            Ok(out) => r is Ok && final(match_account)@ == out.0 && r->Ok_0@ == out.1
                && r->Ok_0.wf(),
            Err(e) => r is Err && r->Err_0 == e && *final(match_account) == *old(match_account),
        },
        r is Ok && old(match_account)@.wf() ==> final(match_account)@.wf() && evolves(
            old(match_account)@,
            final(match_account)@,
        ),
{
    let ghost v = match_account@;
    let ghost req = MoveRequest { action_type, payload: payload@, nonce };
    if !player_signed {
        return Err(GameError::Unauthorized);
    }
    if !slice_matches(match_id, &match_account.match_id) {
        return Err(GameError::InvalidPayload);
    }
    if match_account.phase != PHASE_PLAYING {
        return Err(GameError::InvalidPhase);
    }
    if match_account.is_ended() {
        return Err(GameError::MatchAlreadyEnded);
    }
    if !match_account.has_minimum_players() {
        return Err(GameError::InsufficientPlayers);
    }
    if action_type > ACTION_REBUTTAL {
        return Err(GameError::InvalidAction);
    }
    if payload.len() > MAX_PAYLOAD_LEN {
        return Err(GameError::InvalidPayload);
    }
    if user_id.len() > 64 {
        return Err(GameError::InvalidPayload);
    }
    let slot = match match_account.find_player_index(user_id) {
        Some(slot) => slot,
        None => {
            return Err(GameError::PlayerNotInMatch);
        },
    };
    let turn_action = action_type == ACTION_PICK_UP || action_type == ACTION_DECLINE;
    if turn_action && match_account.current_player as usize != slot {
        return Err(GameError::NotPlayerTurn);
    }
    if now < match_account.created_at {
        return Err(GameError::InvalidTimestamp);
    }
    if match_account.move_count > 0 && (now as i128) - (match_account.created_at as i128)
        > MAX_MATCH_AGE as i128 {
        return Err(GameError::InvalidTimestamp);
    }
    if nonce <= match_account.get_last_nonce(slot) {
        return Err(GameError::InvalidNonce);
    }
    match validate_move(match_account, slot, action_type, payload) {
        Err(e) => {
            return Err(e);
        },
        Ok(_) => {},
    }
    if match_account.move_count == u32::MAX {
        return Err(GameError::Overflow);
    }
    assert(submit_check(v, match_id@, player_signed, user_id@, req, now) == Ok::<int, GameError>(
        slot as int,
    ));
    let mut record = Move::new(
        match_account.match_id,
        match_account.player_ids[slot],
        match_account.move_count,
        action_type,
        now,
    );
    match record.set_payload(payload) {
        Err(e) => {
            return Err(e);
        },
        Ok(_) => {},
    }
    assert(record@ =~= recorded_move(v, slot as int, req, now));

    match_account.set_last_nonce(slot, nonce);
    let next: u8 = ((slot + 1) % (match_account.player_count as usize)) as u8;
    if action_type == ACTION_DECLARE_INTENT {
        match_account.set_declared_suit(slot, payload[0]);
    } else if action_type == ACTION_PICK_UP {
        match_account.set_floor_card_revealed(false);
        match_account.clear_floor_card_hash();
        let size = match_account.get_hand_size(slot);
        match_account.set_hand_size(slot, size + 1);
        match_account.current_player = next;
    } else if action_type == ACTION_DECLINE {
        match_account.set_floor_card_revealed(false);
        match_account.current_player = next;
    } else if action_type == ACTION_CALL_SHOWDOWN {
        match_account.phase = PHASE_ENDED;
        match_account.ended_at = now;
    }
    match_account.move_count = match_account.move_count + 1;
    assert(match_account@ =~= apply_move(v, slot as int, req, now));
    proof {
        if v.wf() {
            lemma_submit_sound(v, match_id@, player_signed, user_id@, req, now);
        }
    }
    Ok(record)
}

} // verus!
