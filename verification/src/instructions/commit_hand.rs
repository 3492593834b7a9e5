//! Committing to a hand while the match is dealing.

use vstd::prelude::*;
use crate::bytes::{all_zero, is_all_zero, slice_matches};
use crate::error::GameError;
use crate::lifecycle::evolves;
use crate::state::match_state::{Match, MatchView, PHASE_DEALING};

verus! {

/// The most cards that a committed hand may hold: a full deck.
pub const MAX_COMMITTED_HAND: u8 = 52;

/// What committing does: refuses, or files the player's hand commitment
/// and hand size. A commitment on file is never replaced.
pub open spec fn commit_hand_spec(
    v: MatchView,
    match_id: Seq<u8>,
    player_signed: bool,
    user_id: Seq<u8>,
    hand_hash: Seq<u8>,
    hand_size: u8,
) -> Result<MatchView, GameError> {
    if match_id != v.match_id {
        Err(GameError::InvalidPayload)
    } else if !player_signed {
        Err(GameError::Unauthorized)
    } else if v.phase != PHASE_DEALING {
        Err(GameError::InvalidPhase)
    } else if user_id.len() > 64 {
        Err(GameError::InvalidPayload)
    } else if v.player_index(user_id) is None {
        Err(GameError::PlayerNotInMatch)
    } else if all_zero(hand_hash) {
        Err(GameError::InvalidPayload)
    } else if hand_size == 0 || hand_size > MAX_COMMITTED_HAND {
        Err(GameError::InvalidPayload)
    } else if v.commitment(v.player_index(user_id)->0) is Some {
        Err(GameError::HandAlreadyCommitted)
    } else {
        let slot = v.player_index(user_id)->0;
        Ok(
            MatchView {
                committed_hand_hashes: v.committed_hand_hashes.update(slot, hand_hash),
                hand_sizes: v.hand_sizes.update(slot, hand_size),
                ..v
            },
        )
    }
}

/// A commitment keeps the record well formed and is on file afterwards.
pub proof fn lemma_commit_hand_sound(
    v: MatchView,
    match_id: Seq<u8>,
    player_signed: bool,
    user_id: Seq<u8>,
    hand_hash: Seq<u8>,
    hand_size: u8,
)
    requires
        v.wf(),
        hand_hash.len() == 32,
        commit_hand_spec(v, match_id, player_signed, user_id, hand_hash, hand_size) is Ok,
    ensures
        commit_hand_spec(v, match_id, player_signed, user_id, hand_hash, hand_size)->Ok_0.wf(),
        evolves(v, commit_hand_spec(v, match_id, player_signed, user_id, hand_hash, hand_size)->Ok_0),
        commit_hand_spec(v, match_id, player_signed, user_id, hand_hash, hand_size)->Ok_0.commitment(
            v.player_index(user_id)->0,
        ) == Some(hand_hash),
{
    crate::state::match_state::lemma_roster_position(v.players, crate::bytes::padded(user_id, 64));
    let w = commit_hand_spec(v, match_id, player_signed, user_id, hand_hash, hand_size)->Ok_0;
    let slot = v.player_index(user_id)->0;
    assert forall|i: int| 0 <= i < 10 && v.commitment(i) is Some implies #[trigger] w.commitment(i)
        == v.commitment(i) by {
        assert(i != slot);
    }
}

/// Files a player's hand commitment and hand size.
pub fn handler(
    match_account: &mut Match,
    player_signed: bool,
    match_id: &[u8],
    user_id: &[u8],
    hand_hash: [u8; 32],
    hand_size: u8,
) -> (r: Result<(), GameError>)
    ensures
        match commit_hand_spec(
            old(match_account)@,
            match_id@,
            player_signed,
            user_id@,
            hand_hash@,
            hand_size,
        ) {
            Ok(v) => r is Ok && final(match_account)@ == v,
            Err(e) => r is Err && r->Err_0 == e && *final(match_account) == *old(match_account),
        },
        r is Ok && old(match_account)@.wf() ==> final(match_account)@.wf() && evolves(
            old(match_account)@,
            final(match_account)@,
        ),
{
    if !slice_matches(match_id, &match_account.match_id) {
        return Err(GameError::InvalidPayload);
    }
    if !player_signed {
        return Err(GameError::Unauthorized);
    }
    if match_account.phase != PHASE_DEALING {
        return Err(GameError::InvalidPhase);
    }
    if user_id.len() > 64 {
        return Err(GameError::InvalidPayload);
    }
    let slot = match match_account.find_player_index(user_id) {
        Some(slot) => slot,
        None => {
            return Err(GameError::PlayerNotInMatch);
        },
    };
    if is_all_zero(&hand_hash) {
        return Err(GameError::InvalidPayload);
    }
    if hand_size == 0 || hand_size > MAX_COMMITTED_HAND {
        return Err(GameError::InvalidPayload);
    }
    if match_account.get_committed_hand_hash(slot).is_some() {
        return Err(GameError::HandAlreadyCommitted);
    }
    match_account.set_committed_hand_hash(slot, hand_hash);
    match_account.set_hand_size(slot, hand_size);
    proof {
        if old(match_account)@.wf() {
            lemma_commit_hand_sound(
                old(match_account)@,
                match_id@,
                player_signed,
                user_id@,
                hand_hash@,
                hand_size,
            );
        }
    }
    Ok(())
}

} // verus!
