//! Creating a match.

use vstd::prelude::*;
use crate::bytes::{pad_bytes, padded, zeros};
use crate::error::GameError;
use crate::state::game_config::{GameType, MAX_GAME_TYPE};
use crate::state::match_state::{Match, MatchView, MATCH_ID_LEN, PHASE_DEALING};

verus! {

/// The bytes of the schema version that new records carry.
pub open spec fn version_bytes() -> Seq<u8> {
    vstd::utf8::encode_utf8("1.0.0"@)
}

/// Whether a match may be created: the identifier has the fixed width, the
/// game-type code is known, and the authority signed.
pub open spec fn create_check(match_id: Seq<u8>, game_type: u8, authority_signed: bool) -> Result<
    (),
    GameError,
> {
    if match_id.len() != MATCH_ID_LEN {
        Err(GameError::InvalidPayload)
    } else if game_type > MAX_GAME_TYPE {
        Err(GameError::InvalidPayload)
    } else if !authority_signed {
        Err(GameError::Unauthorized)
    } else {
        Ok(())
    }
}

/// A match as it is right after creation: dealing, with an empty roster and
/// nothing declared, committed or revealed.
pub open spec fn created(match_id: Seq<u8>, game_type: u8, seed: u64, authority: Seq<u8>, now: i64) -> MatchView {
    MatchView {
        match_id,
        version: padded(version_bytes(), 10),
        game_name: padded(GameType::spec_from_code(game_type).spec_name_bytes(), 20),
        game_type,
        seed,
        phase: PHASE_DEALING,
        current_player: 0,
        players: Seq::empty(),
        player_count: 0,
        move_count: 0,
        created_at: now,
        ended_at: 0,
        match_hash: zeros(32),
        hot_url: zeros(200),
        authority,
        declared_suits: Seq::new(10, |i: int| None::<u8>),
        floor_card_revealed: false,
        all_players_joined: false,
        floor_card_hash: zeros(32),
        hand_sizes: zeros(10),
        committed_hand_hashes: Seq::new(10, |i: int| zeros(32)),
        last_nonce: Seq::new(10, |i: int| 0u64),
    }
}

/// A created match is well formed.
pub proof fn lemma_created_wf(match_id: Seq<u8>, game_type: u8, seed: u64, authority: Seq<u8>, now: i64)
    requires
        match_id.len() == 36,
        authority.len() == 32,
    ensures
        created(match_id, game_type, seed, authority, now).wf(),
{
}

/// The schema version as a null-padded field of 10 bytes.
fn version_field() -> (f: [u8; 10])
    ensures
        f@ == padded(version_bytes(), 10),
{
    let text = "1.0.0";
    proof {
        reveal_strlit("1.0.0");
        vstd::utf8::is_ascii_chars_encode_utf8(text@);
    }
    match pad_bytes::<10>(text.as_bytes()) {
        Some(f) => f,
        None => [0u8; 10],
    }
}

/// Creates a match in the dealing phase. `authority` is the caller, who
/// becomes the identity that may advance the match; `now` is the host's
/// clock.
pub fn handler(
    authority: [u8; 32],
    authority_signed: bool,
    match_id: &[u8],
    game_type: u8,
    seed: u64,
    now: i64,
) -> (r: Result<Match, GameError>)
    ensures
        match create_check(match_id@, game_type, authority_signed) {
            Ok(_) => r is Ok && r->Ok_0@ == created(match_id@, game_type, seed, authority@, now)
                && r->Ok_0.wf(),
            Err(e) => r is Err && r->Err_0 == e,
        },
{
    let id = match pad_bytes::<36>(match_id) {
        Some(id) => id,
        None => {
            return Err(GameError::InvalidPayload);
        },
    };
    if match_id.len() != MATCH_ID_LEN {
        return Err(GameError::InvalidPayload);
    }
    if game_type > MAX_GAME_TYPE {
        return Err(GameError::InvalidPayload);
    }
    if !authority_signed {
        return Err(GameError::Unauthorized);
    }
    let m = Match {
        match_id: id,
        version: version_field(),
        game_name: GameType::from_code(game_type).name_field(),
        game_type,
        seed,
        phase: PHASE_DEALING,
        current_player: 0,
        player_ids: [[0u8; 64]; 10],
        player_count: 0,
        move_count: 0,
        created_at: now,
        ended_at: 0,
        match_hash: [0u8; 32],
        hot_url: [0u8; 200],
        authority,
        declared_suits: [0u8; 5],
        flags: 0,
        floor_card_hash: [0u8; 32],
        hand_sizes: [0u8; 10],
        committed_hand_hashes: [0u8; 320],
        last_nonce: [0u64; 10],
    };
    proof {
        let want = created(match_id@, game_type, seed, authority@, now);
        assert(m@.match_id =~= match_id@);
        assert(m@.players =~= want.players);
        assert(m@.match_hash =~= want.match_hash);
        assert(m@.hot_url =~= want.hot_url);
        assert(m@.floor_card_hash =~= want.floor_card_hash);
        assert(m@.hand_sizes =~= want.hand_sizes);
        assert(m@.last_nonce =~= want.last_nonce);
        assert(0u8 & 0x0F == 0) by (bit_vector);
        assert(0u8 >> 4 == 0) by (bit_vector);
        assert(0u8 & 1 == 0) by (bit_vector);
        assert(0u8 & 2 == 0) by (bit_vector);
        assert(m@.declared_suits =~= want.declared_suits);
        assert forall|i: int| 0 <= i < 10 implies m@.committed_hand_hashes[i] =~= zeros(32) by {}
        assert(m@.committed_hand_hashes =~= want.committed_hand_hashes);
        assert(m@ =~= want);
        lemma_created_wf(match_id@, game_type, seed, authority@, now);
    }
    Ok(m)
}

} // verus!
