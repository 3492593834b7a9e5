//! Move legality: what a player may do, given the match as it stands.
//!
//! Every check here is pure. Nothing is changed; a refusal names the first
//! rule that the move breaks.

use vstd::prelude::*;
use crate::error::GameError;
use crate::hashing::{sha256, sha256_digest};
use crate::state::game_config::max_players_of;
use crate::state::match_state::{Match, MatchView, PHASE_PLAYING};
use crate::state::move_state::{
    ACTION_CALL_SHOWDOWN, ACTION_DECLARE_INTENT, ACTION_DECLINE, ACTION_PICK_UP, ACTION_REBUTTAL,
};

verus! {

/// The most cards that a hand can hold in the reference game.
pub const MAX_HAND_SIZE: u8 = 13;

/// Number of suits; suit codes run from 0 below this.
pub const SUIT_COUNT: u8 = 4;

/// Length of a rebuttal payload: three cards of two bytes, suit then value.
pub const REBUTTAL_PAYLOAD_LEN: usize = 6;

/// The smallest of three integers.
pub open spec fn min3(a: int, b: int, c: int) -> int {
    if a <= b && a <= c {
        a
    } else if b <= c {
        b
    } else {
        c
    }
}

/// The largest of three integers.
pub open spec fn max3(a: int, b: int, c: int) -> int {
    if a >= b && a >= c {
        a
    } else if b >= c {
        b
    } else {
        c
    }
}

/// The middle one of three integers.
pub open spec fn mid3(a: int, b: int, c: int) -> int {
    a + b + c - min3(a, b, c) - max3(a, b, c)
}

/// Three card values form a run: in ascending order they are consecutive,
/// or they are 2, 13 (king) and 14 (ace).
pub open spec fn values_form_run(a: int, b: int, c: int) -> bool {
    let lo = min3(a, b, c);
    let mid = mid3(a, b, c);
    let hi = max3(a, b, c);
    (mid == lo + 1 && hi == mid + 1) || (lo == 2 && mid == 13 && hi == 14)
}

/// Three (suit, value) cards form a valid run: one suit, and values that run.
pub open spec fn valid_run(cards: Seq<(u8, u8)>) -> bool {
    &&& cards[0].0 == cards[1].0
    &&& cards[1].0 == cards[2].0
    &&& values_form_run(cards[0].1 as int, cards[1].1 as int, cards[2].1 as int)
}

/// The three cards that a rebuttal payload encodes.
pub open spec fn cards_of(payload: Seq<u8>) -> Seq<(u8, u8)> {
    seq![(payload[0], payload[1]), (payload[2], payload[3]), (payload[4], payload[5])]
}

/// The order of a card among cards: by suit, then by value.
pub open spec fn card_key(suit: u8, value: u8) -> int {
    suit as int * 256 + value as int
}

/// The two bytes of the card with a given key.
pub open spec fn key_bytes(key: int) -> Seq<u8> {
    seq![(key / 256) as u8, (key % 256) as u8]
}

/// The canonical encoding of the three cards of a rebuttal payload: the
/// cards in ascending order by suit, then value, two bytes each.
pub open spec fn canonical_card_bytes(payload: Seq<u8>) -> Seq<u8> {
    let a = card_key(payload[0], payload[1]);
    let b = card_key(payload[2], payload[3]);
    let c = card_key(payload[4], payload[5]);
    key_bytes(min3(a, b, c)) + key_bytes(mid3(a, b, c)) + key_bytes(max3(a, b, c))
}

/// Whether a pick-up is legal.
pub open spec fn pick_up_check(v: MatchView, player_index: int, payload: Seq<u8>) -> Result<
    (),
    GameError,
> {
    if v.phase != PHASE_PLAYING {
        Err(GameError::InvalidPhase)
    } else if v.current_player != player_index {
        Err(GameError::NotPlayerTurn)
    } else if !v.floor_card_revealed {
        Err(GameError::InvalidPhase)
    } else if payload.len() < 32 {
        Err(GameError::InvalidPayload)
    } else if v.floor_commitment() is None {
        Err(GameError::InvalidPhase)
    } else if payload.subrange(0, 32) != v.floor_card_hash {
        Err(GameError::InvalidPayload)
    } else if v.hand_size_of(player_index) >= MAX_HAND_SIZE {
        Err(GameError::InvalidPayload)
    } else {
        Ok(())
    }
}

/// Whether a decline is legal.
pub open spec fn decline_check(v: MatchView, player_index: int) -> Result<(), GameError> {
    if v.phase != PHASE_PLAYING {
        Err(GameError::InvalidPhase)
    } else if v.current_player != player_index {
        Err(GameError::NotPlayerTurn)
    } else if !v.floor_card_revealed {
        Err(GameError::InvalidPhase)
    } else {
        Ok(())
    }
}

/// Whether a suit declaration is legal.
pub open spec fn declare_intent_check(v: MatchView, player_index: int, payload: Seq<u8>) -> Result<
    (),
    GameError,
> {
    if v.phase != PHASE_PLAYING {
        Err(GameError::InvalidPhase)
    } else if payload.len() < 1 {
        Err(GameError::InvalidPayload)
    } else if payload[0] >= SUIT_COUNT {
        Err(GameError::InvalidPayload)
    } else if v.declared_suit(player_index) is Some {
        Err(GameError::SuitAlreadyClaimed)
    } else if v.suit_locked(payload[0]) {
        Err(GameError::SuitAlreadyClaimed)
    } else {
        Ok(())
    }
}

/// Whether a showdown call is legal.
pub open spec fn call_showdown_check(v: MatchView, player_index: int) -> Result<(), GameError> {
    if v.phase != PHASE_PLAYING {
        Err(GameError::InvalidPhase)
    } else if v.declared_suit(player_index) is None {
        Err(GameError::InvalidAction)
    } else {
        Ok(())
    }
}

/// Whether a rebuttal is legal: the match is playing, the actor has not
/// declared, the payload encodes exactly three cards that form a run, and
/// the reveal is backed by the actor's hand commitment.
pub open spec fn rebuttal_check(v: MatchView, player_index: int, payload: Seq<u8>) -> Result<
    (),
    GameError,
> {
    if v.phase != PHASE_PLAYING {
        Err(GameError::InvalidPhase)
    } else if v.declared_suit(player_index) is Some {
        Err(GameError::InvalidAction)
    } else if payload.len() != REBUTTAL_PAYLOAD_LEN {
        Err(GameError::InvalidPayload)
    } else if !valid_run(cards_of(payload)) {
        Err(GameError::InvalidPayload)
    } else {
        card_hash_check(v, player_index, payload)
    }
}

/// Whether a move is legal: the actor's slot is one that the game type
/// admits, the action code is known, and the action's own rule holds.
pub open spec fn move_check(v: MatchView, player_index: int, action_type: u8, payload: Seq<u8>) -> Result<
    (),
    GameError,
> {
    if player_index >= max_players_of(v.game_type) {
        Err(GameError::PlayerNotInMatch)
    } else if action_type == ACTION_PICK_UP {
        pick_up_check(v, player_index, payload)
    } else if action_type == ACTION_DECLINE {
        decline_check(v, player_index)
    } else if action_type == ACTION_DECLARE_INTENT {
        declare_intent_check(v, player_index, payload)
    } else if action_type == ACTION_CALL_SHOWDOWN {
        call_showdown_check(v, player_index)
    } else if action_type == ACTION_REBUTTAL {
        rebuttal_check(v, player_index, payload)
    } else {
        Err(GameError::InvalidAction)
    }
}

/// Whether the cards that a rebuttal reveals are backed by a commitment:
/// the actor has one on file, and the payload encodes three cards.
pub open spec fn card_hash_check(v: MatchView, player_index: int, payload: Seq<u8>) -> Result<
    (),
    GameError,
> {
    if v.commitment(player_index) is None {
        Err(GameError::CardHashMismatch)
    } else if payload.len() != REBUTTAL_PAYLOAD_LEN {
        Err(GameError::InvalidPayload)
    } else {
        Ok(())
    }
}

/// Decides whether the move is legal in the match as it stands.
pub fn validate_move(match_account: &Match, player_index: usize, action_type: u8, payload: &[u8]) -> (r:
    Result<(), GameError>)
    ensures
        r == move_check(match_account@, player_index as int, action_type, payload@),
{
    let max_players = match_account.get_max_players() as usize;
    if player_index >= max_players {
        return Err(GameError::PlayerNotInMatch);
    }
    match action_type {
        0 => validate_pick_up(match_account, player_index, payload),
        1 => validate_decline(match_account, player_index),
        2 => validate_declare_intent(match_account, player_index, payload),
        3 => validate_call_showdown(match_account, player_index),
        4 => validate_rebuttal(match_account, player_index, payload),
        _ => Err(GameError::InvalidAction),
    }
}

/// Decides a pick-up.
#[verifier::loop_isolation(false)]
fn validate_pick_up(match_account: &Match, player_index: usize, payload: &[u8]) -> (r: Result<
    (),
    GameError,
>)
    requires
        player_index < 10,
    ensures
        r == pick_up_check(match_account@, player_index as int, payload@),
{
    if match_account.phase != PHASE_PLAYING {
        return Err(GameError::InvalidPhase);
    }
    if match_account.current_player as usize != player_index {
        return Err(GameError::NotPlayerTurn);
    }
    if !match_account.floor_card_revealed() {
        return Err(GameError::InvalidPhase);
    }
    if payload.len() < 32 {
        return Err(GameError::InvalidPayload);
    }
    let floor_hash = match match_account.get_floor_card_hash() {
        Some(h) => h,
        None => {
            return Err(GameError::InvalidPhase);
        },
    };
    let mut i: usize = 0;
    while i < 32
        invariant
            i <= 32,
            payload@.len() >= 32,
            forall|j: int| 0 <= j < i ==> payload@[j] == floor_hash@[j],
        decreases 32 - i,
    {
        if payload[i] != floor_hash[i] {
            assert(payload@.subrange(0, 32)[i as int] != floor_hash@[i as int]);
            return Err(GameError::InvalidPayload);
        }
        i += 1;
    }
    assert(payload@.subrange(0, 32) =~= floor_hash@);
    if match_account.get_hand_size(player_index) >= MAX_HAND_SIZE {
        return Err(GameError::InvalidPayload);
    }
    Ok(())
}

/// Decides a decline.
fn validate_decline(match_account: &Match, player_index: usize) -> (r: Result<(), GameError>)
    requires
        player_index < 10,
    ensures
        r == decline_check(match_account@, player_index as int),
{
    if match_account.phase != PHASE_PLAYING {
        return Err(GameError::InvalidPhase);
    }
    if match_account.current_player as usize != player_index {
        return Err(GameError::NotPlayerTurn);
    }
    if !match_account.floor_card_revealed() {
        return Err(GameError::InvalidPhase);
    }
    Ok(())
}

/// Decides a suit declaration.
fn validate_declare_intent(match_account: &Match, player_index: usize, payload: &[u8]) -> (r:
    Result<(), GameError>)
    requires
        player_index < 10,
    ensures
        r == declare_intent_check(match_account@, player_index as int, payload@),
{
    if match_account.phase != PHASE_PLAYING {
        return Err(GameError::InvalidPhase);
    }
    if payload.len() < 1 {
        return Err(GameError::InvalidPayload);
    }
    let suit = payload[0];
    if suit >= SUIT_COUNT {
        return Err(GameError::InvalidPayload);
    }
    if match_account.has_declared_suit(player_index) {
        return Err(GameError::SuitAlreadyClaimed);
    }
    if match_account.is_suit_locked(suit) {
        return Err(GameError::SuitAlreadyClaimed);
    }
    Ok(())
}

/// Decides a showdown call.
fn validate_call_showdown(match_account: &Match, player_index: usize) -> (r: Result<
    (),
    GameError,
>)
    requires
        player_index < 10,
    ensures
        r == call_showdown_check(match_account@, player_index as int),
{
    if match_account.phase != PHASE_PLAYING {
        return Err(GameError::InvalidPhase);
    }
    if !match_account.has_declared_suit(player_index) {
        return Err(GameError::InvalidAction);
    }
    Ok(())
}

/// Decides a rebuttal.
fn validate_rebuttal(match_account: &Match, player_index: usize, payload: &[u8]) -> (r: Result<
    (),
    GameError,
>)
    requires
        player_index < 10,
    ensures
        r == rebuttal_check(match_account@, player_index as int, payload@),
{
    if match_account.phase != PHASE_PLAYING {
        return Err(GameError::InvalidPhase);
    }
    if match_account.has_declared_suit(player_index) {
        return Err(GameError::InvalidAction);
    }
    if payload.len() != REBUTTAL_PAYLOAD_LEN {
        return Err(GameError::InvalidPayload);
    }
    let cards = [(payload[0], payload[1]), (payload[2], payload[3]), (payload[4], payload[5])];
    assert(cards@ =~= cards_of(payload@));
    if !is_valid_run(cards) {
        return Err(GameError::InvalidPayload);
    }
    validate_card_hash(match_account, player_index, payload)
}

/// Sorts three integers into ascending order.
fn sort3(a: u32, b: u32, c: u32) -> (r: (u32, u32, u32))
    ensures
        r.0 == min3(a as int, b as int, c as int),
        r.1 == mid3(a as int, b as int, c as int),
        r.2 == max3(a as int, b as int, c as int),
{
    let (x, y) = if a <= b {
        (a, b)
    } else {
        (b, a)
    };
    // x <= y
    if c <= x {
        (c, x, y)
    } else if c <= y {
        (x, c, y)
    } else {
        (x, y, c)
    }
}

/// Whether three (suit, value) cards form a valid run.
pub fn is_valid_run(cards: [(u8, u8); 3]) -> (r: bool)
    ensures
        r == valid_run(cards@),
{
    if cards[0].0 != cards[1].0 || cards[1].0 != cards[2].0 {
        return false;
    }
    let (lo, mid, hi) = sort3(cards[0].1 as u32, cards[1].1 as u32, cards[2].1 as u32);
    if mid == lo + 1 && hi == mid + 1 {
        return true;
    }
    lo == 2 && mid == 13 && hi == 14
}

/// The digest that stands for the three cards of a rebuttal: SHA-256 over
/// their canonical encoding. `None` when the payload does not encode
/// exactly three cards.
pub fn revealed_cards_digest(payload: &[u8]) -> (r: Option<[u8; 32]>)
    ensures
        payload@.len() == REBUTTAL_PAYLOAD_LEN ==> r is Some && r->0@ == sha256(
            canonical_card_bytes(payload@),
        ),
        payload@.len() != REBUTTAL_PAYLOAD_LEN ==> r is None,
{
    if payload.len() != REBUTTAL_PAYLOAD_LEN {
        return None;
    }
    let sorted = canonical_cards(payload);
    Some(sha256_digest(sorted.as_slice()))
}

/// The canonical encoding of the three cards of a rebuttal payload.
pub fn canonical_cards(payload: &[u8]) -> (r: [u8; 6])
    requires
        payload@.len() == REBUTTAL_PAYLOAD_LEN,
    ensures
        r@ == canonical_card_bytes(payload@),
{
    let a: u32 = payload[0] as u32 * 256 + payload[1] as u32;
    let b: u32 = payload[2] as u32 * 256 + payload[3] as u32;
    let c: u32 = payload[4] as u32 * 256 + payload[5] as u32;
    let (lo, mid, hi) = sort3(a, b, c);
    let r = [
        (lo / 256) as u8,
        (lo % 256) as u8,
        (mid / 256) as u8,
        (mid % 256) as u8,
        (hi / 256) as u8,
        (hi % 256) as u8,
    ];
    assert(r@ =~= canonical_card_bytes(payload@));
    r
}

/// The commit-reveal check of a rebuttal: the actor must have a hand
/// commitment on file, and the payload must encode three cards, whose
/// canonical digest is then recomputed. Whether the cards belong to the
/// committed hand is left to the replay of the move log.
pub fn validate_card_hash(match_account: &Match, player_index: usize, payload: &[u8]) -> (r:
    Result<(), GameError>)
    ensures
        r == card_hash_check(match_account@, player_index as int, payload@),
{
    if match_account.get_committed_hand_hash(player_index).is_none() {
        return Err(GameError::CardHashMismatch);
    }
    match revealed_cards_digest(payload) {
        Some(_) => Ok(()),
        None => Err(GameError::InvalidPayload),
    }
}

} // verus!
