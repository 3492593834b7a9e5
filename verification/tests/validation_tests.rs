use solana_games_program::error::GameError;
use solana_games_program::instructions::{commit_hand, create_match, join_match, start_match};
use solana_games_program::state::match_state::Match;
use solana_games_program::validation::{
    canonical_cards, is_valid_run, revealed_cards_digest, validate_card_hash, validate_move,
};

const MATCH_ID: &[u8] = b"123e4567-e89b-12d3-a456-426614174000";
const AUTHORITY: [u8; 32] = [7u8; 32];

fn playing() -> Match {
    let mut m = create_match::handler(AUTHORITY, true, MATCH_ID, 0, 1, 100).unwrap();
    join_match::handler(&mut m, true, MATCH_ID, b"alice").unwrap();
    join_match::handler(&mut m, true, MATCH_ID, b"bob").unwrap();
    commit_hand::handler(&mut m, true, MATCH_ID, b"alice", [5u8; 32], 12).unwrap();
    start_match::handler(&mut m, &AUTHORITY, true, MATCH_ID).unwrap();
    m
}

#[test]
fn runs_are_consecutive_in_one_suit() {
    assert!(is_valid_run([(1, 3), (1, 4), (1, 5)]));
    assert!(is_valid_run([(1, 5), (1, 3), (1, 4)]));
    assert!(is_valid_run([(0, 12), (0, 14), (0, 13)]));
    assert!(!is_valid_run([(1, 3), (1, 4), (1, 6)]));
    assert!(!is_valid_run([(1, 3), (1, 3), (1, 4)]));
    assert!(!is_valid_run([(1, 3), (2, 4), (1, 5)]));
    assert!(!is_valid_run([(1, 3), (1, 4), (2, 5)]));
}

#[test]
fn two_king_ace_wraps_around() {
    assert!(is_valid_run([(3, 2), (3, 13), (3, 14)]));
    assert!(is_valid_run([(3, 14), (3, 2), (3, 13)]));
    assert!(!is_valid_run([(3, 2), (3, 12), (3, 14)]));
    assert!(!is_valid_run([(3, 3), (3, 13), (3, 14)]));
}

#[test]
fn runs_at_the_edge_of_the_value_range() {
    assert!(is_valid_run([(0, 253), (0, 254), (0, 255)]));
    assert!(!is_valid_run([(0, 254), (0, 255), (0, 255)]));
    assert!(is_valid_run([(0, 0), (0, 1), (0, 2)]));
    assert!(!is_valid_run([(0, 255), (0, 0), (0, 1)]));
}

#[test]
fn canonical_cards_sorts_by_suit_then_value() {
    assert_eq!(canonical_cards(&[1, 5, 1, 3, 1, 4]), [1, 3, 1, 4, 1, 5]);
    assert_eq!(canonical_cards(&[2, 9, 0, 14, 1, 3]), [0, 14, 1, 3, 2, 9]);
    assert_eq!(canonical_cards(&[0, 2, 0, 2, 0, 1]), [0, 1, 0, 2, 0, 2]);
}

#[test]
fn revealed_digest_is_sha256_of_canonical_cards() {
    let expected: [u8; 32] = [
        225, 185, 85, 226, 35, 172, 89, 169, 74, 223, 139, 202, 113, 170, 172, 28, 166, 74, 233, 11,
        128, 234, 132, 236, 24, 245, 135, 139, 204, 240, 167, 32,
    ];
    assert_eq!(revealed_cards_digest(&[1, 5, 1, 3, 1, 4]), Some(expected));
    assert_eq!(revealed_cards_digest(&[1, 3, 1, 4, 1, 5]), Some(expected));
    let mixed: [u8; 32] = [
        12, 63, 199, 6, 124, 22, 159, 72, 2, 174, 225, 15, 142, 236, 188, 241, 155, 110, 116, 53, 5,
        104, 125, 142, 59, 252, 101, 81, 180, 9, 53, 27,
    ];
    assert_eq!(revealed_cards_digest(&[2, 9, 0, 14, 1, 3]), Some(mixed));
}

#[test]
fn revealed_digest_needs_exactly_three_cards() {
    assert_eq!(revealed_cards_digest(&[1, 3, 1, 4, 1]), None);
    assert_eq!(revealed_cards_digest(&[1, 3, 1, 4, 1, 5, 0]), None);
    assert_eq!(revealed_cards_digest(&[]), None);
}

#[test]
fn unknown_action_and_slot_are_refused() {
    let m = playing();
    assert_eq!(validate_move(&m, 0, 5, &[]), Err(GameError::InvalidAction));
    assert_eq!(validate_move(&m, 0, 255, &[]), Err(GameError::InvalidAction));
    assert_eq!(validate_move(&m, 4, 2, &[0]), Err(GameError::PlayerNotInMatch));
    assert_eq!(validate_move(&m, 10, 2, &[0]), Err(GameError::PlayerNotInMatch));
    assert_eq!(validate_move(&m, 3, 2, &[0]), Ok(()));
}

#[test]
fn pick_up_rules() {
    let mut m = playing();
    let card = [0x11u8; 32];
    assert_eq!(validate_move(&m, 0, 0, &card), Err(GameError::InvalidPhase));
    m.set_floor_card_revealed(true);
    assert_eq!(validate_move(&m, 0, 0, &card), Err(GameError::InvalidPhase));
    m.set_floor_card_hash(card);
    assert_eq!(validate_move(&m, 0, 0, &card), Ok(()));
    assert_eq!(validate_move(&m, 1, 0, &card), Err(GameError::NotPlayerTurn));
    assert_eq!(validate_move(&m, 0, 0, &card[..31]), Err(GameError::InvalidPayload));
    assert_eq!(validate_move(&m, 0, 0, &[0x12u8; 32]), Err(GameError::InvalidPayload));
    let mut longer = [0x11u8; 40];
    longer[35] = 9;
    assert_eq!(validate_move(&m, 0, 0, &longer), Ok(()));
    m.set_hand_size(0, 13);
    assert_eq!(validate_move(&m, 0, 0, &card), Err(GameError::InvalidPayload));
    m.set_hand_size(0, 12);
    assert_eq!(validate_move(&m, 0, 0, &card), Ok(()));
}

#[test]
fn pick_up_needs_the_playing_phase() {
    let mut m = create_match::handler(AUTHORITY, true, MATCH_ID, 0, 1, 100).unwrap();
    m.set_floor_card_revealed(true);
    m.set_floor_card_hash([1u8; 32]);
    assert_eq!(validate_move(&m, 0, 0, &[1u8; 32]), Err(GameError::InvalidPhase));
    assert_eq!(validate_move(&m, 0, 1, &[]), Err(GameError::InvalidPhase));
    assert_eq!(validate_move(&m, 0, 2, &[0]), Err(GameError::InvalidPhase));
    assert_eq!(validate_move(&m, 0, 3, &[]), Err(GameError::InvalidPhase));
    assert_eq!(validate_move(&m, 0, 4, &[1, 3, 1, 4, 1, 5]), Err(GameError::InvalidPhase));
}

#[test]
fn decline_rules() {
    let mut m = playing();
    assert_eq!(validate_move(&m, 0, 1, &[]), Err(GameError::InvalidPhase));
    m.set_floor_card_revealed(true);
    assert_eq!(validate_move(&m, 0, 1, &[]), Ok(()));
    assert_eq!(validate_move(&m, 1, 1, &[]), Err(GameError::NotPlayerTurn));
}

#[test]
fn declare_rules() {
    let mut m = playing();
    assert_eq!(validate_move(&m, 1, 2, &[]), Err(GameError::InvalidPayload));
    assert_eq!(validate_move(&m, 1, 2, &[4]), Err(GameError::InvalidPayload));
    assert_eq!(validate_move(&m, 1, 2, &[3]), Ok(()));
    m.set_declared_suit(0, 3);
    assert_eq!(validate_move(&m, 1, 2, &[3]), Err(GameError::SuitAlreadyClaimed));
    assert_eq!(validate_move(&m, 0, 2, &[2]), Err(GameError::SuitAlreadyClaimed));
    assert_eq!(validate_move(&m, 1, 2, &[2]), Ok(()));
}

#[test]
fn showdown_needs_a_declaration() {
    let mut m = playing();
    assert_eq!(validate_move(&m, 0, 3, &[]), Err(GameError::InvalidAction));
    m.set_declared_suit(0, 1);
    assert_eq!(validate_move(&m, 0, 3, &[]), Ok(()));
    assert_eq!(validate_move(&m, 1, 3, &[]), Err(GameError::InvalidAction));
}

#[test]
fn rebuttal_rules() {
    let mut m = playing();
    let run = [1, 3, 1, 4, 1, 5];
    assert_eq!(validate_move(&m, 0, 4, &run), Ok(()));
    assert_eq!(validate_move(&m, 0, 4, &run[..5]), Err(GameError::InvalidPayload));
    assert_eq!(validate_move(&m, 0, 4, &[1, 3, 1, 4, 1, 5, 0]), Err(GameError::InvalidPayload));
    assert_eq!(validate_move(&m, 0, 4, &[1, 3, 1, 4, 1, 7]), Err(GameError::InvalidPayload));
    assert_eq!(validate_move(&m, 0, 4, &[1, 3, 2, 4, 1, 5]), Err(GameError::InvalidPayload));
    assert_eq!(validate_move(&m, 1, 4, &run), Err(GameError::CardHashMismatch));
    assert_eq!(validate_move(&m, 1, 4, &[1, 3, 1, 4, 1, 7]), Err(GameError::InvalidPayload));
    m.set_declared_suit(0, 0);
    assert_eq!(validate_move(&m, 0, 4, &run), Err(GameError::InvalidAction));
}

#[test]
fn card_hash_needs_a_commitment() {
    let m = playing();
    let run = [1, 3, 1, 4, 1, 5];
    assert_eq!(validate_card_hash(&m, 0, &run), Ok(()));
    assert_eq!(validate_card_hash(&m, 1, &run), Err(GameError::CardHashMismatch));
    assert_eq!(validate_card_hash(&m, 10, &run), Err(GameError::CardHashMismatch));
    assert_eq!(validate_card_hash(&m, 0, &run[..4]), Err(GameError::InvalidPayload));
}
