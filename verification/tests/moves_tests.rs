use solana_games_program::error::{ErrorKind, GameError};
use solana_games_program::instructions::calculate_scores::calculate_scores_from_moves;
use solana_games_program::instructions::submit_batch_moves::BatchMove;
use solana_games_program::instructions::{
    commit_hand, create_match, join_match, start_match, submit_batch_moves, submit_move,
};
use solana_games_program::scoring::{estimate_scores, replay_scores};
use solana_games_program::state::match_state::Match;
use solana_games_program::state::move_state::{ActionType, Move};

const MATCH_ID: &[u8] = b"123e4567-e89b-12d3-a456-426614174000";
const OTHER_ID: &[u8] = b"00000000-0000-4000-8000-000000000000";
const AUTHORITY: [u8; 32] = [7u8; 32];
const RUN: [u8; 6] = [1, 3, 1, 4, 1, 5];

fn playing(game_type: u8, names: &[&[u8]]) -> Match {
    let mut m = create_match::handler(AUTHORITY, true, MATCH_ID, game_type, 1, 1_000).unwrap();
    for name in names {
        join_match::handler(&mut m, true, MATCH_ID, name).unwrap();
    }
    commit_hand::handler(&mut m, true, MATCH_ID, names[0], [5u8; 32], 12).unwrap();
    start_match::handler(&mut m, &AUTHORITY, true, MATCH_ID).unwrap();
    m
}

fn three() -> Match {
    playing(0, &[b"alice", b"bob", b"carol"])
}

fn batch_move(action_type: u8, payload: &[u8], nonce: u64) -> BatchMove {
    BatchMove { action_type, payload: payload.to_vec(), nonce }
}

#[test]
fn nonce_must_strictly_increase() {
    let mut m = three();
    assert!(submit_move::handler(&mut m, true, MATCH_ID, b"bob", 2, &[1], 5, 1_001).is_ok());
    assert_eq!(m.get_last_nonce(1), 5);
    let before = m;
    for stale in [0u64, 4, 5] {
        let r = submit_move::handler(&mut m, true, MATCH_ID, b"bob", 3, &[], stale, 1_002);
        let err = r.unwrap_err();
        assert_eq!(err, GameError::InvalidNonce);
        assert_eq!(err.kind(), ErrorKind::Replay);
    }
    assert_eq!(m.last_nonce, before.last_nonce);
    assert_eq!(m.move_count, before.move_count);
    assert_eq!(m.phase, before.phase);
    assert!(submit_move::handler(&mut m, true, MATCH_ID, b"bob", 3, &[], 6, 1_002).is_ok());
    assert_eq!(m.get_last_nonce(1), 6);
}

#[test]
fn nonces_are_kept_per_player() {
    let mut m = three();
    assert!(submit_move::handler(&mut m, true, MATCH_ID, b"bob", 2, &[1], 100, 1_001).is_ok());
    assert!(submit_move::handler(&mut m, true, MATCH_ID, b"carol", 2, &[2], 1, 1_001).is_ok());
    assert_eq!(m.last_nonce[..3], [0, 100, 1]);
    assert!(submit_move::handler(&mut m, true, MATCH_ID, b"alice", 2, &[0], u64::MAX, 1_001).is_ok());
    assert_eq!(m.get_last_nonce(0), u64::MAX);
    assert_eq!(
        submit_move::handler(&mut m, true, MATCH_ID, b"alice", 3, &[], u64::MAX, 1_001).unwrap_err(),
        GameError::InvalidNonce
    );
}

#[test]
fn each_suit_has_at_most_one_claimant() {
    let mut m = playing(2, &[b"w0", b"w1", b"w2", b"w3", b"w4", b"w5"]);
    let attempts: [(&[u8], u8); 9] = [
        (b"w0", 2),
        (b"w1", 2),
        (b"w2", 0),
        (b"w0", 1),
        (b"w3", 0),
        (b"w3", 3),
        (b"w4", 1),
        (b"w5", 3),
        (b"w5", 2),
    ];
    let mut nonce = 0;
    for (who, suit) in attempts.iter() {
        nonce += 1;
        let _ = submit_move::handler(&mut m, true, MATCH_ID, who, 2, &[*suit], nonce, 1_001);
        assert!(m.is_well_formed());
        for s in 0..4u8 {
            let holders = (0..10).filter(|i| m.get_declared_suit(*i) == Some(s)).count();
            assert!(holders <= 1);
            assert_eq!(m.is_suit_locked(s), holders == 1);
        }
    }
    assert_eq!(m.get_declared_suit(0), Some(2));
    assert_eq!(m.get_declared_suit(1), None);
    assert_eq!(m.get_declared_suit(2), Some(0));
    assert_eq!(m.get_declared_suit(3), Some(3));
    assert_eq!(m.get_declared_suit(4), Some(1));
    assert_eq!(m.get_declared_suit(5), None);
}

#[test]
fn accepted_move_is_recorded() {
    let mut m = three();
    let rec = submit_move::handler(&mut m, true, MATCH_ID, b"carol", 2, &[3, 9, 9], 1, 1_234).unwrap();
    assert_eq!(&rec.match_id[..], MATCH_ID);
    assert_eq!(&rec.actor[..5], b"carol");
    assert!(rec.actor[5..].iter().all(|b| *b == 0));
    assert_eq!(rec.move_index, 0);
    assert_eq!(rec.action_type, 2);
    assert_eq!(rec.get_action_type(), ActionType::DeclareIntent);
    assert_eq!(rec.get_payload_slice(), &[3, 9, 9]);
    assert_eq!(rec.payload_len, 3);
    assert_eq!(rec.timestamp, 1_234);
    assert_eq!(m.move_count, 1);
    let rec = submit_move::handler(&mut m, true, MATCH_ID, b"carol", 3, &[], 2, 1_235).unwrap();
    assert_eq!(rec.move_index, 1);
    assert_eq!(rec.get_payload_slice(), &[] as &[u8]);
}

#[test]
fn pick_up_takes_the_floor_card_and_passes_the_turn() {
    let mut m = three();
    let card = [0x42u8; 32];
    m.set_floor_card_hash(card);
    m.set_floor_card_revealed(true);
    assert_eq!(
        submit_move::handler(&mut m, true, MATCH_ID, b"bob", 0, &card, 1, 1_001).unwrap_err(),
        GameError::NotPlayerTurn
    );
    assert_eq!(GameError::NotPlayerTurn.kind(), ErrorKind::TurnOrder);
    assert!(submit_move::handler(&mut m, true, MATCH_ID, b"alice", 0, &card, 1, 1_001).is_ok());
    assert_eq!(m.get_hand_size(0), 13);
    assert_eq!(m.current_player, 1);
    assert!(!m.floor_card_revealed());
    assert!(m.get_floor_card_hash().is_none());
    assert_eq!(
        submit_move::handler(&mut m, true, MATCH_ID, b"bob", 0, &card, 1, 1_002).unwrap_err(),
        GameError::InvalidPhase
    );
}

#[test]
fn decline_clears_the_flag_and_the_turn_wraps() {
    let mut m = three();
    let card = [0x42u8; 32];
    m.set_floor_card_hash(card);
    for (turn, who) in [&b"alice"[..], b"bob", b"carol", b"alice"].iter().enumerate() {
        m.set_floor_card_revealed(true);
        assert_eq!(m.current_player as usize, turn % 3);
        assert!(submit_move::handler(&mut m, true, MATCH_ID, who, 1, &[], 1 + turn as u64, 1_001).is_ok());
        assert!(!m.floor_card_revealed());
        assert_eq!(m.get_floor_card_hash(), Some(card));
    }
    assert_eq!(m.current_player, 1);
    assert_eq!(m.move_count, 4);
}

#[test]
fn full_hand_cannot_pick_up() {
    let mut m = three();
    let card = [0x42u8; 32];
    m.set_floor_card_hash(card);
    m.set_floor_card_revealed(true);
    m.set_hand_size(0, 13);
    assert_eq!(
        submit_move::handler(&mut m, true, MATCH_ID, b"alice", 0, &card, 1, 1_001).unwrap_err(),
        GameError::InvalidPayload
    );
    assert_eq!(m.get_hand_size(0), 13);
    assert_eq!(m.get_last_nonce(0), 0);
}

#[test]
fn rebuttal_needs_run_and_commitment() {
    let mut m = three();
    assert!(submit_move::handler(&mut m, true, MATCH_ID, b"alice", 4, &RUN, 1, 1_001).is_ok());
    assert_eq!(
        submit_move::handler(&mut m, true, MATCH_ID, b"bob", 4, &RUN, 1, 1_001).unwrap_err(),
        GameError::CardHashMismatch
    );
    assert_eq!(
        submit_move::handler(&mut m, true, MATCH_ID, b"alice", 4, &[1, 3, 1, 4, 1, 9], 2, 1_001)
            .unwrap_err(),
        GameError::InvalidPayload
    );
    assert_eq!(m.move_count, 1);
    assert_eq!(m.phase, 1);
}

#[test]
fn submit_refusals_in_order() {
    let mut m = three();
    let ok_payload = [1u8];
    assert_eq!(
        submit_move::handler(&mut m, false, OTHER_ID, b"zed", 9, &ok_payload, 0, 0).unwrap_err(),
        GameError::Unauthorized
    );
    assert_eq!(
        submit_move::handler(&mut m, true, OTHER_ID, b"zed", 9, &ok_payload, 0, 0).unwrap_err(),
        GameError::InvalidPayload
    );
    assert_eq!(
        submit_move::handler(&mut m, true, MATCH_ID, b"zed", 9, &ok_payload, 0, 0).unwrap_err(),
        GameError::InvalidAction
    );
    assert_eq!(
        submit_move::handler(&mut m, true, MATCH_ID, b"zed", 2, &[0u8; 129], 0, 0).unwrap_err(),
        GameError::InvalidPayload
    );
    assert_eq!(
        submit_move::handler(&mut m, true, MATCH_ID, &[b'z'; 65], 2, &ok_payload, 0, 0).unwrap_err(),
        GameError::InvalidPayload
    );
    assert_eq!(
        submit_move::handler(&mut m, true, MATCH_ID, b"zed", 2, &ok_payload, 0, 0).unwrap_err(),
        GameError::PlayerNotInMatch
    );
    assert_eq!(
        submit_move::handler(&mut m, true, MATCH_ID, b"bob", 2, &ok_payload, 0, 999).unwrap_err(),
        GameError::InvalidTimestamp
    );
    assert_eq!(
        submit_move::handler(&mut m, true, MATCH_ID, b"bob", 2, &ok_payload, 0, 1_000).unwrap_err(),
        GameError::InvalidNonce
    );
    assert!(submit_move::handler(&mut m, true, MATCH_ID, b"bob", 2, &ok_payload, 1, 1_000).is_ok());
}

#[test]
fn moves_need_a_playing_match() {
    let mut m = create_match::handler(AUTHORITY, true, MATCH_ID, 0, 1, 1_000).unwrap();
    join_match::handler(&mut m, true, MATCH_ID, b"alice").unwrap();
    assert_eq!(
        submit_move::handler(&mut m, true, MATCH_ID, b"alice", 2, &[1], 1, 1_001).unwrap_err(),
        GameError::InvalidPhase
    );
    let mut m = three();
    submit_move::handler(&mut m, true, MATCH_ID, b"alice", 2, &[1], 1, 1_001).unwrap();
    submit_move::handler(&mut m, true, MATCH_ID, b"alice", 3, &[], 2, 1_001).unwrap();
    assert_eq!(
        submit_move::handler(&mut m, true, MATCH_ID, b"bob", 2, &[2], 1, 1_001).unwrap_err(),
        GameError::InvalidPhase
    );
}

#[test]
fn old_matches_take_a_first_move_only() {
    let mut m = three();
    assert!(submit_move::handler(&mut m, true, MATCH_ID, b"bob", 2, &[1], 1, 1_000 + 3_001).is_ok());
    assert_eq!(
        submit_move::handler(&mut m, true, MATCH_ID, b"carol", 2, &[2], 1, 1_000 + 3_001).unwrap_err(),
        GameError::InvalidTimestamp
    );
    assert!(submit_move::handler(&mut m, true, MATCH_ID, b"carol", 2, &[2], 1, 1_000 + 3_000).is_ok());
}

#[test]
fn move_counter_does_not_overflow() {
    let mut m = three();
    m.move_count = u32::MAX;
    let err = submit_move::handler(&mut m, true, MATCH_ID, b"bob", 2, &[1], 1, 1_001).unwrap_err();
    assert_eq!(err, GameError::Overflow);
    assert_eq!(err.kind(), ErrorKind::Arithmetic);
    assert_eq!(m.move_count, u32::MAX);
    assert_eq!(m.get_declared_suit(1), None);
}

#[test]
fn batch_applies_moves_in_order() {
    let mut m = three();
    let moves = vec![batch_move(2, &[1], 1), batch_move(4, &RUN, 2), batch_move(3, &[], 3)];
    let err = submit_batch_moves::handler(&mut m, true, MATCH_ID, b"alice", &moves, 1_001).unwrap_err();
    assert_eq!(err, GameError::InvalidAction);
    let moves = vec![batch_move(4, &RUN, 1), batch_move(2, &[1], 2), batch_move(3, &[], 3)];
    let records = submit_batch_moves::handler(&mut m, true, MATCH_ID, b"alice", &moves, 1_001).unwrap();
    assert_eq!(records.len(), 3);
    assert_eq!(records[0].move_index, 0);
    assert_eq!(records[1].move_index, 1);
    assert_eq!(records[2].move_index, 2);
    assert_eq!(records[0].action_type, 4);
    assert_eq!(records[2].action_type, 3);
    assert_eq!(m.move_count, 3);
    assert_eq!(m.get_last_nonce(0), 3);
    assert_eq!(m.get_declared_suit(0), Some(1));
    assert_eq!(m.phase, 2);
    assert_eq!(m.ended_at, 1_001);
}

#[test]
fn batch_is_all_or_nothing() {
    let mut m = three();
    let before = m;
    let moves = vec![batch_move(2, &[1], 1), batch_move(2, &[2], 2)];
    let err = submit_batch_moves::handler(&mut m, true, MATCH_ID, b"bob", &moves, 1_001).unwrap_err();
    assert_eq!(err, GameError::SuitAlreadyClaimed);
    assert_eq!(m.move_count, before.move_count);
    assert_eq!(m.last_nonce, before.last_nonce);
    assert_eq!(m.declared_suits, before.declared_suits);
    let moves = vec![batch_move(2, &[1], 5), batch_move(3, &[], 5)];
    let err = submit_batch_moves::handler(&mut m, true, MATCH_ID, b"bob", &moves, 1_001).unwrap_err();
    assert_eq!(err, GameError::InvalidNonce);
    assert_eq!(m.declared_suits, before.declared_suits);
    assert_eq!(m.last_nonce, before.last_nonce);
}

#[test]
fn batch_size_is_one_to_five() {
    let mut m = three();
    let none: Vec<BatchMove> = Vec::new();
    assert_eq!(
        submit_batch_moves::handler(&mut m, true, MATCH_ID, b"bob", &none, 1_001).unwrap_err(),
        GameError::InvalidPayload
    );
    let six: Vec<BatchMove> = (1..=6).map(|n| batch_move(4, &RUN, n)).collect();
    assert_eq!(
        submit_batch_moves::handler(&mut m, true, MATCH_ID, b"alice", &six, 1_001).unwrap_err(),
        GameError::InvalidPayload
    );
    let five: Vec<BatchMove> = (1..=5).map(|n| batch_move(4, &RUN, n)).collect();
    let records = submit_batch_moves::handler(&mut m, true, MATCH_ID, b"alice", &five, 1_001).unwrap();
    assert_eq!(records.len(), 5);
    assert_eq!(m.move_count, 5);
}

#[test]
fn batch_reads_the_turn_anew_between_moves() {
    let mut m = three();
    m.set_floor_card_hash([0x42u8; 32]);
    m.set_floor_card_revealed(true);
    let moves = vec![batch_move(1, &[], 1), batch_move(1, &[], 2)];
    let err = submit_batch_moves::handler(&mut m, true, MATCH_ID, b"alice", &moves, 1_001).unwrap_err();
    assert_eq!(err, GameError::NotPlayerTurn);
    assert_eq!(m.current_player, 0);
    assert!(m.floor_card_revealed());
    let moves = vec![batch_move(2, &[0], 1), batch_move(1, &[], 2)];
    assert!(submit_batch_moves::handler(&mut m, true, MATCH_ID, b"alice", &moves, 1_001).is_ok());
    assert_eq!(m.current_player, 1);
}

#[test]
fn single_player_batch_keeps_the_turn() {
    let mut m = playing(6, &[b"solo"]);
    m.set_floor_card_hash([0x42u8; 32]);
    m.set_floor_card_revealed(true);
    let moves = vec![batch_move(1, &[], 1)];
    assert!(submit_batch_moves::handler(&mut m, true, MATCH_ID, b"solo", &moves, 1_001).is_ok());
    assert_eq!(m.current_player, 0);
}

#[test]
fn estimated_scores_follow_the_formula() {
    let mut m = three();
    assert_eq!(estimate_scores(&m), [-2, -2, -2, 0, 0, 0, 0, 0, 0, 0]);
    m.set_declared_suit(1, 0);
    m.set_declared_suit(2, 3);
    m.move_count = 31;
    assert_eq!(estimate_scores(&m), [-20, 35, 30, 0, 0, 0, 0, 0, 0, 0]);
    m.move_count = 600;
    assert_eq!(estimate_scores(&m), [-100, 200, 200, 0, 0, 0, 0, 0, 0, 0]);
    m.move_count = 525;
    assert_eq!(estimate_scores(&m), [-100, 200, 195, 0, 0, 0, 0, 0, 0, 0]);
    m.move_count = u32::MAX;
    assert_eq!(estimate_scores(&m), [-100, 200, 200, 0, 0, 0, 0, 0, 0, 0]);
}

#[test]
fn replayed_scores_count_each_players_moves() {
    let mut m = three();
    let mut log: Vec<Move> = Vec::new();
    log.push(submit_move::handler(&mut m, true, MATCH_ID, b"alice", 4, &RUN, 1, 1_001).unwrap());
    log.push(submit_move::handler(&mut m, true, MATCH_ID, b"carol", 2, &[2], 1, 1_001).unwrap());
    log.push(submit_move::handler(&mut m, true, MATCH_ID, b"alice", 4, &RUN, 2, 1_001).unwrap());
    log.push(submit_move::handler(&mut m, true, MATCH_ID, b"bob", 2, &[0], 1, 1_001).unwrap());
    log.push(submit_move::handler(&mut m, true, MATCH_ID, b"alice", 4, &RUN, 3, 1_001).unwrap());
    log.push(submit_move::handler(&mut m, true, MATCH_ID, b"carol", 3, &[], 2, 1_001).unwrap());
    assert_eq!(replay_scores(&m, &log), [-6, 26, 22, 0, 0, 0, 0, 0, 0, 0]);
    assert_eq!(calculate_scores_from_moves(&m, &log), Ok([-6, 26, 22, 0, 0, 0, 0, 0, 0, 0]));
    assert_eq!(calculate_scores_from_moves(&m, &[]), Ok([0; 10]));
}

#[test]
fn replay_passes_over_strangers_and_clamps() {
    let m = three();
    let mut actor = [0u8; 64];
    actor[..3].copy_from_slice(b"bob");
    let mut stranger = [0u8; 64];
    stranger[..3].copy_from_slice(b"zed");
    let mut id = [0u8; 36];
    id.copy_from_slice(MATCH_ID);
    let mut log: Vec<Move> = Vec::new();
    for i in 0..300u32 {
        log.push(Move::new(id, actor, i, 1, 1_001));
        log.push(Move::new(id, stranger, i, 2, 1_001));
    }
    assert_eq!(replay_scores(&m, &log), [0, -100, 0, 0, 0, 0, 0, 0, 0, 0]);
    let mut declare = Move::new(id, actor, 600, 2, 1_001);
    declare.set_payload(&[1]).unwrap();
    log.push(declare);
    assert_eq!(replay_scores(&m, &log), [0, 200, 0, 0, 0, 0, 0, 0, 0, 0]);
}

#[test]
fn payload_is_at_most_128_bytes() {
    let mut rec = Move::new([0u8; 36], [0u8; 64], 0, 0, 0);
    assert_eq!(rec.set_payload(&[7u8; 129]), Err(GameError::InvalidPayload));
    assert_eq!(rec.payload_len, 0);
    assert_eq!(rec.set_payload(&[7u8; 128]), Ok(()));
    assert_eq!(rec.get_payload_slice(), &[7u8; 128][..]);
    assert_eq!(rec.set_payload(&[1, 2]), Ok(()));
    assert_eq!(rec.get_payload_slice(), &[1, 2]);
    assert_eq!(Move::MAX_SIZE, 250);
    rec.action_type = 9;
    assert_eq!(rec.get_action_type(), ActionType::PickUp);
}

#[test]
fn inconsistent_records_are_refused() {
    let mut m = three();
    m.ended_at = 5;
    assert_eq!(
        submit_move::handler(&mut m, true, MATCH_ID, b"bob", 2, &[1], 1, 1_001).unwrap_err(),
        GameError::MatchAlreadyEnded
    );
    let mut m = three();
    m.player_count = 1;
    assert_eq!(
        submit_move::handler(&mut m, true, MATCH_ID, b"alice", 2, &[1], 1, 1_001).unwrap_err(),
        GameError::InsufficientPlayers
    );
}
