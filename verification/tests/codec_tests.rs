use solana_games_program::bytes::slice_matches;
use solana_games_program::error::{ErrorKind, GameError};
use solana_games_program::instructions::create_match;
use solana_games_program::packed::{read_flag, read_nibble, write_flag, write_nibble};
use solana_games_program::state::game_config::{GameConfig, GameType};
use solana_games_program::state::match_state::{GamePhase, Match};

const MATCH_ID: &[u8] = b"123e4567-e89b-12d3-a456-426614174000";

fn fresh() -> Match {
    create_match::handler([7u8; 32], true, MATCH_ID, 0, 1, 100).unwrap()
}

#[test]
fn nibbles_are_packed_two_per_byte() {
    let mut packed = [0u8; 5];
    write_nibble(&mut packed, 0, 0x3);
    write_nibble(&mut packed, 1, 0xA);
    write_nibble(&mut packed, 9, 0xF);
    assert_eq!(packed, [0xA3, 0, 0, 0, 0xF0]);
    assert_eq!(read_nibble(&packed, 0), 3);
    assert_eq!(read_nibble(&packed, 1), 10);
    assert_eq!(read_nibble(&packed, 8), 0);
    assert_eq!(read_nibble(&packed, 9), 15);
    write_nibble(&mut packed, 1, 0);
    assert_eq!(packed, [0x03, 0, 0, 0, 0xF0]);
}

#[test]
fn writing_a_nibble_leaves_the_others() {
    let mut packed = [0x12, 0x34, 0x56, 0x78, 0x9A];
    for i in 0..10 {
        let before: Vec<u8> = (0..10).map(|j| read_nibble(&packed, j)).collect();
        write_nibble(&mut packed, i, (i as u8) ^ 0x5);
        for j in 0..10 {
            if j == i {
                assert_eq!(read_nibble(&packed, j), (i as u8) ^ 0x5);
            } else {
                assert_eq!(read_nibble(&packed, j), before[j]);
            }
        }
    }
}

#[test]
fn flags_are_independent_bits() {
    let f = write_flag(0, 1, true);
    assert_eq!(f, 1);
    let f = write_flag(f, 2, true);
    assert_eq!(f, 3);
    assert!(read_flag(f, 1));
    assert!(read_flag(f, 2));
    let f = write_flag(f, 1, false);
    assert_eq!(f, 2);
    assert!(!read_flag(f, 1));
    assert!(read_flag(f, 2));
    assert_eq!(write_flag(0xFC, 2, false), 0xFC);
    assert_eq!(write_flag(0xFF, 2, false), 0xFD);
}

#[test]
fn slices_compare_with_fields() {
    assert!(slice_matches(b"abc", &[b'a', b'b', b'c']));
    assert!(!slice_matches(b"abd", &[b'a', b'b', b'c']));
    assert!(!slice_matches(b"ab", &[b'a', b'b', b'c']));
    assert!(!slice_matches(b"abcd", &[b'a', b'b', b'c']));
}

#[test]
fn declared_suits_round_trip() {
    let mut m = fresh();
    for i in 0..10usize {
        m.set_declared_suit(i, (i % 4) as u8);
    }
    for i in 0..10usize {
        assert_eq!(m.get_declared_suit(i), Some((i % 4) as u8));
        assert!(m.has_declared_suit(i));
    }
    assert_eq!(m.declared_suits, [0x21, 0x43, 0x21, 0x43, 0x21]);
    assert_eq!(m.get_declared_suit(10), None);
    assert!(!m.has_declared_suit(10));
}

#[test]
fn out_of_range_declarations_do_nothing() {
    let mut m = fresh();
    m.set_declared_suit(10, 1);
    m.set_declared_suit(0, 4);
    m.set_declared_suit(0, 255);
    assert_eq!(m.declared_suits, [0u8; 5]);
    assert!(!m.is_suit_locked(0));
    assert!(!m.is_suit_locked(255));
    m.set_declared_suit(7, 2);
    assert!(m.is_suit_locked(2));
    assert!(!m.is_suit_locked(1));
    assert!(!m.is_suit_locked(15));
}

#[test]
fn per_player_fields_ignore_bad_slots() {
    let mut m = fresh();
    m.set_last_nonce(10, 5);
    m.set_hand_size(10, 5);
    m.set_committed_hand_hash(10, [1u8; 32]);
    m.set_player_id(10, [1u8; 64]);
    assert_eq!(m.last_nonce, [0u64; 10]);
    assert_eq!(m.hand_sizes, [0u8; 10]);
    assert_eq!(m.committed_hand_hashes, [0u8; 320]);
    assert_eq!(m.get_last_nonce(10), 0);
    assert_eq!(m.get_hand_size(10), 0);
    assert_eq!(m.get_committed_hand_hash(10), None);
    assert_eq!(m.get_player_id(10), None);
    m.set_last_nonce(9, 5);
    m.set_hand_size(9, 6);
    assert_eq!(m.get_last_nonce(9), 5);
    assert_eq!(m.get_hand_size(9), 6);
}

#[test]
fn commitments_sit_in_their_own_slots() {
    let mut m = fresh();
    m.set_committed_hand_hash(3, [0xEEu8; 32]);
    assert_eq!(m.get_committed_hand_hash(3), Some([0xEEu8; 32]));
    assert_eq!(m.get_committed_hand_hash(2), None);
    assert_eq!(m.get_committed_hand_hash(4), None);
    assert!(m.committed_hand_hashes[..96].iter().all(|b| *b == 0));
    assert!(m.committed_hand_hashes[96..128].iter().all(|b| *b == 0xEE));
    assert!(m.committed_hand_hashes[128..].iter().all(|b| *b == 0));
    m.set_committed_hand_hash(3, [0u8; 32]);
    assert_eq!(m.get_committed_hand_hash(3), None);
}

#[test]
fn floor_card_hash_set_and_cleared() {
    let mut m = fresh();
    m.set_floor_card_hash([4u8; 32]);
    assert_eq!(m.get_floor_card_hash(), Some([4u8; 32]));
    m.clear_floor_card_hash();
    assert_eq!(m.get_floor_card_hash(), None);
    m.set_floor_card_hash([0u8; 32]);
    assert_eq!(m.get_floor_card_hash(), None);
}

#[test]
fn player_lookup_pads_with_zeros() {
    let mut m = fresh();
    let mut id = [0u8; 64];
    id[..3].copy_from_slice(b"bob");
    m.set_player_id(0, id);
    assert_eq!(m.get_player_id(0), Some(id));
    assert_eq!(m.find_player_index(b"bob"), None);
    m.player_count = 1;
    assert_eq!(m.find_player_index(b"bob"), Some(0));
    assert_eq!(m.find_player_index(&id), Some(0));
    assert_eq!(m.find_player_index(b"bo"), None);
    assert_eq!(m.find_player_index(b"bobb"), None);
    assert_eq!(m.find_player_index(&[0u8; 65]), None);
    assert!(m.has_player_id(b"bob\0"));
    assert!(!m.has_player_id(b""));
}

#[test]
fn phase_and_game_type_codes() {
    let mut m = fresh();
    assert_eq!(m.get_phase(), GamePhase::Dealing);
    m.phase = 1;
    assert_eq!(m.get_phase(), GamePhase::Playing);
    m.phase = 2;
    assert_eq!(m.get_phase(), GamePhase::Ended);
    m.phase = 77;
    assert_eq!(m.get_phase(), GamePhase::Dealing);
    m.game_type = 3;
    assert_eq!(m.get_game_type(), GameType::Bridge);
    assert_eq!(m.get_game_config(), GameConfig { min_players: 4, max_players: 4 });
    assert_eq!(m.get_min_players(), 4);
    assert_eq!(m.get_max_players(), 4);
    m.game_type = 200;
    assert_eq!(m.get_game_type(), GameType::Claim);
    assert_eq!(Match::MAX_SIZE, 1458);
}

#[test]
fn game_types_and_their_limits() {
    let expect: [(GameType, &str, u8, u8); 8] = [
        (GameType::Claim, "CLAIM", 2, 4),
        (GameType::ThreeCardBrag, "THREECARDBRAG", 2, 6),
        (GameType::Poker, "POKER", 2, 10),
        (GameType::Bridge, "BRIDGE", 4, 4),
        (GameType::Rummy, "RUMMY", 2, 6),
        (GameType::Scrabble, "SCRABBLE", 2, 4),
        (GameType::WordSearch, "WORDSEARCH", 1, 10),
        (GameType::Crosswords, "CROSSWORDS", 1, 10),
    ];
    for (code, (game, name, min, max)) in expect.iter().enumerate() {
        assert_eq!(GameType::from_code(code as u8), *game);
        assert_eq!(game.code(), code as u8);
        assert_eq!(game.get_name(), *name);
        assert_eq!(game.get_config(), GameConfig { min_players: *min, max_players: *max });
        let field = game.name_field();
        assert_eq!(&field[..name.len()], name.as_bytes());
        assert!(field[name.len()..].iter().all(|b| *b == 0));
    }
    assert_eq!(GameType::from_code(8), GameType::Claim);
}

#[test]
fn errors_have_kinds_and_messages() {
    assert_eq!(GameError::InvalidNonce.kind(), ErrorKind::Replay);
    assert_eq!(GameError::NotPlayerTurn.kind(), ErrorKind::TurnOrder);
    assert_eq!(GameError::SignerRegistryFull.kind(), ErrorKind::Capacity);
    assert_eq!(GameError::HandAlreadyCommitted.kind(), ErrorKind::StateConflict);
    assert_eq!(GameError::DisputeAlreadyResolved.kind(), ErrorKind::StateConflict);
    assert_eq!(GameError::InvalidPayload.kind(), ErrorKind::Payload);
    assert_eq!(GameError::InvalidAction.kind(), ErrorKind::Payload);
    assert_eq!(GameError::Overflow.kind(), ErrorKind::Arithmetic);
    assert_eq!(GameError::MatchAlreadyEnded.kind(), ErrorKind::Phase);
    assert_eq!(GameError::PlayerNotInMatch.kind(), ErrorKind::Authorization);
    assert_eq!(GameError::MatchFull.message(), "Match is full");
    assert_eq!(GameError::InvalidNonce.message(), "Invalid nonce - must be greater than last nonce");
    assert_eq!(GameError::Overflow.message(), "Arithmetic overflow");
}

#[test]
fn ill_formed_matches_are_detected() {
    let good = fresh();
    assert!(good.is_well_formed());
    let mut m = good;
    m.phase = 3;
    assert!(!m.is_well_formed());
    let mut m = good;
    m.player_count = 5;
    assert!(!m.is_well_formed());
    let mut m = good;
    m.current_player = 1;
    assert!(!m.is_well_formed());
    let mut m = good;
    m.player_count = 2;
    assert!(!m.is_well_formed());
    m.player_ids[1][0] = 1;
    assert!(m.is_well_formed());
    m.current_player = 2;
    assert!(!m.is_well_formed());
    m.current_player = 1;
    assert!(m.is_well_formed());
    m.set_declared_suit(0, 2);
    m.set_declared_suit(5, 3);
    assert!(m.is_well_formed());
    m.set_declared_suit(9, 2);
    assert!(!m.is_well_formed());
}
