use solana_games_program::error::GameError;
use solana_games_program::instructions::{anchor_batch, register_game, register_signer, update_game};
use solana_games_program::state::batch_anchor::BatchAnchor;
use solana_games_program::state::game_registry::{GameDefinition, GameRegistry};
use solana_games_program::state::signer_registry::{SignerRegistry, SignerRole};

const ADMIN: [u8; 32] = [1u8; 32];
const OTHER: [u8; 32] = [2u8; 32];
const MATCH_A: &[u8] = b"123e4567-e89b-12d3-a456-426614174000";
const MATCH_B: &[u8] = b"123e4567-e89b-12d3-a456-426614174999";

fn key(n: u8) -> [u8; 32] {
    let mut k = [0xAAu8; 32];
    k[0] = n;
    k
}

fn game(id: u8, enabled: bool) -> GameDefinition {
    let mut name = [0u8; 20];
    name[..4].copy_from_slice(b"game");
    name[4] = b'0' + id % 10;
    let mut url = [0u8; 200];
    url[..11].copy_from_slice(b"https://r/e");
    GameDefinition {
        game_id: id,
        name,
        min_players: 2,
        max_players: 4,
        rule_engine_url: url,
        version: 1,
        enabled,
    }
}

#[test]
fn only_the_authority_registers_signers() {
    let mut reg = SignerRegistry::new();
    assert!(!reg.is_initialized());
    assert!(reg.is_well_formed());
    assert!(reg.initialize(ADMIN));
    assert!(reg.is_initialized());
    assert_eq!(register_signer::handler(&mut reg, ADMIN, key(1), 1), Ok(()));
    assert_eq!(reg.authority, ADMIN);
    assert_eq!(reg.signers, vec![key(1)]);
    assert_eq!(reg.roles, vec![SignerRole::Validator]);
    assert_eq!(register_signer::handler(&mut reg, OTHER, key(2), 0), Err(GameError::Unauthorized));
    assert_eq!(register_signer::handler(&mut reg, ADMIN, key(2), 3), Err(GameError::InvalidAction));
    assert_eq!(
        register_signer::handler(&mut reg, ADMIN, key(1), 0),
        Err(GameError::SignerAlreadyExists)
    );
    assert_eq!(register_signer::handler(&mut reg, ADMIN, key(2), 0), Ok(()));
    assert_eq!(register_signer::handler(&mut reg, ADMIN, key(3), 2), Ok(()));
    assert_eq!(reg.get_role(&key(1)), Some(SignerRole::Validator));
    assert_eq!(reg.get_role(&key(2)), Some(SignerRole::Coordinator));
    assert_eq!(reg.get_role(&key(3)), Some(SignerRole::Authority));
    assert_eq!(reg.get_role(&key(4)), None);
    assert!(reg.is_authorized(&key(3)));
    assert!(!reg.is_authorized(&key(4)));
    assert!(reg.is_well_formed());
}

#[test]
fn explicit_initialisation_is_idempotent() {
    let mut reg = SignerRegistry::new();
    assert!(reg.initialize(ADMIN));
    assert_eq!(reg.authority, ADMIN);
    reg.add_signer(key(1), SignerRole::Validator).unwrap();
    assert!(!reg.initialize(OTHER));
    assert_eq!(reg.authority, ADMIN);
    assert_eq!(reg.signers.len(), 1);
}

#[test]
fn registration_never_initialises() {
    let mut reg = SignerRegistry::new();
    assert_eq!(register_signer::handler(&mut reg, ADMIN, key(1), 1), Err(GameError::Unauthorized));
    assert_eq!(register_signer::handler(&mut reg, [0u8; 32], key(1), 1), Err(GameError::Unauthorized));
    assert!(!reg.is_initialized());
    assert!(reg.signers.is_empty());
}

#[test]
fn signer_registry_is_capped_at_a_hundred() {
    let mut reg = SignerRegistry::new();
    reg.initialize(ADMIN);
    for n in 0..100u8 {
        assert_eq!(reg.add_signer(key(n), SignerRole::Coordinator), Ok(()));
    }
    assert_eq!(reg.add_signer(key(100), SignerRole::Coordinator), Err(GameError::SignerRegistryFull));
    assert_eq!(reg.add_signer(key(5), SignerRole::Coordinator), Err(GameError::SignerAlreadyExists));
    assert_eq!(reg.signers.len(), 100);
    assert!(reg.is_well_formed());
    assert_eq!(reg.remove_signer(&key(200)), Err(GameError::SignerNotFound));
    assert_eq!(reg.remove_signer(&key(5)), Ok(()));
    assert_eq!(reg.signers.len(), 99);
    assert_eq!(reg.roles.len(), 99);
    assert!(!reg.is_authorized(&key(5)));
    assert_eq!(reg.signers[5], key(6));
    assert_eq!(reg.add_signer(key(100), SignerRole::Validator), Ok(()));
    assert_eq!(reg.get_role(&key(100)), Some(SignerRole::Validator));
    assert_eq!(SignerRegistry::MAX_SIZE, 3348);
}

#[test]
fn ill_formed_signer_registries_are_detected() {
    let mut reg = SignerRegistry::new();
    reg.signers.push(key(1));
    assert!(!reg.is_well_formed());
    reg.roles.push(SignerRole::Validator);
    assert!(reg.is_well_formed());
    reg.signers.push(key(1));
    reg.roles.push(SignerRole::Validator);
    assert!(!reg.is_well_formed());
}

#[test]
fn games_are_added_found_and_disabled() {
    let mut reg = GameRegistry::new(ADMIN, 10);
    assert_eq!(reg.game_count, 0);
    assert!(reg.find_game(1).is_none());
    assert_eq!(reg.add_game(game(1, true)), Ok(()));
    assert_eq!(reg.add_game(game(2, false)), Ok(()));
    assert_eq!(reg.add_game(game(3, true)), Ok(()));
    assert_eq!(reg.add_game(game(2, true)), Err(GameError::InvalidPayload));
    assert_eq!(reg.game_count, 3);
    assert_eq!(reg.find_game(2), Some(&game(2, false)));
    assert_eq!(reg.find_game_index(3), 2);
    assert_eq!(reg.find_game_index(9), 3);
    let enabled: Vec<u8> = reg.get_enabled_games().iter().map(|g| g.game_id).collect();
    assert_eq!(enabled, vec![1, 3]);
    assert_eq!(reg.disable_game(3), Ok(()));
    assert_eq!(reg.disable_game(9), Err(GameError::InvalidPayload));
    let enabled: Vec<u8> = reg.get_enabled_games().iter().map(|g| g.game_id).collect();
    assert_eq!(enabled, vec![1]);
    assert_eq!(reg.find_game(3), Some(&game(3, false)));
    if let Some(g) = reg.find_game_mut(2) {
        g.version = 9;
    }
    assert_eq!(reg.find_game(2).map(|g| g.version), Some(9));
    assert!(reg.find_game_mut(9).is_none());
    assert_eq!(reg.update_game(1, game(2, true)), Err(GameError::InvalidPayload));
    assert_eq!(reg.update_game(9, game(9, true)), Err(GameError::InvalidPayload));
    let mut changed = game(1, true);
    changed.max_players = 8;
    assert_eq!(reg.update_game(1, changed), Ok(()));
    assert_eq!(reg.find_game(1), Some(&changed));
    assert_eq!(GameRegistry::MAX_SIZE, 4549);
    assert_eq!(GameDefinition::SIZE, 225);
}

#[test]
fn game_registry_is_capped_at_twenty() {
    let mut reg = GameRegistry::new(ADMIN, 10);
    for id in 0..20u8 {
        assert_eq!(reg.add_game(game(id, true)), Ok(()));
    }
    assert_eq!(reg.add_game(game(20, true)), Err(GameError::InvalidPayload));
    assert_eq!(reg.game_count, 20);
    assert_eq!(reg.get_enabled_games().len(), 20);
}

#[test]
fn field_text_drops_the_padding() {
    let g = game(7, true);
    assert_eq!(g.get_name_string(), "game7");
    assert_eq!(g.get_rule_engine_url_string(), "https://r/e");
    let mut odd = g;
    odd.name = [0u8; 20];
    assert_eq!(odd.get_name_string(), "");
    odd.name = [b'x'; 20];
    assert_eq!(odd.get_name_string(), "xxxxxxxxxxxxxxxxxxxx");
    odd.name = [0u8; 20];
    odd.name[0] = b'a';
    odd.name[2] = b'b';
    assert_eq!(odd.get_name_string(), "a\0b");
    odd.name = [0u8; 20];
    odd.name[0] = 0xE2;
    odd.name[1] = 0x82;
    assert_eq!(odd.get_name_string(), "\u{FFFD}");
}

#[test]
fn register_game_checks_then_adds() {
    let mut reg = GameRegistry::new(ADMIN, 10);
    assert_eq!(
        register_game::handler(&mut reg, &OTHER, 1, b"Claim", 2, 4, b"https://e", 1, 20),
        Err(GameError::Unauthorized)
    );
    assert_eq!(
        register_game::handler(&mut reg, &ADMIN, 1, b"", 2, 4, b"https://e", 1, 20),
        Err(GameError::InvalidPayload)
    );
    assert_eq!(
        register_game::handler(&mut reg, &ADMIN, 1, &[b'n'; 21], 2, 4, b"https://e", 1, 20),
        Err(GameError::InvalidPayload)
    );
    assert_eq!(
        register_game::handler(&mut reg, &ADMIN, 1, b"Claim", 2, 4, b"", 1, 20),
        Err(GameError::InvalidPayload)
    );
    assert_eq!(
        register_game::handler(&mut reg, &ADMIN, 1, b"Claim", 2, 4, &[b'u'; 201], 1, 20),
        Err(GameError::InvalidPayload)
    );
    for (min, max) in [(0u8, 4u8), (5, 4), (2, 11)] {
        assert_eq!(
            register_game::handler(&mut reg, &ADMIN, 1, b"Claim", min, max, b"https://e", 1, 20),
            Err(GameError::InvalidPayload)
        );
    }
    assert_eq!(reg.game_count, 0);
    assert_eq!(reg.last_updated, 10);
    assert_eq!(register_game::handler(&mut reg, &ADMIN, 1, b"Claim", 2, 4, b"https://e", 3, 20), Ok(()));
    assert_eq!(reg.game_count, 1);
    assert_eq!(reg.last_updated, 20);
    let g = *reg.find_game(1).unwrap();
    assert_eq!(g.get_name_string(), "Claim");
    assert_eq!(g.get_rule_engine_url_string(), "https://e");
    assert_eq!((g.min_players, g.max_players, g.version, g.enabled), (2, 4, 3, true));
    assert_eq!(
        register_game::handler(&mut reg, &ADMIN, 1, b"Again", 2, 4, b"https://e", 3, 30),
        Err(GameError::InvalidPayload)
    );
    assert_eq!(reg.last_updated, 20);
}

#[test]
fn update_game_changes_what_is_given() {
    let mut reg = GameRegistry::new(ADMIN, 10);
    register_game::handler(&mut reg, &ADMIN, 1, b"Claim", 2, 4, b"https://e", 3, 20).unwrap();
    assert_eq!(
        update_game::handler(&mut reg, &OTHER, 1, None, None, None, None, None, None, 30),
        Err(GameError::Unauthorized)
    );
    assert_eq!(
        update_game::handler(&mut reg, &ADMIN, 2, None, None, None, None, None, None, 30),
        Err(GameError::InvalidPayload)
    );
    assert_eq!(
        update_game::handler(&mut reg, &ADMIN, 1, None, Some(5), None, None, None, None, 30),
        Err(GameError::InvalidPayload)
    );
    assert_eq!(
        update_game::handler(&mut reg, &ADMIN, 1, None, Some(0), None, None, None, None, 30),
        Err(GameError::InvalidPayload)
    );
    assert_eq!(
        update_game::handler(&mut reg, &ADMIN, 1, None, None, Some(1), None, None, None, 30),
        Err(GameError::InvalidPayload)
    );
    assert_eq!(
        update_game::handler(&mut reg, &ADMIN, 1, None, None, Some(11), None, None, None, 30),
        Err(GameError::InvalidPayload)
    );
    assert_eq!(
        update_game::handler(&mut reg, &ADMIN, 1, Some(&b""[..]), None, None, None, None, None, 30),
        Err(GameError::InvalidPayload)
    );
    assert_eq!(reg.last_updated, 20);
    assert_eq!(
        update_game::handler(
            &mut reg,
            &ADMIN,
            1,
            Some(&b"Cl"[..]),
            Some(3),
            Some(3),
            Some(&b"https://new"[..]),
            Some(4),
            Some(false),
            30
        ),
        Ok(())
    );
    let g = *reg.find_game(1).unwrap();
    assert_eq!(g.get_name_string(), "Cl");
    assert_eq!(g.get_rule_engine_url_string(), "https://new");
    assert_eq!((g.min_players, g.max_players, g.version, g.enabled), (3, 3, 4, false));
    assert_eq!(reg.last_updated, 30);
    assert_eq!(
        update_game::handler(&mut reg, &ADMIN, 1, None, None, None, None, None, None, 40),
        Ok(())
    );
    assert_eq!(*reg.find_game(1).unwrap(), g);
    assert_eq!(reg.last_updated, 40);
}

#[test]
fn batch_anchor_is_built_from_checked_input() {
    let root = [6u8; 32];
    let a = anchor_batch::handler(ADMIN, true, b"batch-1", root, 12, MATCH_A, MATCH_B, 77).unwrap();
    assert_eq!(&a.batch_id[..7], b"batch-1");
    assert!(a.batch_id[7..].iter().all(|b| *b == 0));
    assert_eq!(a.merkle_root, root);
    assert_eq!(a.count, 12);
    assert_eq!(&a.first_match_id[..], MATCH_A);
    assert_eq!(&a.last_match_id[..], MATCH_B);
    assert_eq!(a.timestamp, 77);
    assert_eq!(a.authority, ADMIN);
    assert_eq!(BatchAnchor::MAX_SIZE, 206);
    assert_eq!(
        anchor_batch::handler(ADMIN, false, b"batch-1", root, 12, MATCH_A, MATCH_B, 77).unwrap_err(),
        GameError::Unauthorized
    );
    assert_eq!(
        anchor_batch::handler(ADMIN, true, b"", root, 12, MATCH_A, MATCH_B, 77).unwrap_err(),
        GameError::InvalidBatchId
    );
    assert_eq!(
        anchor_batch::handler(ADMIN, true, &[b'b'; 51], root, 12, MATCH_A, MATCH_B, 77).unwrap_err(),
        GameError::InvalidBatchId
    );
    assert_eq!(
        anchor_batch::handler(ADMIN, true, b"b", root, 1 << 32, MATCH_A, MATCH_B, 77).unwrap_err(),
        GameError::InvalidPayload
    );
    assert!(anchor_batch::handler(ADMIN, true, &[b'b'; 50], root, u32::MAX as u64, MATCH_A, MATCH_B, 77).is_ok());
    assert_eq!(
        anchor_batch::handler(ADMIN, true, b"b", root, 1, b"short", MATCH_B, 77).unwrap_err(),
        GameError::InvalidPayload
    );
    assert_eq!(
        anchor_batch::handler(ADMIN, true, b"b", root, 1, MATCH_A, b"short", 77).unwrap_err(),
        GameError::InvalidPayload
    );
}
