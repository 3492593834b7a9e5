//! Registering a game.

use vstd::prelude::*;
use crate::bytes::{bytes_equal, pad_bytes, padded};
use crate::error::GameError;
use crate::state::game_registry::{GameDefinition, GameRegistry, MAX_GAMES};

verus! {

/// The most bytes that a game's name can take.
pub const MAX_NAME_LEN: usize = 20;

/// The most bytes that the location of a rule engine can take.
pub const MAX_RULE_URL_LEN: usize = 200;

/// Whether a game may be registered: the caller is the registry's
/// authority, name and location are not empty and fit, the roster limits
/// are in order, the registry has room and the code is free.
pub open spec fn register_game_check(
    registry: GameRegistry,
    caller: Seq<u8>,
    game_id: u8,
    name: Seq<u8>,
    min_players: u8,
    max_players: u8,
    rule_engine_url: Seq<u8>,
) -> Result<(), GameError> {
    if caller != registry.authority@ {
        Err(GameError::Unauthorized)
    } else if name.len() == 0 || name.len() > MAX_NAME_LEN {
        Err(GameError::InvalidPayload)
    } else if rule_engine_url.len() == 0 || rule_engine_url.len() > MAX_RULE_URL_LEN {
        Err(GameError::InvalidPayload)
    } else if !(0 < min_players <= max_players <= 10) {
        Err(GameError::InvalidPayload)
    } else if registry.game_count >= MAX_GAMES || registry.has_game(game_id) {
        Err(GameError::InvalidPayload)
    } else {
        Ok(())
    }
}

/// Registers a game, enabled, at the end of the registry.
pub fn handler(
    registry: &mut GameRegistry,
    caller: &[u8; 32],
    game_id: u8,
    name: &[u8],
    min_players: u8,
    max_players: u8,
    rule_engine_url: &[u8],
    version: u8,
    now: i64,
) -> (r: Result<(), GameError>)
    ensures
        match register_game_check(
            *old(registry),
            caller@,
            game_id,
            name@,
            min_players,
            max_players,
            rule_engine_url@,
        ) {
            Ok(_) => {
                let added = final(registry).listed().last();
                &&& r is Ok
                &&& final(registry).listed().len() == old(registry).listed().len() + 1
                &&& final(registry).listed().drop_last() == old(registry).listed()
                &&& added.game_id == game_id
                &&& added.name@ == padded(name@, 20)
                &&& added.min_players == min_players
                &&& added.max_players == max_players
                &&& added.rule_engine_url@ == padded(rule_engine_url@, 200)
                &&& added.version == version
                &&& added.enabled
                &&& final(registry).last_updated == now
                &&& final(registry).authority == old(registry).authority
            },
            Err(e) => r is Err && r->Err_0 == e && *final(registry) == *old(registry),
        },
{
    if !bytes_equal(caller, &registry.authority) {
        return Err(GameError::Unauthorized);
    }
    if name.len() == 0 {
        return Err(GameError::InvalidPayload);
    }
    let name_field = match pad_bytes::<20>(name) {
        Some(f) => f,
        None => {
            return Err(GameError::InvalidPayload);
        },
    };
    if rule_engine_url.len() == 0 {
        return Err(GameError::InvalidPayload);
    }
    let url_field = match pad_bytes::<200>(rule_engine_url) {
        Some(f) => f,
        None => {
            return Err(GameError::InvalidPayload);
        },
    };
    if !(min_players > 0 && min_players <= max_players && max_players <= 10) {
        return Err(GameError::InvalidPayload);
    }
    let game = GameDefinition {
        game_id,
        name: name_field,
        min_players,
        max_players,
        rule_engine_url: url_field,
        version,
        enabled: true,
    };
    match registry.add_game(game) {
        Err(e) => {
            return Err(e);
        },
        Ok(_) => {},
    }
    registry.last_updated = now;
    assert(registry.listed().drop_last() =~= old(registry).listed());
    Ok(())
}

} // verus!
