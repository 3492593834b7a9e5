//! Updating a registered game.

use vstd::prelude::*;
use crate::bytes::{bytes_equal, pad_bytes, padded};
use crate::error::GameError;
use crate::instructions::register_game::{MAX_NAME_LEN, MAX_RULE_URL_LEN};
use crate::state::game_registry::{game_position, GameDefinition, GameRegistry};

verus! {

/// The changes asked for; what is `None` stays as it is.
pub struct GameUpdate {
    pub name: Option<Seq<u8>>,
    pub min_players: Option<u8>,
    pub max_players: Option<u8>,
    pub rule_engine_url: Option<Seq<u8>>,
    pub version: Option<u8>,
    pub enabled: Option<bool>,
}

/// The game after the name was changed, or the refusal.
pub open spec fn with_name(g: GameDefinition, name: Option<Seq<u8>>) -> Result<Seq<u8>, GameError> {
    match name {
        Some(n) => if n.len() == 0 || n.len() > MAX_NAME_LEN {
            Err(GameError::InvalidPayload)
        } else {
            Ok(padded(n, 20))
        },
        None => Ok(g.name@),
    }
}

/// The smallest roster after the change, or the refusal: a new minimum
/// must be positive and not above the maximum on record.
pub open spec fn with_min(g: GameDefinition, min_players: Option<u8>) -> Result<u8, GameError> {
    match min_players {
        Some(m) => if m == 0 || m > g.max_players {
            Err(GameError::InvalidPayload)
        } else {
            Ok(m)
        },
        None => Ok(g.min_players),
    }
}

/// The largest roster after the change, or the refusal: a new maximum
/// must not be below the minimum as just updated, nor above ten.
pub open spec fn with_max(g: GameDefinition, new_min: u8, max_players: Option<u8>) -> Result<
    u8,
    GameError,
> {
    match max_players {
        Some(m) => if m < new_min || m > 10 {
            Err(GameError::InvalidPayload)
        } else {
            Ok(m)
        },
        None => Ok(g.max_players),
    }
}

/// The location of the rule engine after the change, or the refusal.
pub open spec fn with_url(g: GameDefinition, url: Option<Seq<u8>>) -> Result<Seq<u8>, GameError> {
    match url {
        Some(u) => if u.len() == 0 || u.len() > MAX_RULE_URL_LEN {
            Err(GameError::InvalidPayload)
        } else {
            Ok(padded(u, 200))
        },
        None => Ok(g.rule_engine_url@),
    }
}

/// Whether the update is taken: the caller is the registry's authority,
/// the game is registered, and each change asked for is in order.
pub open spec fn update_game_check(registry: GameRegistry, caller: Seq<u8>, game_id: u8, update: GameUpdate) -> Result<
    (),
    GameError,
> {
    if caller != registry.authority@ {
        Err(GameError::Unauthorized)
    } else if !registry.has_game(game_id) {
        Err(GameError::InvalidPayload)
    } else {
        let g = registry.listed()[game_position(registry.listed(), game_id)];
        if with_name(g, update.name) is Err {
            Err(GameError::InvalidPayload)
        } else if with_min(g, update.min_players) is Err {
            Err(GameError::InvalidPayload)
        } else if with_max(g, with_min(g, update.min_players)->Ok_0, update.max_players) is Err {
            Err(GameError::InvalidPayload)
        } else if with_url(g, update.rule_engine_url) is Err {
            Err(GameError::InvalidPayload)
        } else {
            Ok(())
        }
    }
}

/// Changes a registered game; the code of the game stays.
pub fn handler(
    registry: &mut GameRegistry,
    caller: &[u8; 32],
    game_id: u8,
    name: Option<&[u8]>,
    min_players: Option<u8>,
    max_players: Option<u8>,
    rule_engine_url: Option<&[u8]>,
    version: Option<u8>,
    enabled: Option<bool>,
    now: i64,
) -> (r: Result<(), GameError>)
    ensures
        ({
            let update = GameUpdate {
                name: match name {
                    Some(n) => Some(n@),
                    None => None,
                },
                min_players,
                max_players,
                rule_engine_url: match rule_engine_url {
                    Some(u) => Some(u@),
                    None => None,
                },
                version,
                enabled,
            };
            match update_game_check(*old(registry), caller@, game_id, update) {
                Ok(_) => {
                    let at = game_position(old(registry).listed(), game_id);
                    let before = old(registry).listed()[at];
                    let after = final(registry).listed()[at];
                    &&& r is Ok
                    &&& final(registry).listed().len() == old(registry).listed().len()
                    &&& forall|i: int|
                        0 <= i < old(registry).listed().len() && i != at ==> final(registry).listed()[i]
                            == old(registry).listed()[i]
                    &&& after.game_id == game_id
                    &&& after.name@ == with_name(before, update.name)->Ok_0
                    &&& after.min_players == with_min(before, min_players)->Ok_0
                    &&& after.max_players == with_max(before, after.min_players, max_players)->Ok_0
                    &&& after.rule_engine_url@ == with_url(before, update.rule_engine_url)->Ok_0
                    &&& after.version == (if version is Some {
                        version->0
                    } else {
                        before.version
                    })
                    &&& after.enabled == (if enabled is Some {
                        enabled->0
                    } else {
                        before.enabled
                    })
                    &&& final(registry).last_updated == now
                    &&& final(registry).authority == old(registry).authority
                    &&& final(registry).game_count == old(registry).game_count
                },
                Err(e) => r is Err && r->Err_0 == e && *final(registry) == *old(registry),
            }
        }),
{
    if !bytes_equal(caller, &registry.authority) {
        return Err(GameError::Unauthorized);
    }
    let mut updated: GameDefinition = match registry.find_game(game_id) {
        Some(g) => *g,
        None => {
            return Err(GameError::InvalidPayload);
        },
    };
    proof {
        crate::state::game_registry::lemma_game_position(registry.listed(), game_id);
    }
    if let Some(n) = name {
        if n.len() == 0 {
            return Err(GameError::InvalidPayload);
        }
        match pad_bytes::<20>(n) {
            Some(f) => {
                updated.name = f;
            },
            None => {
                return Err(GameError::InvalidPayload);
            },
        }
    }
    if let Some(m) = min_players {
        if m == 0 || m > updated.max_players {
            return Err(GameError::InvalidPayload);
        }
        updated.min_players = m;
    }
    if let Some(m) = max_players {
        if m < updated.min_players || m > 10 {
            return Err(GameError::InvalidPayload);
        }
        updated.max_players = m;
    }
    if let Some(u) = rule_engine_url {
        if u.len() == 0 {
            return Err(GameError::InvalidPayload);
        }
        match pad_bytes::<200>(u) {
            Some(f) => {
                updated.rule_engine_url = f;
            },
            None => {
                return Err(GameError::InvalidPayload);
            },
        }
    }
    if let Some(v) = version {
        updated.version = v;
    }
    if let Some(e) = enabled {
        updated.enabled = e;
    }
    match registry.update_game(game_id, updated) {
        Err(e) => {
            return Err(e);
        },
        Ok(_) => {},
    }
    registry.last_updated = now;
    Ok(())
}

} // verus!
