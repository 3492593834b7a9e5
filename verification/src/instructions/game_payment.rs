//! Recording that a user started a game.

use vstd::prelude::*;
use crate::error::GameError;
use crate::state::match_state::MATCH_ID_LEN;
use crate::state::user_account::{UserAccount, SECONDS_PER_SEASON};

verus! {

/// The season that a time falls in: the time in whole seasons since the
/// epoch, rounded toward zero; times before the epoch wrap around the
/// range of the identifier.
pub open spec fn season_of(now: i64) -> u64 {
    let seasons_back = (-(now as int)) / (SECONDS_PER_SEASON as int);
    if now >= 0 {
        ((now as int) / (SECONDS_PER_SEASON as int)) as u64
    } else if seasons_back == 0 {
        0
    } else {
        (0x1_0000_0000_0000_0000 - seasons_back) as u64
    }
}

/// Computes the season that a time falls in.
pub fn current_season(now: i64) -> (s: u64)
    ensures
        s == season_of(now),
{
    if now >= 0 {
        (now / SECONDS_PER_SEASON) as u64
    } else {
        let back: u64 = ((-(now as i128)) / (SECONDS_PER_SEASON as i128)) as u64;
        if back == 0 {
            0
        } else {
            (u64::MAX - back) + 1
        }
    }
}

/// Whether the start of a game may be recorded.
pub open spec fn game_payment_check(user: UserAccount, match_id: Seq<u8>, user_id: Seq<u8>, now: i64) -> Result<
    (),
    GameError,
> {
    if match_id.len() != MATCH_ID_LEN {
        Err(GameError::InvalidPayload)
    } else if user_id.len() > 64 {
        Err(GameError::InvalidPayload)
    } else if user.games_played == u32::MAX {
        Err(GameError::Overflow)
    } else if user.current_season_id == season_of(now) && user.season_games == u32::MAX {
        Err(GameError::Overflow)
    } else {
        Ok(())
    }
}

/// The user record after a game was started at `now`: one more game
/// played; in a new season the season figures start over.
pub open spec fn after_game_start(user: UserAccount, now: i64) -> UserAccount {
    if user.current_season_id != season_of(now) {
        UserAccount {
            games_played: (user.games_played + 1) as u32,
            current_season_id: season_of(now),
            season_games: 1,
            season_wins: 0,
            season_score: 0,
            ..user
        }
    } else {
        UserAccount {
            games_played: (user.games_played + 1) as u32,
            season_games: (user.season_games + 1) as u32,
            ..user
        }
    }
}

/// Records that the user started a game.
pub fn handler(user_account: &mut UserAccount, match_id: &[u8], user_id: &[u8], now: i64) -> (r: Result<
    (),
    GameError,
>)
    ensures
        match game_payment_check(*old(user_account), match_id@, user_id@, now) {
            Ok(_) => r is Ok && *final(user_account) == after_game_start(*old(user_account), now),
            Err(e) => r is Err && r->Err_0 == e && *final(user_account) == *old(user_account),
        },
{
    if match_id.len() != MATCH_ID_LEN {
        return Err(GameError::InvalidPayload);
    }
    if user_id.len() > 64 {
        return Err(GameError::InvalidPayload);
    }
    if user_account.games_played == u32::MAX {
        return Err(GameError::Overflow);
    }
    let season = current_season(now);
    if user_account.current_season_id != season {
        user_account.games_played = user_account.games_played + 1;
        user_account.current_season_id = season;
        user_account.season_games = 1;
        user_account.season_wins = 0;
        user_account.season_score = 0;
    } else {
        if user_account.season_games == u32::MAX {
            return Err(GameError::Overflow);
        }
        user_account.games_played = user_account.games_played + 1;
        user_account.season_games = user_account.season_games + 1;
    }
    Ok(())
}

} // verus!
