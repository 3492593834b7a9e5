//! The supported game types and their player limits.

use vstd::prelude::*;
use crate::bytes::{pad_bytes, padded};

verus! {

/// A game that a match can be played in.
#[derive(Clone, Copy, Debug, PartialEq, Eq, Structural)]
pub enum GameType {
    Claim,
    ThreeCardBrag,
    Poker,
    Bridge,
    Rummy,
    Scrabble,
    WordSearch,
    Crosswords,
}

/// The roster limits of a game type.
#[derive(Clone, Copy, Debug, PartialEq, Eq, Structural)]
pub struct GameConfig {
    pub min_players: u8,
    pub max_players: u8,
}

/// The highest code that names a game type.
pub const MAX_GAME_TYPE: u8 = 7;

/// The hard ceiling on a match's roster, whatever the game.
pub const MAX_PLAYERS: usize = 10;

impl GameType {
    /// The game type that a code stands for; unknown codes fall back to `Claim`.
    pub open spec fn spec_from_code(code: u8) -> GameType {
        if code == 1 {
            GameType::ThreeCardBrag
        } else if code == 2 {
            GameType::Poker
        } else if code == 3 {
            GameType::Bridge
        } else if code == 4 {
            GameType::Rummy
        } else if code == 5 {
            GameType::Scrabble
        } else if code == 6 {
            GameType::WordSearch
        } else if code == 7 {
            GameType::Crosswords
        } else {
            GameType::Claim
        }
    }

    /// The game type that a code stands for; unknown codes fall back to `Claim`.
    pub fn from_code(code: u8) -> (g: GameType)
        ensures
            g == Self::spec_from_code(code),
    {
        match code {
            1 => GameType::ThreeCardBrag,
            2 => GameType::Poker,
            3 => GameType::Bridge,
            4 => GameType::Rummy,
            5 => GameType::Scrabble,
            6 => GameType::WordSearch,
            7 => GameType::Crosswords,
            _ => GameType::Claim,
        }
    }

    /// The code under which this game type is stored.
    pub open spec fn spec_code(self) -> u8 {
        match self {
            GameType::Claim => 0,
            GameType::ThreeCardBrag => 1,
            GameType::Poker => 2,
            GameType::Bridge => 3,
            GameType::Rummy => 4,
            GameType::Scrabble => 5,
            GameType::WordSearch => 6,
            GameType::Crosswords => 7,
        }
    }

    /// The code under which this game type is stored.
    pub fn code(&self) -> (c: u8)
        ensures
            c == self.spec_code(),
            c <= MAX_GAME_TYPE,
            Self::spec_from_code(c) == *self,
    {
        match self {
            GameType::Claim => 0,
            GameType::ThreeCardBrag => 1,
            GameType::Poker => 2,
            GameType::Bridge => 3,
            GameType::Rummy => 4,
            GameType::Scrabble => 5,
            GameType::WordSearch => 6,
            GameType::Crosswords => 7,
        }
    }

    /// The roster limits of this game type, as a specification.
    pub open spec fn spec_config(self) -> GameConfig {
        match self {
            GameType::Claim => GameConfig { min_players: 2, max_players: 4 },
            GameType::ThreeCardBrag => GameConfig { min_players: 2, max_players: 6 },
            GameType::Poker => GameConfig { min_players: 2, max_players: 10 },
            GameType::Bridge => GameConfig { min_players: 4, max_players: 4 },
            GameType::Rummy => GameConfig { min_players: 2, max_players: 6 },
            GameType::Scrabble => GameConfig { min_players: 2, max_players: 4 },
            GameType::WordSearch => GameConfig { min_players: 1, max_players: 10 },
            GameType::Crosswords => GameConfig { min_players: 1, max_players: 10 },
        }
    }

    /// The roster limits of this game type.
    pub fn get_config(&self) -> (c: GameConfig)
        ensures
            c == self.spec_config(),
            1 <= c.min_players <= c.max_players <= MAX_PLAYERS,
    {
        match self {
            GameType::Claim => GameConfig { min_players: 2, max_players: 4 },
            GameType::ThreeCardBrag => GameConfig { min_players: 2, max_players: 6 },
            GameType::Poker => GameConfig { min_players: 2, max_players: 10 },
            GameType::Bridge => GameConfig { min_players: 4, max_players: 4 },
            GameType::Rummy => GameConfig { min_players: 2, max_players: 6 },
            GameType::Scrabble => GameConfig { min_players: 2, max_players: 4 },
            GameType::WordSearch => GameConfig { min_players: 1, max_players: 10 },
            GameType::Crosswords => GameConfig { min_players: 1, max_players: 10 },
        }
    }

    /// The display name of this game type, as a specification.
    pub open spec fn spec_name(self) -> Seq<char> {
        match self {
            GameType::Claim => "CLAIM"@,
            GameType::ThreeCardBrag => "THREECARDBRAG"@,
            GameType::Poker => "POKER"@,
            GameType::Bridge => "BRIDGE"@,
            GameType::Rummy => "RUMMY"@,
            GameType::Scrabble => "SCRABBLE"@,
            GameType::WordSearch => "WORDSEARCH"@,
            GameType::Crosswords => "CROSSWORDS"@,
        }
    }

    /// The display name of this game type.
    pub fn get_name(&self) -> (name: &'static str)
        ensures
            name@ == self.spec_name(),
    {
        match self {
            GameType::Claim => "CLAIM",
            GameType::ThreeCardBrag => "THREECARDBRAG",
            GameType::Poker => "POKER",
            GameType::Bridge => "BRIDGE",
            GameType::Rummy => "RUMMY",
            GameType::Scrabble => "SCRABBLE",
            GameType::WordSearch => "WORDSEARCH",
            GameType::Crosswords => "CROSSWORDS",
        }
    }

    /// The bytes of the display name.
    pub open spec fn spec_name_bytes(self) -> Seq<u8> {
        vstd::utf8::encode_utf8(self.spec_name())
    }

    /// The display name as a null-padded field of 20 bytes.
    pub fn name_field(&self) -> (f: [u8; 20])
        ensures
            f@ == padded(self.spec_name_bytes(), 20),
            self.spec_name_bytes().len() <= 13,
    {
        let name = self.get_name();
        proof {
            reveal_strlit("CLAIM");
            reveal_strlit("THREECARDBRAG");
            reveal_strlit("POKER");
            reveal_strlit("BRIDGE");
            reveal_strlit("RUMMY");
            reveal_strlit("SCRABBLE");
            reveal_strlit("WORDSEARCH");
            reveal_strlit("CROSSWORDS");
            vstd::utf8::is_ascii_chars_encode_utf8(name@);
        }
        match pad_bytes::<20>(name.as_bytes()) {
            Some(f) => f,
            None => [0u8; 20],
        }
    }
}

/// The largest roster that a stored game-type code admits.
pub open spec fn max_players_of(code: u8) -> u8 {
    GameType::spec_from_code(code).spec_config().max_players
}

/// The smallest roster with which a match of that game-type code may start.
pub open spec fn min_players_of(code: u8) -> u8 {
    GameType::spec_from_code(code).spec_config().min_players
}

} // verus!
