//! The registry of games, capped at twenty.

use vstd::prelude::*;
use crate::error::GameError;

verus! {

/// The most games that the registry holds.
pub const MAX_GAMES: usize = 20;

/// One registered game.
#[derive(Clone, Copy, Debug, PartialEq)]
pub struct GameDefinition {
    /// The game's code.
    pub game_id: u8,
    /// Display name, null-padded.
    pub name: [u8; 20],
    /// Smallest roster.
    pub min_players: u8,
    /// Largest roster.
    pub max_players: u8,
    /// Where the rules are evaluated, null-padded.
    pub rule_engine_url: [u8; 200],
    /// Version of the game's rules.
    pub version: u8,
    /// Whether the game can be played.
    pub enabled: bool,
}

/// The registry of games in its stored layout.
#[derive(Clone, Copy, Debug)]
pub struct GameRegistry {
    /// The identity that may register and update games.
    pub authority: [u8; 32],
    /// Number of games in use.
    pub game_count: u8,
    /// The games; the first `game_count` are in use.
    pub games: [GameDefinition; 20],
    /// Time of the last update.
    pub last_updated: i64,
}

/// A byte string without the zero bytes at its end.
pub open spec fn trimmed(s: Seq<u8>) -> Seq<u8>
    decreases s.len(),
{
    if s.len() > 0 && s.last() == 0 {
        trimmed(s.drop_last())
    } else {
        s
    }
}

/// The text that a byte string decodes to as UTF-8, each invalid sequence
/// replaced by U+FFFD.
pub uninterp spec fn utf8_lossy(bytes: Seq<u8>) -> Seq<char>;

/// Calls `String::from_utf8_lossy` and takes ownership of the text with
/// `Cow::into_owned`. Trusted: the text is a function of the bytes alone.
#[verifier::external_body]
fn lossy_text(bytes: &[u8]) -> (text: String)
    ensures
        text@ == utf8_lossy(bytes@),
{
    String::from_utf8_lossy(bytes).into_owned()
}

/// The text of a null-padded field: its bytes up to the trailing zeros,
/// decoded.
fn field_text<const N: usize>(field: &[u8; N]) -> (text: String)
    ensures
        text@ == utf8_lossy(trimmed(field@)),
{
    let mut end: usize = N;
    assert(field@.take(N as int) =~= field@);
    while end > 0 && field[end - 1] == 0
        invariant
            end <= N,
            trimmed(field@) == trimmed(field@.take(end as int)),
        decreases end,
    {
        assert(field@.take(end as int).drop_last() =~= field@.take(end - 1));
        end -= 1;
    }
    let used = vstd::slice::slice_subrange(field.as_slice(), 0, end);
    assert(used@ =~= field@.take(end as int));
    lossy_text(used)
}

/// The index of the first of `games` with code `game_id`, or the length.
pub open spec fn game_position(games: Seq<GameDefinition>, game_id: u8) -> int
    decreases games.len(),
{
    if games.len() == 0 {
        0
    } else if games[0].game_id == game_id {
        0
    } else {
        1 + game_position(games.drop_first(), game_id)
    }
}

/// What `game_position` returns: the first index that holds the code.
pub proof fn lemma_game_position(games: Seq<GameDefinition>, game_id: u8)
    ensures
        0 <= game_position(games, game_id) <= games.len(),
        forall|j: int| 0 <= j < game_position(games, game_id) ==> (#[trigger] games[j]).game_id != game_id,
        game_position(games, game_id) < games.len() ==> games[game_position(games, game_id)].game_id
            == game_id,
    decreases games.len(),
{
    if games.len() > 0 && games[0].game_id != game_id {
        let t = games.drop_first();
        lemma_game_position(t, game_id);
        assert forall|j: int| 0 <= j < game_position(games, game_id) implies (#[trigger] games[j]).game_id
            != game_id by {
            if j > 0 {
                assert(games[j] == t[j - 1]);
            }
        }
    }
}

/// An index that holds the code, with none before it that does, is its
/// position.
pub proof fn lemma_game_position_is(games: Seq<GameDefinition>, game_id: u8, k: int)
    requires
        0 <= k <= games.len(),
        forall|j: int| 0 <= j < k ==> (#[trigger] games[j]).game_id != game_id,
        k < games.len() ==> games[k].game_id == game_id,
    ensures
        game_position(games, game_id) == k,
{
    lemma_game_position(games, game_id);
    let p = game_position(games, game_id);
    if p < k {
        assert(games[p].game_id != game_id);
    } else if k < p {
        assert(games[k].game_id != game_id);
    }
}

/// The enabled games among `games`, in order.
pub open spec fn enabled_of(games: Seq<GameDefinition>) -> Seq<GameDefinition>
    decreases games.len(),
{
    if games.len() == 0 {
        Seq::empty()
    } else if games.last().enabled {
        enabled_of(games.drop_last()).push(games.last())
    } else {
        enabled_of(games.drop_last())
    }
}

impl GameDefinition {
    /// The stored size of a game definition.
    pub const SIZE: usize = 1 + 20 + 1 + 1 + 200 + 1 + 1;

    /// The display name as text.
    pub fn get_name_string(&self) -> (text: String)
        ensures
            text@ == utf8_lossy(trimmed(self.name@)),
    {
        field_text(&self.name)
    }

    /// The location of the rule engine as text.
    pub fn get_rule_engine_url_string(&self) -> (text: String)
        ensures
            text@ == utf8_lossy(trimmed(self.rule_engine_url@)),
    {
        field_text(&self.rule_engine_url)
    }
}

impl GameRegistry {
    /// The byte-size ceiling of a stored registry.
    pub const MAX_SIZE: usize = 8 + 32 + 1 + (225 * 20) + 8;

    /// The games in use, in the order in which they were registered.
    pub open spec fn listed(&self) -> Seq<GameDefinition> {
        self.games@.take(
            if self.game_count <= 20 {
                self.game_count as int
            } else {
                20
            },
        )
    }

    /// Whether a game with code `game_id` is registered.
    pub open spec fn has_game(&self, game_id: u8) -> bool {
        game_position(self.listed(), game_id) < self.listed().len()
    }

    /// An empty registry under an authority.
    pub fn new(authority: [u8; 32], now: i64) -> (r: GameRegistry)
        ensures
            r.authority == authority,
            r.game_count == 0,
            r.listed() == Seq::<GameDefinition>::empty(),
            r.last_updated == now,
    {
        let blank = GameDefinition {
            game_id: 0,
            name: [0u8; 20],
            min_players: 0,
            max_players: 0,
            rule_engine_url: [0u8; 200],
            version: 0,
            enabled: false,
        };
        let r = GameRegistry { authority, game_count: 0, games: [blank; 20], last_updated: now };
        assert(r.listed() =~= Seq::<GameDefinition>::empty());
        r
    }

    /// The index of the game with code `game_id` among the games in use,
    /// or their number when there is none.
    pub fn find_game_index(&self, game_id: u8) -> (r: usize)
        ensures
            r == game_position(self.listed(), game_id),
            r <= self.listed().len(),
    {
        let count: usize = if self.game_count <= 20 {
            self.game_count as usize
        } else {
            20
        };
        let mut i: usize = 0;
        while i < count
            invariant
                i <= count <= 20,
                count == self.listed().len(),
                forall|j: int| 0 <= j < i ==> (#[trigger] self.listed()[j]).game_id != game_id,
            decreases count - i,
        {
            assert(self.listed()[i as int] == self.games@[i as int]);
            if self.games[i].game_id == game_id {
                proof {
                    lemma_game_position_is(self.listed(), game_id, i as int);
                }
                return i;
            }
            i += 1;
        }
        proof {
            lemma_game_position_is(self.listed(), game_id, count as int);
        }
        count
    }

    /// The game with code `game_id`, if registered.
    pub fn find_game(&self, game_id: u8) -> (r: Option<&GameDefinition>)
        ensures
            self.has_game(game_id) ==> r is Some && *r->0 == self.listed()[game_position(
                self.listed(),
                game_id,
            )],
            !self.has_game(game_id) ==> r is None,
    {
        let at = self.find_game_index(game_id);
        if at < 20 && at < self.game_count as usize {
            assert(self.listed()[at as int] == self.games@[at as int]);
            Some(&self.games[at])
        } else {
            None
        }
    }

    /// The game with code `game_id`, for changing it in place, if
    /// registered.
    pub fn find_game_mut(&mut self, game_id: u8) -> (r: Option<&mut GameDefinition>)
        ensures
            match r {
                Some(g) => {
                    let at = game_position(old(self).listed(), game_id);
                    &&& old(self).has_game(game_id)
                    &&& *g == old(self).listed()[at]
                    &&& final(self).games@ == old(self).games@.update(at, *final(g))
                    &&& *final(self) == (GameRegistry { games: final(self).games, ..*old(self) })
                },
                None => !old(self).has_game(game_id) && *final(self) == *old(self),
            },
    {
        let at = self.find_game_index(game_id);
        if at < 20 && at < self.game_count as usize {
            assert(self.listed()[at as int] == self.games@[at as int]);
            Some(&mut self.games[at])
        } else {
            None
        }
    }

    /// Registers a game. Refused with `InvalidPayload`, and nothing
    /// changed, when the registry is full or the code is taken.
    pub fn add_game(&mut self, game: GameDefinition) -> (r: Result<(), GameError>)
        ensures
            old(self).game_count < MAX_GAMES && !old(self).has_game(game.game_id) ==> r is Ok
                && final(self).listed() == old(self).listed().push(game) && final(self).game_count
                == old(self).game_count + 1,
            !(old(self).game_count < MAX_GAMES && !old(self).has_game(game.game_id)) ==> r == Err::<
                (),
                GameError,
            >(GameError::InvalidPayload) && *final(self) == *old(self),
            *final(self) == (GameRegistry {
                games: final(self).games,
                game_count: final(self).game_count,
                ..*old(self)
            }),
    {
        if self.game_count as usize >= MAX_GAMES {
            return Err(GameError::InvalidPayload);
        }
        if self.find_game_index(game.game_id) < self.game_count as usize {
            return Err(GameError::InvalidPayload);
        }
        let slot = self.game_count as usize;
        self.games[slot] = game;
        self.game_count = self.game_count + 1;
        assert(self.listed() =~= old(self).listed().push(game));
        Ok(())
    }

    /// Replaces the game with code `game_id`. Refused with
    /// `InvalidPayload`, and nothing changed, when no such game is
    /// registered or the replacement has another code.
    pub fn update_game(&mut self, game_id: u8, updated_game: GameDefinition) -> (r: Result<
        (),
        GameError,
    >)
        ensures
            old(self).has_game(game_id) && updated_game.game_id == game_id ==> r is Ok && final(self).listed() == old(self).listed().update(
                game_position(old(self).listed(), game_id),
                updated_game,
            ),
            !(old(self).has_game(game_id) && updated_game.game_id == game_id) ==> r == Err::<
                (),
                GameError,
            >(GameError::InvalidPayload) && *final(self) == *old(self),
            *final(self) == (GameRegistry { games: final(self).games, ..*old(self) }),
    {
        let at = self.find_game_index(game_id);
        if !(at < 20 && at < self.game_count as usize) {
            return Err(GameError::InvalidPayload);
        }
        if updated_game.game_id != game_id {
            return Err(GameError::InvalidPayload);
        }
        self.games[at] = updated_game;
        assert(self.listed() =~= old(self).listed().update(at as int, updated_game));
        Ok(())
    }

    /// Disables the game with code `game_id`. Refused with
    /// `InvalidPayload`, and nothing changed, when no such game is
    /// registered.
    pub fn disable_game(&mut self, game_id: u8) -> (r: Result<(), GameError>)
        ensures
            old(self).has_game(game_id) ==> r is Ok && final(self).listed() == old(self).listed().update(
                game_position(old(self).listed(), game_id),
                (GameDefinition {
                    enabled: false,
                    ..old(self).listed()[game_position(old(self).listed(), game_id)]
                }),
            ),
            !old(self).has_game(game_id) ==> r == Err::<(), GameError>(GameError::InvalidPayload)
                && *final(self) == *old(self),
            *final(self) == (GameRegistry { games: final(self).games, ..*old(self) }),
    {
        let at = self.find_game_index(game_id);
        if !(at < 20 && at < self.game_count as usize) {
            return Err(GameError::InvalidPayload);
        }
        assert(self.listed()[at as int] == self.games@[at as int]);
        let mut game = self.games[at];
        game.enabled = false;
        self.games[at] = game;
        assert(self.listed() =~= old(self).listed().update(at as int, game));
        Ok(())
    }

    /// The enabled games, in the order in which they were registered.
    pub fn get_enabled_games(&self) -> (r: Vec<&GameDefinition>)
        ensures
            r@.len() == enabled_of(self.listed()).len(),
            forall|i: int| 0 <= i < r@.len() ==> *(#[trigger] r@[i]) == enabled_of(self.listed())[i],
    {
        let count: usize = if self.game_count <= 20 {
            self.game_count as usize
        } else {
            20
        };
        let mut enabled: Vec<&GameDefinition> = Vec::new();
        let mut i: usize = 0;
        assert(self.listed().take(0) =~= Seq::<GameDefinition>::empty());
        while i < count
            invariant
                i <= count <= 20,
                count == self.listed().len(),
                enabled@.len() == enabled_of(self.listed().take(i as int)).len(),
                forall|k: int|
                    0 <= k < enabled@.len() ==> *(#[trigger] enabled@[k]) == enabled_of(
                        self.listed().take(i as int),
                    )[k],
            decreases count - i,
        {
            assert(self.listed().take(i + 1).drop_last() =~= self.listed().take(i as int));
            assert(self.listed().take(i + 1).last() == self.games@[i as int]);
            if self.games[i].enabled {
                enabled.push(&self.games[i]);
            }
            i += 1;
        }
        assert(self.listed().take(count as int) =~= self.listed());
        enabled
    }
}

} // verus!
