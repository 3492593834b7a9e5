//! The match record: one per match, in a fixed byte layout, with the
//! mathematical view that every contract of the lifecycle speaks of.

use vstd::prelude::*;
use crate::bytes::{all_zero, bytes_equal, is_all_zero, pad_bytes, padded};
use crate::packed::{flag_set, nibble_at, read_flag, read_nibble, write_flag, write_nibble};
use crate::state::game_config::{max_players_of, min_players_of, GameConfig, GameType, MAX_PLAYERS};

verus! {

/// The phase of a match. Phases only move forward.
#[derive(Clone, Copy, Debug, PartialEq, Eq, Structural)]
pub enum GamePhase {
    Dealing,
    Playing,
    Ended,
}

/// The stored code of the dealing phase.
pub const PHASE_DEALING: u8 = 0;

/// The stored code of the playing phase.
pub const PHASE_PLAYING: u8 = 1;

/// The stored code of the ended phase.
pub const PHASE_ENDED: u8 = 2;

/// The flag bit that says a floor card is revealed.
pub const FLAG_FLOOR_CARD_REVEALED: u8 = 1;

/// The flag bit that says the roster is closed.
pub const FLAG_ALL_PLAYERS_JOINED: u8 = 2;

/// Width of a match identifier.
pub const MATCH_ID_LEN: usize = 36;

/// Width of a player identity.
pub const USER_ID_LEN: usize = 64;

/// Width of a hash.
pub const HASH_LEN: usize = 32;

/// The match record in its stored layout.
#[derive(Clone, Copy, Debug)]
pub struct Match {
    /// The match identifier, immutable once set.
    pub match_id: [u8; 36],
    /// Schema version text, null-padded.
    pub version: [u8; 10],
    /// Display name of the game, null-padded.
    pub game_name: [u8; 20],
    /// Game-type code.
    pub game_type: u8,
    /// Seed of the deal.
    pub seed: u64,
    /// Phase code: 0 dealing, 1 playing, 2 ended.
    pub phase: u8,
    /// Index of the player whose turn it is.
    pub current_player: u8,
    /// Player identities, null-padded; the first `player_count` are in use.
    pub player_ids: [[u8; 64]; 10],
    /// Number of players on the roster.
    pub player_count: u8,
    /// Number of moves accepted so far.
    pub move_count: u32,
    /// Creation time.
    pub created_at: i64,
    /// End time; 0 while the match has not ended.
    pub ended_at: i64,
    /// Hash of the final record; all zero while unset.
    pub match_hash: [u8; 32],
    /// Where the full record is kept, null-padded; all zero while unset.
    pub hot_url: [u8; 200],
    /// The identity that may advance phases.
    pub authority: [u8; 32],
    /// Declared suits, four bits per player: 0 none, 1 to 4 the suits 0 to 3.
    pub declared_suits: [u8; 5],
    /// Bit 0: floor card revealed. Bit 1: all players joined.
    pub flags: u8,
    /// Commitment to the floor card; all zero while there is none.
    pub floor_card_hash: [u8; 32],
    /// Hand size per player.
    pub hand_sizes: [u8; 10],
    /// Hand commitments, 32 bytes per player; all zero while a player has none.
    pub committed_hand_hashes: [u8; 320],
    /// The last accepted nonce per player.
    pub last_nonce: [u64; 10],
}

/// What a four-bit suit field stands for.
pub open spec fn decode_suit(n: u8) -> Option<u8> {
    if n == 0 {
        None
    } else {
        Some((n - 1) as u8)
    }
}

/// The declared suits of the ten roster slots, decoded from the packed field.
pub open spec fn suits_of(packed: Seq<u8>) -> Seq<Option<u8>> {
    Seq::new(10, |i: int| decode_suit(nibble_at(packed, i)))
}

/// The ten hand commitments, cut from the flat field.
pub open spec fn commitments_of(flat: Seq<u8>) -> Seq<Seq<u8>> {
    Seq::new(10, |i: int| flat.subrange(32 * i, 32 * i + 32))
}

/// The identities in use: the first `count` slots, at most ten.
pub open spec fn roster_of(ids: Seq<[u8; 64]>, count: u8) -> Seq<Seq<u8>> {
    Seq::new(if count <= 10 { count as nat } else { 10 }, |i: int| ids[i]@)
}

/// No suit is held by two roster slots.
pub open spec fn suits_exclusive(suits: Seq<Option<u8>>) -> bool {
    forall|i: int, j: int|
        0 <= i < suits.len() && 0 <= j < suits.len() && i != j && suits[i] is Some
            ==> suits[i] != suits[j]
}

/// No identity occurs twice.
pub open spec fn roster_distinct(players: Seq<Seq<u8>>) -> bool {
    forall|i: int, j: int| 0 <= i < j < players.len() ==> players[i] != players[j]
}

/// The index of the first occurrence of `id` on the roster, if any.
pub open spec fn roster_position(players: Seq<Seq<u8>>, id: Seq<u8>) -> Option<int> {
    if exists|i: int| 0 <= i < players.len() && players[i] == id {
        Some(choose|i: int| 0 <= i < players.len() && players[i] == id
            && forall|j: int| 0 <= j < i ==> players[j] != id)
    } else {
        None
    }
}

/// The mathematical content of a match record.
#[verifier::ext_equal]
pub struct MatchView {
    pub match_id: Seq<u8>,
    pub version: Seq<u8>,
    pub game_name: Seq<u8>,
    pub game_type: u8,
    pub seed: u64,
    pub phase: u8,
    pub current_player: u8,
    /// The identities on the roster, in the order in which they joined.
    pub players: Seq<Seq<u8>>,
    pub player_count: u8,
    pub move_count: u32,
    pub created_at: i64,
    pub ended_at: i64,
    pub match_hash: Seq<u8>,
    pub hot_url: Seq<u8>,
    pub authority: Seq<u8>,
    /// Per roster slot, the suit that the player declared.
    pub declared_suits: Seq<Option<u8>>,
    pub floor_card_revealed: bool,
    pub all_players_joined: bool,
    pub floor_card_hash: Seq<u8>,
    pub hand_sizes: Seq<u8>,
    /// Per roster slot, the hand commitment; all zero stands for none.
    pub committed_hand_hashes: Seq<Seq<u8>>,
    pub last_nonce: Seq<u64>,
}

impl MatchView {
    /// The shape that every view of a record has.
    pub open spec fn shaped(self) -> bool {
        &&& self.match_id.len() == 36
        &&& self.version.len() == 10
        &&& self.game_name.len() == 20
        &&& self.match_hash.len() == 32
        &&& self.hot_url.len() == 200
        &&& self.authority.len() == 32
        &&& self.declared_suits.len() == 10
        &&& self.floor_card_hash.len() == 32
        &&& self.hand_sizes.len() == 10
        &&& self.committed_hand_hashes.len() == 10
        &&& self.last_nonce.len() == 10
        &&& self.players.len() == (if self.player_count <= 10 { self.player_count as nat } else { 10 })
        &&& forall|i: int| 0 <= i < 10 ==> (#[trigger] self.committed_hand_hashes[i]).len() == 32
        &&& forall|i: int| 0 <= i < self.players.len() ==> (#[trigger] self.players[i]).len() == 64
    }

    /// The invariant of a match record: the roster fits the game type and
    /// names nobody twice, the turn pointer is inside the roster, and no
    /// suit has two claimants.
    pub open spec fn wf(self) -> bool {
        &&& self.shaped()
        &&& self.phase <= 2
        &&& self.player_count <= max_players_of(self.game_type)
        &&& (self.player_count > 0 ==> self.current_player < self.player_count)
        &&& (self.player_count == 0 ==> self.current_player == 0)
        &&& roster_distinct(self.players)
        &&& suits_exclusive(self.declared_suits)
    }

    /// The suit that the player in slot `i` declared, if any.
    pub open spec fn declared_suit(self, i: int) -> Option<u8> {
        if 0 <= i < 10 {
            self.declared_suits[i]
        } else {
            None
        }
    }

    /// Whether some roster slot holds `suit`.
    pub open spec fn suit_locked(self, suit: u8) -> bool {
        exists|i: int| 0 <= i < 10 && self.declared_suits[i] == Some(suit)
    }

    /// The hand commitment of slot `i`, if one is on file.
    pub open spec fn commitment(self, i: int) -> Option<Seq<u8>> {
        if 0 <= i < 10 && !all_zero(self.committed_hand_hashes[i]) {
            Some(self.committed_hand_hashes[i])
        } else {
            None
        }
    }

    /// The floor-card commitment, if there is one.
    pub open spec fn floor_commitment(self) -> Option<Seq<u8>> {
        if all_zero(self.floor_card_hash) {
            None
        } else {
            Some(self.floor_card_hash)
        }
    }

    /// The last nonce of slot `i`; 0 outside the roster's ten slots.
    pub open spec fn nonce_of(self, i: int) -> u64 {
        if 0 <= i < 10 {
            self.last_nonce[i]
        } else {
            0
        }
    }

    /// The hand size of slot `i`; 0 outside the roster's ten slots.
    pub open spec fn hand_size_of(self, i: int) -> u8 {
        if 0 <= i < 10 {
            self.hand_sizes[i]
        } else {
            0
        }
    }

    /// Whether `id`, null-padded, is on the roster.
    pub open spec fn has_player(self, id: Seq<u8>) -> bool {
        id.len() <= 64 && self.players.contains(padded(id, 64))
    }

    /// The roster slot of `id`, null-padded, if it is on the roster.
    pub open spec fn player_index(self, id: Seq<u8>) -> Option<int> {
        if id.len() <= 64 {
            roster_position(self.players, padded(id, 64))
        } else {
            None
        }
    }
}

impl View for Match {
    type V = MatchView;

    open spec fn view(&self) -> MatchView {
        MatchView {
            match_id: self.match_id@,
            version: self.version@,
            game_name: self.game_name@,
            game_type: self.game_type,
            seed: self.seed,
            phase: self.phase,
            current_player: self.current_player,
            players: roster_of(self.player_ids@, self.player_count),
            player_count: self.player_count,
            move_count: self.move_count,
            created_at: self.created_at,
            ended_at: self.ended_at,
            match_hash: self.match_hash@,
            hot_url: self.hot_url@,
            authority: self.authority@,
            declared_suits: suits_of(self.declared_suits@),
            floor_card_revealed: flag_set(self.flags, FLAG_FLOOR_CARD_REVEALED),
            all_players_joined: flag_set(self.flags, FLAG_ALL_PLAYERS_JOINED),
            floor_card_hash: self.floor_card_hash@,
            hand_sizes: self.hand_sizes@,
            committed_hand_hashes: commitments_of(self.committed_hand_hashes@),
            last_nonce: self.last_nonce@,
        }
    }
}

/// The view of every record has the shape of a view.
pub proof fn lemma_view_shaped(m: Match)
    ensures
        m@.shaped(),
{
}

/// What `roster_position` returns: the first slot that holds `id`.
pub proof fn lemma_roster_position(players: Seq<Seq<u8>>, id: Seq<u8>)
    ensures
        match roster_position(players, id) {
            Some(i) => 0 <= i < players.len() && players[i] == id
                && forall|j: int| 0 <= j < i ==> players[j] != id,
            None => !players.contains(id),
        },
{
    if exists|i: int| 0 <= i < players.len() && players[i] == id {
        let w = choose|i: int| 0 <= i < players.len() && players[i] == id;
        lemma_first_occurrence(players, id, w);
    } else {
        assert forall|i: int| 0 <= i < players.len() implies players[i] != id by {}
    }
}

/// Where `id` occurs at all, it has a first occurrence.
proof fn lemma_first_occurrence(players: Seq<Seq<u8>>, id: Seq<u8>, w: int)
    requires
        0 <= w < players.len(),
        players[w] == id,
    ensures
        exists|i: int| 0 <= i < players.len() && players[i] == id
            && forall|j: int| 0 <= j < i ==> players[j] != id,
    decreases w,
{
    if exists|j: int| 0 <= j < w && players[j] == id {
        let j = choose|j: int| 0 <= j < w && players[j] == id;
        lemma_first_occurrence(players, id, j);
    } else {
        assert(0 <= w < players.len() && players[w] == id
            && forall|j: int| 0 <= j < w ==> players[j] != id);
    }
}

/// A slot that holds `id` with no earlier slot holding it is its position.
pub proof fn lemma_roster_position_is(players: Seq<Seq<u8>>, id: Seq<u8>, k: int)
    requires
        0 <= k < players.len(),
        players[k] == id,
        forall|j: int| 0 <= j < k ==> players[j] != id,
    ensures
        roster_position(players, id) == Some(k),
{
    lemma_roster_position(players, id);
    let p = roster_position(players, id)->0;
    if p < k {
        assert(players[p] != id);
    } else if k < p {
        assert(players[k] != id);
    }
}


/// Writes one 32-byte slot of the flat commitment field.
fn write_commitment_slot(flat: &mut [u8; 320], slot: usize, hash: &[u8; 32])
    requires
        slot < 10,
    ensures
        commitments_of(final(flat)@) == commitments_of(old(flat)@).update(slot as int, hash@),
{
    let start = slot * 32;
    let ghost before = flat@;
    let mut k: usize = 0;
    while k < 32
        invariant
            k <= 32,
            start == slot * 32,
            slot < 10,
            forall|j: int| 0 <= j < k ==> flat@[start + j] == hash@[j],
            forall|j: int| 0 <= j < 320 && !(start <= j < start + k) ==> flat@[j] == before[j],
        decreases 32 - k,
    {
        flat[start + k] = hash[k];
        k += 1;
    }
    proof {
        let after = commitments_of(flat@);
        let want = commitments_of(before).update(slot as int, hash@);
        assert forall|i: int| 0 <= i < 10 implies after[i] =~= want[i] by {
            if i == slot {
                assert forall|j: int| 0 <= j < 32 implies after[i][j] == hash@[j] by {
                    assert(flat@[start + j] == hash@[j]);
                }
            } else {
                assert forall|j: int| 0 <= j < 32 implies after[i][j] == before[32 * i + j] by {
                    assert(!(start <= 32 * i + j < start + 32));
                }
            }
        }
        assert(after =~= want);
    }
}

impl Match {
    /// The byte-size ceiling of a stored match record.
    pub const MAX_SIZE: usize = 8 + 36 + 10 + 20 + 1 + 8 + 1 + 1 + (64 * 10) + 1 + 4 + 8 + 8 + 32
        + 200 + 32 + 5 + 1 + 32 + 10 + 320 + (8 * 10);

    /// The invariant of a match record, on its view.
    pub open spec fn wf(&self) -> bool {
        self@.wf()
    }

    /// Tests the invariant at run time.
    pub fn is_well_formed(&self) -> (r: bool)
        ensures
            r == self.wf(),
    {
        proof {
            lemma_view_shaped(*self);
        }
        if self.phase > PHASE_ENDED {
            return false;
        }
        if self.player_count > self.get_max_players() {
            return false;
        }
        if self.player_count > 0 && self.current_player >= self.player_count {
            return false;
        }
        if self.player_count == 0 && self.current_player != 0 {
            return false;
        }
        let count = self.player_count as usize;
        let mut j: usize = 0;
        while j < count
            invariant
                j <= count <= 10,
                count == self@.players.len(),
                forall|a: int, b: int| 0 <= a < b < j ==> self@.players[a] != self@.players[b],
            decreases count - j,
        {
            let mut a: usize = 0;
            while a < j
                invariant
                    a <= j < count <= 10,
                    count == self@.players.len(),
                    forall|x: int| 0 <= x < a ==> self@.players[x] != self@.players[j as int],
                decreases j - a,
            {
                if bytes_equal(&self.player_ids[a], &self.player_ids[j]) {
                    assert(self@.players[a as int] == self@.players[j as int]);
                    return false;
                }
                a += 1;
            }
            j += 1;
        }
        let mut i: usize = 0;
        while i < 10
            invariant
                i <= 10,
                forall|a: int, b: int|
                    0 <= a < i && 0 <= b < 10 && a != b && self@.declared_suits[a] is Some
                        ==> self@.declared_suits[a] != self@.declared_suits[b],
            decreases 10 - i,
        {
            let mine = self.get_declared_suit(i);
            if mine.is_some() {
                let mut k: usize = 0;
                while k < 10
                    invariant
                        k <= 10,
                        i < 10,
                        mine is Some,
                        mine == self@.declared_suits[i as int],
                        forall|b: int|
                            0 <= b < k && b != i ==> self@.declared_suits[b] != mine,
                    decreases 10 - k,
                {
                    if k != i {
                        let theirs = self.get_declared_suit(k);
                        if theirs.is_some() && theirs.unwrap() == mine.unwrap() {
                            assert(self@.declared_suits[i as int] == self@.declared_suits[k as int]);
                            return false;
                        }
                    }
                    k += 1;
                }
            }
            i += 1;
        }
        true
    }

    /// The game type of the match; unknown codes fall back to `Claim`.
    pub fn get_game_type(&self) -> (g: GameType)
        ensures
            g == GameType::spec_from_code(self.game_type),
    {
        GameType::from_code(self.game_type)
    }

    /// The roster limits of the match's game type.
    pub fn get_game_config(&self) -> (c: GameConfig)
        ensures
            c == GameType::spec_from_code(self.game_type).spec_config(),
            c.max_players == max_players_of(self.game_type),
            c.min_players == min_players_of(self.game_type),
            1 <= c.min_players <= c.max_players <= MAX_PLAYERS,
    {
        self.get_game_type().get_config()
    }

    /// Whether the roster has reached the game type's maximum.
    pub fn is_full(&self) -> (r: bool)
        ensures
            r == (self.player_count >= max_players_of(self.game_type)),
    {
        let config = self.get_game_config();
        self.player_count >= config.max_players
    }

    /// Whether the roster has reached the game type's minimum.
    pub fn has_minimum_players(&self) -> (r: bool)
        ensures
            r == (self.player_count >= min_players_of(self.game_type)),
    {
        let config = self.get_game_config();
        self.player_count >= config.min_players
    }

    /// The smallest roster with which the match may start.
    pub fn get_min_players(&self) -> (n: u8)
        ensures
            n == min_players_of(self.game_type),
            1 <= n <= MAX_PLAYERS,
    {
        self.get_game_config().min_players
    }

    /// The largest roster that the match admits.
    pub fn get_max_players(&self) -> (n: u8)
        ensures
            n == max_players_of(self.game_type),
            1 <= n <= MAX_PLAYERS,
    {
        self.get_game_config().max_players
    }

    /// Whether a player may still join: the match is dealing, not full, and
    /// the roster has not been closed.
    pub fn can_join(&self) -> (r: bool)
        ensures
            r == (self.phase == PHASE_DEALING
                && self.player_count < max_players_of(self.game_type)
                && !self@.all_players_joined),
    {
        self.phase == PHASE_DEALING && !self.is_full() && !self.all_players_joined()
    }

    /// The phase of the match; unknown codes read as `Dealing`.
    pub fn get_phase(&self) -> (p: GamePhase)
        ensures
            p == (if self.phase == PHASE_PLAYING {
                GamePhase::Playing
            } else if self.phase == PHASE_ENDED {
                GamePhase::Ended
            } else {
                GamePhase::Dealing
            }),
    {
        match self.phase {
            1 => GamePhase::Playing,
            2 => GamePhase::Ended,
            _ => GamePhase::Dealing,
        }
    }

    /// Whether the player in slot `player_index` has declared a suit.
    pub fn has_declared_suit(&self, player_index: usize) -> (r: bool)
        ensures
            r == self@.declared_suit(player_index as int) is Some,
    {
        self.get_declared_suit(player_index).is_some()
    }

    /// The suit that the player in slot `player_index` declared, if any.
    pub fn get_declared_suit(&self, player_index: usize) -> (r: Option<u8>)
        ensures
            r == self@.declared_suit(player_index as int),
            r is Some ==> r->0 <= 14,
    {
        if player_index >= 10 {
            return None;
        }
        let n = read_nibble(&self.declared_suits, player_index);
        if n == 0 {
            None
        } else {
            Some(n - 1)
        }
    }

    /// Whether some roster slot holds `suit`.
    pub fn is_suit_locked(&self, suit: u8) -> (r: bool)
        ensures
            r == self@.suit_locked(suit),
    {
        if suit > 14 {
            proof {
                assert forall|i: int| 0 <= i < 10 implies self@.declared_suits[i] != Some(suit) by {
                    crate::packed::lemma_nibble_bounds(self.declared_suits@[i / 2]);
                }
            }
            return false;
        }
        let mut i: usize = 0;
        while i < 10
            invariant
                i <= 10,
                suit <= 14,
                forall|j: int| 0 <= j < i ==> self@.declared_suits[j] != Some(suit),
            decreases 10 - i,
        {
            let n = read_nibble(&self.declared_suits, i);
            if n == suit + 1 {
                assert(self@.declared_suits[i as int] == Some(suit));
                return true;
            }
            i += 1;
        }
        false
    }

    /// Records `suit` for the player in slot `player_index`. Does nothing
    /// when the slot or the suit code is out of range.
    pub fn set_declared_suit(&mut self, player_index: usize, suit: u8)
        ensures
            player_index < 10 && suit <= 3 ==> final(self)@ == (MatchView {
                declared_suits: old(self)@.declared_suits.update(player_index as int, Some(suit)),
                ..old(self)@
            }),
            !(player_index < 10 && suit <= 3) ==> *final(self) == *old(self),
            *final(self) == (Match { declared_suits: final(self).declared_suits, ..*old(self) }),
    {
        if player_index >= 10 || suit > 3 {
            return;
        }
        write_nibble(&mut self.declared_suits, player_index, suit + 1);
        proof {
            assert(self@.declared_suits =~= old(self)@.declared_suits.update(
                player_index as int,
                Some(suit),
            ));
            assert(self@ =~= (MatchView {
                declared_suits: old(self)@.declared_suits.update(player_index as int, Some(suit)),
                ..old(self)@
            }));
        }
    }

    /// Whether a floor card is revealed.
    pub fn floor_card_revealed(&self) -> (r: bool)
        ensures
            r == self@.floor_card_revealed,
    {
        read_flag(self.flags, FLAG_FLOOR_CARD_REVEALED)
    }

    /// Sets or clears the floor-card flag.
    pub fn set_floor_card_revealed(&mut self, revealed: bool)
        ensures
            final(self)@ == (MatchView { floor_card_revealed: revealed, ..old(self)@ }),
            *final(self) == (Match { flags: final(self).flags, ..*old(self) }),
    {
        self.flags = write_flag(self.flags, FLAG_FLOOR_CARD_REVEALED, revealed);
        proof {
            assert(flag_set(self.flags, 2u8) == flag_set(old(self).flags, 2u8));
            assert(self@ =~= (MatchView { floor_card_revealed: revealed, ..old(self)@ }));
        }
    }

    /// Whether the roster has been closed.
    pub fn all_players_joined(&self) -> (r: bool)
        ensures
            r == self@.all_players_joined,
    {
        read_flag(self.flags, FLAG_ALL_PLAYERS_JOINED)
    }

    /// Sets or clears the roster-closed flag.
    pub fn set_all_players_joined(&mut self, joined: bool)
        ensures
            final(self)@ == (MatchView { all_players_joined: joined, ..old(self)@ }),
            *final(self) == (Match { flags: final(self).flags, ..*old(self) }),
    {
        self.flags = write_flag(self.flags, FLAG_ALL_PLAYERS_JOINED, joined);
        proof {
            assert(flag_set(self.flags, 1u8) == flag_set(old(self).flags, 1u8));
            assert(self@ =~= (MatchView { all_players_joined: joined, ..old(self)@ }));
        }
    }

    /// Whether an end time is on record.
    pub fn is_ended(&self) -> (r: bool)
        ensures
            r == (self.ended_at != 0),
    {
        self.ended_at != 0
    }

    /// Whether the hash of the final record is set.
    pub fn has_match_hash(&self) -> (r: bool)
        ensures
            r == !all_zero(self.match_hash@),
    {
        !is_all_zero(&self.match_hash)
    }

    /// The last accepted nonce of slot `player_index`; 0 outside the ten slots.
    pub fn get_last_nonce(&self, player_index: usize) -> (n: u64)
        ensures
            n == self@.nonce_of(player_index as int),
    {
        if player_index >= 10 {
            return 0;
        }
        self.last_nonce[player_index]
    }

    /// Records the last accepted nonce of slot `player_index`. Does nothing
    /// outside the ten slots.
    pub fn set_last_nonce(&mut self, player_index: usize, nonce: u64)
        ensures
            player_index < 10 ==> final(self)@ == (MatchView {
                last_nonce: old(self)@.last_nonce.update(player_index as int, nonce),
                ..old(self)@
            }),
            player_index >= 10 ==> *final(self) == *old(self),
            *final(self) == (Match { last_nonce: final(self).last_nonce, ..*old(self) }),
    {
        if player_index < 10 {
            self.last_nonce[player_index] = nonce;
            proof {
                assert(self@ =~= (MatchView {
                    last_nonce: old(self)@.last_nonce.update(player_index as int, nonce),
                    ..old(self)@
                }));
            }
        }
    }

    /// The hand commitment of slot `player_index`, if one is on file.
    pub fn get_committed_hand_hash(&self, player_index: usize) -> (r: Option<[u8; 32]>)
        ensures
            match r {
                Some(h) => self@.commitment(player_index as int) == Some(h@),
                None => self@.commitment(player_index as int) is None,
            },
    {
        if player_index >= 10 {
            return None;
        }
        let start = player_index * 32;
        let mut hash = [0u8; 32];
        let mut k: usize = 0;
        while k < 32
            invariant
                k <= 32,
                player_index < 10,
                start == player_index * 32,
                forall|j: int| 0 <= j < k ==> hash@[j] == self.committed_hand_hashes@[start + j],
            decreases 32 - k,
        {
            hash[k] = self.committed_hand_hashes[start + k];
            k += 1;
        }
        assert(hash@ =~= self@.committed_hand_hashes[player_index as int]);
        if is_all_zero(&hash) {
            None
        } else {
            Some(hash)
        }
    }

    /// Files the hand commitment of slot `player_index`. Does nothing outside
    /// the ten slots.
    pub fn set_committed_hand_hash(&mut self, player_index: usize, hash: [u8; 32])
        ensures
            player_index < 10 ==> final(self)@ == (MatchView {
                committed_hand_hashes: old(self)@.committed_hand_hashes.update(
                    player_index as int,
                    hash@,
                ),
                ..old(self)@
            }),
            player_index >= 10 ==> *final(self) == *old(self),
            *final(self) == (Match {
                committed_hand_hashes: final(self).committed_hand_hashes,
                ..*old(self)
            }),
    {
        if player_index < 10 {
            write_commitment_slot(&mut self.committed_hand_hashes, player_index, &hash);
            proof {
                assert(self@ =~= (MatchView {
                    committed_hand_hashes: old(self)@.committed_hand_hashes.update(
                        player_index as int,
                        hash@,
                    ),
                    ..old(self)@
                }));
            }
        }
    }

    /// The floor-card commitment, if there is one.
    pub fn get_floor_card_hash(&self) -> (r: Option<[u8; 32]>)
        ensures
            match r {
                Some(h) => self@.floor_commitment() == Some(h@),
                None => self@.floor_commitment() is None,
            },
    {
        if is_all_zero(&self.floor_card_hash) {
            None
        } else {
            Some(self.floor_card_hash)
        }
    }

    /// Records the floor-card commitment.
    pub fn set_floor_card_hash(&mut self, hash: [u8; 32])
        ensures
            final(self)@ == (MatchView { floor_card_hash: hash@, ..old(self)@ }),
            *final(self) == (Match { floor_card_hash: hash, ..*old(self) }),
    {
        self.floor_card_hash = hash;
        proof {
            assert(self@ =~= (MatchView { floor_card_hash: hash@, ..old(self)@ }));
        }
    }

    /// Removes the floor-card commitment.
    pub fn clear_floor_card_hash(&mut self)
        ensures
            final(self)@ == (MatchView { floor_card_hash: Seq::new(32, |i: int| 0u8), ..old(self)@ }),
            final(self)@.floor_commitment() is None,
            *final(self) == (Match { floor_card_hash: final(self).floor_card_hash, ..*old(self) }),
    {
        self.floor_card_hash = [0u8; 32];
        proof {
            assert(self.floor_card_hash@ =~= Seq::new(32, |i: int| 0u8));
            assert(self@ =~= (MatchView {
                floor_card_hash: Seq::new(32, |i: int| 0u8),
                ..old(self)@
            }));
        }
    }

    /// The hand size of slot `player_index`; 0 outside the ten slots.
    pub fn get_hand_size(&self, player_index: usize) -> (n: u8)
        ensures
            n == self@.hand_size_of(player_index as int),
    {
        if player_index >= 10 {
            return 0;
        }
        self.hand_sizes[player_index]
    }

    /// Records the hand size of slot `player_index`. Does nothing outside the
    /// ten slots.
    pub fn set_hand_size(&mut self, player_index: usize, size: u8)
        ensures
            player_index < 10 ==> final(self)@ == (MatchView {
                hand_sizes: old(self)@.hand_sizes.update(player_index as int, size),
                ..old(self)@
            }),
            player_index >= 10 ==> *final(self) == *old(self),
            *final(self) == (Match { hand_sizes: final(self).hand_sizes, ..*old(self) }),
    {
        if player_index < 10 {
            self.hand_sizes[player_index] = size;
            proof {
                assert(self@ =~= (MatchView {
                    hand_sizes: old(self)@.hand_sizes.update(player_index as int, size),
                    ..old(self)@
                }));
            }
        }
    }

    /// The stored identity of slot `player_index`, in use or not.
    pub fn get_player_id(&self, player_index: usize) -> (r: Option<[u8; 64]>)
        ensures
            player_index < 10 ==> r == Some(self.player_ids[player_index as int]),
            player_index >= 10 ==> r is None,
    {
        if player_index >= 10 {
            return None;
        }
        Some(self.player_ids[player_index])
    }

    /// Stores an identity in slot `player_index`. Does nothing outside the
    /// ten slots.
    pub fn set_player_id(&mut self, player_index: usize, user_id: [u8; 64])
        ensures
            player_index < 10 ==> final(self).player_ids@ == old(self).player_ids@.update(
                player_index as int,
                user_id,
            ),
            player_index >= 10 ==> *final(self) == *old(self),
            *final(self) == (Match { player_ids: final(self).player_ids, ..*old(self) }),
    {
        if player_index < 10 {
            self.player_ids[player_index] = user_id;
        }
    }

    /// The roster slot of `user_id`, null-padded to the identity width: the
    /// first of the slots in use that holds it.
    pub fn find_player_index(&self, user_id: &[u8]) -> (r: Option<usize>)
        ensures
            match r {
                Some(i) => self@.player_index(user_id@) == Some(i as int) && i < self.player_count
                    && i < 10,
                None => self@.player_index(user_id@) is None,
            },
            r is Some <==> self@.has_player(user_id@),
    {
        let wanted = match pad_bytes::<64>(user_id) {
            Some(w) => w,
            None => {
                return None;
            },
        };
        let count: usize = if self.player_count <= 10 {
            self.player_count as usize
        } else {
            10
        };
        let mut i: usize = 0;
        while i < count
            invariant
                i <= count,
                count == self@.players.len(),
                count <= 10,
                count <= self.player_count,
                user_id@.len() <= 64,
                wanted@ == padded(user_id@, 64),
                forall|j: int| 0 <= j < i ==> self@.players[j] != wanted@,
            decreases count - i,
        {
            if bytes_equal(&self.player_ids[i], &wanted) {
                proof {
                    assert(self@.players[i as int] == wanted@);
                    lemma_roster_position_is(self@.players, wanted@, i as int);
                    assert(self@.players.contains(wanted@));
                }
                return Some(i);
            }
            i += 1;
        }
        proof {
            lemma_roster_position(self@.players, wanted@);
            assert(!self@.players.contains(wanted@));
        }
        None
    }

    /// Whether `user_id`, null-padded, is on the roster.
    pub fn has_player_id(&self, user_id: &[u8]) -> (r: bool)
        ensures
            r == self@.has_player(user_id@),
    {
        self.find_player_index(user_id).is_some()
    }
}

} // verus!
