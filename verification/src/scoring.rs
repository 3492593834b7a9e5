//! Scores: the estimate made when a match ends, and the exact scores from
//! a replay of the move log. The two are kept apart on purpose: the
//! estimate sees only the match record, the replay sees every move.

use vstd::prelude::*;
use crate::state::match_state::{roster_position, Match, MatchView};
use crate::state::move_state::{Move, MoveView, ACTION_DECLARE_INTENT};

verus! {

/// The lowest score that a player can be given.
pub const SCORE_FLOOR: i64 = -100;

/// The highest score that a player can be given.
pub const SCORE_CEILING: i64 = 200;

/// What a player gets for having declared a suit.
pub const DECLARED_BASE: i64 = 20;

/// What the first declarer gets on top.
pub const FIRST_DECLARER_BONUS: i64 = 5;

/// What a player who did not declare loses per round or move.
pub const UNDECLARED_PENALTY: i64 = 2;

/// A score, held to the range from -100 to 200.
pub open spec fn clamp_score(x: int) -> int {
    if x < SCORE_FLOOR {
        SCORE_FLOOR as int
    } else if x > SCORE_CEILING {
        SCORE_CEILING as int
    } else {
        x
    }
}

/// Moves per player, rounded down.
pub open spec fn average_moves(v: MatchView) -> int {
    v.move_count as int / v.player_count as int
}

/// Whether no slot before `i` has declared.
pub open spec fn first_declarer(suits: Seq<Option<u8>>, i: int) -> bool {
    forall|j: int| 0 <= j < i ==> suits[j] is None
}

/// The estimated score of roster slot `i`: for a declarer, 20 plus the
/// average number of moves per player, plus 5 for the first declarer; for
/// the others, minus 2 per round played, at least one round. Slots outside
/// the roster score 0.
pub open spec fn estimated_score(v: MatchView, i: int) -> int {
    if 0 <= i < v.players.len() {
        let avg = average_moves(v);
        if v.declared_suits[i] is Some {
            clamp_score(
                DECLARED_BASE + avg + (if first_declarer(v.declared_suits, i) {
                    FIRST_DECLARER_BONUS as int
                } else {
                    0
                }),
            )
        } else {
            clamp_score(-UNDECLARED_PENALTY * (if avg < 1 {
                1
            } else {
                avg
            }))
        }
    } else {
        0
    }
}

/// The estimated scores of the ten roster slots.
pub open spec fn estimated_scores(v: MatchView) -> Seq<i32> {
    Seq::new(10, |i: int| estimated_score(v, i) as i32)
}

/// Holds a score to the range from -100 to 200.
fn clamp(x: i64) -> (r: i32)
    ensures
        r == clamp_score(x as int),
{
    if x < SCORE_FLOOR {
        -100
    } else if x > SCORE_CEILING {
        200
    } else {
        x as i32
    }
}

/// Estimates the scores from the match record alone.
pub fn estimate_scores(match_account: &Match) -> (scores: [i32; 10])
    ensures
        scores@ == estimated_scores(match_account@),
        forall|i: int| 0 <= i < 10 ==> SCORE_FLOOR <= #[trigger] scores@[i] <= SCORE_CEILING,
{
    let mut scores = [0i32; 10];
    let count: usize = if match_account.player_count <= 10 {
        match_account.player_count as usize
    } else {
        10
    };
    let mut seen_declared = false;
    let mut i: usize = 0;
    while i < count
        invariant
            i <= count <= 10,
            count == match_account@.players.len(),
            count <= match_account.player_count,
            seen_declared == !first_declarer(match_account@.declared_suits, i as int),
            forall|j: int| 0 <= j < i ==> scores@[j] == estimated_score(match_account@, j) as i32,
            forall|j: int| i <= j < 10 ==> scores@[j] == 0,
        decreases count - i,
    {
        let avg: i64 = (match_account.move_count / (match_account.player_count as u32)) as i64;
        let ghost suits = match_account@.declared_suits;
        if match_account.has_declared_suit(i) {
            let bonus: i64 = if seen_declared {
                0
            } else {
                FIRST_DECLARER_BONUS
            };
            scores[i] = clamp(DECLARED_BASE + avg + bonus);
            seen_declared = true;
            assert(!first_declarer(suits, i + 1)) by {
                assert(suits[i as int] is Some);
            }
        } else {
            let rounds: i64 = if avg < 1 {
                1
            } else {
                avg
            };
            scores[i] = clamp(-UNDECLARED_PENALTY * rounds);
            assert(first_declarer(suits, i + 1) == first_declarer(suits, i as int)) by {
                if first_declarer(suits, i as int) {
                    assert forall|j: int| 0 <= j < i + 1 implies suits[j] is None by {}
                }
            }
        }
        i += 1;
    }
    assert(scores@ =~= estimated_scores(match_account@));
    scores
}

/// The views of a log of move records.
pub open spec fn log_view(moves: Seq<Move>) -> Seq<MoveView> {
    Seq::new(moves.len(), |i: int| moves[i]@)
}

/// The roster slot of the player who made a move, if on the roster.
pub open spec fn actor_slot(v: MatchView, mv: MoveView) -> Option<int> {
    roster_position(v.players, mv.actor)
}

/// Whether a move is a suit declaration that names a suit.
pub open spec fn declares(mv: MoveView) -> bool {
    mv.action_type == ACTION_DECLARE_INTENT && mv.payload.len() >= 1 && mv.payload[0] < 4
}

/// How many moves of the log the player in slot `slot` made.
pub open spec fn moves_by(v: MatchView, log: Seq<MoveView>, slot: int) -> nat
    decreases log.len(),
{
    if log.len() == 0 {
        0
    } else {
        moves_by(v, log.drop_last(), slot) + (if actor_slot(v, log.last()) == Some(slot) {
            1nat
        } else {
            0nat
        })
    }
}

/// Whether the log holds a suit declaration of the player in slot `slot`.
pub open spec fn declared_in_log(v: MatchView, log: Seq<MoveView>, slot: int) -> bool {
    exists|k: int| 0 <= k < log.len() && actor_slot(v, #[trigger] log[k]) == Some(slot) && declares(log[k])
}

/// Whether no slot before `i` declared in the log.
pub open spec fn first_declarer_in_log(v: MatchView, log: Seq<MoveView>, i: int) -> bool {
    forall|j: int| 0 <= j < i ==> !declared_in_log(v, log, j)
}

/// The exact score of roster slot `i` from the log: for a declarer, 20
/// plus the number of the player's moves, plus 5 when no earlier slot
/// declared; for the others, minus 2 per move made. Slots outside the
/// roster score 0.
pub open spec fn replayed_score(v: MatchView, log: Seq<MoveView>, i: int) -> int {
    if 0 <= i < v.players.len() {
        let n = moves_by(v, log, i) as int;
        if declared_in_log(v, log, i) {
            clamp_score(
                DECLARED_BASE + n + (if first_declarer_in_log(v, log, i) {
                    FIRST_DECLARER_BONUS as int
                } else {
                    0
                }),
            )
        } else {
            clamp_score(-UNDECLARED_PENALTY * n)
        }
    } else {
        0
    }
}

/// The exact scores of the ten roster slots from the log.
pub open spec fn replayed_scores(v: MatchView, log: Seq<MoveView>) -> Seq<i32> {
    Seq::new(10, |i: int| replayed_score(v, log, i) as i32)
}

/// A player made at most as many moves as the log holds.
proof fn lemma_moves_by_bound(v: MatchView, log: Seq<MoveView>, slot: int)
    ensures
        moves_by(v, log, slot) <= log.len(),
    decreases log.len(),
{
    if log.len() > 0 {
        lemma_moves_by_bound(v, log.drop_last(), slot);
    }
}

/// Replays the log and scores every roster slot from it.
pub fn replay_scores(match_account: &Match, moves: &[Move]) -> (scores: [i32; 10])
    ensures
        scores@ == replayed_scores(match_account@, log_view(moves@)),
        forall|i: int| 0 <= i < 10 ==> SCORE_FLOOR <= #[trigger] scores@[i] <= SCORE_CEILING,
{
    let ghost v = match_account@;
    let ghost log = log_view(moves@);
    let mut counts = [0u64; 10];
    let mut declared = [false; 10];
    let mut k: usize = 0;
    while k < moves.len()
        invariant
            k <= moves@.len(),
            v == match_account@,
            log == log_view(moves@),
            forall|s: int| 0 <= s < 10 ==> counts@[s] == moves_by(v, log.take(k as int), s),
            forall|s: int| 0 <= s < 10 ==> declared@[s] == declared_in_log(v, log.take(k as int), s),
        decreases moves@.len() - k,
    {
        let mv = &moves[k];
        let ghost before = log.take(k as int);
        let ghost after = log.take(k + 1);
        proof {
            assert(after.drop_last() =~= before);
            assert(after.last() == mv@);
            assert(crate::bytes::padded(mv.actor@, 64) =~= mv.actor@);
            assert forall|s: int| 0 <= s < 10 implies moves_by(v, before, s) <= k by {
                lemma_moves_by_bound(v, before, s);
            }
        }
        let slot = match_account.find_player_index(mv.actor.as_slice());
        let names_suit = mv.action_type == ACTION_DECLARE_INTENT && mv.payload_len >= 1
            && mv.payload[0] < 4;
        assert(names_suit == declares(mv@));
        match slot {
            Some(s) => {
                counts[s] = counts[s] + 1;
                if names_suit {
                    declared[s] = true;
                }
            },
            None => {},
        }
        proof {
            assert forall|s: int| 0 <= s < 10 implies declared@[s] == declared_in_log(v, after, s) by {
                if declared_in_log(v, before, s) {
                    let w = choose|w: int| 0 <= w < before.len() && actor_slot(v, #[trigger] before[w]) == Some(s)
                        && declares(before[w]);
                    assert(after[w] == before[w]);
                }
                if declared_in_log(v, after, s) {
                    let w = choose|w: int| 0 <= w < after.len() && actor_slot(v, #[trigger] after[w]) == Some(s)
                        && declares(after[w]);
                    if w < k {
                        assert(before[w] == after[w]);
                    }
                }
                if actor_slot(v, mv@) == Some(s) && declares(mv@) {
                    assert(after[k as int] == mv@);
                }
            }
        }
        k += 1;
    }
    assert(log.take(k as int) =~= log);
    let mut scores = [0i32; 10];
    let count: usize = if match_account.player_count <= 10 {
        match_account.player_count as usize
    } else {
        10
    };
    let mut seen_declared = false;
    let mut i: usize = 0;
    while i < count
        invariant
            i <= count <= 10,
            v == match_account@,
            count == v.players.len(),
            forall|s: int| 0 <= s < 10 ==> counts@[s] == moves_by(v, log, s),
            forall|s: int| 0 <= s < 10 ==> declared@[s] == declared_in_log(v, log, s),
            seen_declared == !first_declarer_in_log(v, log, i as int),
            forall|j: int| 0 <= j < i ==> scores@[j] == replayed_score(v, log, j) as i32,
            forall|j: int| i <= j < 10 ==> scores@[j] == 0,
        decreases count - i,
    {
        // A count beyond the clamp's reach scores as the clamp's bound.
        let n: i64 = if counts[i] > 1000 {
            1000
        } else {
            counts[i] as i64
        };
        if declared[i] {
            let bonus: i64 = if seen_declared {
                0
            } else {
                FIRST_DECLARER_BONUS
            };
            scores[i] = clamp(DECLARED_BASE + n + bonus);
            seen_declared = true;
            assert(!first_declarer_in_log(v, log, i + 1)) by {
                assert(declared_in_log(v, log, i as int));
            }
        } else {
            scores[i] = clamp(-UNDECLARED_PENALTY * n);
            assert(first_declarer_in_log(v, log, i + 1) == first_declarer_in_log(v, log, i as int)) by {
                if first_declarer_in_log(v, log, i as int) {
                    assert forall|j: int| 0 <= j < i + 1 implies !declared_in_log(v, log, j) by {}
                }
            }
        }
        i += 1;
    }
    assert(scores@ =~= replayed_scores(v, log));
    scores
}

} // verus!
