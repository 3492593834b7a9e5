//! Exact scores from the complete move log.

use vstd::prelude::*;
use crate::error::GameError;
use crate::scoring::{log_view, replay_scores, replayed_scores};
use crate::state::match_state::Match;
use crate::state::move_state::Move;

verus! {

/// Scores the ten roster slots by replaying the match's move log. Moves of
/// identities that are not on the roster are passed over. Never refuses.
pub fn calculate_scores_from_moves(match_account: &Match, moves: &[Move]) -> (r: Result<
    [i32; 10],
    GameError,
>)
    ensures
        r is Ok,
        r->Ok_0@ == replayed_scores(match_account@, log_view(moves@)),
        forall|i: int| 0 <= i < 10 ==> -100 <= #[trigger] r->Ok_0@[i] <= 200,
{
    Ok(replay_scores(match_account, moves))
}

} // verus!
