//! What holds of a match record from one transition to the next.

use vstd::prelude::*;
use crate::state::match_state::MatchView;

verus! {

/// The relation between a match record before and after any transition:
/// identity, game type, authority and creation time stay; the phase only
/// moves forward; the roster only grows at its end; no nonce decreases; a
/// hand commitment or a declared suit, once on file, stays as it is; the
/// move counter does not decrease.
pub open spec fn evolves(before: MatchView, after: MatchView) -> bool {
    &&& after.match_id == before.match_id
    &&& after.game_type == before.game_type
    &&& after.seed == before.seed
    &&& after.authority == before.authority
    &&& after.created_at == before.created_at
    &&& before.phase <= after.phase
    &&& before.players.is_prefix_of(after.players)
    &&& before.move_count <= after.move_count
    &&& forall|i: int| 0 <= i < 10 ==> before.last_nonce[i] <= #[trigger] after.last_nonce[i]
    &&& forall|i: int|
        0 <= i < 10 && before.commitment(i) is Some ==> #[trigger] after.commitment(i)
            == before.commitment(i)
    &&& forall|i: int|
        0 <= i < 10 && before.declared_suits[i] is Some ==> #[trigger] after.declared_suits[i]
            == before.declared_suits[i]
}

/// A record evolves into itself.
pub proof fn lemma_evolves_reflexive(v: MatchView)
    ensures
        evolves(v, v),
{
}

/// Evolution composes: what holds step by step holds over a whole history.
pub proof fn lemma_evolves_transitive(a: MatchView, b: MatchView, c: MatchView)
    requires
        evolves(a, b),
        evolves(b, c),
    ensures
        evolves(a, c),
{
    assert forall|i: int| 0 <= i < 10 implies a.last_nonce[i] <= #[trigger] c.last_nonce[i] by {
        assert(a.last_nonce[i] <= b.last_nonce[i]);
    }
    assert forall|i: int| 0 <= i < 10 && a.commitment(i) is Some implies #[trigger] c.commitment(i)
        == a.commitment(i) by {
        assert(b.commitment(i) == a.commitment(i));
    }
    assert forall|i: int| 0 <= i < 10 && a.declared_suits[i] is Some implies #[trigger] c.declared_suits[i]
        == a.declared_suits[i] by {
        assert(b.declared_suits[i] == a.declared_suits[i]);
    }
}

} // verus!
