//! Joining a match.

use vstd::prelude::*;
use crate::bytes::{pad_bytes, padded, slice_matches};
use crate::error::GameError;
use crate::lifecycle::evolves;
use crate::state::game_config::max_players_of;
use crate::state::match_state::{Match, MatchView, PHASE_DEALING};

verus! {

/// What joining does: refuses, or appends the identity to the roster and
/// closes the roster when it became full.
pub open spec fn join_spec(v: MatchView, match_id: Seq<u8>, player_signed: bool, user_id: Seq<u8>) -> Result<
    MatchView,
    GameError,
> {
    if match_id != v.match_id {
        Err(GameError::InvalidPayload)
    } else if !player_signed {
        Err(GameError::Unauthorized)
    } else if v.phase != PHASE_DEALING {
        Err(GameError::InvalidPhase)
    } else if v.player_count >= max_players_of(v.game_type) || v.all_players_joined {
        Err(GameError::MatchFull)
    } else if user_id.len() > 64 {
        Err(GameError::InvalidPayload)
    } else if v.has_player(user_id) {
        Err(GameError::PlayerAlreadyJoined)
    } else {
        Ok(
            MatchView {
                players: v.players.push(padded(user_id, 64)),
                player_count: (v.player_count + 1) as u8,
                all_players_joined: v.player_count + 1 >= max_players_of(v.game_type),
                ..v
            },
        )
    }
}

/// A join keeps the record well formed, adds exactly the joining identity
/// to the roster and raises the player count by one.
pub proof fn lemma_join_sound(v: MatchView, match_id: Seq<u8>, player_signed: bool, user_id: Seq<u8>)
    requires
        v.wf(),
        join_spec(v, match_id, player_signed, user_id) is Ok,
    ensures
        join_spec(v, match_id, player_signed, user_id)->Ok_0.wf(),
        evolves(v, join_spec(v, match_id, player_signed, user_id)->Ok_0),
        join_spec(v, match_id, player_signed, user_id)->Ok_0.player_count == v.player_count + 1,
        forall|id: Seq<u8>|
            #[trigger] join_spec(v, match_id, player_signed, user_id)->Ok_0.has_player(id) <==> (
            v.has_player(id) || (id.len() <= 64 && padded(id, 64) == padded(user_id, 64))),
{
    let w = join_spec(v, match_id, player_signed, user_id)->Ok_0;
    let joined = padded(user_id, 64);
    assert(!v.players.contains(joined));
    assert forall|i: int, j: int| 0 <= i < j < w.players.len() implies w.players[i]
        != w.players[j] by {
        if j == v.players.len() {
            assert(v.players.contains(v.players[i]));
        }
    }
    assert forall|id: Seq<u8>| #[trigger] w.has_player(id) <==> (v.has_player(id) || (id.len() <= 64
        && padded(id, 64) == joined)) by {
        let p = padded(id, 64);
        if id.len() <= 64 {
            if w.players.contains(p) {
                let k = choose|k: int| 0 <= k < w.players.len() && w.players[k] == p;
                if k < v.players.len() {
                    assert(v.players[k] == p);
                    assert(v.players.contains(p));
                }
            }
            if v.players.contains(p) {
                let k = choose|k: int| 0 <= k < v.players.len() && v.players[k] == p;
                assert(w.players[k] == p);
            }
            if p == joined {
                assert(w.players[v.players.len() as int] == p);
            }
        }
    }
}

/// One call of join: whether the player signed, and the identity.
pub struct JoinCall {
    pub player_signed: bool,
    pub user_id: Seq<u8>,
}

/// The match after a sequence of join calls; a refused call changes
/// nothing.
pub open spec fn after_joins(v: MatchView, match_id: Seq<u8>, calls: Seq<JoinCall>) -> MatchView
    decreases calls.len(),
{
    if calls.len() == 0 {
        v
    } else {
        let w = after_joins(v, match_id, calls.drop_last());
        match join_spec(w, match_id, calls.last().player_signed, calls.last().user_id) {
            Ok(x) => x,
            Err(_) => w,
        }
    }
}

/// Whether the `k`-th call of the sequence was accepted.
pub open spec fn join_accepted(v: MatchView, match_id: Seq<u8>, calls: Seq<JoinCall>, k: int) -> bool {
    join_spec(after_joins(v, match_id, calls.take(k)), match_id, calls[k].player_signed, calls[k].user_id) is Ok
}

/// How many calls of the sequence were accepted.
pub open spec fn joins_accepted(v: MatchView, match_id: Seq<u8>, calls: Seq<JoinCall>) -> nat
    decreases calls.len(),
{
    if calls.len() == 0 {
        0
    } else {
        joins_accepted(v, match_id, calls.drop_last()) + (if join_accepted(
            v,
            match_id,
            calls,
            calls.len() - 1,
        ) {
            1nat
        } else {
            0nat
        })
    }
}

/// Whether some accepted call of the sequence joined `id`, null-padded.
pub open spec fn joined_by(v: MatchView, match_id: Seq<u8>, calls: Seq<JoinCall>, id: Seq<u8>) -> bool {
    id.len() <= 64 && exists|k: int|
        0 <= k < calls.len() && #[trigger] join_accepted(v, match_id, calls, k) && padded(
            calls[k].user_id,
            64,
        ) == padded(id, 64)
}

/// After any sequence of join calls the player count has grown by the
/// number of accepted calls, and the roster holds the identities it held
/// before and those whose join was accepted, and no others.
pub proof fn lemma_joins(v: MatchView, match_id: Seq<u8>, calls: Seq<JoinCall>)
    requires
        v.wf(),
    ensures
        after_joins(v, match_id, calls).wf(),
        evolves(v, after_joins(v, match_id, calls)),
        after_joins(v, match_id, calls).player_count == v.player_count + joins_accepted(
            v,
            match_id,
            calls,
        ),
        forall|id: Seq<u8>|
            #[trigger] after_joins(v, match_id, calls).has_player(id) <==> (v.has_player(id)
                || joined_by(v, match_id, calls, id)),
    decreases calls.len(),
{
    let after = after_joins(v, match_id, calls);
    if calls.len() == 0 {
        crate::lifecycle::lemma_evolves_reflexive(v);
    } else {
        let n = calls.len() - 1;
        let init = calls.drop_last();
        let w = after_joins(v, match_id, init);
        lemma_joins(v, match_id, init);
        assert(calls.take(n) =~= init);
        assert forall|k: int| 0 <= k < n implies join_accepted(v, match_id, init, k)
            == join_accepted(v, match_id, calls, k) by {
            assert(init.take(k) =~= calls.take(k));
        }
        let last = calls.last();
        let accepted = join_spec(w, match_id, last.player_signed, last.user_id) is Ok;
        assert(accepted == join_accepted(v, match_id, calls, n));
        if accepted {
            lemma_join_sound(w, match_id, last.player_signed, last.user_id);
            crate::lifecycle::lemma_evolves_transitive(v, w, after);
        }
        assert forall|id: Seq<u8>| #[trigger]
            after.has_player(id) <==> (v.has_player(id) || joined_by(v, match_id, calls, id)) by {
            let in_init = joined_by(v, match_id, init, id);
            let in_calls = joined_by(v, match_id, calls, id);
            assert(w.has_player(id) <==> (v.has_player(id) || in_init));
            if in_init {
                let k = choose|k: int|
                    0 <= k < init.len() && #[trigger] join_accepted(v, match_id, init, k) && padded(
                        init[k].user_id,
                        64,
                    ) == padded(id, 64);
                assert(calls[k] == init[k]);
                assert(join_accepted(v, match_id, calls, k));
                assert(in_calls);
            }
            if in_calls {
                let k = choose|k: int|
                    0 <= k < calls.len() && #[trigger] join_accepted(v, match_id, calls, k) && padded(
                        calls[k].user_id,
                        64,
                    ) == padded(id, 64);
                if k < n {
                    assert(calls[k] == init[k]);
                    assert(join_accepted(v, match_id, init, k));
                    assert(in_init);
                } else {
                    assert(accepted);
                    assert(padded(last.user_id, 64) == padded(id, 64));
                }
            }
            if accepted && id.len() <= 64 && padded(id, 64) == padded(last.user_id, 64) {
                assert(join_accepted(v, match_id, calls, n));
                assert(in_calls);
            }
            if accepted {
                assert(after.has_player(id) <==> (w.has_player(id) || (id.len() <= 64 && padded(
                    id,
                    64,
                ) == padded(last.user_id, 64))));
            }
        }
    }
}

/// On a newly created match: after any sequence of join calls the player
/// count is the number of accepted joins, and an identity is on the roster
/// exactly if a join of it was accepted.
pub proof fn lemma_joins_from_creation(
    match_id: Seq<u8>,
    game_type: u8,
    seed: u64,
    authority: Seq<u8>,
    now: i64,
    calls: Seq<JoinCall>,
)
    requires
        match_id.len() == 36,
        authority.len() == 32,
    ensures
        ({
            let fresh = crate::instructions::create_match::created(
                match_id,
                game_type,
                seed,
                authority,
                now,
            );
            let after = after_joins(fresh, match_id, calls);
            &&& after.wf()
            &&& after.player_count == joins_accepted(fresh, match_id, calls)
            &&& after.players.len() == joins_accepted(fresh, match_id, calls)
            &&& forall|id: Seq<u8>| #[trigger]
                after.has_player(id) <==> joined_by(fresh, match_id, calls, id)
        }),
{
    let fresh = crate::instructions::create_match::created(match_id, game_type, seed, authority, now);
    crate::instructions::create_match::lemma_created_wf(match_id, game_type, seed, authority, now);
    lemma_joins(fresh, match_id, calls);
    let after = after_joins(fresh, match_id, calls);
    assert forall|id: Seq<u8>| #[trigger]
        after.has_player(id) <==> joined_by(fresh, match_id, calls, id) by {
        assert(fresh.players.len() == 0);
        assert(!fresh.has_player(id));
    }
}

/// Adds a player to a match that is still dealing.
pub fn handler(match_account: &mut Match, player_signed: bool, match_id: &[u8], user_id: &[u8]) -> (r:
    Result<(), GameError>)
    ensures
        match join_spec(old(match_account)@, match_id@, player_signed, user_id@) {
            Ok(v) => r is Ok && final(match_account)@ == v,
            Err(e) => r is Err && r->Err_0 == e && *final(match_account) == *old(match_account),
        },
        r is Ok && old(match_account)@.wf() ==> final(match_account)@.wf() && evolves(
            old(match_account)@,
            final(match_account)@,
        ),
{
    if !slice_matches(match_id, &match_account.match_id) {
        return Err(GameError::InvalidPayload);
    }
    if !player_signed {
        return Err(GameError::Unauthorized);
    }
    if match_account.phase != PHASE_DEALING {
        return Err(GameError::InvalidPhase);
    }
    if !match_account.can_join() {
        return Err(GameError::MatchFull);
    }
    let id = match pad_bytes::<64>(user_id) {
        Some(id) => id,
        None => {
            return Err(GameError::InvalidPayload);
        },
    };
    if match_account.has_player_id(user_id) {
        return Err(GameError::PlayerAlreadyJoined);
    }
    let max_players = match_account.get_max_players();
    let slot = match_account.player_count as usize;
    match_account.set_player_id(slot, id);
    match_account.player_count = match_account.player_count + 1;
    let full = match_account.player_count >= max_players;
    match_account.set_all_players_joined(full);
    proof {
        let want = join_spec(old(match_account)@, match_id@, player_signed, user_id@)->Ok_0;
        assert(match_account@.players =~= want.players);
        assert(match_account@ =~= want);
        if old(match_account)@.wf() {
            lemma_join_sound(old(match_account)@, match_id@, player_signed, user_id@);
        }
    }
    Ok(())
}

} // verus!
