//! Submitting up to five moves of one player at once.

use vstd::prelude::*;
use crate::error::GameError;
use crate::instructions::submit_move::{lemma_submit_sound, submit_spec, MoveRequest};
use crate::lifecycle::{evolves, lemma_evolves_reflexive, lemma_evolves_transitive};
use crate::scoring::log_view;
use crate::state::match_state::{Match, MatchView};
use crate::state::move_state::{Move, MoveView};

verus! {

/// The most moves that one batch can hold.
pub const MAX_BATCH_LEN: usize = 5;

/// One move of a batch.
#[derive(Clone, Debug)]
pub struct BatchMove {
    /// Action code.
    pub action_type: u8,
    /// Payload bytes.
    pub payload: Vec<u8>,
    /// The player's nonce for this move.
    pub nonce: u64,
}

impl BatchMove {
    /// The move as a request.
    pub open spec fn request(&self) -> MoveRequest {
        MoveRequest { action_type: self.action_type, payload: self.payload@, nonce: self.nonce }
    }
}

/// The moves from position `k` on, applied in order to `v`, each as a
/// single move would be; `done` collects the records. The first refusal
/// refuses everything.
pub open spec fn batch_from(
    v: MatchView,
    done: Seq<MoveView>,
    match_id: Seq<u8>,
    player_signed: bool,
    user_id: Seq<u8>,
    moves: Seq<BatchMove>,
    k: int,
    now: i64,
) -> Result<(MatchView, Seq<MoveView>), GameError>
    decreases moves.len() - k,
{
    if k < 0 || k >= moves.len() {
        Ok((v, done))
    } else {
        match submit_spec(v, match_id, player_signed, user_id, moves[k].request(), now) {
            Ok(out) => batch_from(
                out.0,
                done.push(out.1),
                match_id,
                player_signed,
                user_id,
                moves,
                k + 1,
                now,
            ),
            Err(e) => Err(e),
        }
    }
}

/// What submitting a batch does: refuses an empty batch or one of more
/// than five moves; else applies the moves strictly in order, the player
/// whose turn it is being read anew from the record before each move, and
/// refuses the whole batch as soon as one move is refused.
pub open spec fn batch_spec(
    v: MatchView,
    match_id: Seq<u8>,
    player_signed: bool,
    user_id: Seq<u8>,
    moves: Seq<BatchMove>,
    now: i64,
) -> Result<(MatchView, Seq<MoveView>), GameError> {
    if moves.len() == 0 || moves.len() > MAX_BATCH_LEN {
        Err(GameError::InvalidPayload)
    } else {
        batch_from(v, Seq::empty(), match_id, player_signed, user_id, moves, 0, now)
    }
}

/// The moves from position `k` on keep a well-formed record well formed,
/// add one record per move and count each move.
pub proof fn lemma_batch_from_sound(
    v: MatchView,
    done: Seq<MoveView>,
    match_id: Seq<u8>,
    player_signed: bool,
    user_id: Seq<u8>,
    moves: Seq<BatchMove>,
    k: int,
    now: i64,
)
    requires
        v.wf(),
        0 <= k <= moves.len(),
        batch_from(v, done, match_id, player_signed, user_id, moves, k, now) is Ok,
    ensures
        batch_from(v, done, match_id, player_signed, user_id, moves, k, now)->Ok_0.0.wf(),
        evolves(v, batch_from(v, done, match_id, player_signed, user_id, moves, k, now)->Ok_0.0),
        batch_from(v, done, match_id, player_signed, user_id, moves, k, now)->Ok_0.0.move_count
            == v.move_count + (moves.len() - k),
        batch_from(v, done, match_id, player_signed, user_id, moves, k, now)->Ok_0.1.len()
            == done.len() + (moves.len() - k),
        forall|j: int|
            0 <= j < done.len() ==> (#[trigger] batch_from(
                v,
                done,
                match_id,
                player_signed,
                user_id,
                moves,
                k,
                now,
            )->Ok_0.1[j]) == done[j],
        forall|j: int|
            done.len() <= j < done.len() + (moves.len() - k) ==> (#[trigger] batch_from(
                v,
                done,
                match_id,
                player_signed,
                user_id,
                moves,
                k,
                now,
            )->Ok_0.1[j]).move_index == v.move_count + (j - done.len()),
    decreases moves.len() - k,
{
    if k >= moves.len() {
        lemma_evolves_reflexive(v);
    } else {
        let req = moves[k].request();
        lemma_submit_sound(v, match_id, player_signed, user_id, req, now);
        let out = submit_spec(v, match_id, player_signed, user_id, req, now)->Ok_0;
        lemma_batch_from_sound(
            out.0,
            done.push(out.1),
            match_id,
            player_signed,
            user_id,
            moves,
            k + 1,
            now,
        );
        let rest = batch_from(
            out.0,
            done.push(out.1),
            match_id,
            player_signed,
            user_id,
            moves,
            k + 1,
            now,
        )->Ok_0;
        lemma_evolves_transitive(v, out.0, rest.0);
        assert forall|j: int| 0 <= j < done.len() implies (#[trigger] rest.1[j]) == done[j] by {
            assert(done.push(out.1)[j] == done[j]);
        }
        assert forall|j: int| done.len() <= j < done.len() + (moves.len() - k) implies (
        #[trigger] rest.1[j]).move_index == v.move_count + (j - done.len()) by {
            if j == done.len() {
                assert(rest.1[j] == done.push(out.1)[j]);
            }
        }
    }
}

/// An accepted batch keeps the record well formed and yields one record
/// per move, numbered on from the match's move count without a gap.
pub proof fn lemma_batch_sound(
    v: MatchView,
    match_id: Seq<u8>,
    player_signed: bool,
    user_id: Seq<u8>,
    moves: Seq<BatchMove>,
    now: i64,
)
    requires
        v.wf(),
        batch_spec(v, match_id, player_signed, user_id, moves, now) is Ok,
    ensures
        batch_spec(v, match_id, player_signed, user_id, moves, now)->Ok_0.0.wf(),
        evolves(v, batch_spec(v, match_id, player_signed, user_id, moves, now)->Ok_0.0),
        batch_spec(v, match_id, player_signed, user_id, moves, now)->Ok_0.1.len() == moves.len(),
        batch_spec(v, match_id, player_signed, user_id, moves, now)->Ok_0.0.move_count
            == v.move_count + moves.len(),
        forall|j: int|
            0 <= j < moves.len() ==> (#[trigger] batch_spec(
                v,
                match_id,
                player_signed,
                user_id,
                moves,
                now,
            )->Ok_0.1[j]).move_index == v.move_count + j,
{
    lemma_batch_from_sound(v, Seq::empty(), match_id, player_signed, user_id, moves, 0, now);
}

/// Submits a batch of moves of the player `user_id`. On acceptance the
/// match is advanced by all of them and their records are returned in
/// order; on refusal nothing changes.
pub fn handler(
    match_account: &mut Match,
    player_signed: bool,
    match_id: &[u8],
    user_id: &[u8],
    moves: &Vec<BatchMove>,
    now: i64,
) -> (r: Result<Vec<Move>, GameError>)
    ensures
        match batch_spec(old(match_account)@, match_id@, player_signed, user_id@, moves@, now) {
            Ok(out) => r is Ok && final(match_account)@ == out.0 && log_view(r->Ok_0@) == out.1
                && forall|j: int| 0 <= j < r->Ok_0@.len() ==> (#[trigger] r->Ok_0@[j]).wf(),
            Err(e) => r is Err && r->Err_0 == e && *final(match_account) == *old(match_account),
        },
        r is Ok && old(match_account)@.wf() ==> final(match_account)@.wf() && evolves(
            old(match_account)@,
            final(match_account)@,
        ),
{
    if moves.len() == 0 || moves.len() > MAX_BATCH_LEN {
        return Err(GameError::InvalidPayload);
    }
    let ghost start = match_account@;
    let mut work: Match = *match_account;
    let mut records: Vec<Move> = Vec::new();
    assert(log_view(records@) =~= Seq::<MoveView>::empty());
    let mut k: usize = 0;
    while k < moves.len()
        invariant
            k <= moves@.len(),
            0 < moves@.len() <= MAX_BATCH_LEN,
            *match_account == *old(match_account),
            start == old(match_account)@,
            batch_from(work@, log_view(records@), match_id@, player_signed, user_id@, moves@, k as int, now)
                == batch_from(start, Seq::empty(), match_id@, player_signed, user_id@, moves@, 0, now),
            forall|j: int| 0 <= j < records@.len() ==> (#[trigger] records@[j]).wf(),
        decreases moves@.len() - k,
    {
        let ghost before = work@;
        let ghost done = log_view(records@);
        let m = &moves[k];
        match crate::instructions::submit_move::handler(
            &mut work,
            player_signed,
            match_id,
            user_id,
            m.action_type,
            m.payload.as_slice(),
            m.nonce,
            now,
        ) {
            Ok(record) => {
                records.push(record);
                assert(log_view(records@) =~= done.push(record@));
            },
            Err(e) => {
                return Err(e);
            },
        }
        k += 1;
    }
    *match_account = work;
    proof {
        if start.wf() {
            lemma_batch_sound(start, match_id@, player_signed, user_id@, moves@, now);
        }
    }
    Ok(records)
}

} // verus!
