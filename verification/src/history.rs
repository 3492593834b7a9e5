//! The life of a match record: any sequence of transitions, accepted or
//! refused, and what holds of the record throughout.

use vstd::prelude::*;
use crate::instructions::anchor_match_record::{anchor_spec, lemma_anchor_sound};
use crate::instructions::commit_hand::{commit_hand_spec, lemma_commit_hand_sound};
use crate::instructions::end_match::{end_spec, lemma_end_sound};
use crate::instructions::join_match::{join_spec, lemma_join_sound};
use crate::instructions::start_match::{lemma_start_sound, start_spec};
use crate::instructions::submit_batch_moves::{batch_spec, lemma_batch_sound, BatchMove};
use crate::instructions::submit_move::{lemma_submit_sound, submit_spec, MoveRequest};
use crate::lifecycle::{evolves, lemma_evolves_reflexive, lemma_evolves_transitive};
use crate::state::match_state::{suits_exclusive, MatchView};

verus! {

/// One request against a match record, with all that the host passes
/// along.
pub enum Transition {
    Join { match_id: Seq<u8>, player_signed: bool, user_id: Seq<u8> },
    CommitHand {
        match_id: Seq<u8>,
        player_signed: bool,
        user_id: Seq<u8>,
        hand_hash: Seq<u8>,
        hand_size: u8,
    },
    Start { match_id: Seq<u8>, caller: Seq<u8>, caller_signed: bool },
    Submit { match_id: Seq<u8>, player_signed: bool, user_id: Seq<u8>, req: MoveRequest, now: i64 },
    SubmitBatch {
        match_id: Seq<u8>,
        player_signed: bool,
        user_id: Seq<u8>,
        moves: Seq<BatchMove>,
        now: i64,
    },
    End {
        match_id: Seq<u8>,
        caller: Seq<u8>,
        caller_signed: bool,
        match_hash: Option<Seq<u8>>,
        hot_url: Option<Seq<u8>>,
        now: i64,
    },
    Anchor {
        match_id: Seq<u8>,
        caller: Seq<u8>,
        caller_signed: bool,
        match_hash: Seq<u8>,
        hot_url: Option<Seq<u8>>,
    },
}

impl Transition {
    /// The hashes that the request carries have the width of a hash.
    pub open spec fn well_typed(self) -> bool {
        match self {
            Transition::CommitHand { hand_hash, .. } => hand_hash.len() == 32,
            Transition::End { match_hash, .. } => match_hash is Some ==> match_hash->0.len() == 32,
            Transition::Anchor { match_hash, .. } => match_hash.len() == 32,
            _ => true,
        }
    }
}

/// The record after one request; a refused request changes nothing.
pub open spec fn step(v: MatchView, t: Transition) -> MatchView {
    match t {
        Transition::Join { match_id, player_signed, user_id } => match join_spec(
            v,
            match_id,
            player_signed,
            user_id,
        ) {
            Ok(w) => w,
            Err(_) => v,
        },
        Transition::CommitHand {
            match_id,
            player_signed,
            user_id,
            hand_hash,
            hand_size,
        } => match commit_hand_spec(v, match_id, player_signed, user_id, hand_hash, hand_size) {
            Ok(w) => w,
            Err(_) => v,
        },
        Transition::Start { match_id, caller, caller_signed } => match start_spec(
            v,
            match_id,
            caller,
            caller_signed,
        ) {
            Ok(w) => w,
            Err(_) => v,
        },
        Transition::Submit { match_id, player_signed, user_id, req, now } => match submit_spec(
            v,
            match_id,
            player_signed,
            user_id,
            req,
            now,
        ) {
            Ok(out) => out.0,
            Err(_) => v,
        },
        Transition::SubmitBatch { match_id, player_signed, user_id, moves, now } => match batch_spec(
            v,
            match_id,
            player_signed,
            user_id,
            moves,
            now,
        ) {
            Ok(out) => out.0,
            Err(_) => v,
        },
        Transition::End { match_id, caller, caller_signed, match_hash, hot_url, now } => match end_spec(
            v,
            match_id,
            caller,
            caller_signed,
            match_hash,
            hot_url,
            now,
        ) {
            Ok(w) => w,
            Err(_) => v,
        },
        Transition::Anchor { match_id, caller, caller_signed, match_hash, hot_url } => match anchor_spec(
            v,
            match_id,
            caller,
            caller_signed,
            match_hash,
            hot_url,
        ) {
            Ok(w) => w,
            Err(_) => v,
        },
    }
}

/// The record after a sequence of requests.
pub open spec fn run(v: MatchView, requests: Seq<Transition>) -> MatchView
    decreases requests.len(),
{
    if requests.len() == 0 {
        v
    } else {
        step(run(v, requests.drop_last()), requests.last())
    }
}

/// One request keeps the invariant of the record and only moves it
/// forward.
pub proof fn lemma_step(v: MatchView, t: Transition)
    requires
        v.wf(),
        t.well_typed(),
    ensures
        step(v, t).wf(),
        evolves(v, step(v, t)),
{
    lemma_evolves_reflexive(v);
    match t {
        Transition::Join { match_id, player_signed, user_id } => {
            if join_spec(v, match_id, player_signed, user_id) is Ok {
                lemma_join_sound(v, match_id, player_signed, user_id);
            }
        },
        Transition::CommitHand { match_id, player_signed, user_id, hand_hash, hand_size } => {
            if commit_hand_spec(v, match_id, player_signed, user_id, hand_hash, hand_size) is Ok {
                lemma_commit_hand_sound(v, match_id, player_signed, user_id, hand_hash, hand_size);
            }
        },
        Transition::Start { match_id, caller, caller_signed } => {
            if start_spec(v, match_id, caller, caller_signed) is Ok {
                lemma_start_sound(v, match_id, caller, caller_signed);
            }
        },
        Transition::Submit { match_id, player_signed, user_id, req, now } => {
            if submit_spec(v, match_id, player_signed, user_id, req, now) is Ok {
                lemma_submit_sound(v, match_id, player_signed, user_id, req, now);
            }
        },
        Transition::SubmitBatch { match_id, player_signed, user_id, moves, now } => {
            if batch_spec(v, match_id, player_signed, user_id, moves, now) is Ok {
                lemma_batch_sound(v, match_id, player_signed, user_id, moves, now);
            }
        },
        Transition::End { match_id, caller, caller_signed, match_hash, hot_url, now } => {
            if end_spec(v, match_id, caller, caller_signed, match_hash, hot_url, now) is Ok {
                lemma_end_sound(v, match_id, caller, caller_signed, match_hash, hot_url, now);
            }
        },
        Transition::Anchor { match_id, caller, caller_signed, match_hash, hot_url } => {
            if anchor_spec(v, match_id, caller, caller_signed, match_hash, hot_url) is Ok {
                lemma_anchor_sound(v, match_id, caller, caller_signed, match_hash, hot_url);
            }
        },
    }
}

/// Over the whole life of a match record, whatever is requested and in
/// whatever order: the roster fits the game type and names nobody twice,
/// the turn pointer is inside the roster, each suit has at most one
/// claimant, the phase never moves backward, no nonce decreases, and no
/// hand commitment or declared suit, once on file, changes.
pub proof fn lemma_lifetime(v: MatchView, requests: Seq<Transition>)
    requires
        v.wf(),
        forall|k: int| 0 <= k < requests.len() ==> (#[trigger] requests[k]).well_typed(),
    ensures
        run(v, requests).wf(),
        suits_exclusive(run(v, requests).declared_suits),
        evolves(v, run(v, requests)),
    decreases requests.len(),
{
    if requests.len() == 0 {
        lemma_evolves_reflexive(v);
    } else {
        let init = requests.drop_last();
        assert forall|k: int| 0 <= k < init.len() implies (#[trigger] init[k]).well_typed() by {
            assert(init[k] == requests[k]);
        }
        lemma_lifetime(v, init);
        let w = run(v, init);
        assert(requests.last() == requests[requests.len() - 1]);
        lemma_step(w, requests.last());
        lemma_evolves_transitive(v, w, run(v, requests));
    }
}

} // verus!
