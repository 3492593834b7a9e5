//! Ending a match.

use vstd::prelude::*;
use crate::bytes::{all_zero, bytes_equal, is_all_zero, pad_bytes, padded, slice_matches};
use crate::error::GameError;
use crate::lifecycle::evolves;
use crate::scoring::{estimate_scores, estimated_scores};
use crate::state::match_state::{Match, MatchView, PHASE_ENDED, PHASE_PLAYING};

verus! {

/// The most bytes that the location of the full record can take.
pub const MAX_URL_LEN: usize = 200;

/// Whether a hash may be recorded as the hash of the final record: it is
/// not all zero, and it does not contradict one that is already set.
pub open spec fn hash_acceptable(v: MatchView, hash: Seq<u8>) -> bool {
    !all_zero(hash) && (all_zero(v.match_hash) || v.match_hash == hash)
}

/// What ending does: refuses, or moves the match to the ended phase and
/// records the final hash and the record's location, where given. The end
/// time is set when the match first ends and kept afterwards.
pub open spec fn end_spec(
    v: MatchView,
    match_id: Seq<u8>,
    caller: Seq<u8>,
    caller_signed: bool,
    match_hash: Option<Seq<u8>>,
    hot_url: Option<Seq<u8>>,
    now: i64,
) -> Result<MatchView, GameError> {
    if match_id != v.match_id {
        Err(GameError::InvalidPayload)
    } else if !caller_signed {
        Err(GameError::Unauthorized)
    } else if caller != v.authority {
        Err(GameError::Unauthorized)
    } else if v.phase != PHASE_PLAYING && v.phase != PHASE_ENDED {
        Err(GameError::InvalidPhase)
    } else if match_hash is Some && !hash_acceptable(v, match_hash->0) {
        Err(GameError::InvalidPayload)
    } else if hot_url is Some && hot_url->0.len() > MAX_URL_LEN {
        Err(GameError::InvalidPayload)
    } else {
        Ok(
            MatchView {
                phase: PHASE_ENDED,
                ended_at: if v.phase == PHASE_ENDED {
                    v.ended_at
                } else {
                    now
                },
                match_hash: if match_hash is Some {
                    match_hash->0
                } else {
                    v.match_hash
                },
                hot_url: if hot_url is Some {
                    padded(hot_url->0, 200)
                } else {
                    v.hot_url
                },
                ..v
            },
        )
    }
}

/// An end keeps the record well formed and leaves it ended.
pub proof fn lemma_end_sound(
    v: MatchView,
    match_id: Seq<u8>,
    caller: Seq<u8>,
    caller_signed: bool,
    match_hash: Option<Seq<u8>>,
    hot_url: Option<Seq<u8>>,
    now: i64,
)
    requires
        v.wf(),
        match_hash is Some ==> match_hash->0.len() == 32,
        end_spec(v, match_id, caller, caller_signed, match_hash, hot_url, now) is Ok,
    ensures
        end_spec(v, match_id, caller, caller_signed, match_hash, hot_url, now)->Ok_0.wf(),
        evolves(v, end_spec(v, match_id, caller, caller_signed, match_hash, hot_url, now)->Ok_0),
        end_spec(v, match_id, caller, caller_signed, match_hash, hot_url, now)->Ok_0.phase
            == PHASE_ENDED,
{
}

/// Ending is idempotent: on a match that has already ended, a further end
/// changes neither the end time nor the scores.
pub proof fn lemma_end_idempotent(
    v: MatchView,
    match_id: Seq<u8>,
    caller: Seq<u8>,
    caller_signed: bool,
    match_hash: Option<Seq<u8>>,
    hot_url: Option<Seq<u8>>,
    now: i64,
)
    requires
        v.phase == PHASE_ENDED,
        end_spec(v, match_id, caller, caller_signed, match_hash, hot_url, now) is Ok,
    ensures
        end_spec(v, match_id, caller, caller_signed, match_hash, hot_url, now)->Ok_0.ended_at
            == v.ended_at,
        estimated_scores(end_spec(v, match_id, caller, caller_signed, match_hash, hot_url, now)->Ok_0)
            == estimated_scores(v),
{
    let w = end_spec(v, match_id, caller, caller_signed, match_hash, hot_url, now)->Ok_0;
    assert(estimated_scores(w) =~= estimated_scores(v));
}

/// Ends a match and returns the estimated scores of the ten roster slots.
/// Only the match authority may; the match must be playing or already
/// ended.
pub fn handler(
    match_account: &mut Match,
    caller: &[u8; 32],
    caller_signed: bool,
    match_id: &[u8],
    match_hash: Option<[u8; 32]>,
    hot_url: Option<&[u8]>,
    now: i64,
) -> (r: Result<[i32; 10], GameError>)
    ensures
        match end_spec(
            old(match_account)@,
            match_id@,
            caller@,
            caller_signed,
            match match_hash {
                Some(h) => Some(h@),
                None => None,
            },
            match hot_url {
                Some(u) => Some(u@),
                None => None,
            },
            now,
        ) {
            Ok(v) => r is Ok && final(match_account)@ == v && r->Ok_0@ == estimated_scores(v)
                && forall|i: int| 0 <= i < 10 ==> -100 <= #[trigger] r->Ok_0@[i] <= 200,
            Err(e) => r is Err && r->Err_0 == e && *final(match_account) == *old(match_account),
        },
        r is Ok && old(match_account)@.wf() ==> final(match_account)@.wf() && evolves(
            old(match_account)@,
            final(match_account)@,
        ),
{
    if !slice_matches(match_id, &match_account.match_id) {
        return Err(GameError::InvalidPayload);
    }
    if !caller_signed {
        return Err(GameError::Unauthorized);
    }
    if !bytes_equal(caller, &match_account.authority) {
        return Err(GameError::Unauthorized);
    }
    if match_account.phase != PHASE_PLAYING && match_account.phase != PHASE_ENDED {
        return Err(GameError::InvalidPhase);
    }
    if let Some(hash) = &match_hash {
        if is_all_zero(hash) {
            return Err(GameError::InvalidPayload);
        }
        if match_account.has_match_hash() && !bytes_equal(&match_account.match_hash, hash) {
            return Err(GameError::InvalidPayload);
        }
    }
    let url_field: Option<[u8; 200]> = match hot_url {
        Some(url) => {
            match pad_bytes::<200>(url) {
                Some(f) => Some(f),
                None => {
                    return Err(GameError::InvalidPayload);
                },
            }
        },
        None => None,
    };
    if let Some(hash) = match_hash {
        match_account.match_hash = hash;
    }
    if let Some(f) = url_field {
        match_account.hot_url = f;
    }
    if match_account.phase != PHASE_ENDED {
        match_account.ended_at = now;
    }
    match_account.phase = PHASE_ENDED;
    let scores = estimate_scores(match_account);
    proof {
        if old(match_account)@.wf() {
            lemma_end_sound(
                old(match_account)@,
                match_id@,
                caller@,
                caller_signed,
                match match_hash {
                    Some(h) => Some(h@),
                    None => None,
                },
                match hot_url {
                    Some(u) => Some(u@),
                    None => None,
                },
                now,
            );
        }
    }
    Ok(scores)
}

} // verus!
