//! Anchoring the hash of an ended match's full record.

use vstd::prelude::*;
use crate::bytes::{all_zero, bytes_equal, is_all_zero, pad_bytes, padded, slice_matches};
use crate::error::GameError;
use crate::instructions::end_match::{hash_acceptable, MAX_URL_LEN};
use crate::lifecycle::evolves;
use crate::state::match_state::{Match, MatchView, PHASE_ENDED};

verus! {

/// What anchoring does: refuses, or records the hash of the final record
/// and, where given, the record's location.
pub open spec fn anchor_spec(
    v: MatchView,
    match_id: Seq<u8>,
    caller: Seq<u8>,
    caller_signed: bool,
    match_hash: Seq<u8>,
    hot_url: Option<Seq<u8>>,
) -> Result<MatchView, GameError> {
    if match_id != v.match_id {
        Err(GameError::InvalidPayload)
    } else if !caller_signed {
        Err(GameError::Unauthorized)
    } else if caller != v.authority {
        Err(GameError::Unauthorized)
    } else if v.phase != PHASE_ENDED {
        Err(GameError::InvalidPhase)
    } else if !hash_acceptable(v, match_hash) {
        Err(GameError::InvalidPayload)
    } else if hot_url is Some && hot_url->0.len() > MAX_URL_LEN {
        Err(GameError::InvalidPayload)
    } else {
        Ok(
            MatchView {
                match_hash,
                hot_url: if hot_url is Some {
                    padded(hot_url->0, 200)
                } else {
                    v.hot_url
                },
                ..v
            },
        )
    }
}

/// Anchoring keeps the record well formed, and a hash that is set is
/// never replaced by another.
pub proof fn lemma_anchor_sound(
    v: MatchView,
    match_id: Seq<u8>,
    caller: Seq<u8>,
    caller_signed: bool,
    match_hash: Seq<u8>,
    hot_url: Option<Seq<u8>>,
)
    requires
        v.wf(),
        match_hash.len() == 32,
        anchor_spec(v, match_id, caller, caller_signed, match_hash, hot_url) is Ok,
    ensures
        anchor_spec(v, match_id, caller, caller_signed, match_hash, hot_url)->Ok_0.wf(),
        evolves(v, anchor_spec(v, match_id, caller, caller_signed, match_hash, hot_url)->Ok_0),
        !all_zero(v.match_hash) ==> anchor_spec(v, match_id, caller, caller_signed, match_hash, hot_url)->Ok_0.match_hash
            == v.match_hash,
{
}

/// Records the hash of an ended match's full record. Only the match
/// authority may.
pub fn handler(
    match_account: &mut Match,
    caller: &[u8; 32],
    caller_signed: bool,
    match_id: &[u8],
    match_hash: [u8; 32],
    hot_url: Option<&[u8]>,
) -> (r: Result<(), GameError>)
    ensures
        match anchor_spec(
            old(match_account)@,
            match_id@,
            caller@,
            caller_signed,
            match_hash@,
            match hot_url {
                Some(u) => Some(u@),
                None => None,
            },
        ) {
            Ok(v) => r is Ok && final(match_account)@ == v,
            Err(e) => r is Err && r->Err_0 == e && *final(match_account) == *old(match_account),
        },
        r is Ok && old(match_account)@.wf() ==> final(match_account)@.wf() && evolves(
            old(match_account)@,
            final(match_account)@,
        ),
{
    if !slice_matches(match_id, &match_account.match_id) {
        return Err(GameError::InvalidPayload);
    }
    if !caller_signed {
        return Err(GameError::Unauthorized);
    }
    if !bytes_equal(caller, &match_account.authority) {
        return Err(GameError::Unauthorized);
    }
    if match_account.phase != PHASE_ENDED {
        return Err(GameError::InvalidPhase);
    }
    if is_all_zero(&match_hash) {
        return Err(GameError::InvalidPayload);
    }
    if match_account.has_match_hash() && !bytes_equal(&match_account.match_hash, &match_hash) {
        return Err(GameError::InvalidPayload);
    }
    let url_field: Option<[u8; 200]> = match hot_url {
        Some(url) => {
            match pad_bytes::<200>(url) {
                Some(f) => Some(f),
                None => {
                    return Err(GameError::InvalidPayload);
                },
            }
        },
        None => None,
    };
    match_account.match_hash = match_hash;
    if let Some(f) = url_field {
        match_account.hot_url = f;
    }
    proof {
        if old(match_account)@.wf() {
            lemma_anchor_sound(
                old(match_account)@,
                match_id@,
                caller@,
                caller_signed,
                match_hash@,
                match hot_url {
                    Some(u) => Some(u@),
                    None => None,
                },
            );
        }
    }
    Ok(())
}

} // verus!
