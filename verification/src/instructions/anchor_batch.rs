//! Anchoring a batch of match records.

use vstd::prelude::*;
use crate::bytes::{pad_bytes, padded};
use crate::error::GameError;
use crate::state::batch_anchor::BatchAnchor;
use crate::state::match_state::MATCH_ID_LEN;

verus! {

/// The most bytes that a batch identifier can take.
pub const MAX_BATCH_ID_LEN: usize = 50;

/// Whether a batch may be anchored: the authority signed, the batch
/// identifier is not empty and fits, the count fits the record, and both
/// match identifiers have the fixed width.
pub open spec fn anchor_batch_check(
    authority_signed: bool,
    batch_id: Seq<u8>,
    count: u64,
    first_match_id: Seq<u8>,
    last_match_id: Seq<u8>,
) -> Result<(), GameError> {
    if !authority_signed {
        Err(GameError::Unauthorized)
    } else if batch_id.len() == 0 || batch_id.len() > MAX_BATCH_ID_LEN {
        Err(GameError::InvalidBatchId)
    } else if count > u32::MAX {
        Err(GameError::InvalidPayload)
    } else if first_match_id.len() != MATCH_ID_LEN || last_match_id.len() != MATCH_ID_LEN {
        Err(GameError::InvalidPayload)
    } else {
        Ok(())
    }
}

/// Builds the anchor of a batch of match records.
pub fn handler(
    authority: [u8; 32],
    authority_signed: bool,
    batch_id: &[u8],
    merkle_root: [u8; 32],
    count: u64,
    first_match_id: &[u8],
    last_match_id: &[u8],
    now: i64,
) -> (r: Result<BatchAnchor, GameError>)
    ensures
        match anchor_batch_check(authority_signed, batch_id@, count, first_match_id@, last_match_id@) {
            Ok(_) => {
                &&& r is Ok
                &&& r->Ok_0.batch_id@ == padded(batch_id@, 50)
                &&& r->Ok_0.merkle_root == merkle_root
                &&& r->Ok_0.count == count
                &&& r->Ok_0.first_match_id@ == first_match_id@
                &&& r->Ok_0.last_match_id@ == last_match_id@
                &&& r->Ok_0.timestamp == now
                &&& r->Ok_0.authority == authority
            },
            Err(e) => r is Err && r->Err_0 == e,
        },
{
    if !authority_signed {
        return Err(GameError::Unauthorized);
    }
    if batch_id.len() == 0 {
        return Err(GameError::InvalidBatchId);
    }
    let batch = match pad_bytes::<50>(batch_id) {
        Some(b) => b,
        None => {
            return Err(GameError::InvalidBatchId);
        },
    };
    if count > u32::MAX as u64 {
        return Err(GameError::InvalidPayload);
    }
    if first_match_id.len() != MATCH_ID_LEN || last_match_id.len() != MATCH_ID_LEN {
        return Err(GameError::InvalidPayload);
    }
    let first = match pad_bytes::<36>(first_match_id) {
        Some(f) => f,
        None => {
            return Err(GameError::InvalidPayload);
        },
    };
    let last = match pad_bytes::<36>(last_match_id) {
        Some(l) => l,
        None => {
            return Err(GameError::InvalidPayload);
        },
    };
    assert(first@ =~= first_match_id@);
    assert(last@ =~= last_match_id@);
    Ok(
        BatchAnchor {
            batch_id: batch,
            merkle_root,
            count: count as u32,
            first_match_id: first,
            last_match_id: last,
            timestamp: now,
            authority,
        },
    )
}

} // verus!
