//! The batch anchor: the Merkle root over a batch of match records.

use vstd::prelude::*;

verus! {

/// The batch anchor in its stored layout.
#[derive(Clone, Copy, Debug)]
pub struct BatchAnchor {
    /// The batch identifier, null-padded.
    pub batch_id: [u8; 50],
    /// The Merkle root over the batch.
    pub merkle_root: [u8; 32],
    /// Number of matches in the batch.
    pub count: u32,
    /// The first match of the batch.
    pub first_match_id: [u8; 36],
    /// The last match of the batch.
    pub last_match_id: [u8; 36],
    /// When the batch was anchored.
    pub timestamp: i64,
    /// Who anchored it.
    pub authority: [u8; 32],
}

impl BatchAnchor {
    /// The byte-size ceiling of a stored batch anchor.
    pub const MAX_SIZE: usize = 8 + 50 + 32 + 4 + 36 + 36 + 8 + 32;
}

} // verus!
