//! The validator record: bond and resolution history.

use vstd::prelude::*;
use crate::error::GameError;

verus! {

/// The validator record in its stored layout.
#[derive(Clone, Copy, Debug)]
pub struct ValidatorReputation {
    /// The validator.
    pub validator: [u8; 32],
    /// The bond that can be slashed.
    pub stake: u64,
    /// The reputation, as the eight bytes of a binary64 number, low byte
    /// first. The library stores these bytes and does not read them.
    pub reputation: [u8; 8],
    /// Disputes resolved.
    pub total_resolutions: u32,
    /// Disputes resolved correctly.
    pub correct_resolutions: u32,
    /// Creation time.
    pub created_at: i64,
    /// Time of the last resolution.
    pub last_active: i64,
}

impl ValidatorReputation {
    /// The byte-size ceiling of a stored validator record.
    pub const MAX_SIZE: usize = 8 + 32 + 8 + 8 + 4 + 4 + 8 + 8;

    /// The accuracy as a fraction: correct over total resolutions, and one
    /// half while there is no history.
    pub open spec fn accuracy(&self) -> (int, int) {
        if self.total_resolutions == 0 {
            (1, 2)
        } else {
            (self.correct_resolutions as int, self.total_resolutions as int)
        }
    }

    /// Numerator and denominator of the accuracy; the denominator is
    /// never 0.
    pub fn accuracy_fraction(&self) -> (f: (u32, u32))
        ensures
            (f.0 as int, f.1 as int) == self.accuracy(),
            f.1 != 0,
    {
        if self.total_resolutions == 0 {
            (1, 2)
        } else {
            (self.correct_resolutions, self.total_resolutions)
        }
    }

    /// Whether one more resolution can be counted.
    pub open spec fn can_record(&self, was_correct: bool) -> bool {
        self.total_resolutions < u32::MAX && (was_correct ==> self.correct_resolutions < u32::MAX)
    }

    /// Counts one more resolution, correct or not. Refused with
    /// `Overflow`, and nothing changed, when a counter is at its limit.
    pub fn record_resolution(&mut self, was_correct: bool) -> (r: Result<(), GameError>)
        ensures
            old(self).can_record(was_correct) ==> r is Ok && *final(self) == (ValidatorReputation {
                total_resolutions: (old(self).total_resolutions + 1) as u32,
                correct_resolutions: if was_correct {
                    (old(self).correct_resolutions + 1) as u32
                } else {
                    old(self).correct_resolutions
                },
                ..*old(self)
            }),
            !old(self).can_record(was_correct) ==> r == Err::<(), GameError>(GameError::Overflow)
                && *final(self) == *old(self),
    {
        if self.total_resolutions == u32::MAX || (was_correct && self.correct_resolutions
            == u32::MAX) {
            return Err(GameError::Overflow);
        }
        self.total_resolutions = self.total_resolutions + 1;
        if was_correct {
            self.correct_resolutions = self.correct_resolutions + 1;
        }
        Ok(())
    }
}

} // verus!
