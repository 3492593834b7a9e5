//! The move record: one per accepted action, append-only.

use vstd::prelude::*;
use crate::error::GameError;

verus! {

/// What a player can do on their move.
#[derive(Clone, Copy, Debug, PartialEq, Eq, Structural)]
pub enum ActionType {
    PickUp,
    Decline,
    DeclareIntent,
    CallShowdown,
    Rebuttal,
}

/// The stored code of a pick-up.
pub const ACTION_PICK_UP: u8 = 0;

/// The stored code of a decline.
pub const ACTION_DECLINE: u8 = 1;

/// The stored code of a suit declaration.
pub const ACTION_DECLARE_INTENT: u8 = 2;

/// The stored code of a showdown call.
pub const ACTION_CALL_SHOWDOWN: u8 = 3;

/// The stored code of a rebuttal.
pub const ACTION_REBUTTAL: u8 = 4;

/// The most bytes that a move's payload can hold.
pub const MAX_PAYLOAD_LEN: usize = 128;

/// The move record in its stored layout.
#[derive(Clone, Copy, Debug)]
pub struct Move {
    /// The match that the move belongs to.
    pub match_id: [u8; 36],
    /// The identity of the player who moved, null-padded as on the roster.
    pub actor: [u8; 64],
    /// Position in the match's log, counted from 0.
    pub move_index: u32,
    /// Action code.
    pub action_type: u8,
    /// Payload bytes; the first `payload_len` are in use.
    pub payload: [u8; 128],
    /// Length of the payload.
    pub payload_len: u8,
    /// When the move was accepted.
    pub timestamp: i64,
}

/// The mathematical content of a move record.
#[verifier::ext_equal]
pub struct MoveView {
    pub match_id: Seq<u8>,
    pub actor: Seq<u8>,
    pub move_index: u32,
    pub action_type: u8,
    pub payload: Seq<u8>,
    pub timestamp: i64,
}

impl View for Move {
    type V = MoveView;

    open spec fn view(&self) -> MoveView {
        MoveView {
            match_id: self.match_id@,
            actor: self.actor@,
            move_index: self.move_index,
            action_type: self.action_type,
            payload: self.payload@.take(
                if self.payload_len <= 128 {
                    self.payload_len as int
                } else {
                    128
                },
            ),
            timestamp: self.timestamp,
        }
    }
}

impl Move {
    /// The byte-size ceiling of a stored move record.
    pub const MAX_SIZE: usize = 8 + 36 + 64 + 4 + 1 + 128 + 1 + 8;

    /// The length tag is within the payload field.
    pub open spec fn wf(&self) -> bool {
        self.payload_len <= MAX_PAYLOAD_LEN
    }

    /// A record with an empty payload.
    pub fn new(match_id: [u8; 36], actor: [u8; 64], move_index: u32, action_type: u8, timestamp: i64) -> (m: Move)
        ensures
            m.wf(),
            m@ == (MoveView {
                match_id: match_id@,
                actor: actor@,
                move_index,
                action_type,
                payload: Seq::<u8>::empty(),
                timestamp,
            }),
    {
        let m = Move {
            match_id,
            actor,
            move_index,
            action_type,
            payload: [0u8; 128],
            payload_len: 0,
            timestamp,
        };
        assert(m@.payload =~= Seq::<u8>::empty());
        m
    }

    /// The payload bytes in use; the whole field when the length tag
    /// exceeds it.
    pub fn get_payload_slice(&self) -> (s: &[u8])
        ensures
            s@ == self@.payload,
    {
        let n: usize = if self.payload_len <= 128 {
            self.payload_len as usize
        } else {
            128
        };
        let s = vstd::slice::slice_subrange(self.payload.as_slice(), 0, n);
        assert(s@ =~= self@.payload);
        s
    }

    /// Stores `data` as the payload. Refused with `InvalidPayload`, and
    /// nothing changed, when `data` is longer than the payload field.
    pub fn set_payload(&mut self, data: &[u8]) -> (r: Result<(), GameError>)
        ensures
            data@.len() <= MAX_PAYLOAD_LEN ==> r is Ok && final(self).wf()
                && final(self)@ == (MoveView { payload: data@, ..old(self)@ }),
            data@.len() > MAX_PAYLOAD_LEN ==> r == Err::<(), GameError>(GameError::InvalidPayload)
                && *final(self) == *old(self),
            *final(self) == (Move {
                payload: final(self).payload,
                payload_len: final(self).payload_len,
                ..*old(self)
            }),
    {
        if data.len() > 128 {
            return Err(GameError::InvalidPayload);
        }
        let mut i: usize = 0;
        while i < data.len()
            invariant
                i <= data@.len() <= 128,
                forall|j: int| 0 <= j < i ==> self.payload@[j] == data@[j],
                *self == (Move { payload: self.payload, ..*old(self) }),
            decreases data@.len() - i,
        {
            self.payload[i] = data[i];
            i += 1;
        }
        self.payload_len = data.len() as u8;
        proof {
            assert(self@.payload =~= data@);
            assert(self@ =~= (MoveView { payload: data@, ..old(self)@ }));
        }
        Ok(())
    }

    /// The action of the move; unknown codes read as `PickUp`.
    pub fn get_action_type(&self) -> (a: ActionType)
        ensures
            a == (if self.action_type == ACTION_DECLINE {
                ActionType::Decline
            } else if self.action_type == ACTION_DECLARE_INTENT {
                ActionType::DeclareIntent
            } else if self.action_type == ACTION_CALL_SHOWDOWN {
                ActionType::CallShowdown
            } else if self.action_type == ACTION_REBUTTAL {
                ActionType::Rebuttal
            } else {
                ActionType::PickUp
            }),
    {
        match self.action_type {
            1 => ActionType::Decline,
            2 => ActionType::DeclareIntent,
            3 => ActionType::CallShowdown,
            4 => ActionType::Rebuttal,
            _ => ActionType::PickUp,
        }
    }
}

} // verus!
