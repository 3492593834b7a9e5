//! Match lifecycle, move validation, dispute arbitration and ranked
//! leaderboards for multiplayer card games, with machine-checked contracts.
//!
//! The records live in `state`, in the fixed layouts in which the host
//! stores them; `bytes` and `packed` read and write their fields. The
//! requests that the host may submit are in `instructions`, one module
//! each: a request is applied as a whole or refused with a `GameError`,
//! and a refused request changes nothing. `validation` decides whether a
//! move is legal, `scoring` scores a match, and `lifecycle` and `history`
//! state what holds of a match record from its creation on.
//!
//! The caller passes in what only the host knows: who signed, and the
//! time.

pub mod bytes;
pub mod error;
pub mod hashing;
pub mod history;
pub mod instructions;
pub mod lifecycle;
pub mod packed;
pub mod scoring;
pub mod state;
pub mod validation;
