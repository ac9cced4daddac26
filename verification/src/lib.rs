//! Two ledger-backed financial primitives: a time-locked escrow and a
//! rotating savings pool. Each is a state machine over a keyed collection
//! of records. Storage, authorization, the clock and the token ledger are
//! external collaborators: operations take the current time and the
//! authorizing principal as plain arguments and return the fund movement
//! to perform as a [`transfer::Transfer`] value, which the hosting
//! environment executes atomically with the commit of the new state.

pub mod errors;
pub mod transfer;
pub mod escrow;
pub mod pool;
