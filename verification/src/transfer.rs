use vstd::prelude::*;

verus! {

/// One instruction to the external funds mover, returned by a successful
/// operation. The hosting environment performs it atomically with the
/// commit of the operation's state change: if the mover rejects it, the
/// host discards the new state, so the records never claim custody of
/// funds that were not actually moved.
#[derive(Debug, Clone, Copy, PartialEq, Eq, Structural)]
pub enum Transfer {
    /// Move `amount` of `token` from the principal `from` into contract
    /// custody.
    Deposit { token: u64, from: u64, amount: i128 },
    /// Move `amount` of `token` out of contract custody to the principal
    /// `to`.
    Payout { token: u64, to: u64, amount: i128 },
}

} // verus!
