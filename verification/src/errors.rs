use vstd::prelude::*;

verus! {

/// Why an operation was rejected. Every rejection aborts the whole
/// operation: the ledger that returned it is left exactly as it was.
#[derive(Debug, Clone, Copy, PartialEq, Eq, Structural)]
pub enum Error {
    /// No record exists under the given identifier.
    NotFound,
    /// The principal whose authorization the operation demands did not
    /// authorize the call.
    Unauthorized,
    /// The escrow's funds already left custody, by release or by refund.
    AlreadyReleased,
    /// Release was attempted strictly before the escrow's deadline.
    DeadlineNotReached,
    /// Refund was attempted at or before the escrow's deadline; refund
    /// demands that the deadline has strictly passed.
    DeadlineNotPassed,
    /// A payout was attempted before the pool's payout interval elapsed.
    IntervalNotElapsed,
    /// The contributing principal is not in the pool's member list.
    NotMember,
    /// The pool does not hold a full round of contributions.
    InsufficientBalance,
    /// The external funds mover rejected the movement. The ledgers never
    /// return this themselves: the host reports it when a transfer fails
    /// and it reverts the operation.
    TransferFailed,
}

} // verus!
