use vstd::prelude::*;

use crate::errors::Error;
use crate::transfer::Transfer;

verus! {

/// One time-locked deposit. `creator`, `recipient`, `amount` and
/// `deadline` are fixed at creation; `released` starts `false` and flips
/// to `true` exactly once, when the funds leave custody by release or by
/// refund.
#[derive(Debug, Clone, Copy, PartialEq, Eq, Structural)]
pub struct Escrow {
    pub creator: u64,
    pub recipient: u64,
    pub amount: i128,
    pub deadline: u64,
    pub released: bool,
}

/// Every escrow record holds a positive amount in custody.
pub open spec fn escrow_wf(e: Escrow) -> bool {
    0 < e.amount
}

/// All records of an escrow ledger are well formed.
pub open spec fn escrows_wf(s: Seq<Escrow>) -> bool {
    forall|i: int| 0 <= i < s.len() ==> escrow_wf(#[trigger] s[i])
}

/// Outcome of `create_escrow` on records `s`: the records afterwards and
/// the result. Creation demands the creator's own authorization; the new
/// record is appended unreleased under the next identifier, and the
/// deposit moves `amount` from the creator into custody.
pub open spec fn spec_create_escrow(
    s: Seq<Escrow>,
    creator: u64,
    recipient: u64,
    token: u64,
    amount: i128,
    deadline: u64,
    auth: u64,
) -> (Seq<Escrow>, Result<(u64, Transfer), Error>) {
    if auth != creator {
        (s, Err(Error::Unauthorized))
    } else {
        (
            s.push(Escrow { creator, recipient, amount, deadline, released: false }),
            Ok((s.len() as u64, Transfer::Deposit { token, from: creator, amount })),
        )
    }
}

/// Outcome of `release` on records `s`. It succeeds exactly on an
/// existing, unreleased record whose deadline has been reached, under the
/// stored recipient's authorization, and then pays the held amount out of
/// custody to the recipient. Each error names the first failing check, in
/// the order: existence, authorization, the single-use latch, the
/// deadline.
pub open spec fn spec_release(
    s: Seq<Escrow>,
    escrow_id: u64,
    token: u64,
    now: u64,
    auth: u64,
) -> (Seq<Escrow>, Result<Transfer, Error>) {
    if s.len() <= escrow_id {
        (s, Err(Error::NotFound))
    } else {
        let e = s[escrow_id as int];
        if auth != e.recipient {
            (s, Err(Error::Unauthorized))
        } else if e.released {
            (s, Err(Error::AlreadyReleased))
        } else if now < e.deadline {
            (s, Err(Error::DeadlineNotReached))
        } else {
            (
                s.update(escrow_id as int, Escrow { released: true, ..e }),
                Ok(Transfer::Payout { token, to: e.recipient, amount: e.amount }),
            )
        }
    }
}

/// Outcome of `refund` on records `s`. It succeeds exactly on an
/// existing, unreleased record whose deadline has strictly passed, under
/// the stored creator's authorization — at the deadline instant itself
/// only release is eligible — and then pays the held amount back to the
/// creator. Errors name the first failing check, in the same order as
/// `spec_release`.
pub open spec fn spec_refund(
    s: Seq<Escrow>,
    escrow_id: u64,
    token: u64,
    now: u64,
    auth: u64,
) -> (Seq<Escrow>, Result<Transfer, Error>) {
    if s.len() <= escrow_id {
        (s, Err(Error::NotFound))
    } else {
        let e = s[escrow_id as int];
        if auth != e.creator {
            (s, Err(Error::Unauthorized))
        } else if e.released {
            (s, Err(Error::AlreadyReleased))
        } else if now <= e.deadline {
            (s, Err(Error::DeadlineNotPassed))
        } else {
            (
                s.update(escrow_id as int, Escrow { released: true, ..e }),
                Ok(Transfer::Payout { token, to: e.creator, amount: e.amount }),
            )
        }
    }
}

/// Outcome of `get_escrow` on records `s`: the stored record, or
/// `NotFound` for an identifier no creation has returned.
pub open spec fn spec_get_escrow(s: Seq<Escrow>, escrow_id: u64) -> Result<Escrow, Error> {
    if s.len() <= escrow_id {
        Err(Error::NotFound)
    } else {
        Ok(s[escrow_id as int])
    }
}

/// The escrow ledger: an append-only collection of escrow records keyed
/// by a monotonically increasing numeric identifier. A record's
/// identifier is its position, so the reserved counter of the persisted
/// layout coincides with the number of records; records are never
/// deleted, only mutated in place.
#[derive(Debug, Clone)]
pub struct EscrowContract {
    escrows: Vec<Escrow>,
}

impl View for EscrowContract {
    type V = Seq<Escrow>;

    closed spec fn view(&self) -> Seq<Escrow> {
        self.escrows@
    }
}

impl EscrowContract {
    /// All records well formed: established by `new`, preserved by every
    /// operation.
    pub open spec fn wf(&self) -> bool {
        escrows_wf(self@)
    }

    /// An empty ledger; the first created escrow gets identifier 0.
    pub fn new() -> (r: Self)
        ensures
            r@ == Seq::<Escrow>::empty(),
            r.wf(),
    {
        EscrowContract { escrows: Vec::new() }
    }

    /// Create a new escrow holding `amount` of `token` until `deadline`.
    /// `auth` is the principal attested by the authorization gate to have
    /// approved this call; it must be the creator. On success the new
    /// identifier is returned together with the deposit for the funds
    /// mover to perform.
    pub fn create_escrow(
        &mut self,
        creator: u64,
        recipient: u64,
        token: u64,
        amount: i128,
        deadline: u64,
        auth: u64,
    ) -> (r: Result<(u64, Transfer), Error>)
        requires
            old(self).wf(),
            0 < amount,
        ensures
            final(self).wf(),
            (final(self)@, r) == spec_create_escrow(
                old(self)@,
                creator,
                recipient,
                token,
                amount,
                deadline,
                auth,
            ),
    {
        if auth != creator {
            return Err(Error::Unauthorized);
        }
        let escrow_id: u64 = self.escrows.len() as u64;
        self.escrows.push(Escrow { creator, recipient, amount, deadline, released: false });
        Ok((escrow_id, Transfer::Deposit { token, from: creator, amount }))
    }

    /// Release the escrow's funds to its recipient, once the deadline has
    /// been reached. `auth` must be the stored recipient. On success the
    /// record is latched released and the payout out of custody is
    /// returned for the funds mover to perform.
    pub fn release(&mut self, escrow_id: u64, token: u64, now: u64, auth: u64) -> (r: Result<
        Transfer,
        Error,
    >)
        requires
            old(self).wf(),
        ensures
            final(self).wf(),
            (final(self)@, r) == spec_release(old(self)@, escrow_id, token, now, auth),
    {
        if self.escrows.len() as u64 <= escrow_id {
            return Err(Error::NotFound);
        }
        let i = escrow_id as usize;
        let e: Escrow = self.escrows[i];
        if auth != e.recipient {
            return Err(Error::Unauthorized);
        }
        if e.released {
            return Err(Error::AlreadyReleased);
        }
        if now < e.deadline {
            return Err(Error::DeadlineNotReached);
        }
        self.escrows[i] = Escrow { released: true, ..e };
        Ok(Transfer::Payout { token, to: e.recipient, amount: e.amount })
    }

    /// Refund the escrow's funds to its creator, once the deadline has
    /// strictly passed unclaimed. `auth` must be the stored creator. On
    /// success the record is latched released and the payout back to the
    /// creator is returned for the funds mover to perform.
    pub fn refund(&mut self, escrow_id: u64, token: u64, now: u64, auth: u64) -> (r: Result<
        Transfer,
        Error,
    >)
        requires
            old(self).wf(),
        ensures
            final(self).wf(),
            (final(self)@, r) == spec_refund(old(self)@, escrow_id, token, now, auth),
    {
        if self.escrows.len() as u64 <= escrow_id {
            return Err(Error::NotFound);
        }
        let i = escrow_id as usize;
        let e: Escrow = self.escrows[i];
        if auth != e.creator {
            return Err(Error::Unauthorized);
        }
        if e.released {
            return Err(Error::AlreadyReleased);
        }
        if now <= e.deadline {
            return Err(Error::DeadlineNotPassed);
        }
        self.escrows[i] = Escrow { released: true, ..e };
        Ok(Transfer::Payout { token, to: e.creator, amount: e.amount })
    }

    /// Read an escrow record.
    pub fn get_escrow(&self, escrow_id: u64) -> (r: Result<Escrow, Error>)
        ensures
            r == spec_get_escrow(self@, escrow_id),
    {
        if self.escrows.len() as u64 <= escrow_id {
            Err(Error::NotFound)
        } else {
            Ok(self.escrows[escrow_id as usize])
        }
    }
}

/// Law: release succeeds exactly when the escrow exists, is unreleased,
/// its deadline has been reached, and the stored recipient authorized
/// the call.
pub proof fn lemma_release_success_iff(
    s: Seq<Escrow>,
    escrow_id: u64,
    token: u64,
    now: u64,
    auth: u64,
)
    ensures
        spec_release(s, escrow_id, token, now, auth).1 is Ok <==> {
            &&& escrow_id < s.len()
            &&& !s[escrow_id as int].released
            &&& now >= s[escrow_id as int].deadline
            &&& auth == s[escrow_id as int].recipient
        },
{
}

/// Law: refund succeeds exactly when the escrow exists, is unreleased,
/// its deadline has strictly passed, and the stored creator authorized
/// the call.
pub proof fn lemma_refund_success_iff(
    s: Seq<Escrow>,
    escrow_id: u64,
    token: u64,
    now: u64,
    auth: u64,
)
    ensures
        spec_refund(s, escrow_id, token, now, auth).1 is Ok <==> {
            &&& escrow_id < s.len()
            &&& !s[escrow_id as int].released
            &&& now > s[escrow_id as int].deadline
            &&& auth == s[escrow_id as int].creator
        },
{
}

/// Law: a successful release latches the record — afterwards `released`
/// holds, and any later release or refund of the same escrow, at any
/// time, under the authorization it demands, is rejected with
/// `AlreadyReleased` and changes nothing.
pub proof fn lemma_release_is_final(
    s: Seq<Escrow>,
    escrow_id: u64,
    token: u64,
    now: u64,
    auth: u64,
    token2: u64,
    now2: u64,
)
    requires
        spec_release(s, escrow_id, token, now, auth).1 is Ok,
    ensures
        ({
            let s2 = spec_release(s, escrow_id, token, now, auth).0;
            &&& s2[escrow_id as int].released
            &&& spec_release(s2, escrow_id, token2, now2, s2[escrow_id as int].recipient) == (
                s2,
                Err::<Transfer, Error>(Error::AlreadyReleased),
            )
            &&& spec_refund(s2, escrow_id, token2, now2, s2[escrow_id as int].creator) == (
                s2,
                Err::<Transfer, Error>(Error::AlreadyReleased),
            )
        }),
{
}

/// Law: a successful refund latches the record in the same way as a
/// successful release — the two settlements are mutually exclusive and
/// irreversible.
pub proof fn lemma_refund_is_final(
    s: Seq<Escrow>,
    escrow_id: u64,
    token: u64,
    now: u64,
    auth: u64,
    token2: u64,
    now2: u64,
)
    requires
        spec_refund(s, escrow_id, token, now, auth).1 is Ok,
    ensures
        ({
            let s2 = spec_refund(s, escrow_id, token, now, auth).0;
            &&& s2[escrow_id as int].released
            &&& spec_release(s2, escrow_id, token2, now2, s2[escrow_id as int].recipient) == (
                s2,
                Err::<Transfer, Error>(Error::AlreadyReleased),
            )
            &&& spec_refund(s2, escrow_id, token2, now2, s2[escrow_id as int].creator) == (
                s2,
                Err::<Transfer, Error>(Error::AlreadyReleased),
            )
        }),
{
}

/// Law (deadline boundary): at the deadline instant exactly, an
/// unreleased escrow can be released but not yet refunded.
pub proof fn lemma_deadline_boundary(s: Seq<Escrow>, escrow_id: u64, token: u64)
    requires
        escrow_id < s.len(),
        !s[escrow_id as int].released,
    ensures
        spec_release(
            s,
            escrow_id,
            token,
            s[escrow_id as int].deadline,
            s[escrow_id as int].recipient,
        ).1 is Ok,
        spec_refund(s, escrow_id, token, s[escrow_id as int].deadline, s[escrow_id as int].creator).1
            == Err::<Transfer, Error>(Error::DeadlineNotPassed),
{
}

/// Law (round trip): reading an escrow straight after creating it
/// returns exactly the fields that were stored, with `released` false.
pub proof fn lemma_create_get_round_trip(
    s: Seq<Escrow>,
    creator: u64,
    recipient: u64,
    token: u64,
    amount: i128,
    deadline: u64,
)
    requires
        s.len() <= u64::MAX,
    ensures
        ({
            let (s2, r) = spec_create_escrow(s, creator, recipient, token, amount, deadline, creator);
            &&& r is Ok
            &&& spec_get_escrow(s2, r->Ok_0.0) == Ok::<Escrow, Error>(
                Escrow { creator, recipient, amount, deadline, released: false },
            )
        }),
{
}

} // verus!
