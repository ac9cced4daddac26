use vstd::prelude::*;

use crate::errors::Error;
use crate::transfer::Transfer;

verus! {

/// One rotating savings pool. The membership and the contribution unit
/// are fixed at creation; contributions accumulate in `total_balance`,
/// and each payout round sends one full round of contributions to the
/// member at position `current_round mod member_count`.
#[derive(Debug, Clone)]
pub struct SavingsPool {
    pub name: String,
    pub members: Vec<u64>,
    pub contribution_amount: i128,
    pub current_round: u32,
    pub total_balance: i128,
    pub payout_interval: u64,
    pub last_payout: u64,
}

/// The mathematical model of one pool record.
pub ghost struct PoolView {
    pub name: Seq<char>,
    pub members: Seq<u64>,
    pub contribution_amount: int,
    pub current_round: int,
    pub total_balance: int,
    pub payout_interval: int,
    pub last_payout: int,
}

impl View for SavingsPool {
    type V = PoolView;

    open spec fn view(&self) -> PoolView {
        PoolView {
            name: self.name@,
            members: self.members@,
            contribution_amount: self.contribution_amount as int,
            current_round: self.current_round as int,
            total_balance: self.total_balance as int,
            payout_interval: self.payout_interval as int,
            last_payout: self.last_payout as int,
        }
    }
}

/// Well-formedness of one pool record: at least one member, a membership
/// that the rotation index can address, a nonnegative contribution unit
/// whose full round fits the balance type, a balance that never goes
/// negative, and fields within their machine ranges.
pub open spec fn pool_wf(p: PoolView) -> bool {
    &&& 1 <= p.members.len()
    &&& p.members.len() <= u32::MAX
    &&& 0 <= p.contribution_amount
    &&& p.contribution_amount * p.members.len() <= i128::MAX
    &&& 0 <= p.total_balance <= i128::MAX
    &&& 0 <= p.current_round <= u32::MAX
    &&& 0 <= p.payout_interval <= u64::MAX
    &&& 0 <= p.last_payout <= u64::MAX
}

/// All records of a pool ledger are well formed.
pub open spec fn pools_wf(s: Seq<PoolView>) -> bool {
    forall|i: int| 0 <= i < s.len() ==> pool_wf(#[trigger] s[i])
}

/// Outcome of `create_pool` on records `s`: the records afterwards and
/// the result. The first listed member acts as pool initiator and must
/// have authorized the call. The new pool starts at round 0 with an
/// empty balance, and its payout clock starts at creation time.
pub open spec fn spec_create_pool(
    s: Seq<PoolView>,
    name: Seq<char>,
    members: Seq<u64>,
    contribution_amount: i128,
    payout_interval: u64,
    now: u64,
    auth: u64,
) -> (Seq<PoolView>, Result<u64, Error>) {
    if members.len() == 0 || auth != members[0] {
        (s, Err(Error::Unauthorized))
    } else {
        (
            s.push(
                PoolView {
                    name,
                    members,
                    contribution_amount: contribution_amount as int,
                    current_round: 0,
                    total_balance: 0,
                    payout_interval: payout_interval as int,
                    last_payout: now as int,
                },
            ),
            Ok(s.len() as u64),
        )
    }
}

/// Outcome of `contribute` on records `s`. An authorized member of an
/// existing pool may deposit any nonnegative amount — nothing caps the
/// number of contributions per round or ties the amount to the pool's
/// contribution unit; contributions are tracked only as the aggregate
/// balance. Errors name the first failing check, in the order:
/// authorization, existence, membership.
pub open spec fn spec_contribute(
    s: Seq<PoolView>,
    pool_id: u64,
    member: u64,
    token: u64,
    amount: i128,
    auth: u64,
) -> (Seq<PoolView>, Result<Transfer, Error>) {
    if auth != member {
        (s, Err(Error::Unauthorized))
    } else if s.len() <= pool_id {
        (s, Err(Error::NotFound))
    } else {
        let p = s[pool_id as int];
        if !p.members.contains(member) {
            (s, Err(Error::NotMember))
        } else {
            (
                s.update(pool_id as int, PoolView { total_balance: p.total_balance + amount, ..p }),
                Ok(Transfer::Deposit { token, from: member, amount }),
            )
        }
    }
}

/// Outcome of `distribute_payout` on records `s`. Anyone may trigger it:
/// the payout is mechanical, not principal-gated. It succeeds exactly
/// when the pool exists, its payout interval has elapsed, and the balance
/// covers one full round `contribution_amount * member_count`; it then
/// pays that round out of custody to the member at position
/// `current_round mod member_count`, advances the round by one, and
/// restarts the payout clock at `now`. Errors name the first failing
/// check, in the order: existence, interval, balance.
pub open spec fn spec_distribute_payout(
    s: Seq<PoolView>,
    pool_id: u64,
    token: u64,
    now: u64,
) -> (Seq<PoolView>, Result<Transfer, Error>) {
    if s.len() <= pool_id {
        (s, Err(Error::NotFound))
    } else {
        let p = s[pool_id as int];
        if now < p.last_payout + p.payout_interval {
            (s, Err(Error::IntervalNotElapsed))
        } else {
            let payout = p.contribution_amount * p.members.len();
            if p.total_balance < payout {
                (s, Err(Error::InsufficientBalance))
            } else {
                (
                    s.update(
                        pool_id as int,
                        PoolView {
                            total_balance: p.total_balance - payout,
                            current_round: p.current_round + 1,
                            last_payout: now as int,
                            ..p
                        },
                    ),
                    Ok(
                        Transfer::Payout {
                            token,
                            to: p.members[p.current_round % (p.members.len() as int)],
                            amount: payout as i128,
                        },
                    ),
                )
            }
        }
    }
}

/// Outcome of `get_pool` on records `s`: the stored record, or
/// `NotFound` for an identifier no creation has returned.
pub open spec fn spec_get_pool(s: Seq<PoolView>, pool_id: u64) -> Result<PoolView, Error> {
    if s.len() <= pool_id {
        Err(Error::NotFound)
    } else {
        Ok(s[pool_id as int])
    }
}

/// Outcome of `is_payout_ready` on records `s`: whether the pool's
/// payout interval has elapsed at `now`, or `NotFound`.
pub open spec fn spec_is_payout_ready(s: Seq<PoolView>, pool_id: u64, now: u64) -> Result<
    bool,
    Error,
> {
    if s.len() <= pool_id {
        Err(Error::NotFound)
    } else {
        Ok(now >= s[pool_id as int].last_payout + s[pool_id as int].payout_interval)
    }
}

/// The pool ledger: an append-only collection of pool records keyed by a
/// monotonically increasing numeric identifier, separate from the escrow
/// ledger's. A record's identifier is its position, so the reserved
/// counter of the persisted layout coincides with the number of records.
#[derive(Debug, Clone)]
pub struct SavingsPoolContract {
    pools: Vec<SavingsPool>,
}

impl View for SavingsPoolContract {
    type V = Seq<PoolView>;

    closed spec fn view(&self) -> Seq<PoolView> {
        self.pools@.map_values(|p: SavingsPool| p@)
    }
}

impl SavingsPoolContract {
    /// All records well formed: established by `new`, preserved by every
    /// operation.
    pub open spec fn wf(&self) -> bool {
        pools_wf(self@)
    }

    /// An empty ledger; the first created pool gets identifier 0.
    pub fn new() -> (r: Self)
        ensures
            r@ == Seq::<PoolView>::empty(),
            r.wf(),
    {
        SavingsPoolContract { pools: Vec::new() }
    }

    /// Create a new pool. `auth` is the principal attested by the
    /// authorization gate to have approved this call; it must be the
    /// first listed member, the initiator. The member list must be
    /// nonempty, small enough for the 32-bit rotation index, and its full
    /// contribution round must fit the balance type — machine limits the
    /// payout computation depends on.
    pub fn create_pool(
        &mut self,
        name: String,
        members: Vec<u64>,
        contribution_amount: i128,
        payout_interval: u64,
        now: u64,
        auth: u64,
    ) -> (r: Result<u64, Error>)
        requires
            old(self).wf(),
            1 <= members@.len() <= u32::MAX,
            0 <= contribution_amount,
            contribution_amount * members@.len() <= i128::MAX,
        ensures
            final(self).wf(),
            (final(self)@, r) == spec_create_pool(
                old(self)@,
                name@,
                members@,
                contribution_amount,
                payout_interval,
                now,
                auth,
            ),
    {
        if auth != members[0] {
            return Err(Error::Unauthorized);
        }
        let pool_id: u64 = self.pools.len() as u64;
        let pool = SavingsPool {
            name,
            members,
            contribution_amount,
            current_round: 0,
            total_balance: 0,
            payout_interval,
            last_payout: now,
        };
        self.pools.push(pool);
        proof {
            assert(self@ =~= old(self)@.push(self.pools@[old(self)@.len() as int]@));
        }
        Ok(pool_id)
    }

    /// Record a member's contribution. `auth` must be the contributing
    /// member itself; the member must belong to the pool. The deposited
    /// amount joins the aggregate balance — the caller must leave room
    /// for it in the balance type — and the matching deposit into custody
    /// is returned for the funds mover to perform.
    pub fn contribute(
        &mut self,
        pool_id: u64,
        member: u64,
        token: u64,
        amount: i128,
        auth: u64,
    ) -> (r: Result<Transfer, Error>)
        requires
            old(self).wf(),
            0 <= amount,
            pool_id < old(self)@.len() ==> old(self)@[pool_id as int].total_balance + amount
                <= i128::MAX,
        ensures
            final(self).wf(),
            (final(self)@, r) == spec_contribute(old(self)@, pool_id, member, token, amount, auth),
    {
        if auth != member {
            return Err(Error::Unauthorized);
        }
        if self.pools.len() as u64 <= pool_id {
            return Err(Error::NotFound);
        }
        let i = pool_id as usize;
        if !member_list_contains(&self.pools[i].members, member) {
            return Err(Error::NotMember);
        }
        let p = &mut self.pools[i];
        p.total_balance = p.total_balance + amount;
        proof {
            assert(self@ =~= old(self)@.update(
                pool_id as int,
                PoolView {
                    total_balance: old(self)@[pool_id as int].total_balance + amount,
                    ..old(self)@[pool_id as int]
                },
            ));
        }
        Ok(Transfer::Deposit { token, from: member, amount })
    }

    /// Pay the current round out to the member whose turn it is. Callable
    /// by anyone once the payout interval has elapsed, provided the
    /// balance holds one full round of contributions. The round counter
    /// must have room to advance — a machine limit of its 32-bit type.
    /// On success the payout out of custody is returned for the funds
    /// mover to perform.
    pub fn distribute_payout(&mut self, pool_id: u64, token: u64, now: u64) -> (r: Result<
        Transfer,
        Error,
    >)
        requires
            old(self).wf(),
            pool_id < old(self)@.len() ==> old(self)@[pool_id as int].current_round < u32::MAX,
        ensures
            final(self).wf(),
            (final(self)@, r) == spec_distribute_payout(old(self)@, pool_id, token, now),
    {
        if self.pools.len() as u64 <= pool_id {
            return Err(Error::NotFound);
        }
        let i = pool_id as usize;
        proof {
            assert(pool_wf(self@[pool_id as int]));
        }
        let last = self.pools[i].last_payout;
        let interval = self.pools[i].payout_interval;
        if !(now >= last && now - last >= interval) {
            return Err(Error::IntervalNotElapsed);
        }
        let m: usize = self.pools[i].members.len();
        let contribution = self.pools[i].contribution_amount;
        let payout: i128 = contribution * (m as i128);
        if self.pools[i].total_balance < payout {
            return Err(Error::InsufficientBalance);
        }
        let round = self.pools[i].current_round;
        let idx: usize = (round % (m as u32)) as usize;
        let recipient = self.pools[i].members[idx];
        let p = &mut self.pools[i];
        p.total_balance = p.total_balance - payout;
        p.current_round = p.current_round + 1;
        p.last_payout = now;
        proof {
            let q = old(self)@[pool_id as int];
            assert(self@ =~= old(self)@.update(
                pool_id as int,
                PoolView {
                    total_balance: q.total_balance - q.contribution_amount * q.members.len(),
                    current_round: q.current_round + 1,
                    last_payout: now as int,
                    ..q
                },
            ));
        }
        Ok(Transfer::Payout { token, to: recipient, amount: payout })
    }

    /// Read a pool record.
    pub fn get_pool(&self, pool_id: u64) -> (r: Result<&SavingsPool, Error>)
        ensures
            (match r {
                Ok(p) => spec_get_pool(self@, pool_id) == Ok::<PoolView, Error>(p@),
                Err(e) => spec_get_pool(self@, pool_id) == Err::<PoolView, Error>(e),
            }),
    {
        if self.pools.len() as u64 <= pool_id {
            Err(Error::NotFound)
        } else {
            Ok(&self.pools[pool_id as usize])
        }
    }

    /// Whether the pool's payout interval has elapsed at `now`.
    pub fn is_payout_ready(&self, pool_id: u64, now: u64) -> (r: Result<bool, Error>)
        ensures
            r == spec_is_payout_ready(self@, pool_id, now),
    {
        if self.pools.len() as u64 <= pool_id {
            return Err(Error::NotFound);
        }
        let i = pool_id as usize;
        let last = self.pools[i].last_payout;
        let interval = self.pools[i].payout_interval;
        Ok(now >= last && now - last >= interval)
    }
}

/// Whether `member` occurs in `members`.
fn member_list_contains(members: &Vec<u64>, member: u64) -> (r: bool)
    ensures
        r == members@.contains(member),
{
    let mut j: usize = 0;
    let mut found = false;
    while j < members.len()
        invariant
            j <= members@.len(),
            found == exists|k: int| 0 <= k < j && members@[k] == member,
        decreases members@.len() - j,
    {
        if members[j] == member {
            found = true;
        }
        j += 1;
    }
    found
}

/// Law (rotation): a successful payout pays one full round of
/// contributions to the member at position `current_round mod
/// member_count`, advances `current_round` by exactly one, and leaves
/// the membership unchanged — so the recipients of consecutive
/// successful payouts walk the member list in order, wrapping around,
/// and every member is paid exactly once per full cycle of
/// `member_count` rounds.
pub proof fn lemma_payout_rotation(s: Seq<PoolView>, pool_id: u64, token: u64, now: u64)
    requires
        pool_id < s.len(),
        pool_wf(s[pool_id as int]),
        spec_distribute_payout(s, pool_id, token, now).1 is Ok,
    ensures
        ({
            let p = s[pool_id as int];
            let m = p.members.len() as int;
            let (s2, r) = spec_distribute_payout(s, pool_id, token, now);
            &&& 0 <= p.current_round % m < m
            &&& r == Ok::<Transfer, Error>(
                Transfer::Payout {
                    token,
                    to: p.members[p.current_round % m],
                    amount: (p.contribution_amount * m) as i128,
                },
            )
            &&& s2.len() == s.len()
            &&& s2[pool_id as int].current_round == p.current_round + 1
            &&& s2[pool_id as int].members == p.members
        }),
{
}

/// Law (rotation, interleaving): a contribution changes at most the
/// balance of the pool it addresses — it never disturbs any pool's
/// membership, round counter, or payout clock, so contributions between
/// payouts cannot change whose turn it is.
pub proof fn lemma_contribute_preserves_rotation(
    s: Seq<PoolView>,
    pool_id: u64,
    member: u64,
    token: u64,
    amount: i128,
    auth: u64,
)
    ensures
        ({
            let s2 = spec_contribute(s, pool_id, member, token, amount, auth).0;
            &&& s2.len() == s.len()
            &&& forall|j: int|
                0 <= j < s.len() ==> {
                    &&& (#[trigger] s2[j]).members == s[j].members
                    &&& s2[j].current_round == s[j].current_round
                    &&& s2[j].last_payout == s[j].last_payout
                    &&& s2[j].payout_interval == s[j].payout_interval
                    &&& s2[j].contribution_amount == s[j].contribution_amount
                    &&& s2[j].name == s[j].name
                }
        }),
{
}

/// Law: a payout needs a full round of contributions — whenever the pool
/// exists, its payout interval has elapsed, and the balance is below
/// `contribution_amount * member_count`, `distribute_payout` is rejected
/// with `InsufficientBalance` and changes nothing. (When the interval
/// has not elapsed either, the interval check comes first and the call
/// is rejected with `IntervalNotElapsed` — still with no payout.)
pub proof fn lemma_insufficient_balance(s: Seq<PoolView>, pool_id: u64, token: u64, now: u64)
    requires
        pool_id < s.len(),
        now >= s[pool_id as int].last_payout + s[pool_id as int].payout_interval,
        s[pool_id as int].total_balance < s[pool_id as int].contribution_amount * s[pool_id as int].members.len(),
    ensures
        spec_distribute_payout(s, pool_id, token, now) == (
            s,
            Err::<Transfer, Error>(Error::InsufficientBalance),
        ),
{
}

/// Law: only members may contribute — an authorized contribution to an
/// existing pool from a principal absent from its member list is
/// rejected with `NotMember` and changes nothing.
pub proof fn lemma_contribute_not_member(
    s: Seq<PoolView>,
    pool_id: u64,
    member: u64,
    token: u64,
    amount: i128,
)
    requires
        pool_id < s.len(),
        !s[pool_id as int].members.contains(member),
    ensures
        spec_contribute(s, pool_id, member, token, amount, member) == (
            s,
            Err::<Transfer, Error>(Error::NotMember),
        ),
{
}

} // verus!
