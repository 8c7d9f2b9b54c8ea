//! The ledger's invariants, stated over the committed-effect relations of the
//! operations in `ops` and proved for every input.
//!
//! The aggregate invariant (the pool's `total_staked` equals the sum of all
//! stake records) and the per-user invariant (a record equals its owner's
//! committed stakes minus unstakes) are each given as an induction over the
//! pool's history: one lemma establishes the invariant at `initialize_pool`,
//! and one lemma per operation carries it over a commit. An operation touches
//! no record other than the one handed to it, so records outside a commit
//! carry their part of the invariant unchanged.

use vstd::prelude::*;

use crate::derivation::pool_signer_of;
use crate::identity::Identity;
use crate::ops::{initialized_pool, stake_committed, unstake_committed};
use crate::state::{Pool, StakeRecord};
use crate::token::{transfer_allowed, TokenAccount};

verus! {

/// The sum of the staked amounts over a pool's stake records.
pub open spec fn total_recorded(records: Seq<StakeRecord>) -> int
    decreases records.len(),
{
    if records.len() == 0 {
        0
    } else {
        total_recorded(records.drop_last()) + records.last().amount
    }
}

/// Replacing one record changes the sum by the difference of the amounts.
proof fn lemma_total_recorded_update(records: Seq<StakeRecord>, i: int, rec: StakeRecord)
    requires
        0 <= i < records.len(),
    ensures
        total_recorded(records.update(i, rec)) == total_recorded(records) + rec.amount
            - records[i].amount,
    decreases records.len(),
{
    let updated = records.update(i, rec);
    if i == records.len() - 1 {
        assert(updated.drop_last() =~= records.drop_last());
    } else {
        assert(updated.drop_last() =~= records.drop_last().update(i, rec));
        lemma_total_recorded_update(records.drop_last(), i, rec);
    }
}

/// A newly initialised pool carries no recorded stakes and an aggregate of
/// zero, so the aggregate equals the sum of the (empty) records.
pub proof fn lemma_initialize_establishes_aggregate(
    custody: TokenAccount,
    authority: Identity,
    mint: Identity,
    bump: u8,
)
    ensures
        initialized_pool(custody, authority, mint, bump).total_staked == total_recorded(
            Seq::<StakeRecord>::empty(),
        ),
        aggregate_invariant(
            LedgerState {
                pool: initialized_pool(custody, authority, mint, bump),
                records: Seq::<StakeRecord>::empty(),
            },
        ),
{
}

/// After a committed stake against record `i` of a pool whose aggregate
/// equalled the sum of its records, the aggregate again equals the sum.
pub proof fn lemma_stake_preserves_aggregate(
    records: Seq<StakeRecord>,
    i: int,
    pool0: Pool,
    pool1: Pool,
    rec1: StakeRecord,
    user_token0: TokenAccount,
    user_token1: TokenAccount,
    custody0: TokenAccount,
    custody1: TokenAccount,
    user: Identity,
    amount: u64,
    now: i64,
)
    requires
        pool0.total_staked == total_recorded(records),
        0 <= i < records.len(),
        records[i].amount + amount <= u64::MAX,
        pool0.total_staked + amount <= u64::MAX,
        stake_committed(
            pool0,
            pool1,
            records[i],
            rec1,
            user_token0,
            user_token1,
            custody0,
            custody1,
            user,
            amount,
            now,
        ),
    ensures
        pool1.total_staked == total_recorded(records.update(i, rec1)),
{
    lemma_total_recorded_update(records, i, rec1);
}

/// After a committed unstake against record `i` of a pool whose aggregate
/// equalled the sum of its records, the aggregate again equals the sum.
pub proof fn lemma_unstake_preserves_aggregate(
    records: Seq<StakeRecord>,
    i: int,
    pool0: Pool,
    pool1: Pool,
    rec1: StakeRecord,
    custody0: TokenAccount,
    custody1: TokenAccount,
    user_token0: TokenAccount,
    user_token1: TokenAccount,
    amount: u64,
)
    requires
        pool0.total_staked == total_recorded(records),
        0 <= i < records.len(),
        amount <= records[i].amount,
        amount <= pool0.total_staked,
        unstake_committed(
            pool0,
            pool1,
            records[i],
            rec1,
            custody0,
            custody1,
            user_token0,
            user_token1,
            amount,
        ),
    ensures
        pool1.total_staked == total_recorded(records.update(i, rec1)),
{
    lemma_total_recorded_update(records, i, rec1);
}

/// A pool together with all of its stake records: what one step of the
/// ledger's history acts on.
pub struct LedgerState {
    pub pool: Pool,
    pub records: Seq<StakeRecord>,
}

/// The aggregate invariant: the pool's recorded aggregate equals the sum of
/// the staked amounts over all stake records.
pub open spec fn aggregate_invariant(s: LedgerState) -> bool {
    s.pool.total_staked == total_recorded(s.records)
}

/// `s1` is `s0` after one committed operation: a stake or an unstake against
/// one of the records, or a reward deposit. The token accounts taking part in
/// a commit relate the balances moved but do not constrain the two ledger
/// states beyond the committed effect.
pub open spec fn ledger_step(s0: LedgerState, s1: LedgerState) -> bool {
    ||| exists|
        i: int,
        rec1: StakeRecord,
        user_token0: TokenAccount,
        user_token1: TokenAccount,
        custody0: TokenAccount,
        custody1: TokenAccount,
        user: Identity,
        amount: u64,
        now: i64,
    |
        {
            &&& 0 <= i < s0.records.len()
            &&& s0.records[i].amount + amount <= u64::MAX
            &&& s0.pool.total_staked + amount <= u64::MAX
            &&& #[trigger] stake_committed(
                s0.pool,
                s1.pool,
                s0.records[i],
                rec1,
                user_token0,
                user_token1,
                custody0,
                custody1,
                user,
                amount,
                now,
            )
            &&& s1.records == s0.records.update(i, rec1)
        }
    ||| exists|
        i: int,
        rec1: StakeRecord,
        custody0: TokenAccount,
        custody1: TokenAccount,
        user_token0: TokenAccount,
        user_token1: TokenAccount,
        amount: u64,
    |
        {
            &&& 0 <= i < s0.records.len()
            &&& amount <= s0.records[i].amount
            &&& amount <= s0.pool.total_staked
            &&& #[trigger] unstake_committed(
                s0.pool,
                s1.pool,
                s0.records[i],
                rec1,
                custody0,
                custody1,
                user_token0,
                user_token1,
                amount,
            )
            &&& s1.records == s0.records.update(i, rec1)
        }
    ||| (s1.pool == (Pool { reward_balance: s1.pool.reward_balance, ..s0.pool }) && s1.records
        == s0.records)
}

/// One committed operation keeps the aggregate equal to the sum of the
/// records.
pub proof fn lemma_step_preserves_aggregate(s0: LedgerState, s1: LedgerState)
    requires
        aggregate_invariant(s0),
        ledger_step(s0, s1),
    ensures
        aggregate_invariant(s1),
{
    if exists|
        i: int,
        rec1: StakeRecord,
        user_token0: TokenAccount,
        user_token1: TokenAccount,
        custody0: TokenAccount,
        custody1: TokenAccount,
        user: Identity,
        amount: u64,
        now: i64,
    |
        {
            &&& 0 <= i < s0.records.len()
            &&& s0.records[i].amount + amount <= u64::MAX
            &&& s0.pool.total_staked + amount <= u64::MAX
            &&& #[trigger] stake_committed(
                s0.pool,
                s1.pool,
                s0.records[i],
                rec1,
                user_token0,
                user_token1,
                custody0,
                custody1,
                user,
                amount,
                now,
            )
            &&& s1.records == s0.records.update(i, rec1)
        } {
        let (i, rec1, user_token0, user_token1, custody0, custody1, user, amount, now) = choose|
            i: int,
            rec1: StakeRecord,
            user_token0: TokenAccount,
            user_token1: TokenAccount,
            custody0: TokenAccount,
            custody1: TokenAccount,
            user: Identity,
            amount: u64,
            now: i64,
        |
            {
                &&& 0 <= i < s0.records.len()
                &&& s0.records[i].amount + amount <= u64::MAX
                &&& s0.pool.total_staked + amount <= u64::MAX
                &&& #[trigger] stake_committed(
                    s0.pool,
                    s1.pool,
                    s0.records[i],
                    rec1,
                    user_token0,
                    user_token1,
                    custody0,
                    custody1,
                    user,
                    amount,
                    now,
                )
                &&& s1.records == s0.records.update(i, rec1)
            };
        lemma_stake_preserves_aggregate(
            s0.records,
            i,
            s0.pool,
            s1.pool,
            rec1,
            user_token0,
            user_token1,
            custody0,
            custody1,
            user,
            amount,
            now,
        );
    } else if exists|
        i: int,
        rec1: StakeRecord,
        custody0: TokenAccount,
        custody1: TokenAccount,
        user_token0: TokenAccount,
        user_token1: TokenAccount,
        amount: u64,
    |
        {
            &&& 0 <= i < s0.records.len()
            &&& amount <= s0.records[i].amount
            &&& amount <= s0.pool.total_staked
            &&& #[trigger] unstake_committed(
                s0.pool,
                s1.pool,
                s0.records[i],
                rec1,
                custody0,
                custody1,
                user_token0,
                user_token1,
                amount,
            )
            &&& s1.records == s0.records.update(i, rec1)
        } {
        let (i, rec1, custody0, custody1, user_token0, user_token1, amount) = choose|
            i: int,
            rec1: StakeRecord,
            custody0: TokenAccount,
            custody1: TokenAccount,
            user_token0: TokenAccount,
            user_token1: TokenAccount,
            amount: u64,
        |
            {
                &&& 0 <= i < s0.records.len()
                &&& amount <= s0.records[i].amount
                &&& amount <= s0.pool.total_staked
                &&& #[trigger] unstake_committed(
                    s0.pool,
                    s1.pool,
                    s0.records[i],
                    rec1,
                    custody0,
                    custody1,
                    user_token0,
                    user_token1,
                    amount,
                )
                &&& s1.records == s0.records.update(i, rec1)
            };
        lemma_unstake_preserves_aggregate(
            s0.records,
            i,
            s0.pool,
            s1.pool,
            rec1,
            custody0,
            custody1,
            user_token0,
            user_token1,
            amount,
        );
    } else {
        assert(s1.records == s0.records);
    }
}

/// For all sequences of committed operations on a pool: a history that sets
/// out with the aggregate invariant — as a newly initialised pool does — has
/// it again after each committed operation.
pub proof fn lemma_history_keeps_aggregate(history: Seq<LedgerState>)
    requires
        history.len() > 0,
        aggregate_invariant(history[0]),
        forall|k: int| 0 <= k < history.len() - 1 ==> #[trigger] ledger_step(
            history[k],
            history[k + 1],
        ),
    ensures
        forall|k: int| 0 <= k < history.len() ==> #[trigger] aggregate_invariant(history[k]),
    decreases history.len(),
{
    if history.len() > 1 {
        let shorter = history.drop_last();
        assert forall|k: int| 0 <= k < shorter.len() - 1 implies #[trigger] ledger_step(
            shorter[k],
            shorter[k + 1],
        ) by {
            assert(shorter[k] == history[k]);
            assert(shorter[k + 1] == history[k + 1]);
            assert(ledger_step(history[k], history[k + 1]));
        }
        lemma_history_keeps_aggregate(shorter);
        let n = history.len() as int;
        assert(shorter[n - 2] == history[n - 2]);
        assert(aggregate_invariant(history[n - 2]));
        assert(ledger_step(history[n - 2], history[(n - 2) + 1]));
        lemma_step_preserves_aggregate(history[n - 2], history[n - 1]);
        assert forall|k: int| 0 <= k < history.len() implies #[trigger] aggregate_invariant(
            history[k],
        ) by {
            if k < history.len() - 1 {
                assert(shorter[k] == history[k]);
                assert(aggregate_invariant(shorter[k]));
            }
        }
    }
}

/// One committed principal movement of one user, as seen by the ledger.
pub enum LedgerOp {
    /// A committed stake of `amount` by `user`.
    StakeOp { user: Identity, amount: u64 },
    /// A committed unstake of `amount` by `user`.
    UnstakeOp { user: Identity, amount: u64 },
}

/// How one committed operation moves `user`'s recorded principal.
pub open spec fn op_delta(op: LedgerOp, user: Identity) -> int {
    match op {
        LedgerOp::StakeOp { user: u, amount } => if u == user {
            amount as int
        } else {
            0
        },
        LedgerOp::UnstakeOp { user: u, amount } => if u == user {
            -(amount as int)
        } else {
            0
        },
    }
}

/// `user`'s committed stakes minus committed unstakes over a history of
/// operations, in any interleaving with other users.
pub open spec fn net_staked(ops: Seq<LedgerOp>, user: Identity) -> int
    decreases ops.len(),
{
    if ops.len() == 0 {
        0
    } else {
        net_staked(ops.drop_last(), user) + op_delta(ops.last(), user)
    }
}

/// Extending the history by one operation moves the net by that operation's
/// delta for the user.
proof fn lemma_net_staked_push(ops: Seq<LedgerOp>, op: LedgerOp, user: Identity)
    ensures
        net_staked(ops.push(op), user) == net_staked(ops, user) + op_delta(op, user),
{
    assert(ops.push(op).drop_last() =~= ops);
}

/// A user's record keeps tracking the user's net committed principal when the
/// user commits a further stake; on the user's first stake this establishes
/// the tracking, since a fresh record holds zero.
pub proof fn lemma_record_tracks_net_after_stake(
    ops: Seq<LedgerOp>,
    pool0: Pool,
    pool1: Pool,
    rec0: StakeRecord,
    rec1: StakeRecord,
    user_token0: TokenAccount,
    user_token1: TokenAccount,
    custody0: TokenAccount,
    custody1: TokenAccount,
    user: Identity,
    amount: u64,
    now: i64,
)
    requires
        rec0.amount == net_staked(ops, user),
        rec0.amount + amount <= u64::MAX,
        stake_committed(
            pool0,
            pool1,
            rec0,
            rec1,
            user_token0,
            user_token1,
            custody0,
            custody1,
            user,
            amount,
            now,
        ),
    ensures
        rec1.amount == net_staked(ops.push(LedgerOp::StakeOp { user, amount }), user),
{
    lemma_net_staked_push(ops, LedgerOp::StakeOp { user, amount }, user);
}

/// A user's record keeps tracking the user's net committed principal when the
/// user commits a further unstake.
pub proof fn lemma_record_tracks_net_after_unstake(
    ops: Seq<LedgerOp>,
    pool0: Pool,
    pool1: Pool,
    rec0: StakeRecord,
    rec1: StakeRecord,
    custody0: TokenAccount,
    custody1: TokenAccount,
    user_token0: TokenAccount,
    user_token1: TokenAccount,
    user: Identity,
    amount: u64,
)
    requires
        rec0.owner == user,
        rec0.amount == net_staked(ops, user),
        amount <= rec0.amount,
        unstake_committed(
            pool0,
            pool1,
            rec0,
            rec1,
            custody0,
            custody1,
            user_token0,
            user_token1,
            amount,
        ),
    ensures
        rec1.amount == net_staked(ops.push(LedgerOp::UnstakeOp { user, amount }), user),
{
    lemma_net_staked_push(ops, LedgerOp::UnstakeOp { user, amount }, user);
}

/// An operation committed by some other user leaves this user's record and
/// net untouched, whatever the interleaving.
pub proof fn lemma_record_ignores_other_users(ops: Seq<LedgerOp>, op: LedgerOp, rec: StakeRecord)
    requires
        rec.amount == net_staked(ops, rec.owner),
        op_delta(op, rec.owner) == 0,
    ensures
        rec.amount == net_staked(ops.push(op), rec.owner),
{
    lemma_net_staked_push(ops, op, rec.owner);
}

/// Staking `amount` and then unstaking the same `amount` returns the pool,
/// the user's token account and the custody account to their starting state,
/// and the stake record to its starting amount; only the record's owner
/// binding and timestamp remain from the round trip.
pub proof fn lemma_stake_unstake_round_trip(
    pool0: Pool,
    pool1: Pool,
    pool2: Pool,
    rec0: StakeRecord,
    rec1: StakeRecord,
    rec2: StakeRecord,
    user_token0: TokenAccount,
    user_token1: TokenAccount,
    user_token2: TokenAccount,
    custody0: TokenAccount,
    custody1: TokenAccount,
    custody2: TokenAccount,
    user: Identity,
    amount: u64,
    now: i64,
)
    requires
        rec0.amount + amount <= u64::MAX,
        pool0.total_staked + amount <= u64::MAX,
        amount <= user_token0.balance,
        custody0.balance + amount <= u64::MAX,
        user_token0.balance + amount <= u64::MAX,
        stake_committed(
            pool0,
            pool1,
            rec0,
            rec1,
            user_token0,
            user_token1,
            custody0,
            custody1,
            user,
            amount,
            now,
        ),
        unstake_committed(
            pool1,
            pool2,
            rec1,
            rec2,
            custody1,
            custody2,
            user_token1,
            user_token2,
            amount,
        ),
    ensures
        pool2 == pool0,
        user_token2 == user_token0,
        custody2 == custody0,
        rec2.amount == rec0.amount,
        rec2 == (StakeRecord { owner: user, amount: rec0.amount, last_update: now }),
{
}

/// Only the pool's derived signing identity can cause a custody debit: any
/// transfer the token subsystem allows out of a custody account owned by the
/// canonical derivation of the pool's authority and bump is authorised by
/// exactly that derived identity.
pub proof fn lemma_custody_debit_only_pool_signer(
    pool: Pool,
    custody: TokenAccount,
    destination: TokenAccount,
    authority: Identity,
    amount: u64,
)
    requires
        custody.owner == pool_signer_of(pool.authority, pool.bump),
        transfer_allowed(custody, destination, authority, amount),
    ensures
        authority == pool_signer_of(pool.authority, pool.bump),
{
}

/// A committed stake keeps the custody balance covering the pool's aggregate
/// of staked principal together with its reward balance.
pub proof fn lemma_stake_preserves_custody_cover(
    pool0: Pool,
    pool1: Pool,
    rec0: StakeRecord,
    rec1: StakeRecord,
    user_token0: TokenAccount,
    user_token1: TokenAccount,
    custody0: TokenAccount,
    custody1: TokenAccount,
    user: Identity,
    amount: u64,
    now: i64,
)
    requires
        custody0.balance >= pool0.total_staked + pool0.reward_balance,
        pool0.total_staked + amount <= u64::MAX,
        custody0.balance + amount <= u64::MAX,
        stake_committed(
            pool0,
            pool1,
            rec0,
            rec1,
            user_token0,
            user_token1,
            custody0,
            custody1,
            user,
            amount,
            now,
        ),
    ensures
        custody1.balance >= pool1.total_staked + pool1.reward_balance,
{
}

/// A committed unstake keeps the custody balance covering the pool's
/// aggregate of staked principal together with its reward balance.
pub proof fn lemma_unstake_preserves_custody_cover(
    pool0: Pool,
    pool1: Pool,
    rec0: StakeRecord,
    rec1: StakeRecord,
    custody0: TokenAccount,
    custody1: TokenAccount,
    user_token0: TokenAccount,
    user_token1: TokenAccount,
    amount: u64,
)
    requires
        custody0.balance >= pool0.total_staked + pool0.reward_balance,
        amount <= pool0.total_staked,
        amount <= custody0.balance,
        unstake_committed(
            pool0,
            pool1,
            rec0,
            rec1,
            custody0,
            custody1,
            user_token0,
            user_token1,
            amount,
        ),
    ensures
        custody1.balance >= pool1.total_staked + pool1.reward_balance,
{
}

} // verus!
