use vstd::prelude::*;

use crate::derivation::{derive_pool_signer, pool_signer_of};
use crate::errors::StakingError;
use crate::identity::Identity;
use crate::state::{Pool, StakeRecord};
use crate::token::{transfer, transfer_allowed, TokenAccount};

verus! {

/// The pool record written by a successful `initialize_pool`.
pub open spec fn initialized_pool(
    custody: TokenAccount,
    authority: Identity,
    mint: Identity,
    bump: u8,
) -> Pool {
    Pool {
        authority: authority,
        bump: bump,
        mint: mint,
        pool_account: custody.id,
        total_staked: 0,
        reward_balance: 0,
    }
}

/// When `initialize_pool` succeeds: the record is still zeroed, the custody
/// account is owned by the canonical derivation of (authority, bump), and the
/// custody account holds the configured mint.
pub open spec fn initialize_accepted(
    pool: Pool,
    custody: TokenAccount,
    authority: Identity,
    mint: Identity,
    bump: u8,
) -> bool {
    &&& pool.is_zeroed()
    &&& custody.owner == pool_signer_of(authority, bump)
    &&& custody.mint == mint
}

/// Create the singleton pool record: bind the authority, the mint, the
/// custody account and the signing derivation, with both aggregates zero.
///
/// The custody account itself is not mutated; it was freshly allocated for
/// the pool and its ownership by the derived signer is what this operation
/// validates.
pub fn initialize_pool(
    pool: &mut Pool,
    authority: Identity,
    mint: Identity,
    custody: &TokenAccount,
    bump: u8,
) -> (r: Result<(), StakingError>)
    ensures
        r is Ok <==> initialize_accepted(*old(pool), *custody, authority, mint, bump),
        r is Ok ==> *final(pool) == initialized_pool(*custody, authority, mint, bump),
        r is Err ==> *final(pool) == *old(pool),
        r == Err::<(), StakingError>(StakingError::AlreadyInitialised) <==> !old(pool).is_zeroed(),
        r == Err::<(), StakingError>(StakingError::InvalidDerivation) <==> (old(pool).is_zeroed()
            && custody.owner != pool_signer_of(authority, bump)),
        r == Err::<(), StakingError>(StakingError::MintMismatch) <==> (old(pool).is_zeroed()
            && custody.owner == pool_signer_of(authority, bump) && custody.mint != mint),
{
    if !pool.is_fresh() {
        return Err(StakingError::AlreadyInitialised);
    }
    let signer = derive_pool_signer(&authority, bump);
    if !(custody.owner == signer) {
        return Err(StakingError::InvalidDerivation);
    }
    if !(custody.mint == mint) {
        return Err(StakingError::MintMismatch);
    }
    pool.authority = authority;
    pool.bump = bump;
    pool.mint = mint;
    pool.pool_account = custody.id;
    pool.total_staked = 0;
    pool.reward_balance = 0;
    Ok(())
}

/// When `stake` succeeds: a positive amount of the pool's own mint, both
/// ledger counters stay within 64 bits, and the token subsystem allows the
/// deposit into custody with the caller as the transfer authority.
pub open spec fn stake_accepted(
    pool: Pool,
    rec: StakeRecord,
    user_token: TokenAccount,
    custody: TokenAccount,
    user: Identity,
    amount: u64,
) -> bool {
    &&& amount > 0
    &&& user_token.mint == pool.mint
    &&& rec.amount + amount <= u64::MAX
    &&& pool.total_staked + amount <= u64::MAX
    &&& transfer_allowed(user_token, custody, user, amount)
}

/// The committed effect of a successful `stake`: the user's tokens moved into
/// custody, the user's record grew by `amount` and is stamped with `now`, and
/// the pool aggregate grew by `amount`. Nothing else changed.
pub open spec fn stake_committed(
    pool0: Pool,
    pool1: Pool,
    rec0: StakeRecord,
    rec1: StakeRecord,
    user_token0: TokenAccount,
    user_token1: TokenAccount,
    custody0: TokenAccount,
    custody1: TokenAccount,
    user: Identity,
    amount: u64,
    now: i64,
) -> bool {
    &&& pool1 == (Pool { total_staked: (pool0.total_staked + amount) as u64, ..pool0 })
    &&& rec1 == (StakeRecord {
        owner: user,
        amount: (rec0.amount + amount) as u64,
        last_update: now,
    })
    &&& user_token1 == (TokenAccount {
        balance: (user_token0.balance - amount) as u64,
        ..user_token0
    })
    &&& custody1 == (TokenAccount { balance: (custody0.balance + amount) as u64, ..custody0 })
}

/// Deposit `amount` of the caller's tokens into custody and credit them to
/// the caller's stake record and to the pool aggregate, atomically.
///
/// `now` is the host's wall clock in seconds, read at dispatch time.
pub fn stake(
    pool: &mut Pool,
    stake_acc: &mut StakeRecord,
    user: Identity,
    user_token: &mut TokenAccount,
    custody: &mut TokenAccount,
    amount: u64,
    now: i64,
) -> (r: Result<(), StakingError>)
    requires
        old(stake_acc).is_zeroed() || old(stake_acc).owner == user,
        old(custody).id == old(pool).pool_account,
    ensures
        r is Ok <==> stake_accepted(
            *old(pool),
            *old(stake_acc),
            *old(user_token),
            *old(custody),
            user,
            amount,
        ),
        r is Ok ==> stake_committed(
            *old(pool),
            *final(pool),
            *old(stake_acc),
            *final(stake_acc),
            *old(user_token),
            *final(user_token),
            *old(custody),
            *final(custody),
            user,
            amount,
            now,
        ),
        r is Err ==> *final(pool) == *old(pool) && *final(stake_acc) == *old(stake_acc),
        r is Err ==> *final(user_token) == *old(user_token) && *final(custody) == *old(custody),
        r == Err::<(), StakingError>(StakingError::ZeroAmount) <==> amount == 0,
        r == Err::<(), StakingError>(StakingError::MintMismatch) <==> (amount > 0 && old(
            user_token,
        ).mint != old(pool).mint),
        r == Err::<(), StakingError>(StakingError::ArithmeticOverflow) <==> (amount > 0 && old(
            user_token,
        ).mint == old(pool).mint && (old(stake_acc).amount + amount > u64::MAX || old(
            pool,
        ).total_staked + amount > u64::MAX)),
        r == Err::<(), StakingError>(StakingError::TransferFailed) <==> (amount > 0 && old(
            user_token,
        ).mint == old(pool).mint && old(stake_acc).amount + amount <= u64::MAX && old(
            pool,
        ).total_staked + amount <= u64::MAX && !transfer_allowed(
            *old(user_token),
            *old(custody),
            user,
            amount,
        )),
{
    if amount == 0 {
        return Err(StakingError::ZeroAmount);
    }
    if !(user_token.mint == pool.mint) {
        return Err(StakingError::MintMismatch);
    }
    let credited_stake = match stake_acc.amount.checked_add(amount) {
        Some(v) => v,
        None => {
            return Err(StakingError::ArithmeticOverflow);
        },
    };
    let credited_total = match pool.total_staked.checked_add(amount) {
        Some(v) => v,
        None => {
            return Err(StakingError::ArithmeticOverflow);
        },
    };
    match transfer(user_token, custody, user, amount) {
        Ok(()) => {},
        Err(_) => {
            return Err(StakingError::TransferFailed);
        },
    }
    stake_acc.owner = user;
    stake_acc.amount = credited_stake;
    stake_acc.last_update = now;
    pool.total_staked = credited_total;
    Ok(())
}

/// The ledger-side checks of `unstake`: the caller owns the record, the
/// amount is positive, and both the record and the pool aggregate cover it.
pub open spec fn unstake_ledger_accepted(
    pool: Pool,
    rec: StakeRecord,
    caller: Identity,
    amount: u64,
) -> bool {
    &&& caller == rec.owner
    &&& amount > 0
    &&& amount <= rec.amount
    &&& amount <= pool.total_staked
}

/// When `unstake` succeeds: the ledger-side checks pass and the token
/// subsystem allows the custody debit authorised by the pool's derived
/// signing identity.
pub open spec fn unstake_accepted(
    pool: Pool,
    rec: StakeRecord,
    custody: TokenAccount,
    user_token: TokenAccount,
    caller: Identity,
    amount: u64,
) -> bool {
    &&& unstake_ledger_accepted(pool, rec, caller, amount)
    &&& transfer_allowed(custody, user_token, pool_signer_of(pool.authority, pool.bump), amount)
}

/// The committed effect of a successful `unstake`: custody paid the user's
/// account, and both the record and the pool aggregate shrank by `amount`.
/// The record's owner and timestamp are untouched.
pub open spec fn unstake_committed(
    pool0: Pool,
    pool1: Pool,
    rec0: StakeRecord,
    rec1: StakeRecord,
    custody0: TokenAccount,
    custody1: TokenAccount,
    user_token0: TokenAccount,
    user_token1: TokenAccount,
    amount: u64,
) -> bool {
    &&& pool1 == (Pool { total_staked: (pool0.total_staked - amount) as u64, ..pool0 })
    &&& rec1 == (StakeRecord { amount: (rec0.amount - amount) as u64, ..rec0 })
    &&& custody1 == (TokenAccount { balance: (custody0.balance - amount) as u64, ..custody0 })
    &&& user_token1 == (TokenAccount {
        balance: (user_token0.balance + amount) as u64,
        ..user_token0
    })
}

/// Withdraw `amount` of the caller's staked principal from custody back to
/// the caller's token account, atomically. The custody debit is authorised by
/// the pool's derived signing identity, never by the caller directly.
pub fn unstake(
    pool: &mut Pool,
    stake_acc: &mut StakeRecord,
    caller: Identity,
    custody: &mut TokenAccount,
    user_token: &mut TokenAccount,
    amount: u64,
) -> (r: Result<(), StakingError>)
    requires
        old(custody).id == old(pool).pool_account,
    ensures
        r is Ok <==> unstake_accepted(
            *old(pool),
            *old(stake_acc),
            *old(custody),
            *old(user_token),
            caller,
            amount,
        ),
        r is Ok ==> unstake_committed(
            *old(pool),
            *final(pool),
            *old(stake_acc),
            *final(stake_acc),
            *old(custody),
            *final(custody),
            *old(user_token),
            *final(user_token),
            amount,
        ),
        r is Err ==> *final(pool) == *old(pool) && *final(stake_acc) == *old(stake_acc),
        r is Err ==> *final(user_token) == *old(user_token) && *final(custody) == *old(custody),
        r == Err::<(), StakingError>(StakingError::Unauthorised) <==> caller != old(
            stake_acc,
        ).owner,
        r == Err::<(), StakingError>(StakingError::ZeroAmount) <==> (caller == old(stake_acc).owner
            && amount == 0),
        r == Err::<(), StakingError>(StakingError::InsufficientStake) <==> (caller == old(
            stake_acc,
        ).owner && amount > 0 && old(stake_acc).amount < amount),
        r == Err::<(), StakingError>(StakingError::ArithmeticUnderflow) <==> (caller == old(
            stake_acc,
        ).owner && amount > 0 && amount <= old(stake_acc).amount && old(pool).total_staked
            < amount),
        r == Err::<(), StakingError>(StakingError::TransferFailed) <==> (unstake_ledger_accepted(
            *old(pool),
            *old(stake_acc),
            caller,
            amount,
        ) && !transfer_allowed(
            *old(custody),
            *old(user_token),
            pool_signer_of(old(pool).authority, old(pool).bump),
            amount,
        )),
{
    if !(caller == stake_acc.owner) {
        return Err(StakingError::Unauthorised);
    }
    if amount == 0 {
        return Err(StakingError::ZeroAmount);
    }
    if stake_acc.amount < amount {
        return Err(StakingError::InsufficientStake);
    }
    let debited_total = match pool.total_staked.checked_sub(amount) {
        Some(v) => v,
        None => {
            return Err(StakingError::ArithmeticUnderflow);
        },
    };
    let signer = derive_pool_signer(&pool.authority, pool.bump);
    match transfer(custody, user_token, signer, amount) {
        Ok(()) => {},
        Err(_) => {
            return Err(StakingError::TransferFailed);
        },
    }
    stake_acc.amount = stake_acc.amount - amount;
    pool.total_staked = debited_total;
    Ok(())
}

/// Credit `amount` to the pool's reward counter. The current design moves no
/// tokens and checks no caller authority here: the counter is an accounting
/// figure reconciled out of band, and reward distribution is outside this
/// ledger.
pub fn deposit_rewards(pool: &mut Pool, amount: u64) -> (r: Result<(), StakingError>)
    ensures
        r is Ok <==> old(pool).reward_balance + amount <= u64::MAX,
        r is Ok ==> (*final(pool) == Pool {
            reward_balance: (old(pool).reward_balance + amount) as u64,
            ..*old(pool)
        }),
        r == Err::<(), StakingError>(StakingError::ArithmeticOverflow) <==> old(
            pool,
        ).reward_balance + amount > u64::MAX,
        r is Err ==> *final(pool) == *old(pool),
{
    let credited = match pool.reward_balance.checked_add(amount) {
        Some(v) => v,
        None => {
            return Err(StakingError::ArithmeticOverflow);
        },
    };
    pool.reward_balance = credited;
    Ok(())
}

} // verus!
