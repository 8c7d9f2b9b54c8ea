use anchor_lang::prelude::Pubkey;
use solana_staking::errors::{StakingError, TransferError};
use solana_staking::identity::Identity;
use solana_staking::ops::{initialize_pool, stake, unstake};
use solana_staking::state::{Pool, StakeRecord};
use solana_staking::token::{transfer, TokenAccount};

fn id(b: u8) -> Identity {
    Identity { bytes: [b; 32] }
}

fn account(addr: u8, mint: Identity, owner: Identity, balance: u64) -> TokenAccount {
    TokenAccount { id: id(addr), mint, owner, balance, frozen: false }
}

fn initialised_pool() -> (Pool, TokenAccount) {
    let authority = id(1);
    let mint = id(2);
    let bump = 77u8;
    let program_id = Pubkey::new_from_array([7u8; 32]);
    let seeds: [&[u8]; 2] = [b"pool", &authority.bytes];
    let pk = Pubkey::derive_address(&seeds, Some(bump), &program_id);
    let custody = account(3, mint, Identity { bytes: pk.to_bytes() }, 0);
    let mut pool = Pool {
        authority: id(0),
        bump: 0,
        mint: id(0),
        pool_account: id(0),
        total_staked: 0,
        reward_balance: 0,
    };
    assert_eq!(initialize_pool(&mut pool, authority, mint, &custody, bump), Ok(()));
    (pool, custody)
}

#[test]
fn aggregate_tracks_sum_of_records() {
    // After every committed operation the pool aggregate equals the sum of
    // the stake records.
    let (mut pool, mut custody) = initialised_pool();
    let users = [id(10), id(20), id(30)];
    let mut records = [
        StakeRecord { owner: id(0), amount: 0, last_update: 0 },
        StakeRecord { owner: id(0), amount: 0, last_update: 0 },
        StakeRecord { owner: id(0), amount: 0, last_update: 0 },
    ];
    let mut tokens = [
        account(11, id(2), users[0], 1000),
        account(21, id(2), users[1], 1000),
        account(31, id(2), users[2], 1000),
    ];
    let stakes: [u64; 3] = [100, 250, 7];
    for i in 0..3 {
        assert_eq!(
            stake(
                &mut pool,
                &mut records[i],
                users[i],
                &mut tokens[i],
                &mut custody,
                stakes[i],
                i as i64,
            ),
            Ok(())
        );
        let sum: u64 = records.iter().map(|r| r.amount).sum();
        assert_eq!(pool.total_staked, sum);
    }
    assert_eq!(unstake(&mut pool, &mut records[1], users[1], &mut custody, &mut tokens[1], 99), Ok(()));
    let sum: u64 = records.iter().map(|r| r.amount).sum();
    assert_eq!(pool.total_staked, sum);
    assert_eq!(custody.balance, sum);
}

#[test]
fn record_tracks_users_net_across_interleaving() {
    // A user's record equals the user's committed stakes minus unstakes,
    // whatever other users do in between.
    let (mut pool, mut custody) = initialised_pool();
    let alice = id(10);
    let bob = id(20);
    let mut rec_a = StakeRecord { owner: id(0), amount: 0, last_update: 0 };
    let mut rec_b = StakeRecord { owner: id(0), amount: 0, last_update: 0 };
    let mut tok_a = account(11, id(2), alice, 1000);
    let mut tok_b = account(21, id(2), bob, 1000);
    assert_eq!(stake(&mut pool, &mut rec_a, alice, &mut tok_a, &mut custody, 300, 1), Ok(()));
    assert_eq!(stake(&mut pool, &mut rec_b, bob, &mut tok_b, &mut custody, 500, 2), Ok(()));
    assert_eq!(unstake(&mut pool, &mut rec_a, alice, &mut custody, &mut tok_a, 120), Ok(()));
    assert_eq!(stake(&mut pool, &mut rec_a, alice, &mut tok_a, &mut custody, 20, 3), Ok(()));
    assert_eq!(unstake(&mut pool, &mut rec_b, bob, &mut custody, &mut tok_b, 500), Ok(()));
    assert_eq!(rec_a.amount, 300 - 120 + 20);
    assert_eq!(rec_b.amount, 0);
    assert_eq!(pool.total_staked, 200);
}

#[test]
fn round_trip_restores_balances() {
    // Staking an amount and unstaking the same amount restores the user's
    // token balance, the record amount, custody and the aggregate.
    let (mut pool, mut custody) = initialised_pool();
    let user = id(10);
    let mut rec = StakeRecord { owner: id(0), amount: 0, last_update: 0 };
    let mut user_token = account(11, id(2), user, 500);
    assert_eq!(stake(&mut pool, &mut rec, user, &mut user_token, &mut custody, 123, 7), Ok(()));
    assert_eq!(unstake(&mut pool, &mut rec, user, &mut custody, &mut user_token, 123), Ok(()));
    assert_eq!(user_token.balance, 500);
    assert_eq!(rec.amount, 0);
    assert_eq!(custody.balance, 0);
    assert_eq!(pool.total_staked, 0);
}

#[test]
fn transfer_requires_owner_as_authority() {
    // A debit is only possible for the account's owner identity.
    let mint = id(2);
    let owner = id(10);
    let thief = id(66);
    let mut from = account(11, mint, owner, 100);
    let mut to = account(12, mint, thief, 0);
    let r = transfer(&mut from, &mut to, thief, 50);
    assert_eq!(r, Err(TransferError::NotOwner));
    assert_eq!(from.balance, 100);
    assert_eq!(to.balance, 0);
    assert_eq!(transfer(&mut from, &mut to, owner, 50), Ok(()));
    assert_eq!(from.balance, 50);
    assert_eq!(to.balance, 50);
}

#[test]
fn transfer_error_cases() {
    let mint = id(2);
    let owner = id(10);
    let mut from = account(11, mint, owner, 100);
    let mut to = account(12, mint, id(20), u64::MAX);
    assert_eq!(transfer(&mut from, &mut to, owner, 1), Err(TransferError::BalanceOverflow));
    let mut small = account(13, mint, owner, 3);
    let mut dest = account(14, mint, id(20), 0);
    assert_eq!(transfer(&mut small, &mut dest, owner, 4), Err(TransferError::InsufficientBalance));
    let mut wrong = account(15, id(9), owner, 10);
    assert_eq!(transfer(&mut wrong, &mut dest, owner, 1), Err(TransferError::MintMismatch));
    let mut frozen = account(16, mint, owner, 10);
    frozen.frozen = true;
    assert_eq!(transfer(&mut frozen, &mut dest, owner, 1), Err(TransferError::AccountFrozen));
    assert_eq!(dest.balance, 0);
}

#[test]
fn derivation_matches_host_derivation() {
    // initialize_pool accepts exactly the custody owner that the host's
    // derivation produces for ("pool", authority, bump); the pool then binds
    // that custody address.
    let authority = id(1);
    let mint = id(2);
    let bump = 5u8;
    let program_id = Pubkey::new_from_array([7u8; 32]);
    let seeds: [&[u8]; 2] = [b"pool", &authority.bytes];
    let expected = Pubkey::derive_address(&seeds, Some(bump), &program_id);
    let custody = account(3, mint, Identity { bytes: expected.to_bytes() }, 0);
    let mut pool = Pool {
        authority: id(0),
        bump: 0,
        mint: id(0),
        pool_account: id(0),
        total_staked: 0,
        reward_balance: 0,
    };
    assert_eq!(initialize_pool(&mut pool, authority, mint, &custody, bump), Ok(()));
    assert!(pool.pool_account == custody.id);
    assert_eq!(pool.bump, 5);
    assert!(pool.authority == authority);
    // Another bump derives another signer, so the same custody owner is
    // rejected under it.
    let mut other = Pool {
        authority: id(0),
        bump: 0,
        mint: id(0),
        pool_account: id(0),
        total_staked: 0,
        reward_balance: 0,
    };
    assert_eq!(
        initialize_pool(&mut other, authority, mint, &custody, 6),
        Err(StakingError::InvalidDerivation)
    );
}
