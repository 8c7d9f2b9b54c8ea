use vstd::prelude::*;

use crate::identity::Identity;

verus! {

/// The singleton record coordinating one staking market for one token mint.
#[derive(Clone, Copy, Debug)]
pub struct Pool {
    /// The identity permitted to initialise the pool.
    pub authority: Identity,
    /// The nonce fixing the pool's signing identity to a single derivation.
    pub bump: u8,
    /// The single fungible token this pool accepts.
    pub mint: Identity,
    /// The address of the custody account owned by the pool's derived signer.
    pub pool_account: Identity,
    /// Aggregate of currently staked principal over all stake records.
    pub total_staked: u64,
    /// Aggregate of reward deposits credited to the pool.
    pub reward_balance: u64,
}

impl Pool {
    /// A freshly allocated, never-initialised pool record: every field zero.
    pub open spec fn is_zeroed(self) -> bool {
        &&& self.authority.is_zero()
        &&& self.bump == 0
        &&& self.mint.is_zero()
        &&& self.pool_account.is_zero()
        &&& self.total_staked == 0
        &&& self.reward_balance == 0
    }

    /// Whether this record is still in its freshly allocated, zeroed state.
    pub fn is_fresh(&self) -> (r: bool)
        ensures
            r == self.is_zeroed(),
    {
        self.authority.is_zeroed() && self.bump == 0 && self.mint.is_zeroed()
            && self.pool_account.is_zeroed() && self.total_staked == 0 && self.reward_balance == 0
    }
}

/// One user's stake in one pool: created on the first stake and kept
/// afterwards, a zero amount being a permitted resting state.
#[derive(Clone, Copy, Debug)]
pub struct StakeRecord {
    /// The identity of the staker; only this identity may unstake.
    pub owner: Identity,
    /// The currently staked principal recorded for this user.
    pub amount: u64,
    /// Wall-clock seconds of the last stake into this record.
    pub last_update: i64,
}

impl StakeRecord {
    /// A freshly allocated stake record, not yet bound to an owner.
    pub open spec fn is_zeroed(self) -> bool {
        &&& self.owner.is_zero()
        &&& self.amount == 0
        &&& self.last_update == 0
    }
}

} // verus!
