//! Per-depositor records.

use vstd::prelude::*;

verus! {

/// Per-depositor state: balances, reward counters and the deposit time
/// that gates the cliff and drives accrual.
#[derive(Clone, Copy)]
pub struct Account {
    /// Base asset currently staked, gross of the fee component.
    pub obs_balance: u128,
    /// Accrued-but-unclaimed reward.
    pub reward_balance: u128,
    /// Amount settled at the last withdrawal.
    pub reward_claimed: u128,
    /// Exchange-rate value captured at deposit time.
    pub last_obs_per_reward_rate: u128,
    /// Timestamp of the last (re)stake; gates the cliff and accrual.
    pub deposit_time: u64,
}

impl Account {
    /// A freshly created account: all balances zero, with the exchange-rate
    /// accumulator snapshotted from the farm's current value.
    pub open spec fn fresh_spec(rate_snapshot: u128) -> Account {
        Account {
            obs_balance: 0,
            reward_balance: 0,
            reward_claimed: 0,
            last_obs_per_reward_rate: rate_snapshot,
            deposit_time: 0,
        }
    }

    /// Create a fresh account with the given exchange-rate snapshot.
    pub fn fresh(rate_snapshot: u128) -> (r: Account)
        ensures
            r == Account::fresh_spec(rate_snapshot),
    {
        Account {
            obs_balance: 0,
            reward_balance: 0,
            reward_claimed: 0,
            last_obs_per_reward_rate: rate_snapshot,
            deposit_time: 0,
        }
    }
}

/// A depositor's balances as reported to callers.
#[derive(Clone, Copy)]
pub struct FarmerAccount {
    pub obs_balance: u128,
    pub reward_balance: u128,
    pub reward_claimed: u128,
}

} // verus!
