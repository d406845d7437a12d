//! The farm: configuration, global aggregates, the account ledger, the
//! reward-accrual step and the stake/unstake commands with their outbound
//! transfer requests.

use vstd::prelude::*;
use crate::account::Account;
use crate::keys::{key_for, key_of, ShortAccountHash};
use crate::ledger::Ledger;
use crate::wide::{mul_div_scale, mul_div_scale_spec, pow2_256, OBS_PER_REWARD_DENOM};

verus! {

/// Which of the two external asset services a transfer request addresses.
#[derive(Clone, Copy, Debug, PartialEq, Eq)]
pub enum TokenSide {
    ObsToken,
    RewardToken,
}

/// Who receives the transferred funds.
#[derive(Clone, Copy, Debug, PartialEq, Eq)]
pub enum TransferTarget {
    /// The farm's own custody account.
    FarmCustody,
    /// The caller that issued the command.
    Caller,
}

/// An outbound request scheduled by a command, to be performed
/// asynchronously after the ledger mutation has committed.
#[derive(Clone, Copy, Debug, PartialEq, Eq)]
pub enum Action {
    /// Ask a token service to move `amount` to `receiver`.
    Transfer { token: TokenSide, receiver: TransferTarget, amount: u128 },
    /// The chained self-notification that follows a stake intake.
    NotifyTransfer { receiver: TransferTarget, amount: u128 },
}

/// Why a command was rejected; all are checked before any mutation.
#[derive(Clone, Copy, Debug, PartialEq, Eq)]
pub enum FarmError {
    /// The minimal non-zero payment unit was not attached.
    PaymentUnitRequired,
    /// A stake of zero was requested.
    ZeroAmount,
    /// The account's staked balance is below the requested amount.
    InsufficientBalance,
    /// The lock-up period has not elapsed since the deposit.
    CliffNotElapsed,
    /// The notifying party is not the configured base-asset service.
    UnexpectedTokenCaller,
}

/// The answer to an inbound transfer notification.
#[derive(Clone, Copy, Debug, PartialEq, Eq)]
pub enum NotifyOutcome {
    /// Fully consumed; `refund` (always zero) is returned to the sender.
    Receipt { refund: u128 },
    /// Forwarded to the second-stage handler, which only logs it.
    Forwarded { amount: u128 },
}

/// Global aggregate totals, as reported to callers.
#[derive(Clone, Copy, Debug, PartialEq, Eq)]
pub struct FarmStats {
    pub total_obs_balance: u128,
    pub total_reward_claimed: u128,
    pub total_reward_received: u128,
}

/// The byte string `"Stake"`, the tag that marks a stake intake
/// notification.
pub open spec fn stake_tag() -> Seq<u8> {
    seq![83u8, 116u8, 97u8, 107u8, 101u8]
}

/// Byte-wise equality of two identifier strings.
pub fn bytes_eq(a: &Vec<u8>, b: &Vec<u8>) -> (r: bool)
    ensures
        r <==> a@ == b@,
{
    if a.len() != b.len() {
        return false;
    }
    let n = a.len();
    let mut i: usize = 0;
    while i < n
        invariant
            n == a@.len(),
            a@.len() == b@.len(),
            i <= n,
            forall|j: int| 0 <= j < i ==> a@[j] == b@[j],
        decreases n - i,
    {
        if a[i] != b[i] {
            return false;
        }
        i = i + 1;
    }
    proof {
        assert(a@ =~= b@);
    }
    true
}

/// Does this message carry the stake tag?
pub fn is_stake_msg(msg: &Vec<u8>) -> (r: bool)
    ensures
        r <==> msg@ == stake_tag(),
{
    if msg.len() != 5 {
        proof {
            assert(msg@ != stake_tag());
        }
        return false;
    }
    let r = msg[0] == 83 && msg[1] == 116 && msg[2] == 97 && msg[3] == 107 && msg[4] == 101;
    proof {
        if r {
            assert(msg@ =~= stake_tag());
        } else {
            assert(msg@ != stake_tag());
        }
    }
    r
}

/// The process-wide singleton: configuration, global aggregates and the
/// account ledger. All mutation funnels through its methods.
pub struct Farm {
    /// Identifier of the external base-asset service; immutable after init.
    pub obs_token_account_id: Vec<u8>,
    /// Identifier of the external reward-asset service; immutable after init.
    pub reward_token_account_id: Vec<u8>,
    /// The account ledger, keyed by the derived 20-byte key.
    pub accounts: Ledger,
    /// Configured reward multiplier.
    pub reward_rate: u128,
    /// Running aggregate exchange-rate accumulator, updated on every stake.
    pub obs_per_reward_rate: u128,
    /// Configured staking fee multiplier.
    pub staking_fee_rate: u128,
    /// Minimum elapsed time after deposit before withdrawal and accrual.
    pub cliff_time: u64,
    /// The accrual interval; the divisor of the accrual formula, non-zero.
    pub reward_interval: u64,
    /// Sum intended to track all staked base asset.
    pub total_obs_balance: u128,
    /// Total reward credited by accrual.
    pub total_reward_farmed: u128,
    /// Total settled at withdrawals.
    pub total_reward_claimed: u128,
}

impl Farm {
    /// The ledger's internal invariant holds.
    pub open spec fn wf(&self) -> bool {
        self.accounts.wf()
    }

    /// The configuration fields agree between two farm states.
    pub open spec fn same_config(f1: Farm, f2: Farm) -> bool {
        &&& f1.obs_token_account_id == f2.obs_token_account_id
        &&& f1.reward_token_account_id == f2.reward_token_account_id
        &&& f1.reward_rate == f2.reward_rate
        &&& f1.staking_fee_rate == f2.staking_fee_rate
        &&& f1.cliff_time == f2.cliff_time
        &&& f1.reward_interval == f2.reward_interval
    }

    /// The account stored under `key`, or a fresh account whose rate
    /// snapshot is the farm's current accumulator value.
    pub open spec fn current_account(self, key: Seq<u8>) -> Account {
        if self.accounts@.contains_key(key) {
            self.accounts@[key]
        } else {
            Account::fresh_spec(self.obs_per_reward_rate)
        }
    }

    /// Reward earned by `a` over the time elapsed since its deposit:
    /// `((staked * elapsed * rate) / interval) * 10^18`.
    pub open spec fn earned_of(self, a: Account, now: u64) -> int {
        mul_div_scale_spec(
            a.obs_balance as int,
            now - a.deposit_time,
            self.reward_rate as int,
            self.reward_interval as int,
        )
    }

    /// Accrual applies only strictly past the cliff.
    pub open spec fn accrues(self, a: Account, now: u64) -> bool {
        now - a.deposit_time > self.cliff_time
    }

    /// The account after one accrual step at time `now`.
    pub open spec fn touched_account(self, a: Account, now: u64) -> Account {
        if self.accrues(a, now) {
            Account { reward_balance: (a.reward_balance + self.earned_of(a, now)) as u128, ..a }
        } else {
            a
        }
    }

    /// The global farmed total after one accrual step on `a` at `now`.
    pub open spec fn touched_total_farmed(self, a: Account, now: u64) -> int {
        if self.accrues(a, now) {
            self.total_reward_farmed + self.earned_of(a, now)
        } else {
            self.total_reward_farmed as int
        }
    }

    /// Machine-limit preconditions of one accrual step: the elapsed time is
    /// well defined, the wide intermediates stay in range, and the two
    /// additions fit the balance width.
    pub open spec fn touch_ok(self, a: Account, now: u64) -> bool {
        &&& self.reward_interval > 0
        &&& now >= a.deposit_time
        &&& (a.obs_balance as int) * (now - a.deposit_time) * (self.reward_rate as int)
            < pow2_256()
        &&& self.earned_of(a, now) <= u128::MAX as int
        &&& (self.accrues(a, now) ==> a.reward_balance + self.earned_of(a, now) <= u128::MAX
            as int && self.total_reward_farmed + self.earned_of(a, now) <= u128::MAX as int)
    }

    /// Bring the account's reward balance up to date as of `now`, add the
    /// earned amount to the global farmed total once strictly past the
    /// cliff, and return the account's stored exchange-rate snapshot.
    /// The caller is responsible for persisting the account.
    pub fn touch(&mut self, account: &mut Account, now: u64) -> (r: u128)
        requires
            old(self).touch_ok(*old(account), now),
        ensures
            r == old(account).last_obs_per_reward_rate,
            *final(account) == old(self).touched_account(*old(account), now),
            final(self).total_reward_farmed as int == old(self).touched_total_farmed(
                *old(account),
                now,
            ),
            Farm::same_config(*old(self), *final(self)),
            final(self).accounts == old(self).accounts,
            final(self).obs_per_reward_rate == old(self).obs_per_reward_rate,
            final(self).total_obs_balance == old(self).total_obs_balance,
            final(self).total_reward_claimed == old(self).total_reward_claimed,
    {
        let elapsed: u64 = now - account.deposit_time;
        let earned = mul_div_scale(
            account.obs_balance,
            elapsed as u128,
            self.reward_rate,
            self.reward_interval as u128,
        );
        if elapsed > self.cliff_time {
            account.reward_balance = account.reward_balance + earned;
            self.total_reward_farmed = self.total_reward_farmed + earned;
        }
        account.last_obs_per_reward_rate
    }

    /// The stored-or-fresh account for `key`, brought up to date by one
    /// accrual step; not yet persisted.
    pub fn get_mut_account(&mut self, key: &ShortAccountHash, now: u64) -> (r: Account)
        requires
            old(self).wf(),
            old(self).touch_ok(old(self).current_account(key@), now),
        ensures
            r == old(self).touched_account(old(self).current_account(key@), now),
            final(self).total_reward_farmed as int == old(self).touched_total_farmed(
                old(self).current_account(key@),
                now,
            ),
            Farm::same_config(*old(self), *final(self)),
            final(self).accounts == old(self).accounts,
            final(self).obs_per_reward_rate == old(self).obs_per_reward_rate,
            final(self).total_obs_balance == old(self).total_obs_balance,
            final(self).total_reward_claimed == old(self).total_reward_claimed,
            final(self).wf(),
    {
        let found = self.accounts.lookup(key);
        let mut account = match found {
            Some(a) => a,
            None => Account::fresh(self.obs_per_reward_rate),
        };
        self.touch(&mut account, now);
        account
    }

    /// Persist an account row under its key.
    pub fn save_account(&mut self, key: &ShortAccountHash, account: &Account)
        requires
            old(self).wf(),
        ensures
            final(self).wf(),
            final(self).accounts@ =~= old(self).accounts@.insert(key@, *account),
            Farm::same_config(*old(self), *final(self)),
            final(self).obs_per_reward_rate == old(self).obs_per_reward_rate,
            final(self).total_obs_balance == old(self).total_obs_balance,
            final(self).total_reward_farmed == old(self).total_reward_farmed,
            final(self).total_reward_claimed == old(self).total_reward_claimed,
    {
        self.accounts.upsert(key, *account);
    }

    /// Ensure a ledger row exists for `key`, running one accrual step on
    /// the stored-or-fresh account and persisting the result.
    pub fn register_account(&mut self, key: &ShortAccountHash, now: u64)
        requires
            old(self).wf(),
            old(self).touch_ok(old(self).current_account(key@), now),
        ensures
            final(self).wf(),
            final(self).accounts@ =~= old(self).accounts@.insert(
                key@,
                old(self).touched_account(old(self).current_account(key@), now),
            ),
            final(self).total_reward_farmed as int == old(self).touched_total_farmed(
                old(self).current_account(key@),
                now,
            ),
            Farm::same_config(*old(self), *final(self)),
            final(self).obs_per_reward_rate == old(self).obs_per_reward_rate,
            final(self).total_obs_balance == old(self).total_obs_balance,
            final(self).total_reward_claimed == old(self).total_reward_claimed,
    {
        let account = self.get_mut_account(key, now);
        self.save_account(key, &account);
    }

    /// The derived key for an identifier together with the stored account,
    /// if any.
    pub fn get_internal_account(&self, account_id: &Vec<u8>) -> (r: (
        ShortAccountHash,
        Option<Account>,
    ))
        requires
            self.wf(),
        ensures
            r.0@ == key_of(account_id@),
            r.1 == if self.accounts@.contains_key(key_of(account_id@)) {
                Some(self.accounts@[key_of(account_id@)])
            } else {
                Option::<Account>::None
            },
    {
        let key = key_for(account_id);
        let account = self.accounts.lookup(&key);
        (key, account)
    }

    /// Is there a ledger row for this identifier?
    pub fn account_exists(&self, account_id: &Vec<u8>) -> (r: bool)
        requires
            self.wf(),
        ensures
            r == self.accounts@.contains_key(key_of(account_id@)),
    {
        self.get_internal_account(account_id).1.is_some()
    }

    /// The reward balance the stored account would show after one accrual
    /// step at `now`, computed on a transient copy: the ledger and the
    /// global aggregates are left untouched, as the read-only receiver
    /// guarantees. Unknown keys report zero.
    pub fn get_reward_balance(&self, key: &ShortAccountHash, now: u64) -> (r: u128)
        requires
            self.wf(),
            self.accounts@.contains_key(key@) ==> self.touch_ok(self.accounts@[key@], now),
        ensures
            r == if self.accounts@.contains_key(key@) {
                self.touched_account(self.accounts@[key@], now).reward_balance
            } else {
                0u128
            },
    {
        let found = self.accounts.lookup(key);
        match found {
            None => 0,
            Some(account) => {
                let elapsed: u64 = now - account.deposit_time;
                let earned = mul_div_scale(
                    account.obs_balance,
                    elapsed as u128,
                    self.reward_rate,
                    self.reward_interval as u128,
                );
                if elapsed > self.cliff_time {
                    account.reward_balance + earned
                } else {
                    account.reward_balance
                }
            },
        }
    }

    /// A direct projection of the global aggregates.
    pub fn get_stats(&self) -> (r: FarmStats)
        ensures
            r.total_obs_balance == self.total_obs_balance,
            r.total_reward_claimed == self.total_reward_claimed,
            r.total_reward_received == self.total_reward_farmed,
    {
        FarmStats {
            total_obs_balance: self.total_obs_balance,
            total_reward_claimed: self.total_reward_claimed,
            total_reward_received: self.total_reward_farmed,
        }
    }

    /// A farm with explicit configuration, an empty ledger and all
    /// aggregates zero. The accrual interval must be non-zero, as it is the
    /// divisor of the accrual formula.
    pub fn new_with_config(
        obs_token_account_id: Vec<u8>,
        reward_token_account_id: Vec<u8>,
        reward_rate: u128,
        staking_fee_rate: u128,
        cliff_time: u64,
        reward_interval: u64,
    ) -> (r: Farm)
        requires
            reward_interval > 0,
        ensures
            r.wf(),
            r.obs_token_account_id == obs_token_account_id,
            r.reward_token_account_id == reward_token_account_id,
            r.reward_rate == reward_rate,
            r.staking_fee_rate == staking_fee_rate,
            r.cliff_time == cliff_time,
            r.reward_interval == reward_interval,
            r.obs_per_reward_rate == 0,
            r.total_obs_balance == 0,
            r.total_reward_farmed == 0,
            r.total_reward_claimed == 0,
            r.accounts@ =~= Map::<Seq<u8>, Account>::empty(),
    {
        Farm {
            obs_token_account_id,
            reward_token_account_id,
            accounts: Ledger::new(),
            reward_rate,
            obs_per_reward_rate: 0,
            staking_fee_rate,
            cliff_time,
            reward_interval,
            total_obs_balance: 0,
            total_reward_farmed: 0,
            total_reward_claimed: 0,
        }
    }

    /// A farm with the standard configuration: rate `1800`, fee rate `25`,
    /// a ten-day cliff and a one-year accrual interval (in seconds).
    pub fn new(obs_token_account_id: Vec<u8>, reward_token_account_id: Vec<u8>) -> (r: Farm)
        ensures
            r.wf(),
            r.obs_token_account_id == obs_token_account_id,
            r.reward_token_account_id == reward_token_account_id,
            r.reward_rate == 1800,
            r.staking_fee_rate == 25,
            r.cliff_time == 864000,
            r.reward_interval == 31536000,
            r.obs_per_reward_rate == 0,
            r.total_obs_balance == 0,
            r.total_reward_farmed == 0,
            r.total_reward_claimed == 0,
            r.accounts@ =~= Map::<Seq<u8>, Account>::empty(),
    {
        Farm::new_with_config(
            obs_token_account_id,
            reward_token_account_id,
            1800,
            25,
            864000,
            31536000,
        )
    }

    /// The fee charged on a stake or unstake of `amount`:
    /// `amount * staking_fee_rate * 10^18`.
    pub open spec fn fee_of(self, amount: int) -> int {
        amount * (self.staking_fee_rate as int) * (OBS_PER_REWARD_DENOM as int)
    }

    /// The gross amount moved for a stake or unstake of `amount`.
    pub open spec fn gross_of(self, amount: int) -> int {
        amount + self.fee_of(amount)
    }

    /// The account a stake persists: the stored-or-fresh account after
    /// the accrual step on its old state, with the staked balance reset to
    /// the gross amount, the reward counters cleared, and the deposit time
    /// advanced to `now`. The snapshot accrual step that follows the reset
    /// sees zero elapsed time, so the persisted reward balance is zero.
    pub open spec fn stake_post_account(self, key: Seq<u8>, amount: u128, now: u64) -> Account {
        let a1 = self.touched_account(self.current_account(key), now);
        Account {
            obs_balance: self.gross_of(amount as int) as u128,
            reward_balance: 0,
            reward_claimed: 0,
            deposit_time: now,
            ..a1
        }
    }

    /// What a stake adds to the exchange-rate accumulator:
    /// `((gross * (now - cliff) * rate) / interval) * 10^18`.
    pub open spec fn opr_increment(self, amount: u128, now: u64) -> int {
        mul_div_scale_spec(
            self.gross_of(amount as int),
            now - self.cliff_time,
            self.reward_rate as int,
            self.reward_interval as int,
        )
    }

    /// Machine-limit preconditions of a stake: fee and gross fit the
    /// balance width, the accrual step on the old account state stays in
    /// range, the stake time is past the cliff offset, and the aggregate
    /// additions fit.
    pub open spec fn stake_ok(self, key: Seq<u8>, amount: u128, now: u64) -> bool {
        let a0 = self.current_account(key);
        let gross = self.gross_of(amount as int);
        &&& (amount as int) * (self.staking_fee_rate as int) <= u128::MAX as int
        &&& self.fee_of(amount as int) <= u128::MAX as int
        &&& gross <= u128::MAX as int
        &&& self.touch_ok(a0, now)
        &&& now >= self.cliff_time
        &&& gross * (now - self.cliff_time) * (self.reward_rate as int) < pow2_256()
        &&& self.opr_increment(amount, now) <= u128::MAX as int
        &&& self.obs_per_reward_rate + self.opr_increment(amount, now) <= u128::MAX as int
        &&& self.total_obs_balance + gross <= u128::MAX as int
    }

    /// Stake `amount` for the account under `key`. Requires the minimal
    /// payment unit attached and a positive amount; on success the ledger
    /// row is reset to the gross balance, the aggregates grow, and two
    /// chained outbound requests are returned: the intake transfer to the
    /// farm's custody, then the self-notification to the caller.
    pub fn stake_my_obs(
        &mut self,
        key: &ShortAccountHash,
        amount: u128,
        attached: u128,
        now: u64,
    ) -> (r: Result<Vec<Action>, FarmError>)
        requires
            old(self).wf(),
            attached == 1 && amount > 0 ==> old(self).stake_ok(key@, amount, now),
        ensures
            attached != 1 ==> r == Err::<Vec<Action>, FarmError>(FarmError::PaymentUnitRequired)
                && *final(self) == *old(self),
            attached == 1 && amount == 0 ==> r == Err::<Vec<Action>, FarmError>(
                FarmError::ZeroAmount,
            ) && *final(self) == *old(self),
            attached == 1 && amount > 0 ==> {
                &&& (r matches Ok(actions) && actions@ =~= seq![
                    Action::Transfer {
                        token: TokenSide::ObsToken,
                        receiver: TransferTarget::FarmCustody,
                        amount: old(self).gross_of(amount as int) as u128,
                    },
                    Action::NotifyTransfer {
                        receiver: TransferTarget::Caller,
                        amount: old(self).gross_of(amount as int) as u128,
                    },
                ])
                &&& final(self).wf()
                &&& final(self).accounts@ =~= old(self).accounts@.insert(
                    key@,
                    old(self).stake_post_account(key@, amount, now),
                )
                &&& final(self).total_obs_balance as int == old(self).total_obs_balance + old(
                    self,
                ).gross_of(amount as int)
                &&& final(self).obs_per_reward_rate as int == old(self).obs_per_reward_rate + old(
                    self,
                ).opr_increment(amount, now)
                &&& final(self).total_reward_farmed as int == old(self).touched_total_farmed(
                    old(self).current_account(key@),
                    now,
                )
                &&& final(self).total_reward_claimed == old(self).total_reward_claimed
                &&& Farm::same_config(*old(self), *final(self))
            },
    {
        if attached != 1 {
            return Err(FarmError::PaymentUnitRequired);
        }
        if amount == 0 {
            return Err(FarmError::ZeroAmount);
        }
        let fee = amount * self.staking_fee_rate * OBS_PER_REWARD_DENOM;
        let gross = amount + fee;
        let mut account = self.get_mut_account(key, now);
        account.obs_balance = gross;
        account.reward_balance = 0;
        account.reward_claimed = 0;
        account.deposit_time = now;
        proof {
            assert(account == old(self).stake_post_account(key@, amount, now));
            // the snapshot accrual step below sees zero elapsed time
            lemma_touch_zero_elapsed(*self, account, now);
        }
        let snap = self.touch(&mut account, now);
        account.last_obs_per_reward_rate = snap;
        proof {
            assert(account == old(self).stake_post_account(key@, amount, now));
        }
        let time_diff: u64 = now - self.cliff_time;
        let obs_per_reward = mul_div_scale(
            gross,
            time_diff as u128,
            self.reward_rate,
            self.reward_interval as u128,
        );
        self.obs_per_reward_rate = self.obs_per_reward_rate + obs_per_reward;
        self.total_obs_balance = self.total_obs_balance + gross;
        self.save_account(key, &account);
        let mut actions: Vec<Action> = Vec::new();
        actions.push(
            Action::Transfer {
                token: TokenSide::ObsToken,
                receiver: TransferTarget::FarmCustody,
                amount: gross,
            },
        );
        actions.push(Action::NotifyTransfer { receiver: TransferTarget::Caller, amount: gross });
        Ok(actions)
    }

    /// The account an unstake persists: the stored-or-fresh account after
    /// one accrual step, its balance reduced by `amount`, the accrued
    /// reward moved into the claimed counter and zeroed.
    pub open spec fn unstake_post_account(self, key: Seq<u8>, amount: u128, now: u64) -> Account {
        let a1 = self.touched_account(self.current_account(key), now);
        Account {
            obs_balance: (a1.obs_balance - amount) as u128,
            reward_balance: 0,
            reward_claimed: a1.reward_balance,
            ..a1
        }
    }

    /// The claimed total after an unstake: the withdrawn principal and the
    /// settled reward are both folded in.
    pub open spec fn unstake_post_claimed(self, key: Seq<u8>, amount: u128, now: u64) -> int {
        self.total_reward_claimed + amount + self.touched_account(
            self.current_account(key),
            now,
        ).reward_balance
    }

    /// Machine-limit preconditions of an unstake, on the path where the
    /// balance and cliff checks pass.
    pub open spec fn unstake_ok(self, key: Seq<u8>, amount: u128, now: u64) -> bool {
        let a0 = self.current_account(key);
        &&& self.touch_ok(a0, now)
        &&& (a0.obs_balance >= amount && now - a0.deposit_time >= self.cliff_time ==> {
            &&& self.total_obs_balance >= amount
            &&& self.unstake_post_claimed(key, amount, now) <= u128::MAX as int
            &&& (amount as int) * (self.staking_fee_rate as int) <= u128::MAX as int
            &&& self.fee_of(amount as int) <= u128::MAX as int
            &&& self.gross_of(amount as int) <= u128::MAX as int
        })
    }

    /// Unstake `amount` for the account under `key`. Fails without the
    /// payment unit, when the staked balance is below `amount`, or — for
    /// any amount within the balance — before the cliff has elapsed since
    /// the deposit. On success the reward is settled into the claimed
    /// counter and two chained outbound payouts are returned, the gross
    /// amount from each asset service.
    pub fn unstake_my_obs(
        &mut self,
        key: &ShortAccountHash,
        amount: u128,
        attached: u128,
        now: u64,
    ) -> (r: Result<Vec<Action>, FarmError>)
        requires
            old(self).wf(),
            attached == 1 ==> old(self).unstake_ok(key@, amount, now),
        ensures
            attached != 1 ==> r == Err::<Vec<Action>, FarmError>(FarmError::PaymentUnitRequired)
                && *final(self) == *old(self),
            attached == 1 && old(self).current_account(key@).obs_balance < amount ==> r == Err::<
                Vec<Action>,
                FarmError,
            >(FarmError::InsufficientBalance) && *final(self) == *old(self),
            attached == 1 && old(self).current_account(key@).obs_balance >= amount && now - old(
                self,
            ).current_account(key@).deposit_time < old(self).cliff_time ==> r == Err::<
                Vec<Action>,
                FarmError,
            >(FarmError::CliffNotElapsed) && *final(self) == *old(self),
            attached == 1 && old(self).current_account(key@).obs_balance >= amount && now - old(
                self,
            ).current_account(key@).deposit_time >= old(self).cliff_time ==> {
                &&& (r matches Ok(actions) && actions@ =~= seq![
                    Action::Transfer {
                        token: TokenSide::ObsToken,
                        receiver: TransferTarget::Caller,
                        amount: old(self).gross_of(amount as int) as u128,
                    },
                    Action::Transfer {
                        token: TokenSide::RewardToken,
                        receiver: TransferTarget::Caller,
                        amount: old(self).gross_of(amount as int) as u128,
                    },
                ])
                &&& final(self).wf()
                &&& final(self).accounts@ =~= old(self).accounts@.insert(
                    key@,
                    old(self).unstake_post_account(key@, amount, now),
                )
                &&& final(self).total_obs_balance as int == old(self).total_obs_balance - amount
                &&& final(self).total_reward_claimed as int == old(self).unstake_post_claimed(
                    key@,
                    amount,
                    now,
                )
                &&& final(self).total_reward_farmed as int == old(self).touched_total_farmed(
                    old(self).current_account(key@),
                    now,
                )
                &&& final(self).obs_per_reward_rate == old(self).obs_per_reward_rate
                &&& Farm::same_config(*old(self), *final(self))
            },
    {
        if attached != 1 {
            return Err(FarmError::PaymentUnitRequired);
        }
        let found = self.accounts.lookup(key);
        let a0 = match found {
            Some(a) => a,
            None => Account::fresh(self.obs_per_reward_rate),
        };
        if a0.obs_balance < amount {
            return Err(FarmError::InsufficientBalance);
        }
        if now - a0.deposit_time < self.cliff_time {
            return Err(FarmError::CliffNotElapsed);
        }
        let mut account = a0;
        self.touch(&mut account, now);
        proof {
            assert(account == old(self).touched_account(old(self).current_account(key@), now));
        }
        account.obs_balance = account.obs_balance - amount;
        account.reward_claimed = account.reward_balance;
        account.reward_balance = 0;
        self.total_obs_balance = self.total_obs_balance - amount;
        self.total_reward_claimed = self.total_reward_claimed + amount;
        self.total_reward_claimed = self.total_reward_claimed + account.reward_claimed;
        let fee = amount * self.staking_fee_rate * OBS_PER_REWARD_DENOM;
        let gross = amount + fee;
        self.save_account(key, &account);
        let mut actions: Vec<Action> = Vec::new();
        actions.push(
            Action::Transfer {
                token: TokenSide::ObsToken,
                receiver: TransferTarget::Caller,
                amount: gross,
            },
        );
        actions.push(
            Action::Transfer {
                token: TokenSide::RewardToken,
                receiver: TransferTarget::Caller,
                amount: gross,
            },
        );
        Ok(actions)
    }

    /// Accept an inbound transfer notification. Only the configured
    /// base-asset service may notify; a stake intake is acknowledged with a
    /// zero-value receipt, anything else is forwarded to the second-stage
    /// handler, which performs no ledger mutation.
    pub fn ft_on_transfer(&self, predecessor: &Vec<u8>, amount: u128, msg: &Vec<u8>) -> (r: Result<
        NotifyOutcome,
        FarmError,
    >)
        ensures
            predecessor@ != self.obs_token_account_id@ ==> r == Err::<NotifyOutcome, FarmError>(
                FarmError::UnexpectedTokenCaller,
            ),
            predecessor@ == self.obs_token_account_id@ ==> r == Ok::<NotifyOutcome, FarmError>(
                if msg@ == stake_tag() {
                    NotifyOutcome::Receipt { refund: 0 }
                } else {
                    NotifyOutcome::Forwarded { amount }
                },
            ),
    {
        if !bytes_eq(predecessor, &self.obs_token_account_id) {
            return Err(FarmError::UnexpectedTokenCaller);
        }
        if is_stake_msg(msg) {
            Ok(NotifyOutcome::Receipt { refund: 0 })
        } else {
            Ok(NotifyOutcome::Forwarded { amount })
        }
    }

    /// The second-stage transfer handler: checks the notifying party and
    /// otherwise only reports the event; no ledger mutation.
    pub fn on_transfer(&self, predecessor: &Vec<u8>) -> (r: Result<(), FarmError>)
        ensures
            r == if predecessor@ == self.obs_token_account_id@ {
                Ok::<(), FarmError>(())
            } else {
                Err::<(), FarmError>(FarmError::UnexpectedTokenCaller)
            },
    {
        if bytes_eq(predecessor, &self.obs_token_account_id) {
            Ok(())
        } else {
            Err(FarmError::UnexpectedTokenCaller)
        }
    }
}

/// After a stake of a positive `amount`, the persisted row's staked
/// balance is exactly `amount + amount * staking_fee_rate * 10^18`, the
/// same gross quantity by which the staked total grows; its reward
/// counters are zero and its deposit time is the stake time.
pub proof fn lemma_stake_sets_gross_balance(f: Farm, key: Seq<u8>, amount: u128, now: u64)
    requires
        f.wf(),
        amount > 0,
        f.stake_ok(key, amount, now),
    ensures
        f.stake_post_account(key, amount, now).obs_balance as int == amount + (amount as int) * (
        f.staking_fee_rate as int) * (OBS_PER_REWARD_DENOM as int),
        f.stake_post_account(key, amount, now).obs_balance as int == f.gross_of(amount as int),
        f.stake_post_account(key, amount, now).reward_balance == 0,
        f.stake_post_account(key, amount, now).reward_claimed == 0,
        f.stake_post_account(key, amount, now).deposit_time == now,
{
}

/// With no elapsed time since the deposit, an accrual step earns nothing,
/// leaves the account and the farmed total unchanged, and is trivially
/// within the machine limits.
pub proof fn lemma_touch_zero_elapsed(f: Farm, a: Account, now: u64)
    requires
        f.reward_interval > 0,
        now == a.deposit_time,
    ensures
        f.earned_of(a, now) == 0,
        f.touched_account(a, now) == a,
        f.touched_total_farmed(a, now) == f.total_reward_farmed,
        f.touch_ok(a, now),
{
    assert((a.obs_balance as int) * 0 * (f.reward_rate as int) == 0) by (nonlinear_arith);
    assert(0int / (f.reward_interval as int) == 0) by (nonlinear_arith)
        requires
            f.reward_interval as int > 0,
    ;
    assert(crate::wide::pow2_128() > 0) by (nonlinear_arith);
    assert(pow2_256() > 0) by (nonlinear_arith)
        requires
            pow2_256() == crate::wide::pow2_128() * crate::wide::pow2_128(),
            crate::wide::pow2_128() > 0,
    ;
}

/// Past the cliff, accrual is not idempotent: two accrual steps at the
/// same time add the earned amount twice, because the deposit time is
/// left unchanged.
pub proof fn lemma_touch_twice_past_cliff(f: Farm, a: Account, now: u64)
    requires
        f.touch_ok(a, now),
        f.accrues(a, now),
        a.reward_balance + 2 * f.earned_of(a, now) <= u128::MAX as int,
    ensures
        f.touched_account(f.touched_account(a, now), now).reward_balance as int == a.reward_balance
            + 2 * f.earned_of(a, now),
{
    let a1 = f.touched_account(a, now);
    assert(f.earned_of(a1, now) == f.earned_of(a, now));
    assert(f.accrues(a1, now));
}

} // verus!
