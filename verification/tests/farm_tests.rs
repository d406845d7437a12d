use obs_farm::account::Account;
use obs_farm::farm::{Action, Farm, FarmError, NotifyOutcome, TokenSide, TransferTarget};
use obs_farm::keys::key_for;

const SCALE: u128 = 1_000_000_000_000_000_000;
const CLIFF: u64 = 864000;
const INTERVAL: u64 = 31536000;

fn zero_fee_farm() -> Farm {
    Farm::new_with_config(b"obs.token".to_vec(), b"reward.token".to_vec(), 1800, 0, CLIFF, INTERVAL)
}

#[test]
fn new_uses_the_standard_configuration() {
    let farm = Farm::new(b"obs.token".to_vec(), b"reward.token".to_vec());
    assert_eq!(farm.reward_rate, 1800);
    assert_eq!(farm.staking_fee_rate, 25);
    assert_eq!(farm.cliff_time, 864000);
    assert_eq!(farm.reward_interval, 31536000);
    assert_eq!(farm.obs_per_reward_rate, 0);
    let stats = farm.get_stats();
    assert_eq!(stats.total_obs_balance, 0);
    assert_eq!(stats.total_reward_claimed, 0);
    assert_eq!(stats.total_reward_received, 0);
}

#[test]
fn stake_records_the_gross_fee_inflated_balance() {
    // with the standard fee rate, gross == amount + amount * 25 * 10^18
    let mut farm = Farm::new(b"obs.token".to_vec(), b"reward.token".to_vec());
    let key = key_for(&b"alice.near".to_vec());
    let amount: u128 = 7;
    let gross = amount + amount * 25 * SCALE;
    let actions = farm.stake_my_obs(&key, amount, 1, CLIFF).unwrap();
    let (_, stored) = farm.get_internal_account(&b"alice.near".to_vec());
    let stored = stored.unwrap();
    assert_eq!(stored.obs_balance, gross);
    assert_eq!(farm.get_stats().total_obs_balance, gross);
    assert_eq!(
        actions,
        vec![
            Action::Transfer {
                token: TokenSide::ObsToken,
                receiver: TransferTarget::FarmCustody,
                amount: gross,
            },
            Action::NotifyTransfer { receiver: TransferTarget::Caller, amount: gross },
        ]
    );
}

#[test]
fn stake_requires_the_payment_unit_and_a_positive_amount() {
    let mut farm = zero_fee_farm();
    let key = key_for(&b"alice.near".to_vec());
    assert_eq!(farm.stake_my_obs(&key, 5, 0, CLIFF), Err(FarmError::PaymentUnitRequired));
    assert_eq!(farm.stake_my_obs(&key, 0, 1, CLIFF), Err(FarmError::ZeroAmount));
    assert_eq!(farm.get_stats().total_obs_balance, 0);
}

#[test]
fn unstake_fails_before_the_cliff_elapses() {
    let mut farm = zero_fee_farm();
    let key = key_for(&b"alice.near".to_vec());
    farm.stake_my_obs(&key, 1000, 1, CLIFF).unwrap();
    // any amount within the balance, but the cliff has not elapsed
    let r = farm.unstake_my_obs(&key, 1000, 1, CLIFF + 100);
    assert_eq!(r, Err(FarmError::CliffNotElapsed));
    let r = farm.unstake_my_obs(&key, 1, 1, CLIFF + CLIFF - 1);
    assert_eq!(r, Err(FarmError::CliffNotElapsed));
    assert_eq!(farm.get_stats().total_obs_balance, 1000);
}

#[test]
fn unstake_fails_on_insufficient_balance_regardless_of_time() {
    let mut farm = zero_fee_farm();
    let key = key_for(&b"alice.near".to_vec());
    farm.stake_my_obs(&key, 1000, 1, CLIFF).unwrap();
    // long past the cliff, but more than the staked balance
    let r = farm.unstake_my_obs(&key, 1001, 1, CLIFF + 10 * CLIFF);
    assert_eq!(r, Err(FarmError::InsufficientBalance));
    // and also before the cliff: the balance check comes first
    let r = farm.unstake_my_obs(&key, 1001, 1, CLIFF + 1);
    assert_eq!(r, Err(FarmError::InsufficientBalance));
}

#[test]
fn unstake_requires_the_payment_unit() {
    let mut farm = zero_fee_farm();
    let key = key_for(&b"alice.near".to_vec());
    farm.stake_my_obs(&key, 1000, 1, CLIFF).unwrap();
    let r = farm.unstake_my_obs(&key, 10, 0, CLIFF + CLIFF);
    assert_eq!(r, Err(FarmError::PaymentUnitRequired));
}

#[test]
fn unstake_settles_reward_and_schedules_two_payouts() {
    let mut farm = zero_fee_farm();
    let key = key_for(&b"alice.near".to_vec());
    farm.stake_my_obs(&key, 1000, 1, CLIFF).unwrap();
    let elapsed: u64 = 964000;
    let now = CLIFF + elapsed;
    // the single accrual step inside unstake earns this
    let earned = (1000u128 * elapsed as u128 * 1800 / INTERVAL as u128) * SCALE;
    let actions = farm.unstake_my_obs(&key, 1000, 1, now).unwrap();
    let (_, stored) = farm.get_internal_account(&b"alice.near".to_vec());
    let stored = stored.unwrap();
    assert_eq!(stored.obs_balance, 0);
    assert_eq!(stored.reward_balance, 0);
    assert_eq!(stored.reward_claimed, earned);
    let stats = farm.get_stats();
    assert_eq!(stats.total_obs_balance, 0);
    assert_eq!(stats.total_reward_claimed, 1000 + earned);
    assert_eq!(stats.total_reward_received, earned);
    assert_eq!(
        actions,
        vec![
            Action::Transfer {
                token: TokenSide::ObsToken,
                receiver: TransferTarget::Caller,
                amount: 1000,
            },
            Action::Transfer {
                token: TokenSide::RewardToken,
                receiver: TransferTarget::Caller,
                amount: 1000,
            },
        ]
    );
}

#[test]
fn touch_with_zero_elapsed_time_changes_nothing() {
    let mut farm = zero_fee_farm();
    let mut account = Account {
        obs_balance: 500,
        reward_balance: 42,
        reward_claimed: 0,
        last_obs_per_reward_rate: 7,
        deposit_time: 1000,
    };
    let snap = farm.touch(&mut account, 1000);
    assert_eq!(snap, 7);
    assert_eq!(account.reward_balance, 42);
    let _ = farm.touch(&mut account, 1000);
    assert_eq!(account.reward_balance, 42);
    assert_eq!(farm.get_stats().total_reward_received, 0);
}

#[test]
fn touch_twice_past_the_cliff_counts_the_reward_twice() {
    let mut farm = zero_fee_farm();
    let mut account = Account {
        obs_balance: 1000,
        reward_balance: 0,
        reward_claimed: 0,
        last_obs_per_reward_rate: 0,
        deposit_time: 0,
    };
    let now = INTERVAL;
    let earned = (1000u128 * INTERVAL as u128 * 1800 / INTERVAL as u128) * SCALE;
    farm.touch(&mut account, now);
    assert_eq!(account.reward_balance, earned);
    farm.touch(&mut account, now);
    assert_eq!(account.reward_balance, 2 * earned);
    assert_eq!(farm.get_stats().total_reward_received, 2 * earned);
}

#[test]
fn reward_query_does_not_mutate_the_farm() {
    let mut farm = zero_fee_farm();
    let key = key_for(&b"alice.near".to_vec());
    farm.stake_my_obs(&key, 1000, 1, CLIFF).unwrap();
    let now = CLIFF + 964000;
    let before = farm.get_stats();
    let r1 = farm.get_reward_balance(&key, now);
    let r2 = farm.get_reward_balance(&key, now);
    assert_eq!(r1, r2);
    let after = farm.get_stats();
    assert_eq!(before.total_reward_received, after.total_reward_received);
    assert_eq!(before.total_obs_balance, after.total_obs_balance);
    assert_eq!(before.total_reward_claimed, after.total_reward_claimed);
    let (_, stored) = farm.get_internal_account(&b"alice.near".to_vec());
    assert_eq!(stored.unwrap().reward_balance, 0);
}

#[test]
fn accrual_formula_matches_the_literal_scenario() {
    // rate 1800, interval 31536000, cliff 864000, fee 0; stake 1000
    let mut farm = zero_fee_farm();
    let key = key_for(&b"alice.near".to_vec());
    farm.stake_my_obs(&key, 1000, 1, CLIFF).unwrap();
    let (_, stored) = farm.get_internal_account(&b"alice.near".to_vec());
    let stored = stored.unwrap();
    assert_eq!(stored.obs_balance, 1000);
    assert_eq!(stored.reward_balance, 0);
    let elapsed: u64 = 964000;
    let reward = farm.get_reward_balance(&key, CLIFF + elapsed);
    assert_eq!(reward, (1000u128 * elapsed as u128 * 1800 / INTERVAL as u128) * SCALE);
}

#[test]
fn unknown_account_appears_after_registration() {
    let mut farm = zero_fee_farm();
    let id = b"carol.near".to_vec();
    assert!(!farm.account_exists(&id));
    let key = key_for(&id);
    farm.register_account(&key, 5);
    assert!(farm.account_exists(&id));
    let (_, stored) = farm.get_internal_account(&id);
    let stored = stored.unwrap();
    assert_eq!(stored.obs_balance, 0);
    assert_eq!(stored.reward_balance, 0);
    assert_eq!(stored.reward_claimed, 0);
    assert_eq!(stored.deposit_time, 0);
}

#[test]
fn reward_query_on_an_unknown_account_is_zero() {
    let farm = zero_fee_farm();
    let key = key_for(&b"nobody.near".to_vec());
    assert_eq!(farm.get_reward_balance(&key, CLIFF), 0);
}

#[test]
fn notification_rejects_an_unexpected_caller() {
    let farm = zero_fee_farm();
    let r = farm.ft_on_transfer(&b"mallory.near".to_vec(), 5, &b"Stake".to_vec());
    assert_eq!(r, Err(FarmError::UnexpectedTokenCaller));
    let r = farm.on_transfer(&b"mallory.near".to_vec());
    assert_eq!(r, Err(FarmError::UnexpectedTokenCaller));
}

#[test]
fn notification_acknowledges_a_stake_and_forwards_the_rest() {
    let farm = zero_fee_farm();
    let r = farm.ft_on_transfer(&b"obs.token".to_vec(), 5, &b"Stake".to_vec());
    assert_eq!(r, Ok(NotifyOutcome::Receipt { refund: 0 }));
    let r = farm.ft_on_transfer(&b"obs.token".to_vec(), 5, &b"anything else".to_vec());
    assert_eq!(r, Ok(NotifyOutcome::Forwarded { amount: 5 }));
    assert_eq!(farm.on_transfer(&b"obs.token".to_vec()), Ok(()));
}

#[test]
fn stake_past_the_cliff_offset_starts_with_zero_reward() {
    // even long past the cliff offset, a fresh stake's reward balance is
    // zero: the deposit time is reset before the snapshot accrual step
    let mut farm = zero_fee_farm();
    let key = key_for(&b"alice.near".to_vec());
    let now = 2 * CLIFF;
    farm.stake_my_obs(&key, 1000, 1, now).unwrap();
    let (_, stored) = farm.get_internal_account(&b"alice.near".to_vec());
    let stored = stored.unwrap();
    assert_eq!(stored.obs_balance, 1000);
    assert_eq!(stored.reward_balance, 0);
    assert_eq!(stored.reward_claimed, 0);
    assert_eq!(stored.deposit_time, now);
    assert_eq!(farm.get_stats().total_reward_received, 0);
}

#[test]
fn restake_resets_the_row_to_the_new_gross() {
    let mut farm = zero_fee_farm();
    let key = key_for(&b"alice.near".to_vec());
    farm.stake_my_obs(&key, 1000, 1, CLIFF).unwrap();
    farm.stake_my_obs(&key, 400, 1, CLIFF + 10).unwrap();
    let (_, stored) = farm.get_internal_account(&b"alice.near".to_vec());
    let stored = stored.unwrap();
    assert_eq!(stored.obs_balance, 400);
    assert_eq!(stored.deposit_time, CLIFF + 10);
    // the staked total only ever accumulates gross amounts
    assert_eq!(farm.get_stats().total_obs_balance, 1400);
}
