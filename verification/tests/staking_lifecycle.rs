use staking_rewards::staking::{ErrorCode, LockPeriod, StakePosition, StakingPool};

fn sample_pool() -> StakingPool {
    // tiers: (duration, multiplier) = (700, 100), (1400, 150), (3000, 300); minimum stake 50
    StakingPool::initialize_staking_pool(700, 1400, 3000, 100, 150, 300, 50)
}

fn live_amounts_sum(pool: &StakingPool) -> u64 {
    let mut sum: u64 = 0;
    for p in pool.positions.iter() {
        sum += p.amount;
    }
    sum
}

#[test]
fn initialize_staking_pool_starts_empty() {
    let pool = sample_pool();
    assert_eq!(pool.unbonding_period_7, 700);
    assert_eq!(pool.unbonding_period_14, 1400);
    assert_eq!(pool.unbonding_period_30, 3000);
    assert_eq!(pool.reward_multiplier_7, 100);
    assert_eq!(pool.reward_multiplier_14, 150);
    assert_eq!(pool.reward_multiplier_30, 300);
    assert_eq!(pool.min_stake_amount, 50);
    assert_eq!(pool.total_staked, 0);
    assert_eq!(pool.total_stakers, 0);
    assert!(!pool.emergency_pause);
    assert!(pool.positions.is_empty());
}

#[test]
fn stake_records_position_and_totals() {
    let mut pool = sample_pool();
    let r = pool.stake_tokens(7, 1_000, LockPeriod::Days14, 10_000);
    assert_eq!(r, Ok(()));
    assert_eq!(pool.total_staked, 1_000);
    assert_eq!(pool.total_stakers, 1);
    let position: &StakePosition = pool.get_position(7).unwrap();
    assert_eq!(position.user, 7);
    assert_eq!(position.amount, 1_000);
    assert_eq!(position.lock_period, LockPeriod::Days14);
    assert_eq!(position.reward_multiplier, 150);
    assert_eq!(position.stake_timestamp, 10_000);
    assert_eq!(position.unbonding_end, 11_400);
    assert!(!position.is_unbonding);
}

#[test]
fn stake_below_minimum_rejected() {
    let mut pool = sample_pool();
    let r = pool.stake_tokens(7, 49, LockPeriod::Days7, 0);
    assert_eq!(r, Err(ErrorCode::BelowMinimum));
    assert_eq!(pool.total_staked, 0);
    assert_eq!(pool.total_stakers, 0);
}

#[test]
fn stake_of_zero_rejected_even_with_zero_minimum() {
    let mut pool = StakingPool::initialize_staking_pool(700, 1400, 3000, 100, 150, 300, 0);
    let r = pool.stake_tokens(7, 0, LockPeriod::Days7, 0);
    assert_eq!(r, Err(ErrorCode::BelowMinimum));
}

#[test]
fn stake_rejected_while_paused() {
    let mut pool = sample_pool();
    pool.toggle_emergency_pause(true);
    let r = pool.stake_tokens(7, 1_000, LockPeriod::Days7, 0);
    assert_eq!(r, Err(ErrorCode::PoolPaused));
}

#[test]
fn second_stake_by_same_depositor_rejected() {
    let mut pool = sample_pool();
    assert_eq!(pool.stake_tokens(7, 1_000, LockPeriod::Days7, 0), Ok(()));
    let r = pool.stake_tokens(7, 2_000, LockPeriod::Days30, 5);
    assert_eq!(r, Err(ErrorCode::AlreadyInitialized));
    assert_eq!(pool.total_staked, 1_000);
    assert_eq!(pool.total_stakers, 1);
}

#[test]
fn initiate_unstake_marks_position_once() {
    let mut pool = sample_pool();
    assert_eq!(pool.stake_tokens(7, 1_000, LockPeriod::Days7, 100), Ok(()));
    assert_eq!(pool.initiate_unstake(7), Ok(()));
    let position = pool.get_position(7).unwrap();
    assert!(position.is_unbonding);
    // the deadline fixed at stake time is not recomputed
    assert_eq!(position.unbonding_end, 800);
    assert_eq!(pool.initiate_unstake(7), Err(ErrorCode::AlreadyUnbonding));
}

#[test]
fn initiate_unstake_without_position_not_found() {
    let mut pool = sample_pool();
    assert_eq!(pool.initiate_unstake(7), Err(ErrorCode::PositionNotFound));
}

#[test]
fn initiate_unstake_rejected_while_paused() {
    let mut pool = sample_pool();
    assert_eq!(pool.stake_tokens(7, 1_000, LockPeriod::Days7, 100), Ok(()));
    pool.toggle_emergency_pause(true);
    assert_eq!(pool.initiate_unstake(7), Err(ErrorCode::PoolPaused));
}

#[test]
fn complete_unstake_requires_unbonding_state() {
    let mut pool = sample_pool();
    assert_eq!(pool.stake_tokens(7, 1_000, LockPeriod::Days7, 100), Ok(()));
    assert_eq!(pool.complete_unstake(7, 10_000), Err(ErrorCode::NotUnbonding));
    assert_eq!(pool.complete_unstake(9, 10_000), Err(ErrorCode::PositionNotFound));
}

#[test]
fn medium_tier_unstake_scenario() {
    // stake 1,000 at the medium tier (duration 1,400) at tick 10,000
    let mut pool = sample_pool();
    assert_eq!(pool.stake_tokens(7, 1_000, LockPeriod::Days14, 10_000), Ok(()));
    assert_eq!(pool.initiate_unstake(7), Ok(()));
    // one tick before the deadline the withdrawal is refused
    assert_eq!(pool.complete_unstake(7, 11_399), Err(ErrorCode::UnbondingIncomplete));
    assert!(pool.get_position(7).is_some());
    // at the deadline the full amount comes back and the position is gone
    assert_eq!(pool.complete_unstake(7, 11_400), Ok(1_000));
    assert!(pool.get_position(7).is_none());
    assert_eq!(pool.total_staked, 0);
    assert_eq!(pool.total_stakers, 0);
}

#[test]
fn emergency_withdraw_needs_pause_from_staked_state() {
    let mut pool = sample_pool();
    assert_eq!(pool.stake_tokens(7, 1_000, LockPeriod::Days30, 100), Ok(()));
    assert_eq!(pool.emergency_withdraw(7), Err(ErrorCode::PoolNotPaused));
    pool.toggle_emergency_pause(true);
    // succeeds from the staked state with no unbonding time elapsed
    assert_eq!(pool.emergency_withdraw(7), Ok(1_000));
    assert!(pool.get_position(7).is_none());
    assert_eq!(pool.total_staked, 0);
    assert_eq!(pool.total_stakers, 0);
}

#[test]
fn emergency_withdraw_needs_pause_from_unbonding_state() {
    let mut pool = sample_pool();
    assert_eq!(pool.stake_tokens(7, 1_000, LockPeriod::Days30, 100), Ok(()));
    assert_eq!(pool.initiate_unstake(7), Ok(()));
    assert_eq!(pool.emergency_withdraw(7), Err(ErrorCode::PoolNotPaused));
    pool.toggle_emergency_pause(true);
    assert_eq!(pool.emergency_withdraw(7), Ok(1_000));
    assert!(pool.get_position(7).is_none());
}

#[test]
fn emergency_withdraw_without_position_not_found() {
    let mut pool = sample_pool();
    pool.toggle_emergency_pause(true);
    assert_eq!(pool.emergency_withdraw(7), Err(ErrorCode::PositionNotFound));
}

#[test]
fn totals_track_live_positions_through_mixed_operations() {
    let mut pool = sample_pool();
    assert_eq!(pool.stake_tokens(1, 100, LockPeriod::Days7, 0), Ok(()));
    assert_eq!(pool.stake_tokens(2, 200, LockPeriod::Days14, 1), Ok(()));
    assert_eq!(pool.stake_tokens(3, 300, LockPeriod::Days30, 2), Ok(()));
    assert_eq!(pool.total_staked, 600);
    assert_eq!(pool.total_stakers, 3);
    assert_eq!(pool.total_staked, live_amounts_sum(&pool));

    assert_eq!(pool.initiate_unstake(2), Ok(()));
    assert_eq!(pool.total_staked, live_amounts_sum(&pool));

    assert_eq!(pool.complete_unstake(2, 2_000), Ok(200));
    assert_eq!(pool.total_staked, 400);
    assert_eq!(pool.total_stakers, 2);
    assert_eq!(pool.total_staked, live_amounts_sum(&pool));

    pool.toggle_emergency_pause(true);
    assert_eq!(pool.emergency_withdraw(1), Ok(100));
    assert_eq!(pool.total_staked, 300);
    assert_eq!(pool.total_stakers, 1);
    assert_eq!(pool.total_staked, live_amounts_sum(&pool));
}

#[test]
fn toggle_emergency_pause_flips_flag_only() {
    let mut pool = sample_pool();
    assert_eq!(pool.stake_tokens(7, 1_000, LockPeriod::Days7, 0), Ok(()));
    pool.toggle_emergency_pause(true);
    assert!(pool.emergency_pause);
    assert_eq!(pool.total_staked, 1_000);
    assert_eq!(pool.total_stakers, 1);
    pool.toggle_emergency_pause(false);
    assert!(!pool.emergency_pause);
}
