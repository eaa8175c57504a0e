use staking::{
    configure, configure_signer, deposit, initialize, initialize_user, pending_reward, withdraw,
    Authority, ErrorCode, Staking, StakingUser,
};

fn pool() -> Staking {
    initialize(1000, 1, 5, 7, 42, 10, 11, 12, 13)
}

fn position() -> StakingUser {
    initialize_user(42)
}

#[test]
fn initialize_populates_every_field() {
    let staking = pool();
    assert_eq!(staking.cap, 1000);
    assert_eq!(staking.rate, 1);
    assert_eq!(staking.key, 5);
    assert_eq!(staking.bump, 7);
    assert_eq!(staking.signer, 42);
    assert_eq!(staking.token_mint, 10);
    assert_eq!(staking.token_vault, 11);
    assert_eq!(staking.token_rewards_mint, 12);
    assert_eq!(staking.token_rewards_vault, 13);
}

#[test]
fn initialize_user_starts_empty() {
    let user = position();
    assert_eq!(
        user,
        StakingUser { signer: 42, time_last: 0, time_start: 0, amount: 0 }
    );
}

#[test]
fn deposit_withdraw_scenario() {
    // cap 1000, rate 1, empty position: deposit 100 at t=0, deposit 50 at
    // t=10, withdraw 50 at t=20, with the reward settled before each change.
    let staking = pool();
    let mut user = position();

    let effects = deposit(&staking, &mut user, 42, 100, 101, 0, 100).unwrap();
    assert_eq!(effects.reward_transfer.amount, 0);
    assert_eq!(user.amount, 100);
    assert_eq!(user.time_last, 0);
    assert_eq!(user.time_start, 0);

    let effects = deposit(&staking, &mut user, 42, 100, 101, 10, 50).unwrap();
    assert_eq!(effects.reward_transfer.amount, 1000); // 100 * 10 * 1
    assert_eq!(user.amount, 150);
    assert_eq!(user.time_last, 10);
    assert_eq!(user.time_start, 10);

    let effects = withdraw(&staking, &mut user, 42, 100, 101, 20, 50).unwrap();
    assert_eq!(effects.reward_transfer.amount, 1500); // 150 * 10 * 1
    assert_eq!(user.amount, 100);
    assert_eq!(user.time_last, 20);
    assert_eq!(user.time_start, 10); // withdrawal does not touch the accrual start
}

#[test]
fn deposit_routes_transfers_and_authorities() {
    let staking = pool();
    let mut user = position();
    let effects = deposit(&staking, &mut user, 42, 100, 101, 0, 100).unwrap();

    // Reward payout: reward escrow -> participant, signed by the pool's
    // custody authority, never by the participant.
    assert_eq!(effects.reward_transfer.from, staking.token_rewards_vault);
    assert_eq!(effects.reward_transfer.to, 101);
    assert_eq!(
        effects.reward_transfer.authority,
        Authority::PoolCustody { key: 5, bump: 7 }
    );

    // Stake move: the caller's account -> the pool's vault, signed by the
    // caller, who is spending their own funds.
    assert_eq!(effects.stake_transfer.from, 100);
    assert_eq!(effects.stake_transfer.to, staking.token_vault);
    assert_eq!(effects.stake_transfer.authority, Authority::Caller { signer: 42 });
    assert_eq!(effects.stake_transfer.amount, 100);
}

#[test]
fn withdraw_routes_transfers_and_authorities() {
    let staking = pool();
    let mut user = position();
    deposit(&staking, &mut user, 42, 100, 101, 0, 100).unwrap();
    let effects = withdraw(&staking, &mut user, 42, 100, 101, 4, 30).unwrap();

    assert_eq!(effects.reward_transfer.from, staking.token_rewards_vault);
    assert_eq!(effects.reward_transfer.to, 101);
    assert_eq!(effects.reward_transfer.amount, 400); // 100 * 4 * 1
    assert_eq!(
        effects.reward_transfer.authority,
        Authority::PoolCustody { key: 5, bump: 7 }
    );

    // Stake move out of the vault: pool escrow -> caller, signed by the
    // pool's custody authority.
    assert_eq!(effects.stake_transfer.from, staking.token_vault);
    assert_eq!(effects.stake_transfer.to, 100);
    assert_eq!(
        effects.stake_transfer.authority,
        Authority::PoolCustody { key: 5, bump: 7 }
    );
    assert_eq!(effects.stake_transfer.amount, 30);
}

#[test]
fn deposit_over_cap_fails_and_changes_nothing() {
    // A deposit that would set the balance to 1001 against a cap of 1000.
    let staking = pool();
    let mut user = position();
    deposit(&staking, &mut user, 42, 100, 101, 0, 500).unwrap();
    let before = user;

    let r = deposit(&staking, &mut user, 42, 100, 101, 10, 501);
    assert_eq!(r, Err(ErrorCode::OverCap));
    assert_eq!(user, before); // no field written, no transfer instructed
}

#[test]
fn deposit_exactly_at_cap_succeeds() {
    let staking = pool();
    let mut user = position();
    deposit(&staking, &mut user, 42, 100, 101, 0, 500).unwrap();
    deposit(&staking, &mut user, 42, 100, 101, 10, 500).unwrap();
    assert_eq!(user.amount, 1000);
}

#[test]
fn withdraw_more_than_staked_fails_not_enough() {
    let staking = pool();
    let mut user = position();
    deposit(&staking, &mut user, 42, 100, 101, 0, 100).unwrap();
    let before = user;

    let r = withdraw(&staking, &mut user, 42, 100, 101, 10, 101);
    assert_eq!(r, Err(ErrorCode::NotEnough));
    assert_eq!(user, before);
}

#[test]
fn withdraw_everything_leaves_inert_position() {
    let staking = pool();
    let mut user = position();
    deposit(&staking, &mut user, 42, 100, 101, 0, 100).unwrap();
    withdraw(&staking, &mut user, 42, 100, 101, 10, 100).unwrap();
    assert_eq!(user.amount, 0);
    assert_eq!(user.signer, 42);
}

#[test]
fn clock_regression_fails_underflow() {
    let staking = pool();
    let mut user = position();
    deposit(&staking, &mut user, 42, 100, 101, 10, 100).unwrap();
    let before = user;

    let r = deposit(&staking, &mut user, 42, 100, 101, 5, 1);
    assert_eq!(r, Err(ErrorCode::Underflow));
    assert_eq!(user, before);

    let r = withdraw(&staking, &mut user, 42, 100, 101, 5, 1);
    assert_eq!(r, Err(ErrorCode::Underflow));
    assert_eq!(user, before);
}

#[test]
fn second_operation_at_same_time_settles_zero() {
    let staking = pool();
    let mut user = position();
    deposit(&staking, &mut user, 42, 100, 101, 10, 100).unwrap();
    let effects = withdraw(&staking, &mut user, 42, 100, 101, 10, 40).unwrap();
    assert_eq!(effects.reward_transfer.amount, 0);
    let effects = deposit(&staking, &mut user, 42, 100, 101, 10, 40).unwrap();
    assert_eq!(effects.reward_transfer.amount, 0);
}

#[test]
fn reward_formula_is_exact() {
    // reward = amount * elapsed * rate, computed against the balance and
    // clock before the operation.
    let user = StakingUser { signer: 42, time_last: 4, time_start: 0, amount: 7 };
    assert_eq!(pending_reward(user, 3, 13), Ok(189)); // 7 * 9 * 3
    assert_eq!(pending_reward(user, 0, 13), Ok(0));
    assert_eq!(pending_reward(user, 3, 4), Ok(0)); // elapsed 0
}

#[test]
fn elapsed_time_is_checked() {
    assert_eq!(staking::math::elapsed_since(3, 5), Ok(2));
    assert_eq!(staking::math::elapsed_since(5, 5), Ok(0));
    assert_eq!(staking::math::elapsed_since(5, 3), Err(ErrorCode::Underflow));
    // The widest non-negative span of two signed timestamps still fits.
    assert_eq!(staking::math::elapsed_since(i64::MIN, i64::MAX), Ok(u64::MAX));
}

#[test]
fn reward_arithmetic_is_checked() {
    assert_eq!(staking::math::reward_amount(7, 9, 3), Ok(189));
    assert_eq!(staking::math::reward_amount(u64::MAX, 1, 1), Ok(u64::MAX));
    assert_eq!(
        staking::math::reward_amount(u64::MAX, 2, 1),
        Err(ErrorCode::Overflow)
    );
    assert_eq!(
        staking::math::reward_amount(u64::MAX, 1, 2),
        Err(ErrorCode::Overflow)
    );
}

#[test]
fn reward_multiplication_overflow() {
    // First multiplication leaves u64: amount * elapsed.
    let user = StakingUser { signer: 42, time_last: 0, time_start: 0, amount: u64::MAX };
    assert_eq!(pending_reward(user, 1, 2), Err(ErrorCode::Overflow));

    // Second multiplication leaves u64: (amount * elapsed) * rate.
    let user = StakingUser { signer: 42, time_last: 0, time_start: 0, amount: u64::MAX };
    assert_eq!(pending_reward(user, 2, 1), Err(ErrorCode::Overflow));

    // The whole operation reports it and changes nothing.
    let staking = initialize(u64::MAX, 1, 5, 7, 42, 10, 11, 12, 13);
    let mut user = StakingUser { signer: 42, time_last: 0, time_start: 0, amount: u64::MAX };
    let before = user;
    let r = deposit(&staking, &mut user, 42, 100, 101, 2, 0);
    assert_eq!(r, Err(ErrorCode::Overflow));
    assert_eq!(user, before);
}

#[test]
fn balance_addition_overflow() {
    // The balance update itself leaves u64: Overflow, not OverCap, even
    // though the cap is also exceeded.
    let staking = initialize(u64::MAX, 0, 5, 7, 42, 10, 11, 12, 13);
    let mut user = StakingUser { signer: 42, time_last: 0, time_start: 0, amount: u64::MAX };
    let before = user;
    let r = deposit(&staking, &mut user, 42, 100, 101, 0, 1);
    assert_eq!(r, Err(ErrorCode::Overflow));
    assert_eq!(user, before);
}

#[test]
fn deposit_withdraw_require_position_owner() {
    let staking = pool();
    let mut user = position();
    deposit(&staking, &mut user, 42, 100, 101, 0, 100).unwrap();
    let before = user;

    let r = deposit(&staking, &mut user, 43, 100, 101, 10, 1);
    assert_eq!(r, Err(ErrorCode::Unauthorized));
    assert_eq!(user, before);

    let r = withdraw(&staking, &mut user, 43, 100, 101, 10, 1);
    assert_eq!(r, Err(ErrorCode::Unauthorized));
    assert_eq!(user, before);
}

#[test]
fn balance_is_net_of_deposits_and_withdrawals() {
    let staking = pool();
    let mut user = position();
    deposit(&staking, &mut user, 42, 100, 101, 0, 300).unwrap();
    withdraw(&staking, &mut user, 42, 100, 101, 1, 120).unwrap();
    deposit(&staking, &mut user, 42, 100, 101, 2, 500).unwrap();
    withdraw(&staking, &mut user, 42, 100, 101, 3, 80).unwrap();
    deposit(&staking, &mut user, 42, 100, 101, 4, 150).unwrap();
    assert_eq!(user.amount, 300 - 120 + 500 - 80 + 150);
    assert!(user.amount <= staking.cap);
}

#[test]
fn configure_updates_cap_and_rate_for_owner_only() {
    let mut staking = pool();
    assert_eq!(configure(&mut staking, 43, 2000, 9), Err(ErrorCode::Unauthorized));
    assert_eq!(staking.cap, 1000);
    assert_eq!(staking.rate, 1);

    assert_eq!(configure(&mut staking, 42, 2000, 9), Ok(()));
    assert_eq!(staking.cap, 2000);
    assert_eq!(staking.rate, 9);
    assert_eq!(staking.signer, 42); // everything else untouched
    assert_eq!(staking.token_vault, 11);
}

#[test]
fn configure_signer_rotates_owner() {
    let mut staking = pool();
    assert_eq!(configure_signer(&mut staking, 43, 44), Err(ErrorCode::Unauthorized));
    assert_eq!(staking.signer, 42);

    assert_eq!(configure_signer(&mut staking, 42, 44), Ok(()));
    assert_eq!(staking.signer, 44);
    assert_eq!(configure(&mut staking, 42, 5, 5), Err(ErrorCode::Unauthorized));
    assert_eq!(configure(&mut staking, 44, 5, 5), Ok(()));
}

#[test]
fn reconfigured_rate_applies_to_next_settlement() {
    let mut staking = pool();
    let mut user = position();
    deposit(&staking, &mut user, 42, 100, 101, 0, 100).unwrap();
    configure(&mut staking, 42, 1000, 3).unwrap();
    let effects = withdraw(&staking, &mut user, 42, 100, 101, 10, 50).unwrap();
    assert_eq!(effects.reward_transfer.amount, 3000); // 100 * 10 * 3
}
