use ledger_custody::vesting::{
    claim_vested_token, initialize_vesting, TokenVesting, TokenVestingError,
};

fn blank_vesting() -> TokenVesting {
    TokenVesting {
        beneficiary: 0,
        mint: 0,
        vesting_period: 1,
        duration: 2,
        total_amount: 1,
        start_time: 0,
        claimed_amount: 0,
        passed_periods: 0,
    }
}

/// A schedule of 1000 tokens over 1000 seconds in 100-second periods,
/// started at t = 0 out of an admin balance of 5000.
fn setup_vesting(total: u64) -> (TokenVesting, u64, u64) {
    let mut v = blank_vesting();
    let mut admin: u64 = 5_000;
    let mut vault: u64 = 0;
    let r = initialize_vesting(&mut v, 2, 3, 100, 1_000, total, 0, &mut admin, &mut vault);
    assert_eq!(r, Ok(()));
    (v, admin, vault)
}

#[test]
fn initialize_vesting_moves_the_total_into_the_vault() {
    let (v, admin, vault) = setup_vesting(1_000);
    assert_eq!(v.beneficiary, 3);
    assert_eq!(v.mint, 2);
    assert_eq!(v.vesting_period, 100);
    assert_eq!(v.duration, 1_000);
    assert_eq!(v.total_amount, 1_000);
    assert_eq!(v.start_time, 0);
    assert_eq!(v.claimed_amount, 0);
    assert_eq!(v.passed_periods, 0);
    assert_eq!(admin, 4_000);
    assert_eq!(vault, 1_000);
}

#[test]
fn zero_total_is_rejected() {
    let mut v = blank_vesting();
    let mut admin: u64 = 5_000;
    let mut vault: u64 = 0;
    let r = initialize_vesting(&mut v, 2, 3, 100, 1_000, 0, 0, &mut admin, &mut vault);
    assert_eq!(r, Err(TokenVestingError::MustBeGreaterThenZero));
}

#[test]
fn nonpositive_times_are_rejected() {
    let mut v = blank_vesting();
    let mut admin: u64 = 5_000;
    let mut vault: u64 = 0;
    let r = initialize_vesting(&mut v, 2, 3, 0, 1_000, 10, 0, &mut admin, &mut vault);
    assert_eq!(r, Err(TokenVestingError::InvalidTimestamp));
    let r = initialize_vesting(&mut v, 2, 3, 100, -5, 10, 0, &mut admin, &mut vault);
    assert_eq!(r, Err(TokenVestingError::InvalidTimestamp));
}

#[test]
fn period_longer_than_duration_is_rejected() {
    let mut v = blank_vesting();
    let mut admin: u64 = 5_000;
    let mut vault: u64 = 0;
    let r = initialize_vesting(&mut v, 2, 3, 1_000, 1_000, 10, 0, &mut admin, &mut vault);
    assert_eq!(r, Err(TokenVestingError::VestingPeriodExceedsDuration));
}

#[test]
fn indivisible_duration_is_rejected() {
    let mut v = blank_vesting();
    let mut admin: u64 = 5_000;
    let mut vault: u64 = 0;
    let r = initialize_vesting(&mut v, 2, 3, 300, 1_000, 10, 0, &mut admin, &mut vault);
    assert_eq!(r, Err(TokenVestingError::DurationNotDivisible));
}

#[test]
fn underfunded_admin_is_rejected() {
    let mut v = blank_vesting();
    let mut admin: u64 = 500;
    let mut vault: u64 = 0;
    let r = initialize_vesting(&mut v, 2, 3, 100, 1_000, 1_000, 0, &mut admin, &mut vault);
    assert_eq!(r, Err(TokenVestingError::NotEnoughToken));
    assert_eq!(admin, 500);
}

#[test]
fn claims_pay_out_whole_periods() {
    let (mut v, _, mut vault) = setup_vesting(1_000);
    let mut beneficiary: u64 = 0;
    // At t = 250, two whole 100-second periods have elapsed: 2 x 100 tokens.
    let r = claim_vested_token(&mut v, 250, &mut vault, &mut beneficiary);
    assert_eq!(r, Ok(()));
    assert_eq!(beneficiary, 200);
    assert_eq!(vault, 800);
    assert_eq!(v.claimed_amount, 200);
    assert_eq!(v.passed_periods, 2);
}

#[test]
fn a_second_claim_in_the_same_period_is_rejected() {
    let (mut v, _, mut vault) = setup_vesting(1_000);
    let mut beneficiary: u64 = 0;
    claim_vested_token(&mut v, 250, &mut vault, &mut beneficiary).unwrap();
    let r = claim_vested_token(&mut v, 260, &mut vault, &mut beneficiary);
    assert_eq!(r, Err(TokenVestingError::VestingPeriodNotReached));
    assert_eq!(beneficiary, 200);
    assert_eq!(v.passed_periods, 2);
}

#[test]
fn the_final_claim_carries_the_rounding_remainder() {
    // 1005 over 10 periods: 100 per period, remainder 5 on the last claim.
    let (mut v, _, mut vault) = setup_vesting(1_005);
    let mut beneficiary: u64 = 0;
    claim_vested_token(&mut v, 250, &mut vault, &mut beneficiary).unwrap();
    assert_eq!(beneficiary, 200);
    let r = claim_vested_token(&mut v, 1_000, &mut vault, &mut beneficiary);
    assert_eq!(r, Ok(()));
    assert_eq!(beneficiary, 1_005);
    assert_eq!(vault, 0);
    assert_eq!(v.claimed_amount, 1_005);
    assert_eq!(v.passed_periods, 10);
}

#[test]
fn a_late_claim_past_the_cap_is_refused_whole() {
    // The cap is the schedule's full period count, not the periods still
    // unpaid: once earlier periods were claimed, a claim made long after
    // the end asks for the full schedule again and is refused as an
    // over-claim, leaving everything unchanged.
    let (mut v, _, mut vault) = setup_vesting(1_005);
    let mut beneficiary: u64 = 0;
    claim_vested_token(&mut v, 250, &mut vault, &mut beneficiary).unwrap();
    let r = claim_vested_token(&mut v, 2_000, &mut vault, &mut beneficiary);
    assert_eq!(r, Err(TokenVestingError::OverClaimed));
    assert_eq!(beneficiary, 200);
    assert_eq!(v.claimed_amount, 200);
    assert_eq!(v.passed_periods, 2);
}

#[test]
fn claims_long_after_the_end_are_capped_at_the_schedule() {
    let (mut v, _, mut vault) = setup_vesting(1_000);
    let mut beneficiary: u64 = 0;
    let r = claim_vested_token(&mut v, 1_000_000, &mut vault, &mut beneficiary);
    assert_eq!(r, Ok(()));
    assert_eq!(beneficiary, 1_000);
    assert_eq!(v.claimed_amount, 1_000);
    assert_eq!(v.passed_periods, 10);
}

#[test]
fn claiming_before_the_start_is_rejected() {
    let mut v = blank_vesting();
    let mut admin: u64 = 5_000;
    let mut vault: u64 = 0;
    initialize_vesting(&mut v, 2, 3, 100, 1_000, 1_000, 500, &mut admin, &mut vault).unwrap();
    let mut beneficiary: u64 = 0;
    let r = claim_vested_token(&mut v, 400, &mut vault, &mut beneficiary);
    assert_eq!(r, Err(TokenVestingError::VestingNotStarted));
    let r = claim_vested_token(&mut v, 500, &mut vault, &mut beneficiary);
    assert_eq!(r, Err(TokenVestingError::VestingNotStarted));
}

#[test]
fn a_fully_claimed_ended_schedule_is_rejected() {
    let (mut v, _, mut vault) = setup_vesting(1_000);
    let mut beneficiary: u64 = 0;
    claim_vested_token(&mut v, 1_500, &mut vault, &mut beneficiary).unwrap();
    assert_eq!(v.claimed_amount, 1_000);
    let r = claim_vested_token(&mut v, 1_600, &mut vault, &mut beneficiary);
    assert_eq!(r, Err(TokenVestingError::VestingEnded));
    assert_eq!(beneficiary, 1_000);
}

#[test]
fn an_overclaim_is_rejected() {
    // A record claiming progress it never paid out: the claim that would
    // push the claimed total past the vested total is refused whole.
    let mut v = TokenVesting {
        beneficiary: 3,
        mint: 2,
        vesting_period: 100,
        duration: 1_000,
        total_amount: 1_000,
        start_time: 0,
        claimed_amount: 1_000,
        passed_periods: 0,
    };
    let mut vault: u64 = 1_000;
    let mut beneficiary: u64 = 0;
    let r = claim_vested_token(&mut v, 250, &mut vault, &mut beneficiary);
    assert_eq!(r, Err(TokenVestingError::OverClaimed));
    assert_eq!(beneficiary, 0);
    assert_eq!(v.claimed_amount, 1_000);
}

#[test]
fn an_overflowing_claim_total_is_rejected() {
    let mut v = TokenVesting {
        beneficiary: 3,
        mint: 2,
        vesting_period: 100,
        duration: 1_000,
        total_amount: u64::MAX,
        start_time: 0,
        claimed_amount: u64::MAX - 1,
        passed_periods: 0,
    };
    let mut vault: u64 = 0;
    let mut beneficiary: u64 = 0;
    let r = claim_vested_token(&mut v, 250, &mut vault, &mut beneficiary);
    assert_eq!(r, Err(TokenVestingError::Overflow));
    assert_eq!(v.claimed_amount, u64::MAX - 1);
}

#[test]
fn a_drained_vault_refuses_the_claim() {
    let (mut v, _, _) = setup_vesting(1_000);
    let mut empty_vault: u64 = 50;
    let mut beneficiary: u64 = 0;
    let r = claim_vested_token(&mut v, 250, &mut empty_vault, &mut beneficiary);
    assert_eq!(r, Err(TokenVestingError::NotEnoughToken));
    assert_eq!(v.claimed_amount, 0);
    assert_eq!(v.passed_periods, 0);
    assert_eq!(empty_vault, 50);
}
