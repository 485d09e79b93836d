//! Time-locked vesting: a fixed total of tokens is released to a
//! beneficiary linearly over a duration, in discrete periods. The duration
//! is a whole positive multiple of the period; each claim pays out the
//! periods that have elapsed since the last claim, capped at the schedule's
//! period count, and the integer-division remainder of the total is added to
//! the claim that reaches the end of the schedule.

use vstd::prelude::*;

use vstd::arithmetic::div_mod::lemma_fundamental_div_mod;
use vstd::arithmetic::mul::lemma_mul_inequality;

use crate::treasury;
use crate::treasury::TransferError;

verus! {

/// Why a vesting request was refused.
#[derive(Clone, Copy, PartialEq, Eq, Structural, Debug)]
pub enum TokenVestingError {
    NotEnoughToken,
    InvalidTokenAmount,
    MintMismatch,
    VestingCompleted,
    VaultAuthorityMismatch,
    UnauthorizedBeneficiary,
    AlreadyClaimed,
    VestingPeriodExceedsDuration,
    MustBeGreaterThenZero,
    InvalidTimestamp,
    DurationNotDivisible,
    VestingNotStarted,
    VestingEnded,
    VestingPeriodNotReached,
    OverClaimed,
    Overflow,
}

impl TokenVestingError {
    /// A descriptive message for the error code.
    pub fn message(&self) -> &'static str {
        match self {
            TokenVestingError::NotEnoughToken => "Not enough tokens to vest",
            TokenVestingError::InvalidTokenAmount => "Requested amount exceeds vested amount",
            TokenVestingError::MintMismatch => "Token mint mismatch",
            TokenVestingError::VestingCompleted => "Vesting is already complete",
            TokenVestingError::VaultAuthorityMismatch => "Vault authority mismatch",
            TokenVestingError::UnauthorizedBeneficiary => "Unauthorized beneficiary",
            TokenVestingError::AlreadyClaimed => "Tokens already claimed for this period",
            TokenVestingError::VestingPeriodExceedsDuration => "Vesting period is exceeding duration",
            TokenVestingError::MustBeGreaterThenZero => "Total amount must be greater than zero",
            TokenVestingError::InvalidTimestamp => "Provided timestamp is invalid",
            TokenVestingError::DurationNotDivisible => "Duration is not divisible by vesting period",
            TokenVestingError::VestingNotStarted => "Vesting has not started yet",
            TokenVestingError::VestingEnded => "Vesting has ended",
            TokenVestingError::VestingPeriodNotReached => "No vesting period is claimable yet",
            TokenVestingError::OverClaimed => "Claim would exceed the vested total",
            TokenVestingError::Overflow => "Arithmetic overflow",
        }
    }
}

/// One vesting schedule: the beneficiary, the mint, the period and total
/// duration in seconds, the total to release, and the claim progress.
#[derive(Clone, Copy, PartialEq, Eq, Structural, Debug)]
pub struct TokenVesting {
    pub beneficiary: u64,
    pub mint: u64,
    pub vesting_period: i64,
    pub duration: i64,
    pub total_amount: u64,
    pub start_time: i64,
    pub claimed_amount: u64,
    pub passed_periods: i64,
}

impl TokenVesting {
    /// Well-formed: the schedule that `initialize_vesting` establishes and
    /// every claim preserves.
    pub open spec fn wf(self) -> bool {
        &&& self.vesting_period > 0
        &&& self.duration > self.vesting_period
        &&& self.duration % self.vesting_period == 0
        &&& self.total_amount > 0
        &&& 0 <= self.passed_periods
        &&& self.claimed_amount <= self.total_amount
    }
}

/// How many whole periods the schedule has.
pub open spec fn total_periods(v: TokenVesting) -> int {
    v.duration as int / v.vesting_period as int
}

/// How many whole periods have elapsed at time `now`.
pub open spec fn periods_elapsed(v: TokenVesting, now: i64) -> int {
    (now - v.start_time) / v.vesting_period as int
}

/// How many periods a claim at time `now` would pay for: those elapsed and
/// not yet paid, capped at the schedule's period count.
pub open spec fn claimable_periods(v: TokenVesting, now: i64) -> int {
    let d = periods_elapsed(v, now) - v.passed_periods;
    if d > total_periods(v) {
        total_periods(v)
    } else {
        d
    }
}

/// The per-period payout: the total divided evenly over the periods,
/// rounding down.
pub open spec fn amount_per_period(v: TokenVesting) -> int {
    v.total_amount as int / total_periods(v)
}

/// What a claim at time `now` would pay out: the claimable periods at the
/// per-period rate, plus the rounding remainder once the claim reaches the
/// end of the schedule.
pub open spec fn claimable_amount(v: TokenVesting, now: i64) -> int {
    let k = claimable_periods(v, now);
    amount_per_period(v) * k + if v.passed_periods + k >= total_periods(v) {
        v.total_amount as int % total_periods(v)
    } else {
        0
    }
}

/// Initializes a vesting schedule for a beneficiary and moves the full
/// `total_amount` from the admin's balance into the vault. The duration
/// must be a whole positive multiple of the period, strictly longer than
/// one period, and the total positive; on any error nothing is recorded
/// and nothing moves.
pub fn initialize_vesting(
    v: &mut TokenVesting,
    mint: u64,
    beneficiary: u64,
    vesting_period: i64,
    duration: i64,
    total_amount: u64,
    now: i64,
    admin_balance: &mut u64,
    vault_balance: &mut u64,
) -> (r: Result<(), TokenVestingError>)
    requires
        *old(vault_balance) + total_amount <= u64::MAX,
    ensures
        match r {
            Ok(()) => {
                &&& total_amount > 0
                &&& duration > 0 && vesting_period > 0
                &&& duration > vesting_period
                &&& duration % vesting_period == 0
                &&& *old(admin_balance) >= total_amount
                &&& final(v).beneficiary == beneficiary
                &&& final(v).mint == mint
                &&& final(v).vesting_period == vesting_period
                &&& final(v).duration == duration
                &&& final(v).total_amount == total_amount
                &&& final(v).start_time == now
                &&& final(v).claimed_amount == 0
                &&& final(v).passed_periods == 0
                &&& final(v).wf()
                &&& *final(admin_balance) == *old(admin_balance) - total_amount
                &&& *final(vault_balance) == *old(vault_balance) + total_amount
            },
            Err(e) => {
                &&& (e == TokenVestingError::MustBeGreaterThenZero <==> total_amount == 0)
                &&& (e == TokenVestingError::InvalidTimestamp <==> total_amount > 0 && !(duration
                    > 0 && vesting_period > 0))
                &&& (e == TokenVestingError::VestingPeriodExceedsDuration <==> total_amount > 0
                    && duration > 0 && vesting_period > 0 && duration <= vesting_period)
                &&& (e == TokenVestingError::DurationNotDivisible <==> total_amount > 0 && duration
                    > 0 && vesting_period > 0 && duration > vesting_period && duration
                    % vesting_period != 0)
                &&& (e == TokenVestingError::NotEnoughToken <==> total_amount > 0 && duration > 0
                    && vesting_period > 0 && duration > vesting_period && duration % vesting_period
                    == 0 && *old(admin_balance) < total_amount)
                &&& (e == TokenVestingError::MustBeGreaterThenZero || e
                    == TokenVestingError::InvalidTimestamp || e
                    == TokenVestingError::VestingPeriodExceedsDuration || e
                    == TokenVestingError::DurationNotDivisible || e
                    == TokenVestingError::NotEnoughToken)
                &&& *final(v) == *old(v)
                &&& *final(admin_balance) == *old(admin_balance)
                &&& *final(vault_balance) == *old(vault_balance)
            },
        },
{
    if total_amount == 0 {
        return Err(TokenVestingError::MustBeGreaterThenZero);
    }
    if !(duration > 0 && vesting_period > 0) {
        return Err(TokenVestingError::InvalidTimestamp);
    }
    if duration <= vesting_period {
        return Err(TokenVestingError::VestingPeriodExceedsDuration);
    }
    if (duration as u64) % (vesting_period as u64) != 0 {
        return Err(TokenVestingError::DurationNotDivisible);
    }
    match treasury::transfer_lamports(admin_balance, vault_balance, total_amount) {
        Ok(()) => {},
        Err(TransferError::InsufficientFunds) => {
            return Err(TokenVestingError::NotEnoughToken);
        },
        Err(TransferError::Unauthorized) => {
            return Err(TokenVestingError::NotEnoughToken);
        },
    }
    v.beneficiary = beneficiary;
    v.mint = mint;
    v.vesting_period = vesting_period;
    v.duration = duration;
    v.total_amount = total_amount;
    v.start_time = now;
    v.claimed_amount = 0;
    v.passed_periods = 0;
    Ok(())
}

/// Claims the tokens vested by time `now`: pays the claimable periods at
/// the per-period rate (plus the remainder on the claim that reaches the
/// schedule's end) from the vault to the beneficiary and records the
/// progress. All checks precede all effects; on any error nothing changes.
pub fn claim_vested_token(
    v: &mut TokenVesting,
    now: i64,
    vault_balance: &mut u64,
    beneficiary_balance: &mut u64,
) -> (r: Result<(), TokenVestingError>)
    requires
        old(v).wf(),
        i64::MIN <= now - old(v).start_time <= i64::MAX,
        *old(beneficiary_balance) + old(v).total_amount <= u64::MAX,
    ensures
        final(v).wf(),
        match r {
            Ok(()) => {
                &&& now - old(v).start_time > 0
                &&& !(now - old(v).start_time >= old(v).duration && old(v).claimed_amount >= old(
                    v,
                ).total_amount)
                &&& claimable_periods(*old(v), now) > 0
                &&& old(v).claimed_amount + claimable_amount(*old(v), now) <= old(v).total_amount
                &&& *old(vault_balance) >= claimable_amount(*old(v), now)
                &&& final(v).passed_periods == old(v).passed_periods + claimable_periods(
                    *old(v),
                    now,
                )
                &&& final(v).claimed_amount == old(v).claimed_amount + claimable_amount(
                    *old(v),
                    now,
                )
                &&& final(v).beneficiary == old(v).beneficiary
                &&& final(v).mint == old(v).mint
                &&& final(v).vesting_period == old(v).vesting_period
                &&& final(v).duration == old(v).duration
                &&& final(v).total_amount == old(v).total_amount
                &&& final(v).start_time == old(v).start_time
                &&& *final(vault_balance) == *old(vault_balance) - claimable_amount(*old(v), now)
                &&& *final(beneficiary_balance) == *old(beneficiary_balance) + claimable_amount(
                    *old(v),
                    now,
                )
            },
            Err(e) => {
                &&& (e == TokenVestingError::VestingNotStarted <==> now - old(v).start_time <= 0)
                &&& (e == TokenVestingError::VestingEnded <==> now - old(v).start_time > 0 && now
                    - old(v).start_time >= old(v).duration && old(v).claimed_amount >= old(
                    v,
                ).total_amount)
                &&& (e == TokenVestingError::VestingPeriodNotReached <==> now - old(v).start_time
                    > 0 && !(now - old(v).start_time >= old(v).duration && old(v).claimed_amount
                    >= old(v).total_amount) && claimable_periods(*old(v), now) <= 0)
                &&& (e == TokenVestingError::Overflow <==> now - old(v).start_time > 0 && !(now
                    - old(v).start_time >= old(v).duration && old(v).claimed_amount >= old(
                    v,
                ).total_amount) && claimable_periods(*old(v), now) > 0 && old(v).claimed_amount
                    + claimable_amount(*old(v), now) > u64::MAX)
                &&& (e == TokenVestingError::OverClaimed <==> now - old(v).start_time > 0 && !(now
                    - old(v).start_time >= old(v).duration && old(v).claimed_amount >= old(
                    v,
                ).total_amount) && claimable_periods(*old(v), now) > 0 && old(v).claimed_amount
                    + claimable_amount(*old(v), now) <= u64::MAX && old(v).claimed_amount
                    + claimable_amount(*old(v), now) > old(v).total_amount)
                &&& (e == TokenVestingError::NotEnoughToken <==> now - old(v).start_time > 0 && !(
                now - old(v).start_time >= old(v).duration && old(v).claimed_amount >= old(
                    v,
                ).total_amount) && claimable_periods(*old(v), now) > 0 && old(v).claimed_amount
                    + claimable_amount(*old(v), now) <= old(v).total_amount && *old(vault_balance)
                    < claimable_amount(*old(v), now))
                &&& (e == TokenVestingError::VestingNotStarted || e
                    == TokenVestingError::VestingEnded || e
                    == TokenVestingError::VestingPeriodNotReached || e
                    == TokenVestingError::Overflow || e == TokenVestingError::OverClaimed || e
                    == TokenVestingError::NotEnoughToken)
                &&& *final(v) == *old(v)
                &&& *final(vault_balance) == *old(vault_balance)
                &&& *final(beneficiary_balance) == *old(beneficiary_balance)
            },
        },
{
    let time_lapsed_i: i64 = now - v.start_time;
    if time_lapsed_i <= 0 {
        return Err(TokenVestingError::VestingNotStarted);
    }
    if time_lapsed_i >= v.duration && v.claimed_amount >= v.total_amount {
        return Err(TokenVestingError::VestingEnded);
    }
    let time_lapsed: u64 = time_lapsed_i as u64;
    let vp: u64 = v.vesting_period as u64;
    let n_periods: u64 = (v.duration as u64) / vp;
    let period_passed: u64 = time_lapsed / vp;
    let passed: u64 = v.passed_periods as u64;
    proof {
        assert(n_periods >= 1 && period_passed <= time_lapsed) by (nonlinear_arith)
            requires
                vp >= 1,
                v.duration as u64 >= vp,
                n_periods == v.duration as u64 / vp,
                period_passed == time_lapsed / vp,
                time_lapsed >= 1,
        ;
    }
    if period_passed <= passed {
        return Err(TokenVestingError::VestingPeriodNotReached);
    }
    let mut claimable: u64 = period_passed - passed;
    if claimable > n_periods {
        claimable = n_periods;
    }
    proof {
        assert(n_periods == total_periods(*v));
        assert(period_passed == periods_elapsed(*v, now));
        assert(claimable == claimable_periods(*v, now));
    }
    let per_period: u64 = v.total_amount / n_periods;
    proof {
        lemma_fundamental_div_mod(v.total_amount as int, n_periods as int);
        lemma_mul_inequality(claimable as int, n_periods as int, per_period as int);
        assert(per_period * claimable == claimable * per_period) by (nonlinear_arith);
        assert(n_periods * per_period == n_periods as int * (v.total_amount as int / n_periods
            as int));
        assert(per_period * claimable + v.total_amount as int % n_periods as int
            <= v.total_amount);
    }
    let mut claimable_amt: u64 = per_period * claimable;
    if passed + claimable >= n_periods {
        claimable_amt = claimable_amt + v.total_amount % n_periods;
    }
    assert(claimable_amt == claimable_amount(*v, now));
    assert(claimable_amt <= v.total_amount);
    let new_claimed: u64 = match v.claimed_amount.checked_add(claimable_amt) {
        Some(c) => c,
        None => {
            return Err(TokenVestingError::Overflow);
        },
    };
    if new_claimed > v.total_amount {
        return Err(TokenVestingError::OverClaimed);
    }
    match treasury::transfer_lamports(vault_balance, beneficiary_balance, claimable_amt) {
        Ok(()) => {},
        Err(TransferError::InsufficientFunds) => {
            return Err(TokenVestingError::NotEnoughToken);
        },
        Err(TransferError::Unauthorized) => {
            return Err(TokenVestingError::NotEnoughToken);
        },
    }
    assert(passed + claimable <= period_passed);
    v.passed_periods = v.passed_periods + (claimable as i64);
    v.claimed_amount = new_claimed;
    Ok(())
}

} // verus!
