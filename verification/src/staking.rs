//! Time-weighted staking rewards: lamports staked into a vault accrue
//! points at a fixed rate per SOL per day. Accrued points are brought up to
//! date from the staked amount and the seconds elapsed since the last
//! update; staking, unstaking and claiming all settle the accrual first.
//!
//! The accrual arithmetic reproduces the ledger program exactly: the
//! elapsed seconds are the two's-complement reinterpretation of a possibly
//! negative clock difference, and the points product is computed in 128
//! bits and truncated to 64 when stored.

use vstd::prelude::*;

use crate::treasury;
use crate::treasury::TransferError;

verus! {

pub const POINTS_PER_SOL_PER_DAY: u64 = 1_000_000;

pub const LAMPORTS_PER_SOL: u64 = 1_000_000_000;

pub const SECONDS_PER_DAY: u64 = 86_400;

/// Why a staking request was refused.
#[derive(Clone, Copy, PartialEq, Eq, Structural, Debug)]
pub enum StakeError {
    InvalidAmount,
    InsufficientStake,
    Unauthorized,
    Overflow,
    Underflow,
    InvalidTimestamp,
    InsufficientFunds,
}

impl StakeError {
    /// A descriptive message for the error code.
    pub fn message(&self) -> &'static str {
        match self {
            StakeError::InvalidAmount => "Amount must be greater than 0",
            StakeError::InsufficientStake => "Insufficient staked amount",
            StakeError::Unauthorized => "Unauthorized access",
            StakeError::Overflow => "Arithmetic overflow",
            StakeError::Underflow => "Arithmetic underflow",
            StakeError::InvalidTimestamp => "Invalid timestamp",
            StakeError::InsufficientFunds => "The paying account does not cover the amount",
        }
    }
}

/// One staker's position: the owner, the staked lamports, the accrued
/// points (scaled by `POINTS_PER_SOL_PER_DAY`), and when they were last
/// brought up to date.
#[derive(Clone, Copy, PartialEq, Eq, Structural, Debug)]
pub struct StakeAccount {
    pub owner: u64,
    pub staked_amount: u64,
    pub total_points: u64,
    pub last_update_time: i64,
}

/// The points earned by staking `staked` lamports for `elapsed` seconds,
/// before the 64-bit truncation of the stored value.
pub open spec fn points_of(staked: int, elapsed: int) -> int {
    staked * elapsed * (POINTS_PER_SOL_PER_DAY as int) / (LAMPORTS_PER_SOL as int) / (
    SECONDS_PER_DAY as int)
}

/// Whether the 128-bit points product overflows.
pub open spec fn points_mul_overflows(staked: int, elapsed: int) -> bool {
    staked * elapsed * (POINTS_PER_SOL_PER_DAY as int) > u128::MAX
}

/// The elapsed-seconds value the accrual uses: the clock difference
/// reinterpreted as an unsigned 64-bit value, exactly as the ledger
/// program's cast does.
pub open spec fn elapsed_of(d: int) -> int {
    if d >= 0 {
        d
    } else {
        d + 0x1_0000_0000_0000_0000
    }
}

/// The state an accrual update at `current_time` leaves: points brought up
/// to date and the update time advanced, or the account untouched where
/// the update's own arithmetic refuses (a clock difference outside 64
/// signed bits, or an overflowing points sum).
pub open spec fn try_update(a: StakeAccount, current_time: i64) -> StakeAccount {
    let d = current_time - a.last_update_time;
    if !(i64::MIN <= d <= i64::MAX) {
        a
    } else {
        let elapsed = elapsed_of(d);
        if elapsed > 0 && a.staked_amount > 0 {
            if points_mul_overflows(a.staked_amount as int, elapsed) {
                a
            } else {
                let p = points_of(a.staked_amount as int, elapsed) % 0x1_0000_0000_0000_0000;
                if a.total_points + p > u64::MAX {
                    a
                } else {
                    StakeAccount {
                        owner: a.owner,
                        staked_amount: a.staked_amount,
                        total_points: (a.total_points + p) as u64,
                        last_update_time: current_time,
                    }
                }
            }
        } else {
            StakeAccount {
                owner: a.owner,
                staked_amount: a.staked_amount,
                total_points: a.total_points,
                last_update_time: current_time,
            }
        }
    }
}

/// Initializes a staker's position: nothing staked, no points, the accrual
/// clock started at `now`.
pub fn create_pda_account(pda_account: &mut StakeAccount, payer: u64, now: i64)
    ensures
        final(pda_account).owner == payer,
        final(pda_account).staked_amount == 0,
        final(pda_account).total_points == 0,
        final(pda_account).last_update_time == now,
{
    pda_account.owner = payer;
    pda_account.staked_amount = 0;
    pda_account.total_points = 0;
    pda_account.last_update_time = now;
}

/// The points earned by `staked_amount` lamports over `time_elapsed_seconds`
/// seconds: the product scaled to points per SOL per day, computed in 128
/// bits — refused only when even 128 bits overflow — and truncated to the
/// stored 64 bits.
pub fn calculate_points_earned(staked_amount: u64, time_elapsed_seconda: u64) -> (r: Result<
    u64,
    StakeError,
>)
    ensures
        match r {
            Ok(p) => {
                &&& !points_mul_overflows(staked_amount as int, time_elapsed_seconda as int)
                &&& p == points_of(staked_amount as int, time_elapsed_seconda as int)
                    % 0x1_0000_0000_0000_0000
                &&& (points_of(staked_amount as int, time_elapsed_seconda as int) <= u64::MAX ==> p
                    == points_of(staked_amount as int, time_elapsed_seconda as int))
            },
            Err(StakeError::Overflow) => points_mul_overflows(
                staked_amount as int,
                time_elapsed_seconda as int,
            ),
            Err(_) => false,
        },
{
    proof {
        assert(staked_amount as int * time_elapsed_seconda as int <= u128::MAX) by (nonlinear_arith)
            requires
                staked_amount <= u64::MAX,
                time_elapsed_seconda <= u64::MAX,
        ;
    }
    let product = match (staked_amount as u128).checked_mul(time_elapsed_seconda as u128) {
        Some(x) => x,
        None => {
            return Err(StakeError::Overflow);
        },
    };
    let scaled = match product.checked_mul(POINTS_PER_SOL_PER_DAY as u128) {
        Some(x) => x,
        None => {
            return Err(StakeError::Overflow);
        },
    };
    let per_sol = scaled / (LAMPORTS_PER_SOL as u128);
    let points = per_sol / (SECONDS_PER_DAY as u128);
    let low = points % 0x1_0000_0000_0000_0000u128;
    Ok(low as u64)
}

/// Brings the accrued points up to date at `current_time` and advances the
/// accrual clock. Refuses — leaving the account untouched — when the clock
/// difference does not fit 64 signed bits or the points sum overflows.
pub fn update_points(pda_account: &mut StakeAccount, current_time: i64) -> (r: Result<
    (),
    StakeError,
>)
    ensures
        *final(pda_account) == try_update(*old(pda_account), current_time),
        match r {
            Ok(()) => {
                &&& i64::MIN <= current_time - old(pda_account).last_update_time <= i64::MAX
                &&& final(pda_account).last_update_time == current_time
            },
            Err(StakeError::InvalidTimestamp) => !(i64::MIN <= current_time - old(
                pda_account,
            ).last_update_time <= i64::MAX),
            Err(StakeError::Overflow) => {
                let d = current_time - old(pda_account).last_update_time;
                &&& i64::MIN <= d <= i64::MAX
                &&& elapsed_of(d) > 0 && old(pda_account).staked_amount > 0
                &&& (points_mul_overflows(old(pda_account).staked_amount as int, elapsed_of(d))
                    || old(pda_account).total_points + points_of(
                    old(pda_account).staked_amount as int,
                    elapsed_of(d),
                ) % 0x1_0000_0000_0000_0000 > u64::MAX)
                &&& *final(pda_account) == *old(pda_account)
            },
            Err(_) => false,
        },
{
    let diff = match current_time.checked_sub(pda_account.last_update_time) {
        Some(d) => d,
        None => {
            return Err(StakeError::InvalidTimestamp);
        },
    };
    let time_elapsed: u64 = if diff >= 0 {
        diff as u64
    } else {
        (((diff as i128) + 0x1_0000_0000_0000_0000i128) as u64)
    };
    if time_elapsed > 0 && pda_account.staked_amount > 0 {
        let new_points = match calculate_points_earned(pda_account.staked_amount, time_elapsed) {
            Ok(p) => p,
            Err(e) => {
                return Err(e);
            },
        };
        let total = match pda_account.total_points.checked_add(new_points) {
            Some(t) => t,
            None => {
                return Err(StakeError::Overflow);
            },
        };
        pda_account.total_points = total;
    }
    pda_account.last_update_time = current_time;
    Ok(())
}

/// Stakes `amount` lamports: settles the accrual, moves the lamports into
/// the vault, and grows the staked total. A failed accrual settlement is
/// ignored, as the ledger program ignores it; every other refusal leaves
/// everything unchanged.
pub fn stake(
    pda_account: &mut StakeAccount,
    amount: u64,
    now: i64,
    user_lamports: &mut u64,
    vault_lamports: &mut u64,
) -> (r: Result<(), StakeError>)
    requires
        *old(vault_lamports) + amount <= u64::MAX,
    ensures
        match r {
            Ok(()) => {
                let u = try_update(*old(pda_account), now);
                &&& amount > 0
                &&& *old(user_lamports) >= amount
                &&& old(pda_account).staked_amount + amount <= u64::MAX
                &&& final(pda_account).owner == u.owner
                &&& final(pda_account).staked_amount == u.staked_amount + amount
                &&& final(pda_account).total_points == u.total_points
                &&& final(pda_account).last_update_time == u.last_update_time
                &&& *final(user_lamports) == *old(user_lamports) - amount
                &&& *final(vault_lamports) == *old(vault_lamports) + amount
            },
            Err(e) => {
                &&& (e == StakeError::InvalidAmount <==> amount == 0)
                &&& (e == StakeError::InsufficientFunds <==> amount > 0 && *old(user_lamports)
                    < amount)
                &&& (e == StakeError::Overflow <==> amount > 0 && *old(user_lamports) >= amount
                    && old(pda_account).staked_amount + amount > u64::MAX)
                &&& (e == StakeError::InvalidAmount || e == StakeError::InsufficientFunds || e
                    == StakeError::Overflow)
                &&& *final(pda_account) == *old(pda_account)
                &&& *final(user_lamports) == *old(user_lamports)
                &&& *final(vault_lamports) == *old(vault_lamports)
            },
        },
{
    if amount == 0 {
        return Err(StakeError::InvalidAmount);
    }
    let mut updated = *pda_account;
    let _ = update_points(&mut updated, now);
    if *user_lamports < amount {
        return Err(StakeError::InsufficientFunds);
    }
    let new_staked = match updated.staked_amount.checked_add(amount) {
        Some(s) => s,
        None => {
            return Err(StakeError::Overflow);
        },
    };
    match treasury::transfer_lamports(user_lamports, vault_lamports, amount) {
        Ok(()) => {},
        Err(TransferError::InsufficientFunds) => {
            return Err(StakeError::InsufficientFunds);
        },
        Err(TransferError::Unauthorized) => {
            return Err(StakeError::Unauthorized);
        },
    }
    updated.staked_amount = new_staked;
    *pda_account = updated;
    Ok(())
}

/// Unstakes `amount` lamports: settles the accrual, moves the lamports
/// from the vault back to the user, and shrinks the staked total. A zero
/// amount is refused with the overflow code, as the ledger program does.
pub fn unstake(
    pda_account: &mut StakeAccount,
    amount: u64,
    now: i64,
    user_lamports: &mut u64,
    vault_lamports: &mut u64,
) -> (r: Result<(), StakeError>)
    requires
        *old(user_lamports) + amount <= u64::MAX,
    ensures
        match r {
            Ok(()) => {
                let u = try_update(*old(pda_account), now);
                &&& amount > 0
                &&& old(pda_account).staked_amount >= amount
                &&& *old(vault_lamports) >= amount
                &&& final(pda_account).owner == u.owner
                &&& final(pda_account).staked_amount == u.staked_amount - amount
                &&& final(pda_account).total_points == u.total_points
                &&& final(pda_account).last_update_time == u.last_update_time
                &&& *final(vault_lamports) == *old(vault_lamports) - amount
                &&& *final(user_lamports) == *old(user_lamports) + amount
            },
            Err(e) => {
                &&& (e == StakeError::Overflow <==> amount == 0)
                &&& (e == StakeError::InsufficientStake <==> amount > 0 && old(
                    pda_account,
                ).staked_amount < amount)
                &&& (e == StakeError::InsufficientFunds <==> amount > 0 && old(
                    pda_account,
                ).staked_amount >= amount && *old(vault_lamports) < amount)
                &&& (e == StakeError::Overflow || e == StakeError::InsufficientStake || e
                    == StakeError::InsufficientFunds)
                &&& *final(pda_account) == *old(pda_account)
                &&& *final(user_lamports) == *old(user_lamports)
                &&& *final(vault_lamports) == *old(vault_lamports)
            },
        },
{
    if amount == 0 {
        return Err(StakeError::Overflow);
    }
    if pda_account.staked_amount < amount {
        return Err(StakeError::InsufficientStake);
    }
    let mut updated = *pda_account;
    let _ = update_points(&mut updated, now);
    match treasury::transfer_lamports(vault_lamports, user_lamports, amount) {
        Ok(()) => {},
        Err(TransferError::InsufficientFunds) => {
            return Err(StakeError::InsufficientFunds);
        },
        Err(TransferError::Unauthorized) => {
            return Err(StakeError::Unauthorized);
        },
    }
    let new_staked = match updated.staked_amount.checked_sub(amount) {
        Some(s) => s,
        None => {
            return Err(StakeError::Underflow);
        },
    };
    updated.staked_amount = new_staked;
    *pda_account = updated;
    Ok(())
}

/// Settles the accrual, reports the claimable points — the accrued total
/// descaled — and resets the accrued total to zero.
pub fn claim_points(pda_account: &mut StakeAccount, now: i64) -> (claimable: u64)
    ensures
        ({
            let u = try_update(*old(pda_account), now);
            &&& claimable == u.total_points / 1_000_000
            &&& final(pda_account).owner == u.owner
            &&& final(pda_account).staked_amount == u.staked_amount
            &&& final(pda_account).total_points == 0
            &&& final(pda_account).last_update_time == u.last_update_time
        }),
{
    let mut updated = *pda_account;
    let _ = update_points(&mut updated, now);
    let claimable = updated.total_points / 1_000_000;
    updated.total_points = 0;
    *pda_account = updated;
    claimable
}

/// Reports the points the position would hold once brought up to date at
/// `now`, without changing anything.
pub fn get_points(pda_account: &StakeAccount, now: i64) -> (r: Result<u64, StakeError>)
    ensures
        match r {
            Ok(p) => {
                let d = now - pda_account.last_update_time;
                &&& i64::MIN <= d <= i64::MAX
                &&& !points_mul_overflows(pda_account.staked_amount as int, elapsed_of(d))
                &&& pda_account.total_points + points_of(
                    pda_account.staked_amount as int,
                    elapsed_of(d),
                ) % 0x1_0000_0000_0000_0000 <= u64::MAX
                &&& p == pda_account.total_points + points_of(
                    pda_account.staked_amount as int,
                    elapsed_of(d),
                ) % 0x1_0000_0000_0000_0000
            },
            Err(StakeError::Underflow) => !(i64::MIN <= now - pda_account.last_update_time
                <= i64::MAX),
            Err(StakeError::Overflow) => {
                let d = now - pda_account.last_update_time;
                &&& i64::MIN <= d <= i64::MAX
                &&& (points_mul_overflows(pda_account.staked_amount as int, elapsed_of(d))
                    || pda_account.total_points + points_of(
                    pda_account.staked_amount as int,
                    elapsed_of(d),
                ) % 0x1_0000_0000_0000_0000 > u64::MAX)
            },
            Err(_) => false,
        },
{
    let diff = match now.checked_sub(pda_account.last_update_time) {
        Some(d) => d,
        None => {
            return Err(StakeError::Underflow);
        },
    };
    let time_elapsed: u64 = if diff >= 0 {
        diff as u64
    } else {
        (((diff as i128) + 0x1_0000_0000_0000_0000i128) as u64)
    };
    let new_points = match calculate_points_earned(pda_account.staked_amount, time_elapsed) {
        Ok(p) => p,
        Err(e) => {
            return Err(e);
        },
    };
    let current_total_points = match pda_account.total_points.checked_add(new_points) {
        Some(t) => t,
        None => {
            return Err(StakeError::Overflow);
        },
    };
    Ok(current_total_points)
}

} // verus!
