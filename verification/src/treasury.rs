//! Treasury gateway: the custody-transfer primitive. A token account pairs a
//! balance with the id that is authorized to move it; a transfer checks the
//! supplied authorization against that id before any balance changes hands,
//! and either moves the full amount or changes nothing. Plain lamport
//! balances (no authority recorded on the account itself) move through
//! `transfer_lamports`.

use vstd::prelude::*;

verus! {

/// A custodial token account: the balance it holds and the id that may
/// spend from it.
#[derive(Clone, Copy, PartialEq, Eq, Structural, Debug)]
pub struct TokenAccount {
    pub authority: u64,
    pub amount: u64,
}

/// Why a custody transfer was refused.
#[derive(Clone, Copy, PartialEq, Eq, Structural, Debug)]
pub enum TransferError {
    InsufficientFunds,
    Unauthorized,
}

/// Moves `amount` from `from` to `to`, but only when `authorization` is the
/// id recorded as `from`'s spending authority and the balance covers the
/// amount. All-or-nothing: on any error both accounts are left unchanged.
pub fn transfer(
    from: &mut TokenAccount,
    to: &mut TokenAccount,
    amount: u64,
    authorization: u64,
) -> (r: Result<(), TransferError>)
    requires
        old(to).amount + amount <= u64::MAX,
    ensures
        match r {
            Ok(()) => {
                &&& authorization == old(from).authority
                &&& old(from).amount >= amount
                &&& final(from).amount == old(from).amount - amount
                &&& final(to).amount == old(to).amount + amount
                &&& final(from).authority == old(from).authority
                &&& final(to).authority == old(to).authority
            },
            Err(TransferError::Unauthorized) => {
                &&& authorization != old(from).authority
                &&& *final(from) == *old(from)
                &&& *final(to) == *old(to)
            },
            Err(TransferError::InsufficientFunds) => {
                &&& authorization == old(from).authority
                &&& old(from).amount < amount
                &&& *final(from) == *old(from)
                &&& *final(to) == *old(to)
            },
        },
{
    if authorization != from.authority {
        return Err(TransferError::Unauthorized);
    }
    if from.amount < amount {
        return Err(TransferError::InsufficientFunds);
    }
    from.amount = from.amount - amount;
    to.amount = to.amount + amount;
    Ok(())
}

/// Moves `amount` between two plain lamport balances. The runtime has
/// already established who may spend `from`, so only the balance is
/// checked; on an insufficient balance nothing moves.
pub fn transfer_lamports(from: &mut u64, to: &mut u64, amount: u64) -> (r: Result<
    (),
    TransferError,
>)
    requires
        *old(to) + amount <= u64::MAX,
    ensures
        match r {
            Ok(()) => {
                &&& *old(from) >= amount
                &&& *final(from) == *old(from) - amount
                &&& *final(to) == *old(to) + amount
            },
            Err(TransferError::InsufficientFunds) => {
                &&& *old(from) < amount
                &&& *final(from) == *old(from)
                &&& *final(to) == *old(to)
            },
            Err(TransferError::Unauthorized) => false,
        },
{
    if *from < amount {
        return Err(TransferError::InsufficientFunds);
    }
    *from = *from - amount;
    *to = *to + amount;
    Ok(())
}

} // verus!
