//! Escrow: an initiator locks lamports in a vault for a counterparty. The
//! counterparty marks the work delivered; the initiator then releases the
//! funds, or cancels and takes them back while neither release nor an
//! earlier cancellation has happened. Fulfilled and cancelled are terminal
//! and mutually exclusive.

use vstd::prelude::*;

use crate::treasury;
use crate::treasury::TransferError;

verus! {

/// Why an escrow request was refused.
#[derive(Clone, Copy, PartialEq, Eq, Structural, Debug)]
pub enum EscrowError {
    Unauthorized,
    TooEarly,
    AlreadyFulfilled,
    AlreadyCancelled,
    NotDelivered,
    InvalidAmount,
    InsufficientFunds,
}

impl EscrowError {
    /// A descriptive message for the error code.
    pub fn message(&self) -> &'static str {
        match self {
            EscrowError::Unauthorized => "Unauthorized operation",
            EscrowError::TooEarly => "Too early to cancel",
            EscrowError::AlreadyFulfilled => "Request already fulfilled",
            EscrowError::AlreadyCancelled => "Escrow already cancelled",
            EscrowError::NotDelivered => "Party has not yet marked delivery",
            EscrowError::InvalidAmount => "Invalid amount",
            EscrowError::InsufficientFunds => "The paying account does not cover the amount",
        }
    }
}

/// One escrow agreement: who opened it, who is to deliver, how many
/// lamports are held, and the three one-way flags of its lifecycle.
#[derive(Clone, Copy, PartialEq, Eq, Structural, Debug)]
pub struct EscrowAccount {
    pub initiator: u64,
    pub party: u64,
    pub amount: u64,
    pub is_fullfulled: bool,
    pub is_cancelled: bool,
    pub party_marked_delivered: bool,
    pub index: u64,
}

/// An escrow is never both fulfilled and cancelled.
pub open spec fn escrow_consistent(e: EscrowAccount) -> bool {
    !(e.is_fullfulled && e.is_cancelled)
}

/// Opens an escrow: records the parties and the amount, and moves the
/// amount from the initiator's lamports into the vault. A zero amount is
/// refused; on any error nothing is recorded and nothing moves.
pub fn initialize_escrow(
    escrow: &mut EscrowAccount,
    payer: u64,
    party: u64,
    amount: u64,
    escrow_index: u64,
    payer_lamports: &mut u64,
    vault_lamports: &mut u64,
) -> (r: Result<(), EscrowError>)
    requires
        *old(vault_lamports) + amount <= u64::MAX,
    ensures
        match r {
            Ok(()) => {
                &&& amount > 0
                &&& *old(payer_lamports) >= amount
                &&& final(escrow).initiator == payer
                &&& final(escrow).party == party
                &&& final(escrow).amount == amount
                &&& !final(escrow).is_fullfulled
                &&& !final(escrow).is_cancelled
                &&& !final(escrow).party_marked_delivered
                &&& final(escrow).index == escrow_index
                &&& *final(payer_lamports) == *old(payer_lamports) - amount
                &&& *final(vault_lamports) == *old(vault_lamports) + amount
                &&& escrow_consistent(*final(escrow))
            },
            Err(EscrowError::InvalidAmount) => {
                &&& amount == 0
                &&& *final(escrow) == *old(escrow)
                &&& *final(payer_lamports) == *old(payer_lamports)
                &&& *final(vault_lamports) == *old(vault_lamports)
            },
            Err(EscrowError::InsufficientFunds) => {
                &&& amount > 0
                &&& *old(payer_lamports) < amount
                &&& *final(escrow) == *old(escrow)
                &&& *final(payer_lamports) == *old(payer_lamports)
                &&& *final(vault_lamports) == *old(vault_lamports)
            },
            Err(_) => false,
        },
{
    if amount == 0 {
        return Err(EscrowError::InvalidAmount);
    }
    match treasury::transfer_lamports(payer_lamports, vault_lamports, amount) {
        Ok(()) => {},
        Err(TransferError::InsufficientFunds) => {
            return Err(EscrowError::InsufficientFunds);
        },
        Err(TransferError::Unauthorized) => {
            return Err(EscrowError::Unauthorized);
        },
    }
    escrow.initiator = payer;
    escrow.party = party;
    escrow.amount = amount;
    escrow.is_fullfulled = false;
    escrow.is_cancelled = false;
    escrow.party_marked_delivered = false;
    escrow.index = escrow_index;
    Ok(())
}

/// The counterparty marks the escrowed work as delivered. Only the recorded
/// party may do so, and only while the escrow is neither cancelled nor
/// fulfilled.
pub fn mark_as_delivered(escrow: &mut EscrowAccount, party: u64) -> (r: Result<(), EscrowError>)
    ensures
        match r {
            Ok(()) => {
                &&& party == old(escrow).party
                &&& !old(escrow).is_cancelled
                &&& !old(escrow).is_fullfulled
                &&& final(escrow).party_marked_delivered
                &&& final(escrow).initiator == old(escrow).initiator
                &&& final(escrow).party == old(escrow).party
                &&& final(escrow).amount == old(escrow).amount
                &&& final(escrow).is_fullfulled == old(escrow).is_fullfulled
                &&& final(escrow).is_cancelled == old(escrow).is_cancelled
                &&& final(escrow).index == old(escrow).index
            },
            Err(e) => {
                &&& (e == EscrowError::Unauthorized <==> party != old(escrow).party)
                &&& (e == EscrowError::AlreadyCancelled <==> party == old(escrow).party && old(
                    escrow,
                ).is_cancelled)
                &&& (e == EscrowError::AlreadyFulfilled <==> party == old(escrow).party && !old(
                    escrow,
                ).is_cancelled && old(escrow).is_fullfulled)
                &&& (e == EscrowError::Unauthorized || e == EscrowError::AlreadyCancelled || e
                    == EscrowError::AlreadyFulfilled)
                &&& *final(escrow) == *old(escrow)
            },
        },
{
    if escrow.party != party {
        return Err(EscrowError::Unauthorized);
    }
    if escrow.is_cancelled {
        return Err(EscrowError::AlreadyCancelled);
    }
    if escrow.is_fullfulled {
        return Err(EscrowError::AlreadyFulfilled);
    }
    escrow.party_marked_delivered = true;
    Ok(())
}

/// The initiator confirms delivery: the vault's lamports move to the
/// counterparty and the escrow becomes fulfilled, terminally. Requires the
/// party to have marked delivery first.
pub fn delivery_fulfilled(
    escrow: &mut EscrowAccount,
    initiator: u64,
    vault_lamports: &mut u64,
    party_lamports: &mut u64,
) -> (r: Result<(), EscrowError>)
    requires
        *old(party_lamports) + old(escrow).amount <= u64::MAX,
    ensures
        match r {
            Ok(()) => {
                &&& initiator == old(escrow).initiator
                &&& old(escrow).party_marked_delivered
                &&& !old(escrow).is_cancelled
                &&& !old(escrow).is_fullfulled
                &&& *old(vault_lamports) >= old(escrow).amount
                &&& final(escrow).is_fullfulled
                &&& final(escrow).is_cancelled == old(escrow).is_cancelled
                &&& final(escrow).initiator == old(escrow).initiator
                &&& final(escrow).party == old(escrow).party
                &&& final(escrow).amount == old(escrow).amount
                &&& final(escrow).party_marked_delivered == old(escrow).party_marked_delivered
                &&& final(escrow).index == old(escrow).index
                &&& *final(vault_lamports) == *old(vault_lamports) - old(escrow).amount
                &&& *final(party_lamports) == *old(party_lamports) + old(escrow).amount
                &&& escrow_consistent(*final(escrow))
            },
            Err(e) => {
                &&& (e == EscrowError::Unauthorized <==> initiator != old(escrow).initiator)
                &&& (e == EscrowError::NotDelivered <==> initiator == old(escrow).initiator && !old(
                    escrow,
                ).party_marked_delivered)
                &&& (e == EscrowError::AlreadyCancelled <==> initiator == old(escrow).initiator
                    && old(escrow).party_marked_delivered && old(escrow).is_cancelled)
                &&& (e == EscrowError::AlreadyFulfilled <==> initiator == old(escrow).initiator
                    && old(escrow).party_marked_delivered && !old(escrow).is_cancelled && old(
                    escrow,
                ).is_fullfulled)
                &&& (e == EscrowError::InsufficientFunds <==> initiator == old(escrow).initiator
                    && old(escrow).party_marked_delivered && !old(escrow).is_cancelled && !old(
                    escrow,
                ).is_fullfulled && *old(vault_lamports) < old(escrow).amount)
                &&& (e == EscrowError::Unauthorized || e == EscrowError::NotDelivered || e
                    == EscrowError::AlreadyCancelled || e == EscrowError::AlreadyFulfilled || e
                    == EscrowError::InsufficientFunds)
                &&& *final(escrow) == *old(escrow)
                &&& *final(vault_lamports) == *old(vault_lamports)
                &&& *final(party_lamports) == *old(party_lamports)
            },
        },
{
    if initiator != escrow.initiator {
        return Err(EscrowError::Unauthorized);
    }
    if !escrow.party_marked_delivered {
        return Err(EscrowError::NotDelivered);
    }
    if escrow.is_cancelled {
        return Err(EscrowError::AlreadyCancelled);
    }
    if escrow.is_fullfulled {
        return Err(EscrowError::AlreadyFulfilled);
    }
    match treasury::transfer_lamports(vault_lamports, party_lamports, escrow.amount) {
        Ok(()) => {},
        Err(TransferError::InsufficientFunds) => {
            return Err(EscrowError::InsufficientFunds);
        },
        Err(TransferError::Unauthorized) => {
            return Err(EscrowError::Unauthorized);
        },
    }
    escrow.is_fullfulled = true;
    Ok(())
}

/// The initiator cancels the escrow and takes the vault's lamports back,
/// while it is neither cancelled nor fulfilled. Cancellation is terminal.
pub fn cancel_escrow(
    escrow: &mut EscrowAccount,
    initiator: u64,
    vault_lamports: &mut u64,
    initiator_lamports: &mut u64,
) -> (r: Result<(), EscrowError>)
    requires
        *old(initiator_lamports) + old(escrow).amount <= u64::MAX,
    ensures
        match r {
            Ok(()) => {
                &&& initiator == old(escrow).initiator
                &&& !old(escrow).is_cancelled
                &&& !old(escrow).is_fullfulled
                &&& *old(vault_lamports) >= old(escrow).amount
                &&& final(escrow).is_cancelled
                &&& final(escrow).is_fullfulled == old(escrow).is_fullfulled
                &&& final(escrow).initiator == old(escrow).initiator
                &&& final(escrow).party == old(escrow).party
                &&& final(escrow).amount == old(escrow).amount
                &&& final(escrow).party_marked_delivered == old(escrow).party_marked_delivered
                &&& final(escrow).index == old(escrow).index
                &&& *final(vault_lamports) == *old(vault_lamports) - old(escrow).amount
                &&& *final(initiator_lamports) == *old(initiator_lamports) + old(escrow).amount
                &&& escrow_consistent(*final(escrow))
            },
            Err(e) => {
                &&& (e == EscrowError::Unauthorized <==> initiator != old(escrow).initiator)
                &&& (e == EscrowError::AlreadyCancelled <==> initiator == old(escrow).initiator
                    && old(escrow).is_cancelled)
                &&& (e == EscrowError::AlreadyFulfilled <==> initiator == old(escrow).initiator
                    && !old(escrow).is_cancelled && old(escrow).is_fullfulled)
                &&& (e == EscrowError::InsufficientFunds <==> initiator == old(escrow).initiator
                    && !old(escrow).is_cancelled && !old(escrow).is_fullfulled && *old(
                    vault_lamports,
                ) < old(escrow).amount)
                &&& (e == EscrowError::Unauthorized || e == EscrowError::AlreadyCancelled || e
                    == EscrowError::AlreadyFulfilled || e == EscrowError::InsufficientFunds)
                &&& *final(escrow) == *old(escrow)
                &&& *final(vault_lamports) == *old(vault_lamports)
                &&& *final(initiator_lamports) == *old(initiator_lamports)
            },
        },
{
    if initiator != escrow.initiator {
        return Err(EscrowError::Unauthorized);
    }
    if escrow.is_cancelled {
        return Err(EscrowError::AlreadyCancelled);
    }
    if escrow.is_fullfulled {
        return Err(EscrowError::AlreadyFulfilled);
    }
    match treasury::transfer_lamports(vault_lamports, initiator_lamports, escrow.amount) {
        Ok(()) => {},
        Err(TransferError::InsufficientFunds) => {
            return Err(EscrowError::InsufficientFunds);
        },
        Err(TransferError::Unauthorized) => {
            return Err(EscrowError::Unauthorized);
        },
    }
    escrow.is_cancelled = true;
    Ok(())
}

} // verus!
