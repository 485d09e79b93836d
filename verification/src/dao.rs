//! Governance: a proposal lifecycle combining weighted voting, quorum-gated
//! execution, idempotent per-voter receipts, and authorized custodial fund
//! release.
//!
//! A proposal is Active while the clock is before its end time and it has not
//! been executed, Expired once the clock passes the end time, and Executed
//! terminally; the first two are derived from the clock at read time, not
//! stored. Each entry point takes the invocation's single clock reading as a
//! parameter and either commits all of its effects or returns an error having
//! changed nothing.

use vstd::prelude::*;

use crate::power::isqrt;
use crate::power::power;
use crate::receipts::AlreadyExists;
use crate::receipts::VoteReceipt;
use crate::receipts::VoteReceiptStore;
use crate::treasury;
use crate::treasury::TokenAccount;
use crate::treasury::TransferError;

verus! {

/// The longest description a proposal may carry, in bytes.
pub const MAX_DESCRIPTION_LEN: usize = 200;

/// Why a governance request was refused. Every refusal aborts the whole
/// invocation with no partial mutation.
#[derive(Clone, Copy, PartialEq, Eq, Structural, Debug)]
pub enum DaoError {
    InsufficientVotingPower,
    ProposalExpired,
    AlreadyExecuted,
    ProposalStillActive,
    QuorumNotMet,
    InvalidRecipient,
    InsufficientProposalCreationPower,
    DuplicateVote,
    ArithmeticOverflow,
    DescriptionTooLong,
    Unauthorized,
    InsufficientFunds,
}

impl DaoError {
    /// A descriptive message for the error code.
    pub fn message(&self) -> &'static str {
        match self {
            DaoError::InsufficientVotingPower => "Voting power is below the required threshold",
            DaoError::ProposalExpired => "Proposal voting period has expired",
            DaoError::AlreadyExecuted => "Proposal already executed",
            DaoError::ProposalStillActive => "Proposal is still active",
            DaoError::QuorumNotMet => "Quorum not met",
            DaoError::InvalidRecipient => "Stored and provided recipient didn't match",
            DaoError::InsufficientProposalCreationPower => "Member power is below required threshold to create proposal",
            DaoError::DuplicateVote => "This voter has already voted on this proposal",
            DaoError::ArithmeticOverflow => "Arithmetic overflow",
            DaoError::DescriptionTooLong => "Proposal description exceeds the length bound",
            DaoError::Unauthorized => "Authorization does not match the custody authority",
            DaoError::InsufficientFunds => "The paying account does not cover the amount",
        }
    }
}

/// Per-token-mint governance configuration. Created once per mint and
/// immutable afterwards.
#[derive(Clone, Copy, PartialEq, Eq, Structural, Debug)]
pub struct DaoState {
    pub authority: u64,
    pub token_mint: u64,
    pub quoram: u64,
    pub proposal_duration: i64,
    pub min_voting_threshold: u64,
    pub min_proposal_creation_threshold: u64,
}

impl DaoState {
    /// Fills in the configuration fields.
    pub fn inialize(
        &mut self,
        authority: u64,
        token_mint: u64,
        quoram: u64,
        proposal_duration: i64,
        min_voting_threshold: u64,
        min_proposal_creation_threshold: u64,
    )
        ensures
            final(self).authority == authority,
            final(self).token_mint == token_mint,
            final(self).quoram == quoram,
            final(self).proposal_duration == proposal_duration,
            final(self).min_voting_threshold == min_voting_threshold,
            final(self).min_proposal_creation_threshold == min_proposal_creation_threshold,
    {
        self.authority = authority;
        self.token_mint = token_mint;
        self.quoram = quoram;
        self.proposal_duration = proposal_duration;
        self.min_voting_threshold = min_voting_threshold;
        self.min_proposal_creation_threshold = min_proposal_creation_threshold;
    }
}

/// A proposal: the owning config, the proposer, the tallies, the voting
/// window, the one-way executed flag, and the custody action to perform on
/// execution.
#[derive(Debug)]
pub struct Proposal {
    pub dao: u64,
    pub proposer: u64,
    pub yes_votes: u64,
    pub no_votes: u64,
    pub start_time: i64,
    pub end_time: i64,
    pub executed: bool,
    pub action_amount: u64,
    pub action_target: u64,
    pub description: Vec<u8>,
}

/// What any operation after creation may do to a proposal: tallies only
/// grow, the voting window and the action are fixed, and the executed flag
/// only moves from false to true.
pub open spec fn proposal_step(pre: Proposal, post: Proposal) -> bool {
    &&& pre.yes_votes <= post.yes_votes
    &&& pre.no_votes <= post.no_votes
    &&& post.start_time == pre.start_time
    &&& post.end_time == pre.end_time
    &&& (pre.executed ==> post.executed)
    &&& post.dao == pre.dao
    &&& post.proposer == pre.proposer
    &&& post.action_amount == pre.action_amount
    &&& post.action_target == pre.action_target
    &&& post.description == pre.description
}

/// Law: across any sequence of post-creation operations, the tallies are
/// monotonically non-decreasing, the voting window set at creation never
/// changes, and the executed flag is write-once.
pub proof fn lemma_proposal_trace(trace: Seq<Proposal>, i: int, j: int)
    requires
        0 <= i <= j < trace.len(),
        forall|k: int| i <= k < j ==> #[trigger] proposal_step(trace[k], trace[k + 1]),
    ensures
        trace[i].yes_votes <= trace[j].yes_votes,
        trace[i].no_votes <= trace[j].no_votes,
        trace[j].start_time == trace[i].start_time,
        trace[j].end_time == trace[i].end_time,
        trace[i].executed ==> trace[j].executed,
    decreases j - i,
{
    if i < j {
        lemma_proposal_trace(trace, i, j - 1);
        let k = j - 1;
        assert(proposal_step(trace[k], trace[k + 1]));
    }
}

impl Proposal {
    /// Creates the proposal against a config. The proposer's power — the
    /// integer square root of the balance snapshot — must clear the
    /// creation threshold; the description must fit the bound; the voting
    /// window is `[now, now + duration]`, fixed here once and for all.
    pub fn initilize(
        &mut self,
        dao: &DaoState,
        dao_key: u64,
        proposer_balance: u64,
        proposer: u64,
        now: i64,
        duration: i64,
        action_amount: u64,
        action_target: u64,
        description: Vec<u8>,
    ) -> (r: Result<(), DaoError>)
        ensures
            match r {
                Ok(()) => {
                    &&& isqrt(proposer_balance as nat) >= dao.min_proposal_creation_threshold
                    &&& description@.len() <= MAX_DESCRIPTION_LEN as nat
                    &&& i64::MIN <= now + duration <= i64::MAX
                    &&& final(self).dao == dao_key
                    &&& final(self).proposer == proposer
                    &&& final(self).description == description
                    &&& final(self).yes_votes == 0
                    &&& final(self).no_votes == 0
                    &&& final(self).start_time == now
                    &&& final(self).end_time == now + duration
                    &&& final(self).end_time == final(self).start_time + duration
                    &&& !final(self).executed
                    &&& final(self).action_amount == action_amount
                    &&& final(self).action_target == action_target
                },
                Err(DaoError::InsufficientProposalCreationPower) => {
                    &&& isqrt(proposer_balance as nat) < dao.min_proposal_creation_threshold
                    &&& *final(self) == *old(self)
                },
                Err(DaoError::DescriptionTooLong) => {
                    &&& isqrt(proposer_balance as nat) >= dao.min_proposal_creation_threshold
                    &&& description@.len() > MAX_DESCRIPTION_LEN as nat
                    &&& *final(self) == *old(self)
                },
                Err(DaoError::ArithmeticOverflow) => {
                    &&& isqrt(proposer_balance as nat) >= dao.min_proposal_creation_threshold
                    &&& description@.len() <= MAX_DESCRIPTION_LEN as nat
                    &&& !(i64::MIN <= now + duration <= i64::MAX)
                    &&& *final(self) == *old(self)
                },
                Err(_) => false,
            },
    {
        let creation_power = power(proposer_balance);
        if creation_power < dao.min_proposal_creation_threshold {
            return Err(DaoError::InsufficientProposalCreationPower);
        }
        if description.len() > MAX_DESCRIPTION_LEN {
            return Err(DaoError::DescriptionTooLong);
        }
        let end_time = match now.checked_add(duration) {
            Some(t) => t,
            None => {
                return Err(DaoError::ArithmeticOverflow);
            },
        };
        self.dao = dao_key;
        self.proposer = proposer;
        self.description = description;
        self.yes_votes = 0;
        self.no_votes = 0;
        self.start_time = now;
        self.end_time = end_time;
        self.executed = false;
        self.action_amount = action_amount;
        self.action_target = action_target;
        Ok(())
    }

    /// Casts a vote. The voter's power — the integer square root of the
    /// live balance snapshot — must clear the voting threshold, the window
    /// must still be open, and no receipt for `(proposal_key, voter)` may
    /// exist yet; then the chosen tally grows by the power (checked) and
    /// the receipt is recorded with that power frozen in.
    pub fn cast_vote(
        &mut self,
        voter_balance: u64,
        voter: u64,
        vote_yes: bool,
        dao: &DaoState,
        receipts: &mut VoteReceiptStore,
        proposal_key: u64,
        now: i64,
    ) -> (r: Result<(), DaoError>)
        ensures
            match r {
                Ok(()) => {
                    &&& isqrt(voter_balance as nat) >= dao.min_voting_threshold
                    &&& now < old(self).end_time
                    &&& !old(receipts).contains_key(proposal_key, voter)
                    &&& final(receipts)@ =~= old(receipts)@.push(
                        (VoteReceipt {
                            proposal: proposal_key,
                            voter: voter,
                            voted_yes: vote_yes,
                            voting_power: isqrt(voter_balance as nat) as u64,
                        }),
                    )
                    &&& (if vote_yes {
                        final(self).yes_votes == old(self).yes_votes + isqrt(voter_balance as nat)
                            && final(self).no_votes == old(self).no_votes
                    } else {
                        final(self).no_votes == old(self).no_votes + isqrt(voter_balance as nat)
                            && final(self).yes_votes == old(self).yes_votes
                    })
                    &&& final(self).executed == old(self).executed
                    &&& proposal_step(*old(self), *final(self))
                },
                Err(DaoError::InsufficientVotingPower) => {
                    &&& isqrt(voter_balance as nat) < dao.min_voting_threshold
                    &&& *final(self) == *old(self)
                    &&& final(receipts)@ =~= old(receipts)@
                },
                Err(DaoError::ProposalExpired) => {
                    &&& isqrt(voter_balance as nat) >= dao.min_voting_threshold
                    &&& now >= old(self).end_time
                    &&& *final(self) == *old(self)
                    &&& final(receipts)@ =~= old(receipts)@
                },
                Err(DaoError::DuplicateVote) => {
                    &&& isqrt(voter_balance as nat) >= dao.min_voting_threshold
                    &&& now < old(self).end_time
                    &&& old(receipts).contains_key(proposal_key, voter)
                    &&& *final(self) == *old(self)
                    &&& final(receipts)@ =~= old(receipts)@
                },
                Err(DaoError::ArithmeticOverflow) => {
                    &&& isqrt(voter_balance as nat) >= dao.min_voting_threshold
                    &&& now < old(self).end_time
                    &&& !old(receipts).contains_key(proposal_key, voter)
                    &&& (if vote_yes {
                        old(self).yes_votes + isqrt(voter_balance as nat) > u64::MAX
                    } else {
                        old(self).no_votes + isqrt(voter_balance as nat) > u64::MAX
                    })
                    &&& *final(self) == *old(self)
                    &&& final(receipts)@ =~= old(receipts)@
                },
                Err(_) => false,
            },
            old(receipts).wf() ==> final(receipts).wf(),
    {
        let voting_power = power(voter_balance);
        if voting_power < dao.min_voting_threshold {
            return Err(DaoError::InsufficientVotingPower);
        }
        if now >= self.end_time {
            return Err(DaoError::ProposalExpired);
        }
        if receipts.contains(proposal_key, voter) {
            return Err(DaoError::DuplicateVote);
        }
        let new_tally = if vote_yes {
            self.yes_votes.checked_add(voting_power)
        } else {
            self.no_votes.checked_add(voting_power)
        };
        let new_tally = match new_tally {
            Some(t) => t,
            None => {
                return Err(DaoError::ArithmeticOverflow);
            },
        };
        let insert = receipts.try_insert(
            VoteReceipt {
                proposal: proposal_key,
                voter: voter,
                voted_yes: vote_yes,
                voting_power: voting_power,
            },
        );
        match insert {
            Ok(()) => {},
            Err(AlreadyExists) => {
                return Err(DaoError::DuplicateVote);
            },
        }
        if vote_yes {
            self.yes_votes = new_tally;
        } else {
            self.no_votes = new_tally;
        }
        Ok(())
    }
}

/// Creates exactly one config against a mint and atomically funds its
/// custody vault with `token_allocation` moved from the authority's
/// account; the vault is created owned by the config's key. The storage
/// layer, not this function, refuses a second config for the same mint.
pub fn initialize_dao(
    dao: &mut DaoState,
    dao_key: u64,
    authority: u64,
    token_mint: u64,
    quoram: u64,
    proposal_duration: i64,
    min_voting_threshold: u64,
    min_proposal_creation_threshold: u64,
    token_allocation: u64,
    authority_ata: &mut TokenAccount,
    vault_ata: &mut TokenAccount,
) -> (r: Result<(), DaoError>)
    ensures
        match r {
            Ok(()) => {
                &&& authority == old(authority_ata).authority
                &&& old(authority_ata).amount >= token_allocation
                &&& final(dao).authority == authority
                &&& final(dao).token_mint == token_mint
                &&& final(dao).quoram == quoram
                &&& final(dao).proposal_duration == proposal_duration
                &&& final(dao).min_voting_threshold == min_voting_threshold
                &&& final(dao).min_proposal_creation_threshold == min_proposal_creation_threshold
                &&& final(vault_ata).authority == dao_key
                &&& final(vault_ata).amount == token_allocation
                &&& final(authority_ata).amount == old(authority_ata).amount - token_allocation
                &&& final(authority_ata).authority == old(authority_ata).authority
            },
            Err(DaoError::Unauthorized) => {
                &&& authority != old(authority_ata).authority
                &&& *final(dao) == *old(dao)
                &&& *final(authority_ata) == *old(authority_ata)
                &&& *final(vault_ata) == *old(vault_ata)
            },
            Err(DaoError::InsufficientFunds) => {
                &&& authority == old(authority_ata).authority
                &&& old(authority_ata).amount < token_allocation
                &&& *final(dao) == *old(dao)
                &&& *final(authority_ata) == *old(authority_ata)
                &&& *final(vault_ata) == *old(vault_ata)
            },
            Err(_) => false,
        },
{
    let mut vault = TokenAccount { authority: dao_key, amount: 0 };
    match treasury::transfer(authority_ata, &mut vault, token_allocation, authority) {
        Ok(()) => {},
        Err(TransferError::Unauthorized) => {
            return Err(DaoError::Unauthorized);
        },
        Err(TransferError::InsufficientFunds) => {
            return Err(DaoError::InsufficientFunds);
        },
    }
    dao.inialize(
        authority,
        token_mint,
        quoram,
        proposal_duration,
        min_voting_threshold,
        min_proposal_creation_threshold,
    );
    *vault_ata = vault;
    Ok(())
}

/// Creates a proposal against a config, using the config's proposal
/// duration for the voting window.
pub fn create_proposal(
    proposal: &mut Proposal,
    dao: &DaoState,
    dao_key: u64,
    proposer_balance: u64,
    proposer: u64,
    description: Vec<u8>,
    action_amount: u64,
    action_target: u64,
    now: i64,
) -> (r: Result<(), DaoError>)
    ensures
        match r {
            Ok(()) => {
                &&& isqrt(proposer_balance as nat) >= dao.min_proposal_creation_threshold
                &&& description@.len() <= MAX_DESCRIPTION_LEN as nat
                &&& i64::MIN <= now + dao.proposal_duration <= i64::MAX
                &&& final(proposal).dao == dao_key
                &&& final(proposal).proposer == proposer
                &&& final(proposal).description == description
                &&& final(proposal).yes_votes == 0
                &&& final(proposal).no_votes == 0
                &&& final(proposal).start_time == now
                &&& final(proposal).end_time == now + dao.proposal_duration
                &&& final(proposal).end_time == final(proposal).start_time + dao.proposal_duration
                &&& !final(proposal).executed
                &&& final(proposal).action_amount == action_amount
                &&& final(proposal).action_target == action_target
            },
            Err(DaoError::InsufficientProposalCreationPower) => {
                &&& isqrt(proposer_balance as nat) < dao.min_proposal_creation_threshold
                &&& *final(proposal) == *old(proposal)
            },
            Err(DaoError::DescriptionTooLong) => {
                &&& isqrt(proposer_balance as nat) >= dao.min_proposal_creation_threshold
                &&& description@.len() > MAX_DESCRIPTION_LEN as nat
                &&& *final(proposal) == *old(proposal)
            },
            Err(DaoError::ArithmeticOverflow) => {
                &&& isqrt(proposer_balance as nat) >= dao.min_proposal_creation_threshold
                &&& description@.len() <= MAX_DESCRIPTION_LEN as nat
                &&& !(i64::MIN <= now + dao.proposal_duration <= i64::MAX)
                &&& *final(proposal) == *old(proposal)
            },
            Err(_) => false,
        },
{
    proposal.initilize(
        dao,
        dao_key,
        proposer_balance,
        proposer,
        now,
        dao.proposal_duration,
        action_amount,
        action_target,
        description,
    )
}

/// Casts a vote on a proposal.
pub fn cast_vote(
    proposal: &mut Proposal,
    dao: &DaoState,
    receipts: &mut VoteReceiptStore,
    proposal_key: u64,
    voter: u64,
    voter_balance: u64,
    vote_yes: bool,
    now: i64,
) -> (r: Result<(), DaoError>)
    ensures
        match r {
            Ok(()) => {
                &&& isqrt(voter_balance as nat) >= dao.min_voting_threshold
                &&& now < old(proposal).end_time
                &&& !old(receipts).contains_key(proposal_key, voter)
                &&& final(receipts)@ =~= old(receipts)@.push(
                    (VoteReceipt {
                        proposal: proposal_key,
                        voter: voter,
                        voted_yes: vote_yes,
                        voting_power: isqrt(voter_balance as nat) as u64,
                    }),
                )
                &&& (if vote_yes {
                    final(proposal).yes_votes == old(proposal).yes_votes + isqrt(
                        voter_balance as nat,
                    ) && final(proposal).no_votes == old(proposal).no_votes
                } else {
                    final(proposal).no_votes == old(proposal).no_votes + isqrt(voter_balance as nat)
                        && final(proposal).yes_votes == old(proposal).yes_votes
                })
                &&& final(proposal).executed == old(proposal).executed
                &&& proposal_step(*old(proposal), *final(proposal))
            },
            Err(e) => {
                &&& (e == DaoError::InsufficientVotingPower || e == DaoError::ProposalExpired || e
                    == DaoError::DuplicateVote || e == DaoError::ArithmeticOverflow)
                &&& (e == DaoError::InsufficientVotingPower <==> isqrt(voter_balance as nat)
                    < dao.min_voting_threshold)
                &&& (e == DaoError::ProposalExpired <==> isqrt(voter_balance as nat)
                    >= dao.min_voting_threshold && now >= old(proposal).end_time)
                &&& (e == DaoError::DuplicateVote <==> isqrt(voter_balance as nat)
                    >= dao.min_voting_threshold && now < old(proposal).end_time && old(
                    receipts,
                ).contains_key(proposal_key, voter))
                &&& *final(proposal) == *old(proposal)
                &&& final(receipts)@ =~= old(receipts)@
            },
        },
        old(receipts).wf() ==> final(receipts).wf(),
{
    proposal.cast_vote(voter_balance, voter, vote_yes, dao, receipts, proposal_key, now)
}

/// Executes an expired proposal that met quorum: releases the action amount
/// from the custody vault to the stored recipient, authorized by the
/// config's key, and sets the write-once executed flag. Succeeds exactly
/// when the clock has passed the end time, the yes tally meets the quorum
/// (the no tally is never consulted), the proposal has not already been
/// executed, and the provided recipient matches the stored one — and then
/// only if the vault authorization and balance let the transfer through.
/// The transfer and the flag flip commit together or not at all.
pub fn execute_proposal(
    proposal: &mut Proposal,
    dao: &DaoState,
    dao_key: u64,
    vault_ata: &mut TokenAccount,
    recipient_key: u64,
    recipient_ata: &mut TokenAccount,
    now: i64,
) -> (r: Result<(), DaoError>)
    requires
        old(recipient_ata).amount + old(proposal).action_amount <= u64::MAX,
    ensures
        match r {
            Ok(()) => {
                &&& !old(proposal).executed
                &&& now > old(proposal).end_time
                &&& old(proposal).yes_votes >= dao.quoram
                &&& recipient_key == old(proposal).action_target
                &&& dao_key == old(vault_ata).authority
                &&& old(vault_ata).amount >= old(proposal).action_amount
                &&& final(proposal).executed
                &&& final(proposal).yes_votes == old(proposal).yes_votes
                &&& final(proposal).no_votes == old(proposal).no_votes
                &&& proposal_step(*old(proposal), *final(proposal))
                &&& final(vault_ata).amount == old(vault_ata).amount - old(proposal).action_amount
                &&& final(vault_ata).authority == old(vault_ata).authority
                &&& final(recipient_ata).amount == old(recipient_ata).amount + old(
                    proposal,
                ).action_amount
                &&& final(recipient_ata).authority == old(recipient_ata).authority
            },
            Err(e) => {
                &&& (e == DaoError::AlreadyExecuted || e == DaoError::ProposalStillActive || e
                    == DaoError::QuorumNotMet || e == DaoError::InvalidRecipient || e
                    == DaoError::Unauthorized || e == DaoError::InsufficientFunds)
                &&& (e == DaoError::AlreadyExecuted <==> old(proposal).executed)
                &&& (e == DaoError::ProposalStillActive <==> !old(proposal).executed && now <= old(
                    proposal,
                ).end_time)
                &&& (e == DaoError::QuorumNotMet <==> !old(proposal).executed && now > old(
                    proposal,
                ).end_time && old(proposal).yes_votes < dao.quoram)
                &&& (e == DaoError::InvalidRecipient <==> !old(proposal).executed && now > old(
                    proposal,
                ).end_time && old(proposal).yes_votes >= dao.quoram && recipient_key != old(
                    proposal,
                ).action_target)
                &&& (e == DaoError::Unauthorized <==> !old(proposal).executed && now > old(
                    proposal,
                ).end_time && old(proposal).yes_votes >= dao.quoram && recipient_key == old(
                    proposal,
                ).action_target && dao_key != old(vault_ata).authority)
                &&& (e == DaoError::InsufficientFunds <==> !old(proposal).executed && now > old(
                    proposal,
                ).end_time && old(proposal).yes_votes >= dao.quoram && recipient_key == old(
                    proposal,
                ).action_target && dao_key == old(vault_ata).authority && old(vault_ata).amount
                    < old(proposal).action_amount)
                &&& *final(proposal) == *old(proposal)
                &&& *final(vault_ata) == *old(vault_ata)
                &&& *final(recipient_ata) == *old(recipient_ata)
            },
        },
{
    if proposal.executed {
        return Err(DaoError::AlreadyExecuted);
    }
    if now <= proposal.end_time {
        return Err(DaoError::ProposalStillActive);
    }
    if proposal.yes_votes < dao.quoram {
        return Err(DaoError::QuorumNotMet);
    }
    if recipient_key != proposal.action_target {
        return Err(DaoError::InvalidRecipient);
    }
    match treasury::transfer(vault_ata, recipient_ata, proposal.action_amount, dao_key) {
        Ok(()) => {},
        Err(TransferError::Unauthorized) => {
            return Err(DaoError::Unauthorized);
        },
        Err(TransferError::InsufficientFunds) => {
            return Err(DaoError::InsufficientFunds);
        },
    }
    proposal.executed = true;
    Ok(())
}

} // verus!
