//! Vote receipts and the uniqueness-enforcing store that holds them. A
//! receipt proves that a given voter has cast exactly one vote on a given
//! proposal; the store is content-addressed by the `(proposal, voter)` pair
//! and only ever inserts-if-absent, never overwrites. This is the sole
//! mechanism preventing double voting.

use vstd::prelude::*;

verus! {

/// The record of one cast vote: which proposal, which voter, the direction,
/// and the power that was counted — frozen at vote time, never re-derived.
#[derive(Clone, Copy, PartialEq, Eq, Structural, Debug)]
pub struct VoteReceipt {
    pub proposal: u64,
    pub voter: u64,
    pub voted_yes: bool,
    pub voting_power: u64,
}

/// Refusal of a colliding insert: a receipt with the same
/// `(proposal, voter)` key is already present.
#[derive(Clone, Copy, PartialEq, Eq, Structural, Debug)]
pub struct AlreadyExists;

/// The uniqueness-enforcing receipt store, keyed by `(proposal, voter)`.
pub struct VoteReceiptStore {
    receipts: Vec<VoteReceipt>,
}

impl VoteReceiptStore {
    /// The receipts held, in insertion order.
    pub closed spec fn view(self) -> Seq<VoteReceipt> {
        self.receipts@
    }

    /// A receipt keyed by `(proposal, voter)` is present.
    pub open spec fn contains_key(self, proposal: u64, voter: u64) -> bool {
        exists|i: int|
            0 <= i < self@.len() && self@[i].proposal == proposal && self@[i].voter == voter
    }

    /// Well-formed: no two receipts share a `(proposal, voter)` key.
    pub open spec fn wf(self) -> bool {
        forall|i: int, j: int|
            0 <= i < j < self@.len() ==> !(self@[i].proposal == self@[j].proposal && self@[i].voter
                == self@[j].voter)
    }

    /// An empty store.
    pub fn new() -> (s: VoteReceiptStore)
        ensures
            s@ =~= Seq::<VoteReceipt>::empty(),
            s.wf(),
    {
        VoteReceiptStore { receipts: Vec::new() }
    }

    /// How many receipts are held.
    pub fn len(&self) -> (n: usize)
        ensures
            n == self@.len(),
    {
        self.receipts.len()
    }

    /// Whether a receipt keyed by `(proposal, voter)` is present.
    pub fn contains(&self, proposal: u64, voter: u64) -> (b: bool)
        ensures
            b == self.contains_key(proposal, voter),
    {
        let mut i: usize = 0;
        while i < self.receipts.len()
            invariant
                0 <= i <= self.receipts.len(),
                forall|k: int|
                    0 <= k < i ==> !(self@[k].proposal == proposal && self@[k].voter == voter),
            decreases self.receipts.len() - i,
        {
            let r = &self.receipts[i];
            if r.proposal == proposal && r.voter == voter {
                assert(self@[i as int].proposal == proposal && self@[i as int].voter == voter);
                return true;
            }
            i = i + 1;
        }
        false
    }

    /// The receipt keyed by `(proposal, voter)`, if one is present.
    pub fn get(&self, proposal: u64, voter: u64) -> (r: Option<&VoteReceipt>)
        ensures
            match r {
                Some(receipt) => {
                    &&& self.contains_key(proposal, voter)
                    &&& receipt.proposal == proposal
                    &&& receipt.voter == voter
                    &&& exists|i: int| 0 <= i < self@.len() && self@[i] == *receipt
                },
                None => !self.contains_key(proposal, voter),
            },
    {
        let mut i: usize = 0;
        while i < self.receipts.len()
            invariant
                0 <= i <= self.receipts.len(),
                forall|k: int|
                    0 <= k < i ==> !(self@[k].proposal == proposal && self@[k].voter == voter),
            decreases self.receipts.len() - i,
        {
            let r = &self.receipts[i];
            if r.proposal == proposal && r.voter == voter {
                assert(self@[i as int].proposal == proposal && self@[i as int].voter == voter);
                return Some(r);
            }
            i = i + 1;
        }
        None
    }

    /// Insert-if-absent: records the receipt unless one with the same
    /// `(proposal, voter)` key is already held, in which case the store is
    /// left unchanged and the collision is reported. Never overwrites.
    pub fn try_insert(&mut self, receipt: VoteReceipt) -> (r: Result<(), AlreadyExists>)
        ensures
            match r {
                Ok(()) => {
                    &&& !old(self).contains_key(receipt.proposal, receipt.voter)
                    &&& final(self)@ =~= old(self)@.push(receipt)
                },
                Err(AlreadyExists) => {
                    &&& old(self).contains_key(receipt.proposal, receipt.voter)
                    &&& final(self)@ =~= old(self)@
                },
            },
            old(self).wf() ==> final(self).wf(),
    {
        if self.contains(receipt.proposal, receipt.voter) {
            return Err(AlreadyExists);
        }
        self.receipts.push(receipt);
        Ok(())
    }
}

/// Law: at most one receipt exists per `(proposal, voter)` pair — any two
/// positions in a well-formed store holding that pair are the same position.
pub proof fn lemma_receipt_unique(s: VoteReceiptStore, i: int, j: int)
    requires
        s.wf(),
        0 <= i < s@.len(),
        0 <= j < s@.len(),
        s@[i].proposal == s@[j].proposal,
        s@[i].voter == s@[j].voter,
    ensures
        i == j,
{
}

} // verus!
