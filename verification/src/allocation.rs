//! The record of what a commitment has placed with yield targets.

use vstd::prelude::*;
use crate::identity::Identity;

verus! {

/// One placement of value with a target. Records are only ever appended.
#[derive(Clone, Copy, Debug, PartialEq, Eq, Structural)]
pub struct Allocation {
    pub commitment_id: u64,
    pub target_pool: Identity,
    pub amount: i128,
    pub timestamp: u64,
}

/// The sum of the amounts of `records`.
pub open spec fn recorded_sum(records: Seq<Allocation>) -> int
    decreases records.len(),
{
    if records.len() == 0 {
        0
    } else {
        recorded_sum(records.drop_last()) + records.last().amount
    }
}

/// Appending a record adds its amount to the sum.
pub proof fn lemma_recorded_sum_push(records: Seq<Allocation>, record: Allocation)
    ensures
        recorded_sum(records.push(record)) == recorded_sum(records) + record.amount,
{
    assert(records.push(record).drop_last() =~= records);
}

/// The allocations of one commitment as a mathematical value.
#[verifier::ext_equal]
pub struct TrackingState {
    /// What is placed with targets now.
    pub total_allocated: i128,
    /// Every placement made, oldest first.
    pub allocations: Seq<Allocation>,
}

impl TrackingState {
    /// The tracking of a commitment that has placed nothing yet.
    pub open spec fn empty() -> TrackingState {
        TrackingState { total_allocated: 0, allocations: Seq::empty() }
    }

    /// The tracking belongs to the commitment `commitment_id` with the given
    /// principal: the total lies between zero and the principal and is no more
    /// than what the records add up to; every record names the commitment and
    /// has a positive amount.
    pub open spec fn fits(self, commitment_id: u64, principal: i128) -> bool {
        &&& 0 <= self.total_allocated <= principal
        &&& self.total_allocated <= recorded_sum(self.allocations)
        &&& forall|j: int|
            0 <= j < self.allocations.len() ==> {
                &&& (#[trigger] self.allocations[j]).commitment_id == commitment_id
                &&& self.allocations[j].amount > 0
            }
    }

    /// This tracking after `record` has been placed.
    pub open spec fn after_allocation(self, record: Allocation) -> TrackingState {
        TrackingState {
            total_allocated: (self.total_allocated + record.amount) as i128,
            allocations: self.allocations.push(record),
        }
    }

    /// This tracking after `amount` has come back: the total goes down by
    /// `amount`, but not below zero. The records stay as they are.
    pub open spec fn after_deallocation(self, amount: i128) -> TrackingState {
        TrackingState {
            total_allocated: if self.total_allocated - amount < 0 {
                0
            } else {
                (self.total_allocated - amount) as i128
            },
            ..self
        }
    }
}

/// The allocations of one commitment: the running total and the history.
#[derive(Debug)]
pub struct AllocationTracking {
    pub total_allocated: i128,
    pub allocations: Vec<Allocation>,
}

impl View for AllocationTracking {
    type V = TrackingState;

    open spec fn view(&self) -> TrackingState {
        TrackingState { total_allocated: self.total_allocated, allocations: self.allocations@ }
    }
}

impl AllocationTracking {
    /// The tracking of a commitment that has placed nothing yet.
    pub fn new() -> (tracking: AllocationTracking)
        ensures
            tracking@ == TrackingState::empty(),
    {
        AllocationTracking { total_allocated: 0, allocations: Vec::new() }
    }

    /// A copy of this tracking.
    pub fn duplicate(&self) -> (copy: AllocationTracking)
        ensures
            copy@ == self@,
    {
        let mut allocations: Vec<Allocation> = Vec::new();
        let mut i: usize = 0;
        while i < self.allocations.len()
            invariant
                i <= self.allocations.len(),
                allocations@ == self.allocations@.take(i as int),
            decreases self.allocations.len() - i,
        {
            allocations.push(self.allocations[i]);
            assert(allocations@ =~= self.allocations@.take(i + 1));
            i += 1;
        }
        assert(allocations@ =~= self.allocations@);
        AllocationTracking { total_allocated: self.total_allocated, allocations }
    }

    /// Whether this tracking belongs to the commitment `commitment_id` with
    /// the given principal.
    pub fn is_fit(&self, commitment_id: u64, principal: i128) -> (ok: bool)
        ensures
            ok == self@.fits(commitment_id, principal),
    {
        if self.total_allocated < 0 || self.total_allocated > principal {
            return false;
        }
        // The sum of the records so far, or `None` once it has left `i128`
        // upwards; the amounts are positive, so it never comes back.
        let mut sum: Option<i128> = Some(0);
        let mut i: usize = 0;
        while i < self.allocations.len()
            invariant
                i <= self.allocations.len(),
                forall|j: int|
                    0 <= j < i ==> {
                        &&& (#[trigger] self.allocations@[j]).commitment_id == commitment_id
                        &&& self.allocations@[j].amount > 0
                    },
                match sum {
                    Some(s) => s == recorded_sum(self.allocations@.take(i as int)),
                    None => recorded_sum(self.allocations@.take(i as int)) > i128::MAX,
                },
                recorded_sum(self.allocations@.take(i as int)) >= 0,
            decreases self.allocations.len() - i,
        {
            let record = self.allocations[i];
            if record.commitment_id != commitment_id || record.amount <= 0 {
                return false;
            }
            proof {
                assert(self.allocations@.take(i + 1) =~= self.allocations@.take(i as int).push(
                    record,
                ));
                lemma_recorded_sum_push(self.allocations@.take(i as int), record);
            }
            sum = match sum {
                Some(s) => s.checked_add(record.amount),
                None => None,
            };
            i += 1;
        }
        assert(self.allocations@.take(i as int) =~= self.allocations@);
        match sum {
            Some(s) => self.total_allocated <= s,
            None => true,
        }
    }
}

} // verus!
