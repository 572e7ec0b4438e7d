//! How far a contract has come.

use crate::model::Contract;
use crate::model::ContractStepView;
use vstd::prelude::*;

verus! {

/// The steps among `steps` that are completed, in order.
pub open spec fn completed_among(steps: Seq<ContractStepView>) -> Seq<ContractStepView> {
    steps.filter(|step: ContractStepView| step.completed)
}

/// The number of completed steps among `steps`.
pub open spec fn completed_steps(steps: Seq<ContractStepView>) -> nat {
    completed_among(steps).len()
}

/// The share `completed` of `total` in whole percent, rounded down; zero
/// where `total` is zero.
pub open spec fn percent_floor(completed: nat, total: nat) -> nat {
    if total == 0 {
        0
    } else {
        (completed * 100) / total
    }
}

/// The aggregate progress of a contract, computed from one snapshot.
#[derive(Debug, Clone, Copy, PartialEq, Eq)]
pub struct ContractProgress {
    pub total_steps: usize,
    pub completed_steps: usize,
    /// The completed share in whole percent, rounded down; zero for a
    /// contract without steps.
    pub whole_percent: usize,
    pub participant_count: usize,
    /// Whether every step is completed. True for a contract without steps.
    pub is_complete: bool,
}

impl ContractProgress {
    /// The progress that a contract with the given model has.
    pub open spec fn describes(self, steps: Seq<ContractStepView>, participants: nat) -> bool {
        &&& self.total_steps == steps.len()
        &&& self.completed_steps == completed_steps(steps)
        &&& self.whole_percent == percent_floor(completed_steps(steps), steps.len())
        &&& self.participant_count == participants
        &&& self.is_complete == (completed_steps(steps) == steps.len())
    }

    /// Computes the progress of `contract`.
    pub fn of(contract: &Contract) -> (r: ContractProgress)
        ensures
            r.describes(contract@.steps, contract@.participants.len()),
            r.completed_steps <= r.total_steps,
            r.is_complete == (r.completed_steps == r.total_steps),
            r.total_steps == 0 ==> r.whole_percent == 0 && r.is_complete,
            r.whole_percent <= 100,
            r.total_steps > 0 ==> (r.is_complete <==> r.whole_percent == 100),
    {
        let total_steps = contract.steps.len();
        let mut done: usize = 0;
        let mut i: usize = 0;
        proof {
            reveal(Seq::filter);
        }
        while i < total_steps
            invariant
                total_steps == contract.steps.len(),
                i <= total_steps,
                done <= i,
                done == completed_steps(contract@.steps.take(i as int)),
            decreases total_steps - i,
        {
            proof {
                reveal(Seq::filter);
                assert(contract@.steps.take(i as int + 1).drop_last() =~= contract@.steps.take(
                    i as int,
                ));
            }
            if contract.steps[i].completed {
                done = done + 1;
            }
            i = i + 1;
        }
        assert(contract@.steps.take(i as int) =~= contract@.steps);
        proof {
            lemma_percent_bounds(done as nat, total_steps as nat);
        }
        let whole_percent = if total_steps == 0 {
            0
        } else {
            let scaled: u128 = done as u128 * 100;
            let share: u128 = scaled / (total_steps as u128);
            share as usize
        };
        ContractProgress {
            total_steps,
            completed_steps: done,
            whole_percent,
            participant_count: contract.participants.len(),
            is_complete: done == total_steps,
        }
    }
}

/// A share is at most one hundred percent, and is one hundred percent exactly
/// when everything is completed.
pub proof fn lemma_percent_bounds(completed: nat, total: nat)
    requires
        completed <= total,
    ensures
        percent_floor(completed, total) <= 100,
        total > 0 ==> (percent_floor(completed, total) == 100 <==> completed == total),
{
    if total > 0 {
        assert((completed * 100) / total <= 100 && ((completed * 100) / total == 100 <==> completed
            == total)) by (nonlinear_arith)
            requires
                completed <= total,
                total > 0,
        ;
    }
}

} // verus!
