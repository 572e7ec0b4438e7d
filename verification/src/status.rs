//! What one participant has signed, step by step.

use crate::model::Contract;
use crate::model::ContractStep;
use crate::model::ContractStepView;
use crate::model::ContractView;
use crate::signatures::StepSignatureView;
use vstd::prelude::*;

verus! {

/// One participant's standing on one step.
#[derive(Debug, Clone)]
pub struct UserSignatureStatus {
    pub step_id: String,
    pub description: String,
    pub has_signed: bool,
    /// Milliseconds since the epoch, where a signature is held.
    pub signature_timestamp: Option<i64>,
    /// The step's own flag, whoever signed.
    pub is_completed: bool,
}

/// Mathematical model of a [`UserSignatureStatus`].
pub struct UserSignatureStatusView {
    pub step_id: Seq<char>,
    pub description: Seq<char>,
    pub has_signed: bool,
    pub signature_timestamp: Option<i64>,
    pub is_completed: bool,
}

impl View for UserSignatureStatus {
    type V = UserSignatureStatusView;

    open spec fn view(&self) -> UserSignatureStatusView {
        UserSignatureStatusView {
            step_id: self.step_id@,
            description: self.description@,
            has_signed: self.has_signed,
            signature_timestamp: self.signature_timestamp,
            is_completed: self.is_completed,
        }
    }
}

impl DeepView for UserSignatureStatus {
    type V = UserSignatureStatusView;

    open spec fn deep_view(&self) -> UserSignatureStatusView {
        self@
    }
}

/// The signature that `signatures` holds for `user`: `None` both where there
/// is no entry and where the entry holds no signature.
pub open spec fn held_signature(
    signatures: Map<Seq<char>, Option<StepSignatureView>>,
    user: Seq<char>,
) -> Option<StepSignatureView> {
    if signatures.contains_key(user) {
        signatures[user]
    } else {
        None
    }
}

/// The standing of `user` on `step`.
pub open spec fn step_status(step: ContractStepView, user: Seq<char>) -> UserSignatureStatusView {
    UserSignatureStatusView {
        step_id: step.id,
        description: step.description,
        has_signed: held_signature(step.signatures, user) is Some,
        signature_timestamp: match held_signature(step.signatures, user) {
            Some(signature) => Some(signature.timestamp),
            None => None,
        },
        is_completed: step.completed,
    }
}

/// The standing of `user` on each step of `contract`, in the order of the steps.
pub open spec fn signature_statuses(contract: ContractView, user: Seq<char>) -> Seq<
    UserSignatureStatusView,
> {
    Seq::new(contract.steps.len(), |i: int| step_status(contract.steps[i], user))
}

impl UserSignatureStatus {
    /// The standing of `user` on `step`.
    pub fn of_step(step: &ContractStep, user: &str) -> (r: UserSignatureStatus)
        ensures
            r@ == step_status(step@, user@),
    {
        let timestamp = match step.signatures.get(user) {
            Some(entry) => match entry {
                Some(signature) => Some(signature.timestamp),
                None => None,
            },
            None => None,
        };
        UserSignatureStatus {
            step_id: step.id.clone(),
            description: step.description.clone(),
            has_signed: timestamp.is_some(),
            signature_timestamp: timestamp,
            is_completed: step.completed,
        }
    }

    /// The standing of `user` on each step of `contract`, in the order of the
    /// steps.
    pub fn of_contract(contract: &Contract, user: &str) -> (r: Vec<UserSignatureStatus>)
        ensures
            r.deep_view() == signature_statuses(contract@, user@),
            r.len() == contract.steps.len(),
            forall|i: int|
                0 <= i < r.len() ==> (#[trigger] r[i]).step_id@ == contract.steps[i].id@,
    {
        let mut statuses: Vec<UserSignatureStatus> = Vec::new();
        let mut i: usize = 0;
        while i < contract.steps.len()
            invariant
                i <= contract.steps.len(),
                statuses.len() == i,
                forall|k: int|
                    0 <= k < i ==> (#[trigger] statuses[k])@ == step_status(
                        contract.steps[k]@,
                        user@,
                    ),
            decreases contract.steps.len() - i,
        {
            statuses.push(UserSignatureStatus::of_step(&contract.steps[i], user));
            i = i + 1;
        }
        statuses
    }
}

/// Where a step holds a signature for the participant, the status says so
/// and carries the recorded timestamp.
pub proof fn lemma_recorded_signature_is_reported(
    step: ContractStepView,
    user: Seq<char>,
    signature: StepSignatureView,
)
    requires
        step.signatures.contains_key(user),
        step.signatures[user] == Some(signature),
    ensures
        step_status(step, user).has_signed,
        step_status(step, user).signature_timestamp == Some(signature.timestamp),
{
}

/// Where a step has no entry for the participant, or an entry without a
/// signature, the status says unsigned and carries no timestamp.
pub proof fn lemma_missing_signature_is_reported(step: ContractStepView, user: Seq<char>)
    requires
        !step.signatures.contains_key(user) || step.signatures[user] is None,
    ensures
        !step_status(step, user).has_signed,
        step_status(step, user).signature_timestamp is None,
{
}

/// The statuses follow the steps: one per step, in the same order, each with
/// its step's identifier, description and completion flag.
pub proof fn lemma_statuses_follow_steps(contract: ContractView, user: Seq<char>)
    ensures
        signature_statuses(contract, user).len() == contract.steps.len(),
        forall|i: int|
            0 <= i < contract.steps.len() ==> {
                let status = #[trigger] signature_statuses(contract, user)[i];
                &&& status.step_id == contract.steps[i].id
                &&& status.description == contract.steps[i].description
                &&& status.is_completed == contract.steps[i].completed
                &&& status == step_status(contract.steps[i], user)
            },
{
}

} // verus!
