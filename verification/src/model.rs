//! The records exchanged with the service.

use crate::signatures::SignatureMap;
use crate::signatures::StepSignatureView;
use vstd::prelude::*;

verus! {

/// One unit of work within a contract.
#[derive(Debug, Clone)]
pub struct ContractStep {
    /// `step-N`, counted from one in the order of creation.
    pub id: String,
    pub description: String,
    /// A document owned by the service; never read here.
    pub magic_spell: Option<serde_json::Value>,
    pub order: usize,
    pub signatures: SignatureMap,
    pub completed: bool,
    pub created_at: String,
    pub completed_at: Option<String>,
}

/// Mathematical model of a [`ContractStep`].
pub struct ContractStepView {
    pub id: Seq<char>,
    pub description: Seq<char>,
    pub magic_spell: Option<serde_json::Value>,
    pub order: usize,
    pub signatures: Map<Seq<char>, Option<StepSignatureView>>,
    pub completed: bool,
    pub created_at: Seq<char>,
    pub completed_at: Option<Seq<char>>,
}

impl View for ContractStep {
    type V = ContractStepView;

    open spec fn view(&self) -> ContractStepView {
        ContractStepView {
            id: self.id@,
            description: self.description@,
            magic_spell: self.magic_spell,
            order: self.order,
            signatures: self.signatures@,
            completed: self.completed,
            created_at: self.created_at@,
            completed_at: self.completed_at.deep_view(),
        }
    }
}

impl DeepView for ContractStep {
    type V = ContractStepView;

    open spec fn deep_view(&self) -> ContractStepView {
        self@
    }
}

/// A multi-party, multi-step agreement as the service holds it.
#[derive(Debug, Clone)]
pub struct Contract {
    pub uuid: String,
    pub title: String,
    pub description: String,
    pub participants: Vec<String>,
    pub steps: Vec<ContractStep>,
    pub product_uuid: Option<String>,
    pub bdo_location: Option<String>,
    pub created_at: String,
    pub updated_at: String,
    pub status: String,
}

/// Mathematical model of a [`Contract`].
pub struct ContractView {
    pub uuid: Seq<char>,
    pub title: Seq<char>,
    pub description: Seq<char>,
    pub participants: Seq<Seq<char>>,
    pub steps: Seq<ContractStepView>,
    pub product_uuid: Option<Seq<char>>,
    pub bdo_location: Option<Seq<char>>,
    pub created_at: Seq<char>,
    pub updated_at: Seq<char>,
    pub status: Seq<char>,
}

impl View for Contract {
    type V = ContractView;

    open spec fn view(&self) -> ContractView {
        ContractView {
            uuid: self.uuid@,
            title: self.title@,
            description: self.description@,
            participants: self.participants.deep_view(),
            steps: self.steps.deep_view(),
            product_uuid: self.product_uuid.deep_view(),
            bdo_location: self.bdo_location.deep_view(),
            created_at: self.created_at@,
            updated_at: self.updated_at@,
            status: self.status@,
        }
    }
}

impl DeepView for Contract {
    type V = ContractView;

    open spec fn deep_view(&self) -> ContractView {
        self@
    }
}

/// The short form of a contract in a listing.
#[derive(Debug, Clone)]
pub struct ContractSummary {
    pub uuid: String,
    pub title: String,
    pub participants: Vec<String>,
    pub created_at: String,
    pub updated_at: String,
    pub step_count: usize,
    pub completed_steps: usize,
}

/// What the service says of itself.
#[derive(Debug, Clone)]
pub struct HealthInfo {
    pub service: String,
    pub version: String,
    pub status: String,
    pub timestamp: String,
}

/// The body sent to sign a step.
#[derive(Debug, Clone)]
pub struct SignStepRequest {
    pub participant_uuid: String,
    pub step_id: String,
    pub signature: String,
    /// Milliseconds since the epoch.
    pub timestamp: i64,
    pub message: String,
}

/// Mathematical model of a [`SignStepRequest`].
pub struct SignStepRequestView {
    pub participant_uuid: Seq<char>,
    pub step_id: Seq<char>,
    pub signature: Seq<char>,
    pub timestamp: i64,
    pub message: Seq<char>,
}

impl View for SignStepRequest {
    type V = SignStepRequestView;

    open spec fn view(&self) -> SignStepRequestView {
        SignStepRequestView {
            participant_uuid: self.participant_uuid@,
            step_id: self.step_id@,
            signature: self.signature@,
            timestamp: self.timestamp,
            message: self.message@,
        }
    }
}

impl SignStepRequest {
    /// The body made of the given parts.
    pub fn new(
        participant_uuid: String,
        step_id: String,
        signature: String,
        timestamp: i64,
        message: String,
    ) -> (r: SignStepRequest)
        ensures
            r@ == (SignStepRequestView {
                participant_uuid: participant_uuid@,
                step_id: step_id@,
                signature: signature@,
                timestamp,
                message: message@,
            }),
    {
        SignStepRequest { participant_uuid, step_id, signature, timestamp, message }
    }
}

/// What the service answers to a signature.
#[derive(Debug, Clone)]
pub struct SignStepResponse {
    pub contract_uuid: String,
    pub step_id: String,
    pub step_completed: bool,
    pub magic_triggered: bool,
}

} // verus!
