//! Client-side model of a contract-management service: building and validating
//! new contracts, reading progress and signature status from fetched contracts,
//! and framing the requests and responses exchanged with the service.

pub mod builder;
pub mod client;
mod clock;
pub mod error;
pub mod json;
pub mod model;
pub mod progress;
pub mod response;
pub mod signatures;
pub mod signer;
pub mod status;
pub mod text;

pub use builder::ContractBuilder;
pub use builder::ContractPayload;
pub use builder::StepDraft;
pub use builder::StepPayload;
pub use client::CovenantClient;
pub use error::CovenantError;
pub use model::Contract;
pub use model::ContractStep;
pub use model::ContractSummary;
pub use model::HealthInfo;
pub use model::SignStepRequest;
pub use model::SignStepResponse;
pub use progress::ContractProgress;
pub use response::ServiceResponse;
pub use signatures::SignatureEntry;
pub use signatures::SignatureMap;
pub use signatures::StepSignature;
pub use status::UserSignatureStatus;
