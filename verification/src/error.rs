//! The failures that the client reports.

use vstd::prelude::*;
use vstd::string::StringExecFns;

verus! {

/// Why an operation failed. Each variant carries a human-readable message.
#[derive(Debug, Clone)]
pub enum CovenantError {
    /// The transport failed before a response arrived.
    RequestError(String),
    /// Wire data could not be encoded or decoded.
    JsonError(String),
    /// The service answered and reported a failure.
    ServiceError(String),
    /// A local precondition was violated before anything was sent.
    ValidationError(String),
    /// The signing identity failed or was not available when required.
    SessionlessError(String),
}

/// Mathematical model of a [`CovenantError`].
pub enum CovenantErrorView {
    RequestError(Seq<char>),
    JsonError(Seq<char>),
    ServiceError(Seq<char>),
    ValidationError(Seq<char>),
    SessionlessError(Seq<char>),
}

impl View for CovenantError {
    type V = CovenantErrorView;

    open spec fn view(&self) -> CovenantErrorView {
        match self {
            CovenantError::RequestError(m) => CovenantErrorView::RequestError(m@),
            CovenantError::JsonError(m) => CovenantErrorView::JsonError(m@),
            CovenantError::ServiceError(m) => CovenantErrorView::ServiceError(m@),
            CovenantError::ValidationError(m) => CovenantErrorView::ValidationError(m@),
            CovenantError::SessionlessError(m) => CovenantErrorView::SessionlessError(m@),
        }
    }
}

impl DeepView for CovenantError {
    type V = CovenantErrorView;

    open spec fn deep_view(&self) -> CovenantErrorView {
        self@
    }
}

impl CovenantErrorView {
    /// The message carried by the error, without the prefix of its kind.
    pub open spec fn detail(self) -> Seq<char> {
        match self {
            CovenantErrorView::RequestError(m) => m,
            CovenantErrorView::JsonError(m) => m,
            CovenantErrorView::ServiceError(m) => m,
            CovenantErrorView::ValidationError(m) => m,
            CovenantErrorView::SessionlessError(m) => m,
        }
    }

    /// The text that introduces a message of this kind.
    pub open spec fn prefix(self) -> Seq<char> {
        match self {
            CovenantErrorView::RequestError(_) => "HTTP request failed: "@,
            CovenantErrorView::JsonError(_) => "JSON serialization/deserialization failed: "@,
            CovenantErrorView::ServiceError(_) => "Service error: "@,
            CovenantErrorView::ValidationError(_) => "Contract validation error: "@,
            CovenantErrorView::SessionlessError(_) => "Sessionless error: "@,
        }
    }

    /// The full display text: the prefix of the kind, then the message.
    pub open spec fn display(self) -> Seq<char> {
        self.prefix() + self.detail()
    }
}

impl CovenantError {
    /// A validation failure with the given message.
    pub fn validation(message: &str) -> (e: CovenantError)
        ensures
            e@ == CovenantErrorView::ValidationError(message@),
    {
        CovenantError::ValidationError(String::from_str(message))
    }

    /// A service failure with the given message.
    pub fn service(message: &str) -> (e: CovenantError)
        ensures
            e@ == CovenantErrorView::ServiceError(message@),
    {
        CovenantError::ServiceError(String::from_str(message))
    }

    /// A signing-identity failure with the given message.
    pub fn sessionless(message: &str) -> (e: CovenantError)
        ensures
            e@ == CovenantErrorView::SessionlessError(message@),
    {
        CovenantError::SessionlessError(String::from_str(message))
    }

    /// The message carried by the error, without the prefix of its kind.
    pub fn detail(&self) -> (r: &str)
        ensures
            r@ == self@.detail(),
    {
        match self {
            CovenantError::RequestError(m) => m.as_str(),
            CovenantError::JsonError(m) => m.as_str(),
            CovenantError::ServiceError(m) => m.as_str(),
            CovenantError::ValidationError(m) => m.as_str(),
            CovenantError::SessionlessError(m) => m.as_str(),
        }
    }

    /// The full display text of the error.
    pub fn message(&self) -> (r: String)
        ensures
            r@ == self@.display(),
    {
        let prefix = match self {
            CovenantError::RequestError(_) => "HTTP request failed: ",
            CovenantError::JsonError(_) => "JSON serialization/deserialization failed: ",
            CovenantError::ServiceError(_) => "Service error: ",
            CovenantError::ValidationError(_) => "Contract validation error: ",
            CovenantError::SessionlessError(_) => "Sessionless error: ",
        };
        let mut out = String::from_str(prefix);
        out.append(self.detail());
        out
    }
}

} // verus!
