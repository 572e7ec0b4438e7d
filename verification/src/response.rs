//! The envelope in which the service answers.

use crate::error::CovenantError;
use crate::error::CovenantErrorView;
use vstd::prelude::*;

verus! {

/// The envelope of every answer: a success flag, the data where there is any,
/// and the service's message where it failed.
#[derive(Debug, Clone)]
pub struct ServiceResponse<T> {
    pub success: bool,
    pub data: Option<T>,
    pub error: Option<String>,
}

/// The message reported for a failed answer: the service's own, or `fallback`
/// where it sent none.
pub open spec fn failure_text(error: Option<String>, fallback: Seq<char>) -> Seq<char> {
    match error {
        Some(message) => message@,
        None => fallback,
    }
}

impl<T> ServiceResponse<T> {
    /// What the envelope amounts to: a service error for a failed answer and
    /// for a successful one without data, else the data.
    pub open spec fn outcome(self, fallback: Seq<char>, missing: Seq<char>) -> Result<
        T,
        CovenantErrorView,
    > {
        if !self.success {
            Err(CovenantErrorView::ServiceError(failure_text(self.error, fallback)))
        } else {
            match self.data {
                Some(data) => Ok(data),
                None => Err(CovenantErrorView::ServiceError(missing)),
            }
        }
    }

    /// What a failed answer amounts to, whatever data came with it.
    pub open spec fn failure(self, fallback: Seq<char>) -> Option<CovenantErrorView> {
        if !self.success {
            Some(CovenantErrorView::ServiceError(failure_text(self.error, fallback)))
        } else {
            None
        }
    }

    /// Opens the envelope: the data unchanged, or the service error.
    pub fn into_result(self, fallback: &str, missing: &str) -> (r: Result<T, CovenantError>)
        ensures
            match r {
                Ok(data) => self.outcome(fallback@, missing@) == Ok::<T, CovenantErrorView>(data),
                Err(error) => self.outcome(fallback@, missing@) == Err::<T, CovenantErrorView>(
                    error@,
                ),
            },
    {
        if !self.success {
            return Err(service_failure(self.error, fallback));
        }
        match self.data {
            Some(data) => Ok(data),
            None => Err(CovenantError::service(missing)),
        }
    }

    /// Checks the flag alone: the service error of a failed answer, if it failed.
    pub fn into_failure(self, fallback: &str) -> (r: Option<CovenantError>)
        ensures
            r.deep_view() == self.failure(fallback@),
    {
        if !self.success {
            Some(service_failure(self.error, fallback))
        } else {
            None
        }
    }
}

/// The service error for a failed answer.
pub fn service_failure(error: Option<String>, fallback: &str) -> (r: CovenantError)
    ensures
        r@ == CovenantErrorView::ServiceError(failure_text(error, fallback@)),
{
    match error {
        Some(message) => CovenantError::ServiceError(message),
        None => CovenantError::service(fallback),
    }
}

} // verus!
