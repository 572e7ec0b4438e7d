//! The client: where the service lives, who signs, and how each request is
//! addressed and each answer is read.

use crate::clock::now_millis;
use crate::error::CovenantError;
use crate::error::CovenantErrorView;
use crate::model::Contract;
use crate::model::ContractSummary;
use crate::model::SignStepRequest;
use crate::model::SignStepRequestView;
use crate::model::SignStepResponse;
use crate::progress::ContractProgress;
use crate::response::failure_text;
use crate::response::service_failure;
use crate::response::ServiceResponse;
use crate::signer::identifier_of;
use crate::signer::public_key_hex;
use crate::signer::sign_text;
use crate::signer::signature_hex;
use crate::status::signature_statuses;
use crate::status::UserSignatureStatus;
use crate::text::decimal;
use crate::text::join;
use crate::text::join_strings;
use crate::text::push_decimal;
use crate::text::push_signed_decimal;
use crate::text::signed_decimal;
use crate::text::trim_trailing;
use crate::text::trim_trailing_slashes;
use vstd::prelude::*;
use vstd::string::StringExecFns;

verus! {

/// The message signed for a step where the caller gives none.
pub open spec fn default_sign_message(step_id: Seq<char>) -> Seq<char> {
    "Signing step: "@ + step_id
}

/// The text that is signed: contract, step, time and message, colon-separated.
pub open spec fn signing_text(
    contract_uuid: Seq<char>,
    step_id: Seq<char>,
    timestamp: i64,
    message: Seq<char>,
) -> Seq<char> {
    contract_uuid + ":"@ + step_id + ":"@ + signed_decimal(timestamp as int) + ":"@ + message
}

/// The message that is signed for a step: the caller's, or the default
/// message of the step where the caller gives none.
pub fn sign_message(step_id: &str, message: Option<&str>) -> (r: String)
    ensures
        r@ == match message {
            Some(text) => text@,
            None => default_sign_message(step_id@),
        },
{
    match message {
        Some(text) => String::from_str(text),
        None => {
            let mut text = String::from_str("Signing step: ");
            text.append(step_id);
            text
        },
    }
}

/// Renders the text that is signed for a step.
pub fn make_signing_text(contract_uuid: &str, step_id: &str, timestamp: i64, message: &str) -> (r:
    String)
    ensures
        r@ == signing_text(contract_uuid@, step_id@, timestamp, message@),
{
    let mut data = String::from_str(contract_uuid);
    data.append(":");
    data.append(step_id);
    data.append(":");
    push_signed_decimal(&mut data, timestamp);
    data.append(":");
    data.append(message);
    data
}

/// The query parameters of a rendering request: those that are given, in the
/// order theme, width, height.
pub open spec fn svg_params(
    theme: Option<Seq<char>>,
    width: Option<u32>,
    height: Option<u32>,
) -> Seq<Seq<char>> {
    let first = match theme {
        Some(name) => seq!["theme="@ + name],
        None => Seq::empty(),
    };
    let second = match width {
        Some(w) => seq!["width="@ + decimal(w as nat)],
        None => Seq::empty(),
    };
    let third = match height {
        Some(h) => seq!["height="@ + decimal(h as nat)],
        None => Seq::empty(),
    };
    first + second + third
}

/// The query string for the parameters: empty without any, else `?` and the
/// parameters joined by `&`.
pub open spec fn query_text(params: Seq<Seq<char>>) -> Seq<char> {
    if params.len() == 0 {
        Seq::empty()
    } else {
        "?"@ + join(params, "&"@)
    }
}

/// The text of an optional text argument.
pub open spec fn optional_text(text: Option<&str>) -> Option<Seq<char>> {
    match text {
        Some(t) => Some(t@),
        None => None,
    }
}

/// Mathematical model of a [`CovenantClient`].
pub struct CovenantClientView {
    /// The address of the service, without a trailing `/`.
    pub base_url: Seq<char>,
    /// The signing identity, where the client has one.
    pub sessionless: Option<sessionless::Sessionless>,
}

impl CovenantClientView {
    /// The identifier under which the client's identity takes part.
    pub open spec fn participant(self) -> Option<Seq<char>> {
        match self.sessionless {
            Some(identity) => Some(public_key_hex(identity)),
            None => None,
        }
    }

    pub open spec fn health_url(self) -> Seq<char> {
        self.base_url + "/health"@
    }

    pub open spec fn create_contract_url(self) -> Seq<char> {
        self.base_url + "/contract"@
    }

    pub open spec fn contract_url(self, uuid: Seq<char>) -> Seq<char> {
        self.base_url + "/contract/"@ + uuid
    }

    pub open spec fn sign_step_url(self, contract_uuid: Seq<char>) -> Seq<char> {
        self.base_url + "/contract/"@ + contract_uuid + "/sign"@
    }

    pub open spec fn list_contracts_url(self, participant: Option<Seq<char>>) -> Seq<char> {
        match participant {
            Some(uuid) => self.base_url + "/contracts"@ + "?participant="@ + uuid,
            None => self.base_url + "/contracts"@,
        }
    }

    pub open spec fn contract_svg_url(
        self,
        uuid: Seq<char>,
        theme: Option<Seq<char>>,
        width: Option<u32>,
        height: Option<u32>,
    ) -> Seq<char> {
        self.base_url + "/contract/"@ + uuid + "/svg"@ + query_text(
            svg_params(theme, width, height),
        )
    }

    /// The participant whose signatures are looked up: the one given, else
    /// the client's own identity.
    pub open spec fn queried_participant(self, user: Option<Seq<char>>) -> Option<Seq<char>> {
        match user {
            Some(uuid) => Some(uuid),
            None => self.participant(),
        }
    }

    /// The body that signs a step at the given time, for a client with the
    /// identity `identity`.
    pub open spec fn sign_request(
        identity: sessionless::Sessionless,
        contract_uuid: Seq<char>,
        step_id: Seq<char>,
        message: Option<Seq<char>>,
        timestamp: i64,
    ) -> SignStepRequestView {
        let message = match message {
            Some(text) => text,
            None => default_sign_message(step_id),
        };
        SignStepRequestView {
            participant_uuid: public_key_hex(identity),
            step_id,
            signature: signature_hex(
                identity,
                signing_text(contract_uuid, step_id, timestamp, message),
            ),
            timestamp,
            message,
        }
    }
}

/// A client of one service, with or without a signing identity.
pub struct CovenantClient {
    base_url: String,
    sessionless: Option<sessionless::Sessionless>,
}

impl View for CovenantClient {
    type V = CovenantClientView;

    closed spec fn view(&self) -> CovenantClientView {
        CovenantClientView { base_url: self.base_url@, sessionless: self.sessionless }
    }
}

impl CovenantClient {
    /// A client of the service at `base_url`, whose trailing `/` characters
    /// are dropped. Never fails.
    pub fn new(base_url: String, sessionless: Option<sessionless::Sessionless>) -> (r: Result<
        CovenantClient,
        CovenantError,
    >)
        ensures
            r is Ok,
            r->Ok_0@ == (CovenantClientView {
                base_url: trim_trailing(base_url@, '/'),
                sessionless,
            }),
    {
        let base_url = trim_trailing_slashes(base_url.as_str());
        Ok(CovenantClient { base_url, sessionless })
    }

    /// The address of the service, without a trailing `/`.
    pub fn base_url(&self) -> (r: &str)
        ensures
            r@ == self@.base_url,
    {
        self.base_url.as_str()
    }

    /// The identifier under which the client's identity takes part, where it
    /// has one.
    pub fn participant_uuid(&self) -> (r: Option<String>)
        ensures
            r.deep_view() == self@.participant(),
    {
        match &self.sessionless {
            Some(identity) => Some(identifier_of(identity)),
            None => None,
        }
    }

    /// Where the service reports its health.
    pub fn health_url(&self) -> (r: String)
        ensures
            r@ == self@.health_url(),
    {
        let mut url = self.base_url.clone();
        url.append("/health");
        url
    }

    /// Where a contract is created.
    pub fn create_contract_url(&self) -> (r: String)
        ensures
            r@ == self@.create_contract_url(),
    {
        let mut url = self.base_url.clone();
        url.append("/contract");
        url
    }

    /// Where the contract `uuid` is fetched, updated and deleted.
    pub fn contract_url(&self, uuid: &str) -> (r: String)
        ensures
            r@ == self@.contract_url(uuid@),
    {
        let mut url = self.base_url.clone();
        url.append("/contract/");
        url.append(uuid);
        url
    }

    /// Where a step of the contract `contract_uuid` is signed.
    pub fn sign_step_url(&self, contract_uuid: &str) -> (r: String)
        ensures
            r@ == self@.sign_step_url(contract_uuid@),
    {
        let mut url = self.contract_url(contract_uuid);
        url.append("/sign");
        url
    }

    /// Where contracts are listed: all of them, or those of one participant.
    pub fn list_contracts_url(&self, participant_uuid: Option<&str>) -> (r: String)
        ensures
            r@ == self@.list_contracts_url(optional_text(participant_uuid)),
    {
        let mut url = self.base_url.clone();
        url.append("/contracts");
        match participant_uuid {
            Some(uuid) => {
                url.append("?participant=");
                url.append(uuid);
            },
            None => {},
        }
        url
    }

    /// Where the contracts of the client's own identity are listed. Fails
    /// exactly where the client has no identity.
    pub fn my_contracts_url(&self) -> (r: Result<String, CovenantError>)
        ensures
            match self@.participant() {
                Some(uuid) => r is Ok && r->Ok_0@ == self@.list_contracts_url(Some(uuid)),
                None => r is Err && r->Err_0@ == CovenantErrorView::SessionlessError(
                    "Sessionless instance required"@,
                ),
            },
    {
        match &self.sessionless {
            Some(identity) => {
                let uuid = identifier_of(identity);
                Ok(self.list_contracts_url(Some(uuid.as_str())))
            },
            None => Err(CovenantError::sessionless("Sessionless instance required")),
        }
    }

    /// Where the contract `uuid` is rendered, with the display parameters
    /// that are given.
    pub fn contract_svg_url(
        &self,
        uuid: &str,
        theme: Option<&str>,
        width: Option<u32>,
        height: Option<u32>,
    ) -> (r: String)
        ensures
            r@ == self@.contract_svg_url(uuid@, optional_text(theme), width, height),
    {
        let mut params: Vec<String> = Vec::new();
        match theme {
            Some(name) => {
                let mut param = String::from_str("theme=");
                param.append(name);
                params.push(param);
            },
            None => {},
        }
        match width {
            Some(w) => {
                let mut param = String::from_str("width=");
                push_decimal(&mut param, w as u64);
                params.push(param);
            },
            None => {},
        }
        match height {
            Some(h) => {
                let mut param = String::from_str("height=");
                push_decimal(&mut param, h as u64);
                params.push(param);
            },
            None => {},
        }
        assert(params.deep_view() =~= svg_params(optional_text(theme), width, height));
        let mut url = self.contract_url(uuid);
        url.append("/svg");
        if params.len() > 0 {
            url.append("?");
            url.append(join_strings(&params, "&").as_str());
        }
        url
    }

    /// The body that signs the step `step_id` of the contract `contract_uuid`
    /// at the time `timestamp`, in milliseconds since the epoch. Without a
    /// message the default message of the step is signed. Fails exactly where
    /// the client has no identity.
    pub fn sign_step_request_at(
        &self,
        contract_uuid: &str,
        step_id: &str,
        message: Option<&str>,
        timestamp: i64,
    ) -> (r: Result<SignStepRequest, CovenantError>)
        ensures
            match self@.sessionless {
                Some(identity) => r is Ok && r->Ok_0@ == CovenantClientView::sign_request(
                    identity,
                    contract_uuid@,
                    step_id@,
                    optional_text(message),
                    timestamp,
                ),
                None => r is Err && r->Err_0@ == CovenantErrorView::SessionlessError(
                    "Sessionless instance required for signing"@,
                ),
            },
    {
        let identity = match &self.sessionless {
            Some(identity) => identity,
            None => {
                return Err(
                    CovenantError::sessionless("Sessionless instance required for signing"),
                );
            },
        };
        let message = sign_message(step_id, message);
        let data = make_signing_text(contract_uuid, step_id, timestamp, message.as_str());
        let signature = sign_text(identity, data.as_str());
        Ok(
            SignStepRequest::new(
                identifier_of(identity),
                String::from_str(step_id),
                signature,
                timestamp,
                message,
            ),
        )
    }

    /// The body that signs the step `step_id` of the contract `contract_uuid`
    /// at the time the clock shows. Fails exactly where the client has no
    /// identity; the clock is not read then.
    pub fn sign_step_request(&self, contract_uuid: &str, step_id: &str, message: Option<&str>) -> (r:
        Result<SignStepRequest, CovenantError>)
        ensures
            match self@.sessionless {
                Some(identity) => r is Ok && r->Ok_0@ == CovenantClientView::sign_request(
                    identity,
                    contract_uuid@,
                    step_id@,
                    optional_text(message),
                    r->Ok_0.timestamp,
                ),
                None => r is Err && r->Err_0@ == CovenantErrorView::SessionlessError(
                    "Sessionless instance required for signing"@,
                ),
            },
    {
        if self.sessionless.is_none() {
            return Err(CovenantError::sessionless("Sessionless instance required for signing"));
        }
        let timestamp = now_millis();
        self.sign_step_request_at(contract_uuid, step_id, message, timestamp)
    }

    /// Reads the answer to creating a contract.
    pub fn create_contract_result(response: ServiceResponse<Contract>) -> (r: Result<
        Contract,
        CovenantError,
    >)
        ensures
            match r {
                Ok(contract) => response.outcome("Unknown error"@, "No contract data returned"@)
                    == Ok::<Contract, CovenantErrorView>(contract),
                Err(error) => response.outcome("Unknown error"@, "No contract data returned"@)
                    == Err::<Contract, CovenantErrorView>(error@),
            },
    {
        response.into_result("Unknown error", "No contract data returned")
    }

    /// Reads the answer to fetching a contract.
    pub fn get_contract_result(response: ServiceResponse<Contract>) -> (r: Result<
        Contract,
        CovenantError,
    >)
        ensures
            match r {
                Ok(contract) => response.outcome(
                    "Contract not found"@,
                    "No contract data returned"@,
                ) == Ok::<Contract, CovenantErrorView>(contract),
                Err(error) => response.outcome("Contract not found"@, "No contract data returned"@)
                    == Err::<Contract, CovenantErrorView>(error@),
            },
    {
        response.into_result("Contract not found", "No contract data returned")
    }

    /// Reads the answer to updating a contract.
    pub fn update_contract_result(response: ServiceResponse<Contract>) -> (r: Result<
        Contract,
        CovenantError,
    >)
        ensures
            match r {
                Ok(contract) => response.outcome("Update failed"@, "No contract data returned"@)
                    == Ok::<Contract, CovenantErrorView>(contract),
                Err(error) => response.outcome("Update failed"@, "No contract data returned"@)
                    == Err::<Contract, CovenantErrorView>(error@),
            },
    {
        response.into_result("Update failed", "No contract data returned")
    }

    /// Reads the answer to signing a step.
    pub fn sign_step_result(response: ServiceResponse<SignStepResponse>) -> (r: Result<
        SignStepResponse,
        CovenantError,
    >)
        ensures
            match r {
                Ok(signed) => response.outcome(
                    "Sign step failed"@,
                    "No sign response data returned"@,
                ) == Ok::<SignStepResponse, CovenantErrorView>(signed),
                Err(error) => response.outcome(
                    "Sign step failed"@,
                    "No sign response data returned"@,
                ) == Err::<SignStepResponse, CovenantErrorView>(error@),
            },
    {
        response.into_result("Sign step failed", "No sign response data returned")
    }

    /// Reads the answer to listing contracts.
    pub fn list_contracts_result(response: ServiceResponse<Vec<ContractSummary>>) -> (r: Result<
        Vec<ContractSummary>,
        CovenantError,
    >)
        ensures
            match r {
                Ok(listed) => response.outcome(
                    "List contracts failed"@,
                    "No contracts data returned"@,
                ) == Ok::<Vec<ContractSummary>, CovenantErrorView>(listed),
                Err(error) => response.outcome(
                    "List contracts failed"@,
                    "No contracts data returned"@,
                ) == Err::<Vec<ContractSummary>, CovenantErrorView>(error@),
            },
    {
        response.into_result("List contracts failed", "No contracts data returned")
    }

    /// Reads the answer to deleting the contract `uuid`: the identifier of the
    /// deleted contract, whatever data came with a successful answer.
    pub fn delete_contract_result<T>(response: ServiceResponse<T>, uuid: &str) -> (r: Result<
        String,
        CovenantError,
    >)
        ensures
            match response.failure("Delete failed"@) {
                Some(error) => r is Err && r->Err_0@ == error,
                None => r is Ok && r->Ok_0@ == uuid@,
            },
    {
        match response.into_failure("Delete failed") {
            Some(error) => Err(error),
            None => Ok(String::from_str(uuid)),
        }
    }

    /// The error for a rendering that the service refused, from the envelope
    /// that came in place of the picture.
    pub fn svg_failure<T>(response: ServiceResponse<T>) -> (r: CovenantError)
        ensures
            r@ == CovenantErrorView::ServiceError(
                failure_text(response.error, "SVG generation failed"@),
            ),
    {
        service_failure(response.error, "SVG generation failed")
    }

    /// The aggregate progress of `contract`.
    pub fn get_contract_progress(&self, contract: &Contract) -> (r: ContractProgress)
        ensures
            r.describes(contract@.steps, contract@.participants.len()),
            r.completed_steps <= r.total_steps,
            r.is_complete == (r.completed_steps == r.total_steps),
            r.total_steps == 0 ==> r.whole_percent == 0 && r.is_complete,
            r.whole_percent <= 100,
            r.total_steps > 0 ==> (r.is_complete <==> r.whole_percent == 100),
    {
        ContractProgress::of(contract)
    }

    /// The standing of a participant on each step of `contract`, in the order
    /// of the steps: of `user_uuid` where it is given, else of the client's
    /// own identity. Fails exactly where neither is there.
    pub fn get_user_signature_status(&self, contract: &Contract, user_uuid: Option<&str>) -> (r:
        Result<Vec<UserSignatureStatus>, CovenantError>)
        ensures
            match self@.queried_participant(optional_text(user_uuid)) {
                Some(user) => r is Ok && r->Ok_0.deep_view() == signature_statuses(
                    contract@,
                    user,
                ),
                None => r is Err && r->Err_0@ == CovenantErrorView::ValidationError(
                    "identifier required"@,
                ),
            },
            r is Ok ==> r->Ok_0.len() == contract.steps.len(),
            r is Ok ==> forall|i: int|
                0 <= i < contract.steps.len() ==> (#[trigger] r->Ok_0[i]).step_id@
                    == contract.steps[i].id@,
    {
        match user_uuid {
            Some(user) => Ok(UserSignatureStatus::of_contract(contract, user)),
            None => match &self.sessionless {
                Some(identity) => {
                    let user = identifier_of(identity);
                    Ok(UserSignatureStatus::of_contract(contract, user.as_str()))
                },
                None => Err(CovenantError::validation("identifier required")),
            },
        }
    }
}

} // verus!
