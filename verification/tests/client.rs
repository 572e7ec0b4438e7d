use covenant_rs::client::make_signing_text;
use covenant_rs::client::sign_message;
use covenant_rs::Contract;
use covenant_rs::ContractSummary;
use covenant_rs::CovenantClient;
use covenant_rs::CovenantError;
use covenant_rs::ServiceResponse;
use covenant_rs::SignStepRequest;
use covenant_rs::SignStepResponse;
use sessionless::hex::FromHex;
use sessionless::hex::IntoHex;
use sessionless::secp256k1::SecretKey;
use sessionless::Sessionless;
use sessionless::Signature;

fn identity() -> Sessionless {
    Sessionless::from_private_key(SecretKey::from_slice(&[0x11; 32]).unwrap())
}

fn client_at(base_url: &str) -> CovenantClient {
    CovenantClient::new(base_url.to_string(), None).unwrap()
}

fn signing_client() -> CovenantClient {
    CovenantClient::new("https://covenant.example".to_string(), Some(identity())).unwrap()
}

fn contract(uuid: &str) -> Contract {
    Contract {
        uuid: uuid.to_string(),
        title: "Lease Agreement".to_string(),
        description: String::new(),
        participants: vec!["alice".to_string(), "bob".to_string()],
        steps: Vec::new(),
        product_uuid: None,
        bdo_location: None,
        created_at: "2024-01-01T00:00:00Z".to_string(),
        updated_at: "2024-01-01T00:00:00Z".to_string(),
        status: "active".to_string(),
    }
}

fn answered<T>(data: T) -> ServiceResponse<T> {
    ServiceResponse { success: true, data: Some(data), error: None }
}

fn empty_answer<T>() -> ServiceResponse<T> {
    ServiceResponse { success: true, data: None, error: None }
}

fn refused<T>(error: Option<&str>) -> ServiceResponse<T> {
    ServiceResponse { success: false, data: None, error: error.map(|text| text.to_string()) }
}

fn service_message<T: std::fmt::Debug>(result: Result<T, CovenantError>) -> String {
    match result {
        Err(CovenantError::ServiceError(message)) => message,
        other => panic!("expected a service error, got {:?}", other),
    }
}

#[test]
fn new_drops_one_trailing_slash() {
    assert_eq!(client_at("http://localhost:3011/").base_url(), "http://localhost:3011");
}

#[test]
fn new_drops_every_trailing_slash() {
    assert_eq!(client_at("http://localhost:3011///").base_url(), "http://localhost:3011");
    assert_eq!(client_at("///").base_url(), "");
}

#[test]
fn new_keeps_an_address_without_trailing_slash() {
    assert_eq!(client_at("http://localhost:3011").base_url(), "http://localhost:3011");
    assert_eq!(client_at("http://host/api/v1").base_url(), "http://host/api/v1");
    assert_eq!(client_at("").base_url(), "");
}

#[test]
fn new_keeps_inner_slashes_and_wide_characters() {
    assert_eq!(client_at("http://h\u{f6}st/\u{e9}/").base_url(), "http://h\u{f6}st/\u{e9}");
}

#[test]
fn urls_are_built_on_the_trimmed_address() {
    let client = client_at("http://host:3011/");
    assert_eq!(client.health_url(), "http://host:3011/health");
    assert_eq!(client.create_contract_url(), "http://host:3011/contract");
    assert_eq!(client.contract_url("abc-1"), "http://host:3011/contract/abc-1");
    assert_eq!(client.sign_step_url("abc-1"), "http://host:3011/contract/abc-1/sign");
}

#[test]
fn list_url_names_the_participant_when_given() {
    let client = client_at("http://host");
    assert_eq!(client.list_contracts_url(None), "http://host/contracts");
    assert_eq!(client.list_contracts_url(Some("alice")), "http://host/contracts?participant=alice");
}

#[test]
fn my_contracts_need_an_identity() {
    match client_at("http://host").my_contracts_url() {
        Err(CovenantError::SessionlessError(message)) => {
            assert_eq!(message, "Sessionless instance required")
        }
        other => panic!("expected a sessionless error, got {:?}", other),
    }
}

#[test]
fn my_contracts_are_listed_under_the_public_key() {
    let client = signing_client();
    let key = identity().public_key().to_hex();
    assert_eq!(
        client.my_contracts_url().unwrap(),
        format!("https://covenant.example/contracts?participant={}", key)
    );
}

#[test]
fn participant_uuid_is_the_hex_public_key() {
    let key = identity().public_key().to_hex();
    assert_eq!(key.len(), 66);
    assert_eq!(signing_client().participant_uuid(), Some(key));
    assert_eq!(client_at("http://host").participant_uuid(), None);
}

#[test]
fn svg_url_without_parameters_has_no_query() {
    let client = client_at("http://host");
    assert_eq!(client.contract_svg_url("c1", None, None, None), "http://host/contract/c1/svg");
}

#[test]
fn svg_url_lists_given_parameters_in_order() {
    let client = client_at("http://host");
    assert_eq!(
        client.contract_svg_url("c1", Some("dark"), Some(800), Some(600)),
        "http://host/contract/c1/svg?theme=dark&width=800&height=600"
    );
    assert_eq!(
        client.contract_svg_url("c1", None, Some(0), None),
        "http://host/contract/c1/svg?width=0"
    );
    assert_eq!(
        client.contract_svg_url("c1", Some("light"), None, Some(4294967295)),
        "http://host/contract/c1/svg?theme=light&height=4294967295"
    );
    assert_eq!(
        client.contract_svg_url("c1", None, None, Some(7)),
        "http://host/contract/c1/svg?height=7"
    );
    assert_eq!(
        client.contract_svg_url("c1", Some(""), None, None),
        "http://host/contract/c1/svg?theme="
    );
}

#[test]
fn sign_request_needs_an_identity() {
    let client = client_at("http://host");
    for result in [
        client.sign_step_request("c1", "step-1", None),
        client.sign_step_request_at("c1", "step-1", Some("ok"), 5),
    ] {
        match result {
            Err(CovenantError::SessionlessError(message)) => {
                assert_eq!(message, "Sessionless instance required for signing")
            }
            other => panic!("expected a sessionless error, got {:?}", other),
        }
    }
}

#[test]
fn sign_request_signs_contract_step_time_and_message() {
    let client = signing_client();
    let request =
        client.sign_step_request_at("c1", "step-2", Some("I agree"), 1_700_000_000_123).unwrap();
    assert_eq!(request.participant_uuid, identity().public_key().to_hex());
    assert_eq!(request.step_id, "step-2");
    assert_eq!(request.timestamp, 1_700_000_000_123);
    assert_eq!(request.message, "I agree");
    let signed_text = "c1:step-2:1700000000123:I agree";
    assert_ne!(request.signature, signed_text);
    assert_eq!(request.signature, identity().sign(signed_text).to_hex());
    let signature = Signature::from_hex(&request.signature).unwrap();
    let verifier = Sessionless::new();
    assert!(verifier.verify(signed_text, identity().public_key(), &signature).is_ok());
    assert!(verifier
        .verify("c1:step-2:1700000000124:I agree", identity().public_key(), &signature)
        .is_err());
}

#[test]
fn sign_request_defaults_the_message_to_the_step() {
    let client = signing_client();
    let request = client.sign_step_request_at("c1", "step-2", None, 99).unwrap();
    assert_eq!(request.message, "Signing step: step-2");
    assert_eq!(request.signature, identity().sign("c1:step-2:99:Signing step: step-2").to_hex());
}

#[test]
fn sign_request_renders_negative_and_extreme_times() {
    let client = signing_client();
    let request = client.sign_step_request_at("c", "s", Some("m"), -12).unwrap();
    assert_eq!(request.signature, identity().sign("c:s:-12:m").to_hex());
    let request = client.sign_step_request_at("c", "s", Some("m"), 0).unwrap();
    assert_eq!(request.signature, identity().sign("c:s:0:m").to_hex());
    let request = client.sign_step_request_at("c", "s", Some("m"), i64::MIN).unwrap();
    assert_eq!(request.signature, identity().sign("c:s:-9223372036854775808:m").to_hex());
    let request = client.sign_step_request_at("c", "s", Some("m"), i64::MAX).unwrap();
    assert_eq!(request.signature, identity().sign("c:s:9223372036854775807:m").to_hex());
}

#[test]
fn sign_request_reads_the_clock() {
    let before = std::time::SystemTime::now()
        .duration_since(std::time::UNIX_EPOCH)
        .unwrap()
        .as_millis() as i64;
    let request = signing_client().sign_step_request("c1", "step-1", None).unwrap();
    let after = std::time::SystemTime::now()
        .duration_since(std::time::UNIX_EPOCH)
        .unwrap()
        .as_millis() as i64;
    assert!(before <= request.timestamp && request.timestamp <= after);
    let signed_text = format!("c1:step-1:{}:Signing step: step-1", request.timestamp);
    assert_eq!(request.signature, identity().sign(&signed_text).to_hex());
}

#[test]
fn signed_message_is_the_callers_or_the_default() {
    assert_eq!(sign_message("step-2", Some("I agree")), "I agree");
    assert_eq!(sign_message("step-2", Some("")), "");
    assert_eq!(sign_message("step-2", None), "Signing step: step-2");
}

#[test]
fn signing_text_is_colon_separated() {
    assert_eq!(
        make_signing_text("c1", "step-2", 1_700_000_000_123, "I agree"),
        "c1:step-2:1700000000123:I agree"
    );
    assert_eq!(make_signing_text("", "", -5, ""), "::-5:");
    assert_eq!(make_signing_text("a:b", "c", 0, "d:e"), "a:b:c:0:d:e");
}

#[test]
fn sign_request_is_made_of_its_parts() {
    let request = SignStepRequest::new(
        "alice".to_string(),
        "step-1".to_string(),
        "abcd".to_string(),
        17,
        "I agree".to_string(),
    );
    assert_eq!(request.participant_uuid, "alice");
    assert_eq!(request.step_id, "step-1");
    assert_eq!(request.signature, "abcd");
    assert_eq!(request.timestamp, 17);
    assert_eq!(request.message, "I agree");
}

#[test]
fn answers_with_data_are_handed_on() {
    let created = CovenantClient::create_contract_result(answered(contract("c1"))).unwrap();
    assert_eq!(created.uuid, "c1");
    let fetched = CovenantClient::get_contract_result(answered(contract("c2"))).unwrap();
    assert_eq!(fetched.uuid, "c2");
    let updated = CovenantClient::update_contract_result(answered(contract("c3"))).unwrap();
    assert_eq!(updated.uuid, "c3");
    let signed = CovenantClient::sign_step_result(answered(SignStepResponse {
        contract_uuid: "c4".to_string(),
        step_id: "step-1".to_string(),
        step_completed: true,
        magic_triggered: false,
    }))
    .unwrap();
    assert_eq!(signed.contract_uuid, "c4");
    assert!(signed.step_completed);
    assert!(!signed.magic_triggered);
    let listed = CovenantClient::list_contracts_result(answered(vec![ContractSummary {
        uuid: "c5".to_string(),
        title: "Lease".to_string(),
        participants: vec!["alice".to_string()],
        created_at: String::new(),
        updated_at: String::new(),
        step_count: 2,
        completed_steps: 1,
    }]))
    .unwrap();
    assert_eq!(listed.len(), 1);
    assert_eq!(listed[0].uuid, "c5");
    assert_eq!(listed[0].step_count, 2);
}

#[test]
fn refused_answers_carry_the_services_message() {
    assert_eq!(
        service_message(CovenantClient::create_contract_result(refused(Some("quota")))),
        "quota"
    );
    assert_eq!(service_message(CovenantClient::get_contract_result(refused(Some("gone")))), "gone");
    assert_eq!(
        service_message(CovenantClient::update_contract_result(refused(Some("locked")))),
        "locked"
    );
    assert_eq!(service_message(CovenantClient::sign_step_result(refused(Some("late")))), "late");
    assert_eq!(
        service_message(CovenantClient::list_contracts_result(refused(Some("busy")))),
        "busy"
    );
    assert_eq!(
        service_message(CovenantClient::delete_contract_result(refused::<bool>(Some("held")), "c")),
        "held"
    );
}

#[test]
fn refused_answers_without_message_get_the_default_of_the_operation() {
    assert_eq!(
        service_message(CovenantClient::create_contract_result(refused(None))),
        "Unknown error"
    );
    assert_eq!(
        service_message(CovenantClient::get_contract_result(refused(None))),
        "Contract not found"
    );
    assert_eq!(
        service_message(CovenantClient::update_contract_result(refused(None))),
        "Update failed"
    );
    assert_eq!(
        service_message(CovenantClient::sign_step_result(refused(None))),
        "Sign step failed"
    );
    assert_eq!(
        service_message(CovenantClient::list_contracts_result(refused(None))),
        "List contracts failed"
    );
    assert_eq!(
        service_message(CovenantClient::delete_contract_result(refused::<bool>(None), "c")),
        "Delete failed"
    );
}

#[test]
fn refusal_wins_over_data_that_came_along() {
    let response =
        ServiceResponse { success: false, data: Some(contract("c1")), error: Some("no".to_string()) };
    assert_eq!(service_message(CovenantClient::get_contract_result(response)), "no");
}

#[test]
fn successful_answers_without_data_are_service_errors() {
    assert_eq!(
        service_message(CovenantClient::create_contract_result(empty_answer())),
        "No contract data returned"
    );
    assert_eq!(
        service_message(CovenantClient::get_contract_result(empty_answer())),
        "No contract data returned"
    );
    assert_eq!(
        service_message(CovenantClient::update_contract_result(empty_answer())),
        "No contract data returned"
    );
    assert_eq!(
        service_message(CovenantClient::sign_step_result(empty_answer())),
        "No sign response data returned"
    );
    assert_eq!(
        service_message(CovenantClient::list_contracts_result(empty_answer())),
        "No contracts data returned"
    );
}

#[test]
fn successful_answer_ignores_a_stray_message() {
    let response =
        ServiceResponse { success: true, data: Some(contract("c1")), error: Some("odd".to_string()) };
    assert_eq!(CovenantClient::get_contract_result(response).unwrap().uuid, "c1");
}

#[test]
fn delete_answers_with_the_identifier() {
    assert_eq!(
        CovenantClient::delete_contract_result(empty_answer::<bool>(), "c-9").unwrap(),
        "c-9"
    );
    assert_eq!(CovenantClient::delete_contract_result(answered(true), "c-9").unwrap(), "c-9");
}

#[test]
fn refused_rendering_is_a_service_error() {
    match CovenantClient::svg_failure(refused::<bool>(Some("no such theme"))) {
        CovenantError::ServiceError(message) => assert_eq!(message, "no such theme"),
        other => panic!("expected a service error, got {:?}", other),
    }
    match CovenantClient::svg_failure(empty_answer::<bool>()) {
        CovenantError::ServiceError(message) => assert_eq!(message, "SVG generation failed"),
        other => panic!("expected a service error, got {:?}", other),
    }
}

#[test]
fn envelope_opens_with_the_callers_own_texts() {
    let result = refused::<u8>(None).into_result("fallback", "missing");
    assert_eq!(service_message(result), "fallback");
    let result = empty_answer::<u8>().into_result("fallback", "missing");
    assert_eq!(service_message(result), "missing");
    assert_eq!(answered(5u8).into_result("fallback", "missing").unwrap(), 5);
    assert!(answered(5u8).into_failure("fallback").is_none());
    match refused::<u8>(Some("why")).into_failure("fallback") {
        Some(CovenantError::ServiceError(message)) => assert_eq!(message, "why"),
        other => panic!("expected a service error, got {:?}", other),
    }
}
