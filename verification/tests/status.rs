use covenant_rs::Contract;
use covenant_rs::ContractStep;
use covenant_rs::CovenantClient;
use covenant_rs::CovenantError;
use covenant_rs::SignatureMap;
use covenant_rs::StepSignature;
use covenant_rs::UserSignatureStatus;
use sessionless::Sessionless;

fn signature(timestamp: i64) -> StepSignature {
    StepSignature {
        signature: format!("sig-{}", timestamp),
        timestamp,
        message: "I agree".to_string(),
    }
}

fn step_named(id: &str, description: &str, completed: bool, signatures: SignatureMap) -> ContractStep {
    ContractStep {
        id: id.to_string(),
        description: description.to_string(),
        magic_spell: None,
        order: 0,
        signatures,
        completed,
        created_at: "2024-01-01T00:00:00Z".to_string(),
        completed_at: None,
    }
}

fn contract_of(steps: Vec<ContractStep>) -> Contract {
    Contract {
        uuid: "c-1".to_string(),
        title: "Lease Agreement".to_string(),
        description: String::new(),
        participants: vec!["alice".to_string(), "bob".to_string()],
        steps,
        product_uuid: None,
        bdo_location: None,
        created_at: "2024-01-01T00:00:00Z".to_string(),
        updated_at: "2024-01-01T00:00:00Z".to_string(),
        status: "active".to_string(),
    }
}

fn sample_contract() -> Contract {
    let mut first = SignatureMap::new();
    first.insert("alice".to_string(), Some(signature(1_700_000_000_123)));
    first.insert("bob".to_string(), None);
    let mut second = SignatureMap::new();
    second.insert("bob".to_string(), Some(signature(1_700_000_555_000)));
    contract_of(vec![
        step_named("step-1", "Sign lease", false, first),
        step_named("step-2", "Pay deposit", true, second),
        step_named("step-3", "Hand over keys", false, SignatureMap::new()),
    ])
}

fn anonymous_client() -> CovenantClient {
    CovenantClient::new("http://localhost:3011".to_string(), None).unwrap()
}

fn statuses(contract: &Contract, user: &str) -> Vec<UserSignatureStatus> {
    anonymous_client().get_user_signature_status(contract, Some(user)).unwrap()
}

#[test]
fn recorded_signature_is_reported_with_its_timestamp() {
    let result = statuses(&sample_contract(), "alice");
    assert!(result[0].has_signed);
    assert_eq!(result[0].signature_timestamp, Some(1_700_000_000_123));
}

#[test]
fn missing_entry_is_reported_as_unsigned() {
    let result = statuses(&sample_contract(), "alice");
    assert!(!result[1].has_signed);
    assert_eq!(result[1].signature_timestamp, None);
    assert!(!result[2].has_signed);
    assert_eq!(result[2].signature_timestamp, None);
}

#[test]
fn entry_without_signature_is_reported_as_unsigned() {
    let result = statuses(&sample_contract(), "bob");
    assert!(!result[0].has_signed);
    assert_eq!(result[0].signature_timestamp, None);
    assert!(result[1].has_signed);
    assert_eq!(result[1].signature_timestamp, Some(1_700_000_555_000));
}

#[test]
fn statuses_follow_the_order_of_the_steps() {
    let result = statuses(&sample_contract(), "alice");
    let ids: Vec<&str> = result.iter().map(|status| status.step_id.as_str()).collect();
    assert_eq!(ids, vec!["step-1", "step-2", "step-3"]);
    let descriptions: Vec<&str> = result.iter().map(|status| status.description.as_str()).collect();
    assert_eq!(descriptions, vec!["Sign lease", "Pay deposit", "Hand over keys"]);
}

#[test]
fn statuses_keep_the_steps_own_order_even_when_ids_are_shuffled() {
    let contract = contract_of(vec![
        step_named("step-3", "c", false, SignatureMap::new()),
        step_named("step-1", "a", true, SignatureMap::new()),
        step_named("step-2", "b", false, SignatureMap::new()),
    ]);
    let result = statuses(&contract, "alice");
    let ids: Vec<&str> = result.iter().map(|status| status.step_id.as_str()).collect();
    assert_eq!(ids, vec!["step-3", "step-1", "step-2"]);
}

#[test]
fn completion_is_the_steps_own_flag() {
    let result = statuses(&sample_contract(), "alice");
    assert!(!result[0].is_completed);
    assert!(result[1].is_completed);
    assert!(!result[1].has_signed);
    assert!(!result[2].is_completed);
}

#[test]
fn unknown_participant_has_signed_nothing() {
    let result = statuses(&sample_contract(), "mallory");
    assert_eq!(result.len(), 3);
    assert!(result.iter().all(|status| !status.has_signed));
    assert!(result.iter().all(|status| status.signature_timestamp.is_none()));
}

#[test]
fn contract_without_steps_has_no_statuses() {
    assert!(statuses(&contract_of(Vec::new()), "alice").is_empty());
}

#[test]
fn status_without_identifier_or_identity_is_a_validation_error() {
    let result = anonymous_client().get_user_signature_status(&sample_contract(), None);
    match result {
        Err(CovenantError::ValidationError(message)) => assert_eq!(message, "identifier required"),
        other => panic!("expected a validation error, got {:?}", other),
    }
}

#[test]
fn status_defaults_to_the_clients_own_identity() {
    let client =
        CovenantClient::new("http://localhost:3011".to_string(), Some(Sessionless::new())).unwrap();
    let me = client.participant_uuid().unwrap();
    let mut signatures = SignatureMap::new();
    signatures.insert(me.clone(), Some(signature(42)));
    signatures.insert("alice".to_string(), Some(signature(7)));
    let contract = contract_of(vec![
        step_named("step-1", "Sign lease", false, signatures),
        step_named("step-2", "Pay deposit", false, SignatureMap::new()),
    ]);
    let result = client.get_user_signature_status(&contract, None).unwrap();
    assert_eq!(result.len(), 2);
    assert!(result[0].has_signed);
    assert_eq!(result[0].signature_timestamp, Some(42));
    assert!(!result[1].has_signed);
}

#[test]
fn given_identifier_wins_over_the_clients_identity() {
    let client =
        CovenantClient::new("http://localhost:3011".to_string(), Some(Sessionless::new())).unwrap();
    let result = client.get_user_signature_status(&sample_contract(), Some("alice")).unwrap();
    assert!(result[0].has_signed);
    assert_eq!(result[0].signature_timestamp, Some(1_700_000_000_123));
}

#[test]
fn status_of_one_step_can_be_asked_directly() {
    let contract = sample_contract();
    let status = UserSignatureStatus::of_step(&contract.steps[1], "bob");
    assert_eq!(status.step_id, "step-2");
    assert_eq!(status.description, "Pay deposit");
    assert!(status.has_signed);
    assert_eq!(status.signature_timestamp, Some(1_700_000_555_000));
    assert!(status.is_completed);
}

#[test]
fn signature_map_starts_empty() {
    let map = SignatureMap::new();
    assert_eq!(map.len(), 0);
    assert!(map.get("alice").is_none());
    assert!(map.entries().is_empty());
}

#[test]
fn signature_map_holds_one_entry_per_participant() {
    let mut map = SignatureMap::new();
    map.insert("alice".to_string(), None);
    map.insert("bob".to_string(), Some(signature(5)));
    map.insert("alice".to_string(), Some(signature(9)));
    assert_eq!(map.len(), 2);
    assert_eq!(map.get("alice").unwrap().as_ref().unwrap().timestamp, 9);
    assert_eq!(map.get("bob").unwrap().as_ref().unwrap().timestamp, 5);
    assert!(map.get("carol").is_none());
    let names: Vec<&str> = map.entries().iter().map(|e| e.participant.as_str()).collect();
    assert_eq!(names, vec!["alice", "bob"]);
}

#[test]
fn signature_map_tells_an_empty_entry_from_no_entry() {
    let mut map = SignatureMap::new();
    map.insert("alice".to_string(), None);
    assert!(map.get("alice").unwrap().is_none());
    assert!(map.get("bob").is_none());
}

#[test]
fn signature_map_clone_holds_the_same_entries() {
    let mut map = SignatureMap::new();
    map.insert("alice".to_string(), Some(signature(5)));
    map.insert("bob".to_string(), None);
    let copy = map.clone();
    map.insert("alice".to_string(), None);
    assert_eq!(copy.len(), 2);
    let held = copy.get("alice").unwrap().as_ref().unwrap();
    assert_eq!(held.timestamp, 5);
    assert_eq!(held.signature, "sig-5");
    assert_eq!(held.message, "I agree");
    assert!(copy.get("bob").unwrap().is_none());
    assert!(map.get("alice").unwrap().is_none());
}
