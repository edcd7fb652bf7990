use cedar_authz::error::AuthzError;
use cedar_authz::pipeline::is_authorized;
use cedar_authz::pipeline::is_authorized_batch;
use cedar_authz::pipeline::is_authorized_batch_records;
use cedar_authz::pipeline::ItemRecord;
use cedar_authz::request::RawRequest;
use cedar_authz::request::to_request_args;
use cedar_authz::response::DecisionSer;

fn raw_request(principal: &str, action: &str, resource: &str) -> RawRequest {
    RawRequest {
        principal: Some(principal.to_string()),
        action: Some(action.to_string()),
        resource: Some(resource.to_string()),
        context: None,
        correlation_id: None,
    }
}

fn alice_policy() -> String {
    "permit(principal == User::\"alice\", action == Action::\"view\", resource == File::\"f.txt\");"
        .to_string()
}

fn alice_entities() -> String {
    "[{\"uid\":{\"type\":\"User\",\"id\":\"alice\"},\"attrs\":{},\"parents\":[]},{\"uid\":{\"type\":\"File\",\"id\":\"f.txt\"},\"attrs\":{},\"parents\":[]}]"
    .to_string()
}

fn decision_of(json: &str) -> String {
    let v: serde_json::Value = serde_json::from_str(json).unwrap();
    v.get("decision").unwrap().as_str().unwrap().to_string()
}

fn errors_of(json: &str) -> Vec<String> {
    let v: serde_json::Value = serde_json::from_str(json).unwrap();
    v.get("diagnostics")
        .unwrap()
        .get("errors")
        .unwrap()
        .as_array()
        .unwrap()
        .iter()
        .map(|e| e.as_str().unwrap().to_string())
        .collect()
}

#[test]
fn batch_length_preserved_under_mixed_failures() {
    let mut requests = Vec::new();
    requests.push(raw_request("User::\"alice\"", "Action::\"view\"", "File::\"f.txt\""));
    requests.push(raw_request("not an id", "Action::\"view\"", "File::\"f.txt\""));
    requests.push(raw_request("User::\"bob\"", "Action::\"view\"", "File::\"f.txt\""));
    requests.push(RawRequest {
        principal: None,
        action: Some("Action::\"view\"".to_string()),
        resource: Some("File::\"f.txt\"".to_string()),
        context: None,
        correlation_id: None,
    });
    requests.push(raw_request("User::\"alice\"", "Action::\"view\"", "File::\"f.txt\""));
    let responses = is_authorized_batch(&requests, &alice_policy(), &alice_entities(), &None, false);
    assert_eq!(responses.len(), 5);
    assert_eq!(decision_of(&responses[0]), "Allow");
    assert_eq!(decision_of(&responses[1]), "NoDecision");
    assert_eq!(decision_of(&responses[2]), "Deny");
    assert_eq!(decision_of(&responses[3]), "NoDecision");
    assert_eq!(decision_of(&responses[4]), "Allow");
}

#[test]
fn empty_batch_returns_no_responses() {
    let requests: Vec<RawRequest> = Vec::new();
    let responses = is_authorized_batch(&requests, &alice_policy(), &alice_entities(), &None, false);
    assert!(responses.is_empty());
}

#[test]
fn unparsable_policies_poison_every_item() {
    let mut requests = Vec::new();
    for i in 0..1000 {
        let mut r = raw_request("User::\"alice\"", "Action::\"view\"", "File::\"f.txt\"");
        r.correlation_id = Some(format!("req-{}", i));
        requests.push(r);
    }
    let responses = is_authorized_batch(
        &requests,
        &"this is not a policy".to_string(),
        &alice_entities(),
        &None,
        false,
    );
    assert_eq!(responses.len(), 1000);
    for resp in &responses {
        assert_eq!(decision_of(resp), "NoDecision");
        let errors = errors_of(resp);
        assert!(!errors.is_empty());
        assert!(errors[0].starts_with("policy parse errors:\n"));
    }
}

#[test]
fn unparsable_entities_poison_every_item() {
    let requests = vec![
        raw_request("User::\"alice\"", "Action::\"view\"", "File::\"f.txt\""),
        raw_request("User::\"bob\"", "Action::\"view\"", "File::\"f.txt\""),
    ];
    let responses =
        is_authorized_batch(&requests, &alice_policy(), &"not entities".to_string(), &None, false);
    assert_eq!(responses.len(), 2);
    for resp in &responses {
        assert_eq!(decision_of(resp), "NoDecision");
        let errors = errors_of(resp);
        assert_eq!(errors, vec!["failed to parse entities from:\nnot entities".to_string()]);
    }
}

#[test]
fn correlation_id_passes_through_exactly() {
    let mut r = raw_request("User::\"alice\"", "Action::\"view\"", "File::\"f.txt\"");
    r.correlation_id = Some("req-42".to_string());
    let response = is_authorized(r, &alice_policy(), &alice_entities(), &None, false);
    let v: serde_json::Value = serde_json::from_str(&response).unwrap();
    assert_eq!(v.get("correlation_id").unwrap().as_str().unwrap(), "req-42");
}

#[test]
fn absent_correlation_id_stays_absent() {
    let r = raw_request("User::\"alice\"", "Action::\"view\"", "File::\"f.txt\"");
    let response = is_authorized(r, &alice_policy(), &alice_entities(), &None, false);
    let v: serde_json::Value = serde_json::from_str(&response).unwrap();
    assert!(v.get("correlation_id").unwrap().is_null());
}

#[test]
fn empty_policy_text_poisons_every_item() {
    // Blank policy text declares no policy at all: it is recorded as a
    // fatal batch error, so every item yields no decision and a
    // non-empty error list.
    let requests = vec![
        raw_request("User::\"alice\"", "Action::\"view\"", "File::\"f.txt\""),
        raw_request("User::\"bob\"", "Action::\"view\"", "File::\"f.txt\""),
    ];
    let responses =
        is_authorized_batch(&requests, &String::new(), &alice_entities(), &None, false);
    assert_eq!(responses.len(), 2);
    for resp in &responses {
        assert_eq!(decision_of(resp), "NoDecision");
        assert_eq!(
            errors_of(resp),
            vec!["policy parse errors:\npolicy text is empty".to_string()]
        );
    }
}

#[test]
fn whitespace_policy_text_poisons_every_item() {
    let requests = vec![raw_request("User::\"alice\"", "Action::\"view\"", "File::\"f.txt\"")];
    let responses =
        is_authorized_batch(&requests, &" \t\n ".to_string(), &alice_entities(), &None, false);
    assert_eq!(responses.len(), 1);
    assert_eq!(decision_of(&responses[0]), "NoDecision");
    assert_eq!(
        errors_of(&responses[0]),
        vec!["policy parse errors:\npolicy text is empty".to_string()]
    );
}

#[test]
fn missing_required_field_is_reported() {
    let r = RawRequest {
        principal: None,
        action: Some("Action::\"view\"".to_string()),
        resource: Some("File::\"f.txt\"".to_string()),
        context: None,
        correlation_id: None,
    };
    match to_request_args(&r) {
        Err(e) => assert_eq!(e.message, "missing required field: principal"),
        Ok(_) => panic!("a missing principal must be rejected"),
    }
    let response = is_authorized(r, &alice_policy(), &alice_entities(), &None, false);
    assert_eq!(decision_of(&response), "NoDecision");
    assert_eq!(errors_of(&response), vec!["missing required field: principal".to_string()]);
}

#[test]
fn malformed_identifier_fails_only_its_item() {
    let requests = vec![
        raw_request("nonsense", "Action::\"view\"", "File::\"f.txt\""),
        raw_request("User::\"alice\"", "Action::\"view\"", "File::\"f.txt\""),
    ];
    let records =
        is_authorized_batch_records(&requests, &alice_policy(), &alice_entities(), &None, false);
    assert_eq!(records.len(), 2);
    match &records[0] {
        ItemRecord::Failed(errs) => {
            assert_eq!(errs.len(), 1);
            assert!(errs[0].message.starts_with(
                "failed to parse schema from request: Failed to parse principal as entity Uid"
            ));
        }
        ItemRecord::Decided(_) => panic!("a malformed principal must not decide"),
    }
    match &records[1] {
        ItemRecord::Decided(resp) => assert_eq!(resp.decision, DecisionSer::Allow),
        ItemRecord::Failed(_) => panic!("the sibling item must be unaffected"),
    }
}

#[test]
fn malformed_context_json_fails_the_item() {
    let mut r = raw_request("User::\"alice\"", "Action::\"view\"", "File::\"f.txt\"");
    r.context = Some("{not json".to_string());
    let response = is_authorized(r, &alice_policy(), &alice_entities(), &None, false);
    assert_eq!(decision_of(&response), "NoDecision");
    let errors = errors_of(&response);
    assert_eq!(errors.len(), 1);
    assert!(errors[0]
        .starts_with("failed to parse schema from request: Failed to parse context from JSON"));
}

#[test]
fn every_identifier_failure_is_collected() {
    let requests = vec![raw_request("bad principal", "bad action", "bad resource")];
    let records =
        is_authorized_batch_records(&requests, &alice_policy(), &alice_entities(), &None, false);
    match &records[0] {
        ItemRecord::Failed(errs) => {
            let msgs: Vec<&str> = errs.iter().map(|e| e.message.as_str()).collect();
            assert_eq!(errs.len(), 3);
            assert!(msgs[0].contains("Failed to parse principal as entity Uid"));
            assert!(msgs[1].contains("Failed to parse action as entity Uid"));
            assert!(msgs[2].contains("Failed to parse resource as entity Uid"));
        }
        ItemRecord::Decided(_) => panic!("three bad identifiers must not decide"),
    }
}

#[test]
fn metrics_carry_every_stage() {
    let requests = vec![raw_request("User::\"alice\"", "Action::\"view\"", "File::\"f.txt\"")];
    let responses =
        is_authorized_batch(&requests, &alice_policy(), &alice_entities(), &None, false);
    let v: serde_json::Value = serde_json::from_str(&responses[0]).unwrap();
    let metrics = v.get("metrics").unwrap().as_object().unwrap();
    for key in [
        "build_request_duration_micros",
        "authz_duration_micros",
        "parse_policies_duration_micros",
        "parse_schema_duration_micros",
        "load_entities_duration_micros",
    ] {
        assert!(metrics.get(key).unwrap().is_u64() || metrics.get(key).unwrap().is_number());
    }
}

#[test]
fn stringify_errors_keeps_messages_in_order() {
    let errs = vec![
        AuthzError { message: "first".to_string() },
        AuthzError { message: "second".to_string() },
    ];
    let msgs = cedar_authz::error::stringify_errors(&errs);
    assert_eq!(msgs, vec!["first".to_string(), "second".to_string()]);
}
