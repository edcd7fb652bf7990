use cedar_authz::pipeline::is_authorized_batch;
use cedar_authz::pipeline::is_authorized_batch_records;
use cedar_authz::pipeline::ItemRecord;
use cedar_authz::request::RawRequest;
use cedar_authz::response::DecisionSer;

fn view_request(principal: &str) -> RawRequest {
    RawRequest {
        principal: Some(principal.to_string()),
        action: Some("Action::\"view\"".to_string()),
        resource: Some("File::\"f.txt\"".to_string()),
        context: None,
        correlation_id: None,
    }
}

fn view_policy() -> String {
    "permit(principal == User::\"alice\", action == Action::\"view\", resource == File::\"f.txt\");"
        .to_string()
}

fn view_entities() -> String {
    "[{\"uid\":{\"type\":\"User\",\"id\":\"alice\"},\"attrs\":{},\"parents\":[]},{\"uid\":{\"type\":\"File\",\"id\":\"f.txt\"},\"attrs\":{},\"parents\":[]}]"
    .to_string()
}

#[test]
fn alice_is_allowed_with_the_policy_as_reason() {
    let requests = vec![view_request("User::\"alice\"")];
    let records =
        is_authorized_batch_records(&requests, &view_policy(), &view_entities(), &None, false);
    assert_eq!(records.len(), 1);
    match &records[0] {
        ItemRecord::Decided(resp) => {
            assert_eq!(resp.decision, DecisionSer::Allow);
            assert_eq!(resp.diagnostics.reason, vec!["policy0".to_string()]);
            assert!(resp.diagnostics.errors.is_empty());
        }
        ItemRecord::Failed(_) => panic!("alice's request must decide"),
    }
}

#[test]
fn bob_is_denied_with_no_reason() {
    let requests = vec![view_request("User::\"bob\"")];
    let records =
        is_authorized_batch_records(&requests, &view_policy(), &view_entities(), &None, false);
    match &records[0] {
        ItemRecord::Decided(resp) => {
            assert_eq!(resp.decision, DecisionSer::Deny);
            assert!(resp.diagnostics.reason.is_empty());
        }
        ItemRecord::Failed(_) => panic!("bob's request must decide"),
    }
}

fn decision_and_reason(response: &str) -> (String, Vec<String>) {
    let v: serde_json::Value = serde_json::from_str(response).unwrap();
    let decision = v.get("decision").unwrap().as_str().unwrap().to_string();
    let reason = v
        .get("diagnostics")
        .unwrap()
        .get("reason")
        .unwrap()
        .as_array()
        .unwrap()
        .iter()
        .map(|r| r.as_str().unwrap().to_string())
        .collect();
    (decision, reason)
}

#[test]
fn malformed_schema_decides_like_no_schema() {
    let requests = vec![view_request("User::\"alice\""), view_request("User::\"bob\"")];
    let with_bad_schema = is_authorized_batch(
        &requests,
        &view_policy(),
        &view_entities(),
        &Some("!!! not a schema at all !!!".to_string()),
        false,
    );
    let without_schema =
        is_authorized_batch(&requests, &view_policy(), &view_entities(), &None, false);
    assert_eq!(with_bad_schema.len(), without_schema.len());
    for (a, b) in with_bad_schema.iter().zip(without_schema.iter()) {
        assert_eq!(decision_and_reason(a), decision_and_reason(b));
    }
}

#[test]
fn whitespace_only_schema_decides_like_no_schema() {
    let requests = vec![view_request("User::\"alice\"")];
    let with_blank_schema = is_authorized_batch(
        &requests,
        &view_policy(),
        &view_entities(),
        &Some(" \t\n ".to_string()),
        false,
    );
    let without_schema =
        is_authorized_batch(&requests, &view_policy(), &view_entities(), &None, false);
    assert_eq!(decision_and_reason(&with_blank_schema[0]), decision_and_reason(&without_schema[0]));
}

fn view_schema_json() -> String {
    "{\"\": {\"entityTypes\": {\"User\": {}, \"File\": {}}, \"actions\": {\"view\": {\"appliesTo\": {\"principalTypes\": [\"User\"], \"resourceTypes\": [\"File\"]}}}}}"
    .to_string()
}

#[test]
fn textual_schema_still_allows_alice() {
    // Text that does not begin with `{` is parsed by the schema grammar.
    let schema = "entity User; entity File; action view appliesTo { principal: [User], resource: [File] };"
        .to_string();
    let requests = vec![view_request("User::\"alice\"")];
    let records = is_authorized_batch_records(
        &requests,
        &view_policy(),
        &view_entities(),
        &Some(schema),
        false,
    );
    match &records[0] {
        ItemRecord::Decided(resp) => assert_eq!(resp.decision, DecisionSer::Allow),
        ItemRecord::Failed(errs) => {
            panic!("textual-schema request must decide: {:?}", errs[0].message)
        }
    }
}

#[test]
fn malformed_json_schema_degrades_without_textual_fallback() {
    // Text that begins with `{` is tried only as JSON; a failure degrades
    // to "no schema" instead of falling back to the textual grammar.
    let requests = vec![view_request("User::\"alice\"")];
    let with_bad_json_schema = is_authorized_batch(
        &requests,
        &view_policy(),
        &view_entities(),
        &Some("{ this is not json".to_string()),
        false,
    );
    let without_schema =
        is_authorized_batch(&requests, &view_policy(), &view_entities(), &None, false);
    assert_eq!(
        decision_and_reason(&with_bad_json_schema[0]),
        decision_and_reason(&without_schema[0])
    );
}

#[test]
fn valid_json_schema_still_allows_alice() {
    let requests = vec![view_request("User::\"alice\"")];
    let records = is_authorized_batch_records(
        &requests,
        &view_policy(),
        &view_entities(),
        &Some(view_schema_json()),
        false,
    );
    match &records[0] {
        ItemRecord::Decided(resp) => assert_eq!(resp.decision, DecisionSer::Allow),
        ItemRecord::Failed(errs) => {
            panic!("schema-validated request must decide: {:?}", errs[0].message)
        }
    }
}

#[test]
fn duplicate_entity_identifier_is_an_error_not_an_overwrite() {
    // The same identifier with two different definitions: the merge must
    // report an error and poison the batch, never keep one copy silently.
    let entities = "[{\"uid\":{\"type\":\"User\",\"id\":\"a\"},\"attrs\":{},\"parents\":[]},{\"uid\":{\"type\":\"User\",\"id\":\"a\"},\"attrs\":{\"level\":1},\"parents\":[]}]"
    .to_string();
    let requests = vec![view_request("User::\"a\"")];
    let records =
        is_authorized_batch_records(&requests, &view_policy(), &entities, &None, false);
    match &records[0] {
        ItemRecord::Failed(errs) => {
            assert_eq!(errs.len(), 1);
            assert!(errs[0].message.starts_with("failed to parse entities from:\n"));
        }
        ItemRecord::Decided(_) => panic!("duplicate entities must not decide"),
    }
}

#[test]
fn action_entity_conflicting_with_schema_is_an_error() {
    // The schema contributes its declared action entities; an action
    // entity in the JSON that does not match that declaration is a merge
    // error, reported rather than resolved by overwrite.
    let entities = "[{\"uid\":{\"type\":\"Action\",\"id\":\"view\"},\"attrs\":{},\"parents\":[{\"type\":\"Action\",\"id\":\"admin\"}]}]"
    .to_string();
    let requests = vec![view_request("User::\"alice\"")];
    let records = is_authorized_batch_records(
        &requests,
        &view_policy(),
        &entities,
        &Some(view_schema_json()),
        false,
    );
    match &records[0] {
        ItemRecord::Failed(errs) => {
            assert!(errs[0].message.starts_with("failed to parse entities from:\n"));
        }
        ItemRecord::Decided(_) => panic!("a conflicting action entity must not decide"),
    }
}

#[test]
fn context_is_validated_against_the_action_schema() {
    let schema = "{\"\": {\"entityTypes\": {\"User\": {}, \"File\": {}}, \"actions\": {\"view\": {\"appliesTo\": {\"principalTypes\": [\"User\"], \"resourceTypes\": [\"File\"], \"context\": {\"type\": \"Record\", \"attributes\": {\"mfa\": {\"type\": \"Boolean\"}}}}}}}}"
    .to_string();
    let mut ok_request = view_request("User::\"alice\"");
    ok_request.context = Some("{\"mfa\": true}".to_string());
    let requests = vec![ok_request];
    let records = is_authorized_batch_records(
        &requests,
        &view_policy(),
        &view_entities(),
        &Some(schema.clone()),
        false,
    );
    match &records[0] {
        ItemRecord::Decided(resp) => assert_eq!(resp.decision, DecisionSer::Allow),
        ItemRecord::Failed(errs) => {
            panic!("well-typed context must decide: {:?}", errs[0].message)
        }
    }

    let mut bad_request = view_request("User::\"alice\"");
    bad_request.context = Some("{\"mfa\": \"yes\"}".to_string());
    let requests = vec![bad_request];
    let records = is_authorized_batch_records(
        &requests,
        &view_policy(),
        &view_entities(),
        &Some(schema),
        false,
    );
    match &records[0] {
        ItemRecord::Failed(_) => (),
        ItemRecord::Decided(_) => panic!("an ill-typed context must not decide"),
    }
}
