use cedar_authz::error::AuthzError;
use cedar_authz::pipeline::echo;
use cedar_authz::pipeline::format_policies;
use cedar_authz::pipeline::is_authorized_batch_records;
use cedar_authz::pipeline::ItemRecord;
use cedar_authz::pipeline::policies_from_json_str;
use cedar_authz::pipeline::policies_to_json_str;
use cedar_authz::request::RawRequest;
use cedar_authz::response::AuthzResponse;
use cedar_authz::response::DecisionSer;
use cedar_authz::response::DiagnosticsSer;
use cedar_authz::response::Metrics;
use cedar_authz::response::make_authz_result_for_errors;
use cedar_authz::text::u128_to_string;

fn permit_policy() -> String {
    "permit(principal == User::\"alice\", action == Action::\"view\", resource == File::\"f.txt\");"
        .to_string()
}

#[test]
fn echo_returns_the_input() {
    assert_eq!(echo("hello".to_string()), "hello");
}

#[test]
fn formatting_normalizes_whitespace() {
    let ragged = "permit(principal==User::\"alice\",action==Action::\"view\",resource==File::\"f.txt\");".to_string();
    let pretty = format_policies(&ragged, 80, 2).unwrap();
    assert_ne!(pretty, ragged);
    assert!(pretty.contains("permit"));
    assert!(pretty.contains("principal == User::\"alice\""));
}

#[test]
fn formatting_malformed_policies_fails() {
    let err = format_policies(&"permit(".to_string(), 80, 2);
    assert!(err.is_err());
}

#[test]
fn policies_to_json_is_json_and_not_the_source() {
    let source = permit_policy();
    let json = policies_to_json_str(&source).unwrap();
    assert_ne!(json, source);
    let v: serde_json::Value = serde_json::from_str(&json).unwrap();
    assert!(v.is_object());
}

#[test]
fn policies_to_json_rejects_bad_source() {
    assert!(policies_to_json_str(&"not a policy".to_string()).is_err());
}

#[test]
fn policies_from_json_rejects_bad_json() {
    assert!(policies_from_json_str(&"not json".to_string()).is_err());
}

#[test]
fn policy_set_round_trips_semantically() {
    let source = permit_policy();
    let json = policies_to_json_str(&source).unwrap();
    let back = policies_from_json_str(&json).unwrap();
    assert!(back.contains("permit"));

    // The round-tripped text grants exactly what the original did.
    let entities = "[{\"uid\":{\"type\":\"User\",\"id\":\"alice\"},\"attrs\":{},\"parents\":[]},{\"uid\":{\"type\":\"File\",\"id\":\"f.txt\"},\"attrs\":{},\"parents\":[]}]"
    .to_string();
    let alice = RawRequest {
        principal: Some("User::\"alice\"".to_string()),
        action: Some("Action::\"view\"".to_string()),
        resource: Some("File::\"f.txt\"".to_string()),
        context: None,
        correlation_id: None,
    };
    let bob = RawRequest {
        principal: Some("User::\"bob\"".to_string()),
        action: Some("Action::\"view\"".to_string()),
        resource: Some("File::\"f.txt\"".to_string()),
        context: None,
        correlation_id: None,
    };
    let requests = vec![alice, bob];
    let original = is_authorized_batch_records(&requests, &source, &entities, &None, false);
    let round_tripped = is_authorized_batch_records(&requests, &back, &entities, &None, false);
    for (a, b) in original.iter().zip(round_tripped.iter()) {
        match (a, b) {
            (ItemRecord::Decided(x), ItemRecord::Decided(y)) => {
                assert_eq!(x.decision, y.decision);
                assert_eq!(x.diagnostics.reason, y.diagnostics.reason);
            }
            _ => panic!("both policy forms must decide"),
        }
    }
}

#[test]
fn response_serializes_to_exact_json() {
    let response = AuthzResponse {
        decision: DecisionSer::Allow,
        correlation_id: Some("req-42".to_string()),
        diagnostics: DiagnosticsSer {
            reason: vec!["policy0".to_string()],
            errors: vec![],
        },
        metrics: Metrics {
            build_request_duration_micros: 1,
            authz_duration_micros: 2,
            parse_policies_duration_micros: 3,
            parse_schema_duration_micros: 4,
            load_entities_duration_micros: 5,
        },
    };
    assert_eq!(
        response.to_json(),
        "{\"decision\":\"Allow\",\"correlation_id\":\"req-42\",\"diagnostics\":{\"reason\":[\"policy0\"],\"errors\":[]},\"metrics\":{\"build_request_duration_micros\":1,\"authz_duration_micros\":2,\"parse_policies_duration_micros\":3,\"parse_schema_duration_micros\":4,\"load_entities_duration_micros\":5}}"
    );
}

#[test]
fn error_record_serializes_to_exact_json() {
    let errs = vec![AuthzError { message: "a\"b\nc".to_string() }];
    assert_eq!(
        make_authz_result_for_errors(&errs),
        "{\"decision\":\"NoDecision\",\"diagnostics\":{\"errors\":[\"a\\\"b\\nc\"]}}"
    );
}

#[test]
fn control_characters_escape_as_unicode() {
    let errs = vec![AuthzError { message: "x\u{1}y\\z".to_string() }];
    assert_eq!(
        make_authz_result_for_errors(&errs),
        "{\"decision\":\"NoDecision\",\"diagnostics\":{\"errors\":[\"x\\u0001y\\\\z\"]}}"
    );
}

#[test]
fn counters_render_in_decimal() {
    assert_eq!(u128_to_string(0), "0");
    assert_eq!(u128_to_string(10), "10");
    assert_eq!(u128_to_string(1234567890123), "1234567890123");
}
