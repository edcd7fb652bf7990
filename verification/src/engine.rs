//! The trusted boundary to the policy engine and its collaborators.
//!
//! Everything here either declares an outside type as opaque or wraps one
//! outside call, converting its arguments and result to plain values. The
//! engine itself is an oracle: nothing is promised of a decision beyond
//! what the collaborator's own documentation states.

use vstd::prelude::*;

use std::str::FromStr;

verus! {

#[verifier::external_type_specification]
#[verifier::external_body]
pub struct ExPolicySet(cedar_policy::PolicySet);

#[verifier::external_type_specification]
#[verifier::external_body]
pub struct ExSchema(cedar_policy::Schema);

#[verifier::external_type_specification]
#[verifier::external_body]
pub struct ExEntities(cedar_policy::Entities);

#[verifier::external_type_specification]
#[verifier::external_body]
pub struct ExEntityUid(cedar_policy::EntityUid);

#[verifier::external_type_specification]
#[verifier::external_body]
pub struct ExContext(cedar_policy::Context);

#[verifier::external_type_specification]
#[verifier::external_body]
pub struct ExRequest(cedar_policy::Request);

#[verifier::external_type_specification]
#[verifier::external_body]
pub struct ExAuthorizer(cedar_policy::Authorizer);

#[verifier::external_type_specification]
#[verifier::external_body]
pub struct ExResponse(cedar_policy::Response);

#[verifier::external_type_specification]
#[verifier::external_body]
pub struct ExInstant(std::time::Instant);

/// What the policy formatter returns for given source and widths — the
/// pretty-printed text, or its error message; the whole result depends
/// on those arguments alone.
pub uninterp spec fn pretty_result(s: Seq<char>, line_width: int, indent_width: int) -> Result<
    Seq<char>,
    Seq<char>,
>;

/// The policy-text parser's error message for this source text, if it
/// has one; parsing is a function of the text alone.
pub uninterp spec fn policy_parse_error(s: Seq<char>) -> Option<Seq<char>>;

/// What converting policy source text to the policy set's JSON text
/// yields — the JSON form of the parsed set, or the first failing
/// stage's message; a function of the source text alone.
pub uninterp spec fn policy_to_json_result(s: Seq<char>) -> Result<Seq<char>, Seq<char>>;

/// What converting a policy set's JSON text back to policy source text
/// yields — the rendered source, or the parser's message; a function of
/// the text alone.
pub uninterp spec fn policy_from_json_result(s: Seq<char>) -> Result<Seq<char>, Seq<char>>;

/// Whether this text parses as a schema in its JSON form; a function of
/// the text alone.
pub uninterp spec fn schema_json_parses(s: Seq<char>) -> bool;

/// Whether this text parses as a schema in its textual grammar; a
/// function of the text alone.
pub uninterp spec fn schema_text_parses(s: Seq<char>) -> bool;

/// Whether this text parses as an entity collection when no schema
/// constrains it; a function of the text alone.
pub uninterp spec fn entities_json_parses(s: Seq<char>) -> bool;

/// The entity-identifier parser's error message for this text, if it
/// has one; parsing is a function of the text alone.
pub uninterp spec fn entity_uid_error(s: Seq<char>) -> Option<Seq<char>>;

/// The context parser's error message for this text when no schema
/// constrains it, if it has one; a function of the text alone.
pub uninterp spec fn context_json_error(s: Seq<char>) -> Option<Seq<char>>;

/// Relies on `cedar_policy::PolicySet::from_str`: parses policy source
/// text into a policy set, or reports a parse error. The parser and its
/// message are deterministic in the text.
#[verifier::external_body]
pub(crate) fn policy_set_from_str(s: &str) -> (r: Result<cedar_policy::PolicySet, String>)
    ensures
        r is Ok <==> policy_parse_error(s@) is None,
        r matches Err(m) ==> policy_parse_error(s@) == Some(m@),
{
    match cedar_policy::PolicySet::from_str(s) {
        Ok(p) => Ok(p),
        Err(e) => Err(format!("{}", e)),
    }
}

/// Relies on `cedar_policy::PolicySet::new`: an empty policy set.
#[verifier::external_body]
pub(crate) fn policy_set_new() -> cedar_policy::PolicySet {
    cedar_policy::PolicySet::new()
}

/// Relies on `cedar_policy::PolicySet::from_str`, `PolicySet::to_json`
/// and `serde_json::to_string`: parses policy source text and renders
/// the parsed set's JSON form. Cedar keeps policy sets in
/// insertion-ordered maps, so the whole conversion is a function of the
/// source text; a parse failure carries the policy parser's message.
#[verifier::external_body]
pub(crate) fn policy_set_text_to_json_text(s: &str) -> (r: Result<String, String>)
    ensures
        r matches Ok(t) ==> (policy_to_json_result(s@) matches Ok(p) && p == t@),
        r matches Err(m) ==> (policy_to_json_result(s@) matches Err(q) && q == m@),
        r is Ok ==> policy_parse_error(s@) is None,
        r matches Err(e) ==> (policy_parse_error(s@) matches Some(m) ==> e@ == m),
{
    let set = match cedar_policy::PolicySet::from_str(s) {
        Ok(p) => p,
        Err(e) => return Err(format!("{}", e)),
    };
    let value = match set.to_json() {
        Ok(v) => v,
        Err(e) => return Err(format!("{}", e)),
    };
    match serde_json::to_string(&value) {
        Ok(t) => Ok(t),
        Err(e) => Err(format!("{}", e)),
    }
}

/// Relies on `cedar_policy::PolicySet::from_json_str` and the set's
/// `Display` impl: parses the JSON form of a policy set and renders it
/// back as policy source text, walking insertion-ordered maps both
/// ways, so the whole conversion is a function of the text; rendering
/// itself cannot fail.
#[verifier::external_body]
pub(crate) fn policy_set_json_to_text(s: &str) -> (r: Result<String, String>)
    ensures
        r matches Ok(t) ==> (policy_from_json_result(s@) matches Ok(p) && p == t@),
        r matches Err(m) ==> (policy_from_json_result(s@) matches Err(q) && q == m@),
{
    match cedar_policy::PolicySet::from_json_str(s) {
        Ok(p) => Ok(format!("{}", p)),
        Err(e) => Err(format!("{}", e)),
    }
}

/// Relies on `cedar_policy::Schema::from_json_str`: parses a schema from
/// its structured (JSON) form; success is a function of the text alone.
#[verifier::external_body]
pub(crate) fn schema_from_json_text(s: &str) -> (r: Result<cedar_policy::Schema, String>)
    ensures
        r is Ok <==> schema_json_parses(s@),
{
    match cedar_policy::Schema::from_json_str(s) {
        Ok(sc) => Ok(sc),
        Err(e) => Err(format!("{}", e)),
    }
}

/// Relies on `cedar_policy::Schema::from_str`: parses a schema from its
/// textual grammar; success is a function of the text alone.
#[verifier::external_body]
pub(crate) fn schema_from_cedar_text(s: &str) -> (r: Result<cedar_policy::Schema, String>)
    ensures
        r is Ok <==> schema_text_parses(s@),
{
    match cedar_policy::Schema::from_str(s) {
        Ok(sc) => Ok(sc),
        Err(e) => Err(format!("{}", e)),
    }
}

/// Relies on `cedar_policy::Entities::from_json_str`: parses an entity
/// collection from JSON, validated against the schema when one is given;
/// a schema also contributes its declared action entities, and two
/// non-identical entities under one identifier are an error, never an
/// overwrite.
/// Without a schema, success is a function of the text alone.
#[verifier::external_body]
pub(crate) fn entities_from_json_text(s: &str, schema: Option<&cedar_policy::Schema>) -> (r:
    Result<cedar_policy::Entities, String>)
    ensures
        schema is None ==> (r is Ok <==> entities_json_parses(s@)),
{
    match cedar_policy::Entities::from_json_str(s, schema) {
        Ok(es) => Ok(es),
        Err(e) => Err(format!("{}", e)),
    }
}

/// Relies on `cedar_policy::Entities::empty`: an entity store with no
/// entities.
#[verifier::external_body]
pub(crate) fn entities_empty() -> cedar_policy::Entities {
    cedar_policy::Entities::empty()
}

/// Relies on `cedar_policy::EntityUid::from_str`: parses a
/// `Type::"id"`-form entity identifier. The parser and its message are
/// deterministic in the text.
#[verifier::external_body]
pub(crate) fn parse_entity_uid(s: &str) -> (r: Result<cedar_policy::EntityUid, String>)
    ensures
        r is Ok <==> entity_uid_error(s@) is None,
        r matches Err(m) ==> entity_uid_error(s@) == Some(m@),
{
    match cedar_policy::EntityUid::from_str(s) {
        Ok(uid) => Ok(uid),
        Err(e) => Err(format!("{}", e)),
    }
}

/// Relies on `cedar_policy::Context::empty`: the empty request context.
#[verifier::external_body]
pub(crate) fn context_empty() -> cedar_policy::Context {
    cedar_policy::Context::empty()
}

/// Relies on `cedar_policy::Context::from_json_str`: parses JSON context
/// text; with a schema, the given action's declared context type checks
/// and coerces the value. Without a schema, the outcome and its message
/// are deterministic in the text (cedar reads JSON objects in insertion
/// order).
#[verifier::external_body]
pub(crate) fn context_from_json_text(
    s: &str,
    schema: Option<&cedar_policy::Schema>,
    action: &cedar_policy::EntityUid,
) -> (r: Result<cedar_policy::Context, String>)
    ensures
        schema is None ==> (r is Ok <==> context_json_error(s@) is None),
        schema is None ==> (r matches Err(m) ==> context_json_error(s@) == Some(m@)),
{
    match cedar_policy::Context::from_json_str(s, schema.map(|sc| (sc, action))) {
        Ok(c) => Ok(c),
        Err(e) => Err(format!("{}", e)),
    }
}

/// Relies on `cedar_policy::Request::new`: assembles a typed request and,
/// when a schema is given, validates the request against it. Schema
/// validation is its only fallible step, so without a schema the call
/// always succeeds.
#[verifier::external_body]
pub(crate) fn request_new(
    principal: cedar_policy::EntityUid,
    action: cedar_policy::EntityUid,
    resource: cedar_policy::EntityUid,
    context: cedar_policy::Context,
    schema: Option<&cedar_policy::Schema>,
) -> (r: Result<cedar_policy::Request, String>)
    ensures
        schema is None ==> r is Ok,
{
    match cedar_policy::Request::new(principal, action, resource, context, schema) {
        Ok(q) => Ok(q),
        Err(e) => Err(format!("{}", e)),
    }
}

/// Relies on `cedar_policy::Authorizer::new`: the decision oracle.
#[verifier::external_body]
pub(crate) fn authorizer_new() -> cedar_policy::Authorizer {
    cedar_policy::Authorizer::new()
}

/// Relies on `cedar_policy::Authorizer::is_authorized`: asks the oracle
/// for a decision over the request, policy set and entity store.
#[verifier::external_body]
pub(crate) fn authorize(
    a: &cedar_policy::Authorizer,
    r: &cedar_policy::Request,
    p: &cedar_policy::PolicySet,
    e: &cedar_policy::Entities,
) -> cedar_policy::Response {
    a.is_authorized(r, p, e)
}

/// Relies on `cedar_policy::Response::decision`: whether the oracle
/// allowed the request.
#[verifier::external_body]
pub(crate) fn response_is_allow(r: &cedar_policy::Response) -> bool {
    match r.decision() {
        cedar_policy::Decision::Allow => true,
        cedar_policy::Decision::Deny => false,
    }
}

/// Relies on `cedar_policy::Diagnostics::reason`: the identifiers of the
/// policies that contributed to the decision; the order carries no
/// meaning.
#[verifier::external_body]
pub(crate) fn response_reasons(r: &cedar_policy::Response) -> Vec<String> {
    r.diagnostics().reason().map(|id| format!("{}", id)).collect()
}

/// Relies on `cedar_policy::Diagnostics::errors`: the evaluation-time
/// errors the oracle reported, in the oracle's order.
#[verifier::external_body]
pub(crate) fn response_errors(r: &cedar_policy::Response) -> Vec<String> {
    r.diagnostics().errors().map(|e| format!("{}", e)).collect()
}

/// Relies on `cedar_policy_formatter::policies_str_to_pretty`: the
/// pretty-printed policies, or the failure and its message, depend on
/// the source and widths alone.
#[verifier::external_body]
pub(crate) fn pretty_policies(s: &str, line_width: usize, indent_width: isize) -> (r: Result<
    String,
    String,
>)
    ensures
        r matches Ok(t) ==> (pretty_result(s@, line_width as int, indent_width as int) matches Ok(p)
            && p == t@),
        r matches Err(m) ==> (pretty_result(s@, line_width as int, indent_width as int) matches Err(
        q,
        ) && q == m@),
{
    let config = cedar_policy_formatter::Config { line_width, indent_width };
    match cedar_policy_formatter::policies_str_to_pretty(s, &config) {
        Ok(t) => Ok(t),
        Err(e) => Err(format!("{}", e)),
    }
}

/// Relies on `std::time::Instant::now`: a clock reading for stage
/// timing; nothing is promised of the clock.
#[verifier::external_body]
pub(crate) fn instant_now() -> std::time::Instant {
    std::time::Instant::now()
}

/// Relies on `std::time::Instant::elapsed`: microseconds since the
/// reading was taken; nothing is promised of the clock.
#[verifier::external_body]
pub(crate) fn elapsed_micros(t: &std::time::Instant) -> u128 {
    t.elapsed().as_micros()
}

} // verus!
