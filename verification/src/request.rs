//! Raw request records and their validation into typed request arguments,
//! plus assembly of the fully typed evaluation request.

use vstd::prelude::*;

use crate::engine::context_empty;
use crate::engine::context_from_json_text;
use crate::engine::context_json_error;
use crate::engine::entity_uid_error;
use crate::engine::parse_entity_uid;
use crate::engine::request_new;
use crate::error::AuthzError;

verus! {

/// One loosely-typed batch item as the caller hands it over: principal,
/// action and resource are required, context JSON text and a correlation
/// id are optional.
pub struct RawRequest {
    pub principal: Option<String>,
    pub action: Option<String>,
    pub resource: Option<String>,
    pub context: Option<String>,
    pub correlation_id: Option<String>,
}

/// The typed per-item arguments, derived once from a `RawRequest`.
pub struct RequestArgs {
    /// Principal for the request, e.g., `User::"alice"`.
    pub principal: String,
    /// Action for the request, e.g., `Action::"view"`.
    pub action: String,
    /// Resource for the request, e.g., `File::"myfile.txt"`.
    pub resource: String,
    /// A JSON object with the context for the request, if any.
    pub context_json: Option<String>,
    /// An optional correlation id copied to the response.
    pub correlation_id: Option<String>,
}

/// Copies an optional string.
pub fn clone_opt_string(o: &Option<String>) -> (r: Option<String>)
    ensures
        r == *o,
{
    match o {
        Option::None => Option::None,
        Option::Some(s) => Option::Some(s.clone()),
    }
}

/// The message reported for the first missing required field.
pub open spec fn missing_field_text(request: RawRequest) -> Seq<char> {
    if request.principal is None {
        "missing required field: principal"@
    } else if request.action is None {
        "missing required field: action"@
    } else {
        "missing required field: resource"@
    }
}

/// Validates a loose request record into typed arguments: the three
/// identifiers are required, context and correlation id pass through.
pub fn to_request_args(request: &RawRequest) -> (r: Result<RequestArgs, AuthzError>)
    ensures
        r is Ok <==> (request.principal is Some && request.action is Some
            && request.resource is Some),
        r matches Ok(a) ==> {
            &&& Some(a.principal) == request.principal
            &&& Some(a.action) == request.action
            &&& Some(a.resource) == request.resource
            &&& a.context_json == request.context
            &&& a.correlation_id == request.correlation_id
        },
        r matches Err(e) ==> e@ == missing_field_text(*request),
{
    if request.principal.is_none() {
        return Err(AuthzError::from_message(String::from_str("missing required field: principal")));
    }
    if request.action.is_none() {
        return Err(AuthzError::from_message(String::from_str("missing required field: action")));
    }
    if request.resource.is_none() {
        return Err(AuthzError::from_message(String::from_str("missing required field: resource")));
    }
    let principal = match &request.principal {
        Option::Some(s) => s.clone(),
        Option::None => String::new(),
    };
    let action = match &request.action {
        Option::Some(s) => s.clone(),
        Option::None => String::new(),
    };
    let resource = match &request.resource {
        Option::Some(s) => s.clone(),
        Option::None => String::new(),
    };
    Ok(
        RequestArgs {
            principal,
            action,
            resource,
            context_json: clone_opt_string(&request.context),
            correlation_id: clone_opt_string(&request.correlation_id),
        },
    )
}

/// An error message of the form `tag: cause`.
pub open spec fn tagged_text(tag: Seq<char>, cause: Seq<char>) -> Seq<char> {
    tag + ": "@ + cause
}

/// Wraps a cause with the stage that failed.
pub fn tagged_error(tag: &str, cause: String) -> (r: AuthzError)
    ensures
        r@ == tagged_text(tag@, cause@),
{
    let mut s = String::from_str(tag);
    s.append(": ");
    s.append(cause.as_str());
    AuthzError::from_message(s)
}

/// The collected identifier-parse failures, principal first, each
/// tagged with the field that failed.
pub open spec fn uid_failure_texts(
    principal_err: Option<Seq<char>>,
    action_err: Option<Seq<char>>,
    resource_err: Option<Seq<char>>,
) -> Seq<Seq<char>> {
    (match principal_err {
        Some(m) => seq![tagged_text("Failed to parse principal as entity Uid"@, m)],
        None => Seq::<Seq<char>>::empty(),
    }) + (match action_err {
        Some(m) => seq![tagged_text("Failed to parse action as entity Uid"@, m)],
        None => Seq::<Seq<char>>::empty(),
    }) + (match resource_err {
        Some(m) => seq![tagged_text("Failed to parse resource as entity Uid"@, m)],
        None => Seq::<Seq<char>>::empty(),
    })
}

/// The failure message of an outcome, if it is one.
pub open spec fn err_text<T>(o: Result<T, String>) -> Option<Seq<char>> {
    match o {
        Ok(_) => None,
        Err(m) => Some(m@),
    }
}

/// Collects the identifier-parse failures of the three outcomes, each
/// tagged with the field that failed, in field order.
pub fn uid_failure_errors(
    principal: &Result<cedar_policy::EntityUid, String>,
    action: &Result<cedar_policy::EntityUid, String>,
    resource: &Result<cedar_policy::EntityUid, String>,
) -> (r: Vec<AuthzError>)
    ensures
        r.deep_view() == uid_failure_texts(err_text(*principal), err_text(*action), err_text(*resource)),
{
    let mut out: Vec<AuthzError> = Vec::new();
    match principal {
        Result::Ok(_) => (),
        Result::Err(m) => out.push(tagged_error("Failed to parse principal as entity Uid", m.clone())),
    }
    match action {
        Result::Ok(_) => (),
        Result::Err(m) => out.push(tagged_error("Failed to parse action as entity Uid", m.clone())),
    }
    match resource {
        Result::Ok(_) => (),
        Result::Err(m) => out.push(tagged_error("Failed to parse resource as entity Uid", m.clone())),
    }
    proof {
        assert(out.deep_view() =~~= uid_failure_texts(
            err_text(*principal),
            err_text(*action),
            err_text(*resource),
        ));
    }
    out
}

/// The tagged context failure, if the context was attempted (JSON text
/// present and the action resolved) and its schema-free parse failed.
pub open spec fn context_failure_texts(context_json: Option<String>, action_ok: bool) -> Seq<
    Seq<char>,
> {
    match context_json {
        Some(cj) => if action_ok {
            match context_json_error(cj@) {
                Some(m) => seq![tagged_text("Failed to parse context from JSON"@, m)],
                None => Seq::<Seq<char>>::empty(),
            }
        } else {
            Seq::<Seq<char>>::empty()
        },
        None => Seq::<Seq<char>>::empty(),
    }
}

/// The tagged identifier failures these arguments collect, in field
/// order — whatever the schema, since identifier parsing never
/// consults one.
pub open spec fn uid_failures_of(args: RequestArgs) -> Seq<Seq<char>> {
    uid_failure_texts(
        entity_uid_error(args.principal@),
        entity_uid_error(args.action@),
        entity_uid_error(args.resource@),
    )
}

/// Every failure request assembly collects for these arguments when no
/// schema constrains it: the tagged identifier failures in field order,
/// then the tagged context failure if the context was attempted.
pub open spec fn assembly_failure_texts(args: RequestArgs) -> Seq<Seq<char>> {
    uid_failures_of(args) + context_failure_texts(
        args.context_json,
        entity_uid_error(args.action@) is None,
    )
}

impl RequestArgs {
    /// Turns these arguments into a typed evaluation request, resolving
    /// all three identifiers and then the context; every failure is
    /// collected and tagged with the field that failed, and no partially
    /// built request is ever returned. Without a schema the outcome is
    /// pinned exactly: assembly succeeds precisely when nothing fails,
    /// and a failure returns exactly the collected failures. With a
    /// schema, the context parse and the request's schema validation are
    /// the engine's to decide.
    pub fn get_request(&self, schema: Option<&cedar_policy::Schema>) -> (r: Result<
        cedar_policy::Request,
        Vec<AuthzError>,
    >)
        ensures
            r matches Err(es) ==> es@.len() >= 1,
            uid_failures_of(*self).len() > 0 ==> r is Err,
            r matches Err(es) ==> uid_failures_of(*self).len() <= es.deep_view().len()
                && es.deep_view().subrange(0, uid_failures_of(*self).len() as int)
                == uid_failures_of(*self),
            schema is None ==> (r is Ok <==> assembly_failure_texts(*self).len() == 0),
            schema is None ==> (r matches Err(es) ==> es.deep_view() == assembly_failure_texts(
                *self,
            )),
    {
        let principal = parse_entity_uid(self.principal.as_str());
        let action = parse_entity_uid(self.action.as_str());
        let resource = parse_entity_uid(self.resource.as_str());
        proof {
            assert(err_text(principal) == entity_uid_error(self.principal@));
            assert(err_text(action) == entity_uid_error(self.action@));
            assert(err_text(resource) == entity_uid_error(self.resource@));
        }
        let mut errs = uid_failure_errors(&principal, &action, &resource);
        let context: Option<cedar_policy::Context> = match (&self.context_json, &action) {
            (Option::None, _) => Some(context_empty()),
            (Option::Some(cj), Result::Ok(action_uid)) => {
                match context_from_json_text(cj.as_str(), schema, action_uid) {
                    Result::Ok(c) => Some(c),
                    Result::Err(m) => {
                        errs.push(tagged_error("Failed to parse context from JSON", m));
                        None
                    },
                }
            },
            (Option::Some(_), Result::Err(_)) => None,
        };
        proof {
            assert(uid_failures_of(*self).len() <= errs.deep_view().len());
            assert(errs.deep_view().subrange(0, uid_failures_of(*self).len() as int)
                =~~= uid_failures_of(*self));
            if schema is None {
                assert(errs.deep_view() =~~= assembly_failure_texts(*self));
            }
        }
        if errs.len() > 0 {
            return Err(errs);
        }
        match (principal, action, resource, context) {
            (Result::Ok(p), Result::Ok(a), Result::Ok(re), Option::Some(c)) => {
                match request_new(p, a, re, c, schema) {
                    Result::Ok(q) => Ok(q),
                    Result::Err(m) => {
                        let mut es: Vec<AuthzError> = Vec::new();
                        es.push(tagged_error("Failed to build request", m));
                        Err(es)
                    },
                }
            },
            _ => {
                // A missing part always records an error first, so this
                // arm is never reached; it still fails atomically.
                proof {
                    assert(false);
                }
                let mut es: Vec<AuthzError> = Vec::new();
                es.push(AuthzError::from_message(String::from_str("failed to assemble request")));
                Err(es)
            },
        }
    }
}

} // verus!
