//! The batch coordinator and its shared loading stages.
//!
//! Policies, schema and entities are parsed once per batch; every request
//! is then evaluated against those shared, read-only values. A policy or
//! entity failure poisons the whole batch; a schema failure only degrades
//! to unconstrained evaluation.

use vstd::prelude::*;

use crate::engine::authorize;
use crate::engine::authorizer_new;
use crate::engine::elapsed_micros;
use crate::engine::entities_empty;
use crate::engine::entities_from_json_text;
use crate::engine::instant_now;
use crate::engine::policy_from_json_result;
use crate::engine::policy_set_from_str;
use crate::engine::policy_set_new;
use crate::engine::entities_json_parses;
use crate::engine::policy_parse_error;
use crate::engine::policy_set_json_to_text;
use crate::engine::policy_set_text_to_json_text;
use crate::engine::policy_to_json_result;
use crate::engine::pretty_policies;
use crate::engine::pretty_result;
use crate::engine::schema_json_parses;
use crate::engine::schema_text_parses;
use crate::engine::response_errors;
use crate::engine::response_is_allow;
use crate::engine::response_reasons;
use crate::engine::schema_from_cedar_text;
use crate::engine::schema_from_json_text;
use crate::error::AuthzError;
use crate::request::RawRequest;
use crate::request::RequestArgs;
use crate::request::assembly_failure_texts;
use crate::request::clone_opt_string;
use crate::request::missing_field_text;
use crate::request::tagged_error;
use crate::request::tagged_text;
use crate::request::to_request_args;
use crate::request::uid_failures_of;
use crate::response::AuthzResponse;
use crate::response::Metrics;
use crate::response::OracleOutput;
use crate::response::error_record_json;
use crate::response::make_authz_result_for_errors;
use crate::response::response_json;

verus! {

/// Unicode whitespace, as `str::trim` understands it.
pub open spec fn is_ws(c: char) -> bool {
    ||| (0x09 <= (c as u32) && (c as u32) <= 0x0D)
    ||| (c as u32) == 0x20
    ||| (c as u32) == 0x85
    ||| (c as u32) == 0xA0
    ||| (c as u32) == 0x1680
    ||| (0x2000 <= (c as u32) && (c as u32) <= 0x200A)
    ||| (c as u32) == 0x2028
    ||| (c as u32) == 0x2029
    ||| (c as u32) == 0x202F
    ||| (c as u32) == 0x205F
    ||| (c as u32) == 0x3000
}

/// Whether the whole text is whitespace.
pub open spec fn all_ws(s: Seq<char>) -> bool {
    forall|i: int| 0 <= i < s.len() ==> is_ws(s[i])
}

/// Whether `c` is whitespace, as executable code.
fn is_ws_exec(c: char) -> (b: bool)
    ensures
        b == is_ws(c),
{
    let u = c as u32;
    (0x09 <= u && u <= 0x0D) || u == 0x20 || u == 0x85 || u == 0xA0 || u == 0x1680 || (0x2000 <= u
        && u <= 0x200A) || u == 0x2028 || u == 0x2029 || u == 0x202F || u == 0x205F || u == 0x3000
}

/// The index of the first non-whitespace character, or the length.
fn first_non_ws(s: &str) -> (r: usize)
    ensures
        r <= s@.len(),
        forall|j: int| 0 <= j < r ==> is_ws(s@[j]),
        r < s@.len() ==> !is_ws(s@[r as int]),
        r == s@.len() ==> all_ws(s@),
{
    let len = s.unicode_len();
    let mut i: usize = 0;
    while i < len
        invariant
            i <= len,
            len == s@.len(),
            forall|j: int| 0 <= j < i ==> is_ws(s@[j]),
        decreases len - i,
    {
        if !is_ws_exec(s.get_char(i)) {
            return i;
        }
        i += 1;
    }
    i
}

/// One past the last non-whitespace character, given that index `a`
/// holds one.
fn last_non_ws_end(s: &str, a: usize) -> (e: usize)
    requires
        a < s@.len(),
        !is_ws(s@[a as int]),
    ensures
        a < e <= s@.len(),
        !is_ws(s@[e - 1]),
        forall|j: int| e <= j < s@.len() ==> is_ws(s@[j]),
{
    let len = s.unicode_len();
    let mut e: usize = len;
    while e > a + 1
        invariant
            a < e <= len,
            len == s@.len(),
            forall|j: int| e <= j < len ==> is_ws(s@[j]),
        decreases e,
    {
        if !is_ws_exec(s.get_char(e - 1)) {
            return e;
        }
        e -= 1;
    }
    e
}

/// Whether `[a, e)` is exactly the trimmed span of `s`: non-empty, with
/// non-whitespace ends, and whitespace on both sides.
pub open spec fn trim_bounds(s: Seq<char>, a: int, e: int) -> bool {
    &&& 0 <= a < e <= s.len()
    &&& !is_ws(s[a])
    &&& !is_ws(s[e - 1])
    &&& forall|j: int| 0 <= j < a ==> is_ws(s[j])
    &&& forall|j: int| e <= j < s.len() ==> is_ws(s[j])
}

/// A text has at most one trimmed span.
pub proof fn lemma_trim_bounds_unique(s: Seq<char>, a1: int, e1: int, a2: int, e2: int)
    requires
        trim_bounds(s, a1, e1),
        trim_bounds(s, a2, e2),
    ensures
        a1 == a2,
        e1 == e2,
{
    if a1 < a2 {
        assert(is_ws(s[a1]));
    }
    if a2 < a1 {
        assert(is_ws(s[a2]));
    }
    if e1 < e2 {
        assert(is_ws(s[e2 - 1]));
    }
    if e2 < e1 {
        assert(is_ws(s[e1 - 1]));
    }
}

/// Whether this schema source loads to "no schema": it is absent, blank,
/// or its trimmed text fails the parser the leading-character probe
/// selects (`{` means the JSON form, anything else the textual grammar).
pub open spec fn schema_loads_none(src: Option<String>) -> bool {
    match src {
        None => true,
        Some(s) => all_ws(s@) || (exists|a: int, e: int|
            #[trigger] trim_bounds(s@, a, e) && !(if s@[a] == '{' {
                schema_json_parses(s@.subrange(a, e))
            } else {
                schema_text_parses(s@.subrange(a, e))
            })),
    }
}

/// How an optional, fallible load degrades: absence and failure both
/// yield the absent value; only a successful parse is kept.
pub open spec fn degrade<T>(outcome: Option<Result<T, String>>) -> Option<T> {
    match outcome {
        Option::None => Option::None,
        Option::Some(Result::Ok(v)) => Option::Some(v),
        Option::Some(Result::Err(_)) => Option::None,
    }
}

/// Keeps a successfully parsed schema and degrades everything else to
/// "no schema".
pub fn schema_of_outcome(outcome: Option<Result<cedar_policy::Schema, String>>) -> (r: Option<
    cedar_policy::Schema,
>)
    ensures
        r == degrade(outcome),
{
    match outcome {
        Option::None => Option::None,
        Option::Some(Result::Ok(s)) => Option::Some(s),
        Option::Some(Result::Err(_)) => Option::None,
    }
}

/// Loads the optional schema: absent or all-whitespace input is "no
/// schema"; trimmed text starting with `{` is parsed as JSON, any other
/// text by the schema grammar; and a parse failure degrades to "no
/// schema" instead of aborting. The leading-character probe is a
/// compatibility shim, not a content-type detector.
pub fn make_schema(schema_src: &Option<String>, verbose: bool) -> (r: Option<cedar_policy::Schema>)
    ensures
        r is None <==> schema_loads_none(*schema_src),
{
    match schema_src {
        Option::None => Option::None,
        Option::Some(src) => {
            let st = src.as_str();
            let len = st.unicode_len();
            let a = first_non_ws(st);
            if a == len {
                Option::None
            } else {
                let e = last_non_ws_end(st, a);
                proof {
                    assert(trim_bounds(src@, a as int, e as int));
                }
                let trimmed = st.substring_char(a, e);
                let c0 = trimmed.get_char(0);
                let outcome = if c0 == '{' {
                    schema_from_json_text(trimmed)
                } else {
                    schema_from_cedar_text(trimmed)
                };
                let r = schema_of_outcome(Some(outcome));
                proof {
                    assert(!all_ws(src@));
                    if outcome is Ok {
                        if schema_loads_none(*schema_src) {
                            let (a2, e2): (int, int) = choose|a2: int, e2: int|
                                #[trigger] trim_bounds(src@, a2, e2) && !(if src@[a2] == '{' {
                                    schema_json_parses(src@.subrange(a2, e2))
                                } else {
                                    schema_text_parses(src@.subrange(a2, e2))
                                });
                            lemma_trim_bounds_unique(src@, a2, e2, a as int, e as int);
                            assert(false);
                        }
                    } else {
                        assert(schema_loads_none(*schema_src));
                    }
                }
                r
            }
        },
    }
}

/// The recorded message for a policy parse failure.
pub open spec fn policy_error_text(cause: Seq<char>) -> Seq<char> {
    "policy parse errors:\n"@ + cause
}

/// The recorded message for an entity-store build failure.
pub open spec fn entities_error_text(src: Seq<char>) -> Seq<char> {
    "failed to parse entities from:\n"@ + src
}

/// Keeps a successfully parsed policy set; a parse failure records the
/// error and substitutes the empty policy set, which permits nothing.
pub fn policy_set_of_outcome(
    outcome: Result<cedar_policy::PolicySet, String>,
    errs: &mut Vec<AuthzError>,
) -> (r: cedar_policy::PolicySet)
    ensures
        outcome matches Ok(p) ==> r == p && final(errs)@ == old(errs)@,
        outcome matches Err(m) ==> final(errs)@.len() == old(errs)@.len() + 1
            && final(errs)@.subrange(0, old(errs)@.len() as int) == old(errs)@
            && final(errs)@.last()@ == policy_error_text(m@),
{
    match outcome {
        Result::Ok(p) => p,
        Result::Err(m) => {
            let mut msg = String::from_str("policy parse errors:\n");
            msg.append(m.as_str());
            errs.push(AuthzError::from_message(msg));
            proof {
                assert(errs@.subrange(0, old(errs)@.len() as int) =~= old(errs)@);
            }
            policy_set_new()
        },
    }
}

/// Parses the batch's policy text once; blank text and a parse failure
/// are each recorded as fatal to the batch and the empty policy set,
/// which permits nothing, stands in.
pub fn load_policies(policies: &String, errs: &mut Vec<AuthzError>) -> (r: cedar_policy::PolicySet)
    ensures
        old(errs)@.len() <= final(errs)@.len() <= old(errs)@.len() + 1,
        final(errs)@.subrange(0, old(errs)@.len() as int) == old(errs)@,
        all_ws(policies@) ==> final(errs)@.len() == old(errs)@.len() + 1 && final(errs)@.last()@
            == policy_error_text("policy text is empty"@),
        !all_ws(policies@) ==> ((final(errs)@.len() == old(errs)@.len()) <==> policy_parse_error(
            policies@,
        ) is None),
        !all_ws(policies@) ==> (policy_parse_error(policies@) matches Some(m)
            ==> final(errs)@.last()@ == policy_error_text(m)),
{
    let st = policies.as_str();
    let a = first_non_ws(st);
    if a == st.unicode_len() {
        let mut msg = String::from_str("policy parse errors:\n");
        msg.append("policy text is empty");
        errs.push(AuthzError::from_message(msg));
        proof {
            assert(errs@.subrange(0, old(errs)@.len() as int) =~= old(errs)@);
        }
        policy_set_new()
    } else {
        proof {
            assert(!all_ws(policies@));
        }
        let outcome = policy_set_from_str(st);
        let r = policy_set_of_outcome(outcome, errs);
        proof {
            assert(final(errs)@.subrange(0, old(errs)@.len() as int) =~= old(errs)@);
        }
        r
    }
}

/// Keeps a successfully parsed entity store; a failure records an error
/// naming the offending source and substitutes the empty store.
pub fn entities_of_outcome(
    outcome: Result<cedar_policy::Entities, String>,
    src: &String,
    errs: &mut Vec<AuthzError>,
) -> (r: cedar_policy::Entities)
    ensures
        outcome matches Ok(e) ==> r == e && final(errs)@ == old(errs)@,
        outcome matches Err(m) ==> final(errs)@.len() == old(errs)@.len() + 1
            && final(errs)@.subrange(0, old(errs)@.len() as int) == old(errs)@
            && final(errs)@.last()@ == entities_error_text(src@),
{
    match outcome {
        Result::Ok(e) => e,
        Result::Err(_m) => {
            let mut msg = String::from_str("failed to parse entities from:\n");
            msg.append(src.as_str());
            errs.push(AuthzError::from_message(msg));
            proof {
                assert(errs@.subrange(0, old(errs)@.len() as int) =~= old(errs)@);
            }
            entities_empty()
        },
    }
}

/// Builds the batch's entity store once, validated against and extended
/// by the schema when one is present; a failure is recorded as fatal to
/// the batch and the empty store stands in. Without a schema the parse
/// outcome is a function of the entity text; with one, it is the
/// engine's to decide.
pub fn make_entities(
    entities_src: &String,
    schema: &Option<cedar_policy::Schema>,
    errs: &mut Vec<AuthzError>,
) -> (r: cedar_policy::Entities)
    ensures
        old(errs)@.len() <= final(errs)@.len() <= old(errs)@.len() + 1,
        final(errs)@.subrange(0, old(errs)@.len() as int) == old(errs)@,
        final(errs)@.len() > old(errs)@.len() ==> final(errs)@.last()@ == entities_error_text(
            entities_src@,
        ),
        schema is None ==> ((final(errs)@.len() == old(errs)@.len()) <==> entities_json_parses(
            entities_src@,
        )),
{
    let schema_ref: Option<&cedar_policy::Schema> = match schema {
        Option::None => Option::None,
        Option::Some(s) => Option::Some(s),
    };
    let outcome = entities_from_json_text(entities_src.as_str(), schema_ref);
    let r = entities_of_outcome(outcome, entities_src, errs);
    proof {
        assert(final(errs)@.subrange(0, old(errs)@.len() as int) =~= old(errs)@);
    }
    r
}

/// Each text wrapped with the overall operation that failed.
pub open spec fn wrap_texts(outer: Seq<char>, texts: Seq<Seq<char>>) -> Seq<Seq<char>> {
    Seq::new(texts.len(), |j: int| tagged_text(outer, texts[j]))
}

/// Wraps each error with the overall operation that failed.
pub fn wrap_errors(outer: &str, es: Vec<AuthzError>) -> (r: Vec<AuthzError>)
    ensures
        r@.len() == es@.len(),
        forall|j: int| 0 <= j < es@.len() ==> r@[j]@ == tagged_text(outer@, es@[j]@),
        r.deep_view() == wrap_texts(outer@, es.deep_view()),
{
    let mut out: Vec<AuthzError> = Vec::new();
    let mut i: usize = 0;
    while i < es.len()
        invariant
            i <= es@.len(),
            out@.len() == i,
            forall|j: int| 0 <= j < i ==> out@[j]@ == tagged_text(outer@, es@[j]@),
        decreases es@.len() - i,
    {
        out.push(tagged_error(outer, es[i].message.clone()));
        i += 1;
    }
    proof {
        assert(out.deep_view() =~~= wrap_texts(outer@, es.deep_view()));
    }
    out
}

/// Copies a list of errors.
pub fn clone_errors(es: &Vec<AuthzError>) -> (r: Vec<AuthzError>)
    ensures
        r@.len() == es@.len(),
        r.deep_view() == es.deep_view(),
{
    let mut out: Vec<AuthzError> = Vec::new();
    let mut i: usize = 0;
    while i < es.len()
        invariant
            i <= es@.len(),
            out@.len() == i,
            forall|j: int| 0 <= j < i ==> out@[j]@ == es@[j]@,
        decreases es@.len() - i,
    {
        out.push(AuthzError::from_message(es[i].message.clone()));
        i += 1;
    }
    proof {
        assert(out.deep_view() =~~= es.deep_view());
    }
    out
}

/// Evaluates one assembled request against the shared policy set and
/// entity store: builds the typed request, asks the decision oracle, and
/// composes the response with its timing metrics and correlation id. A
/// failed assembly yields this item's errors, each wrapped with the
/// operation that failed, never a partial response. The three
/// shared-stage metric fields stay zero until the batch coordinator
/// fills them in.
pub fn execute_authorization_request(
    request_args: &RequestArgs,
    policy_set: &cedar_policy::PolicySet,
    entities_store: &cedar_policy::Entities,
    schema: &Option<cedar_policy::Schema>,
    verbose: bool,
) -> (r: Result<AuthzResponse, Vec<AuthzError>>)
    ensures
        r matches Ok(resp) ==> resp.correlation_id == request_args.correlation_id,
        r matches Ok(resp) ==> resp.metrics.parse_policies_duration_micros == 0
            && resp.metrics.parse_schema_duration_micros == 0
            && resp.metrics.load_entities_duration_micros == 0,
        r matches Err(es) ==> es@.len() >= 1,
        uid_failures_of(*request_args).len() > 0 ==> r is Err,
        r matches Err(es) ==> uid_failures_of(*request_args).len() <= es.deep_view().len()
            && es.deep_view().subrange(0, uid_failures_of(*request_args).len() as int)
            == wrap_texts(
            "failed to parse schema from request"@,
            uid_failures_of(*request_args),
        ),
        schema is None ==> (r is Ok <==> assembly_failure_texts(*request_args).len() == 0),
        schema is None ==> (r matches Err(es) ==> es.deep_view() == wrap_texts(
            "failed to parse schema from request"@,
            assembly_failure_texts(*request_args),
        )),
{
    let schema_ref: Option<&cedar_policy::Schema> = match schema {
        Option::None => Option::None,
        Option::Some(s) => Option::Some(s),
    };
    let t_build = instant_now();
    let q = request_args.get_request(schema_ref);
    let build_request_duration = elapsed_micros(&t_build);
    match q {
        Result::Ok(request) => {
            let authorizer = authorizer_new();
            let t_authz = instant_now();
            let resp = authorize(&authorizer, &request, policy_set, entities_store);
            let authz_duration = elapsed_micros(&t_authz);
            let output = OracleOutput {
                allow: response_is_allow(&resp),
                reasons: response_reasons(&resp),
                errors: response_errors(&resp),
            };
            let metrics = Metrics {
                build_request_duration_micros: build_request_duration,
                authz_duration_micros: authz_duration,
                parse_policies_duration_micros: 0,
                parse_schema_duration_micros: 0,
                load_entities_duration_micros: 0,
            };
            Ok(AuthzResponse::new(output, metrics, clone_opt_string(&request_args.correlation_id)))
        },
        Result::Err(es) => {
            let wrapped = wrap_errors("failed to parse schema from request", es);
            proof {
                let k = uid_failures_of(*request_args).len() as int;
                assert(wrapped.deep_view().subrange(0, k) =~~= wrap_texts(
                    "failed to parse schema from request"@,
                    uid_failures_of(*request_args),
                ));
            }
            Err(wrapped)
        },
    }
}

/// The structured outcome of one batch item: a decided response, or the
/// errors that kept a decision from being reached.
pub enum ItemRecord {
    Decided(AuthzResponse),
    Failed(Vec<AuthzError>),
}

/// The JSON text a record serializes to.
pub open spec fn record_json(rec: ItemRecord) -> Seq<char> {
    match rec {
        ItemRecord::Decided(a) => response_json(a),
        ItemRecord::Failed(es) => error_record_json(es.deep_view()),
    }
}

/// Serializes one record to its exact JSON text.
pub fn record_to_json(rec: &ItemRecord) -> (r: String)
    ensures
        r@ == record_json(*rec),
{
    match rec {
        ItemRecord::Decided(a) => a.to_json(),
        ItemRecord::Failed(es) => make_authz_result_for_errors(es),
    }
}

/// The typed arguments a raw request validates to, when its three
/// required fields are present.
pub open spec fn spec_request_args(req: RawRequest) -> RequestArgs {
    RequestArgs {
        principal: req.principal->0,
        action: req.action->0,
        resource: req.resource->0,
        context_json: req.context,
        correlation_id: req.correlation_id,
    }
}

/// Every failure one item collects when no schema constrains it: its
/// first missing required field, or its tagged assembly failures.
pub open spec fn item_failure_texts(req: RawRequest) -> Seq<Seq<char>> {
    if req.principal is Some && req.action is Some && req.resource is Some {
        wrap_texts(
            "failed to parse schema from request"@,
            assembly_failure_texts(spec_request_args(req)),
        )
    } else {
        seq![missing_field_text(req)]
    }
}

/// Whether this item is certain to fail assembly, whatever the schema:
/// a required field is missing, or a named identifier parse fails.
pub open spec fn item_surely_fails(req: RawRequest) -> bool {
    !(req.principal is Some && req.action is Some && req.resource is Some) || uid_failures_of(
        spec_request_args(req),
    ).len() > 0
}

/// The three shared-stage durations a decided record carries.
pub open spec fn shared_metrics_of(rec: ItemRecord) -> Option<(u128, u128, u128)> {
    match rec {
        ItemRecord::Decided(a) => Some(
            (
                a.metrics.parse_policies_duration_micros,
                a.metrics.parse_schema_duration_micros,
                a.metrics.load_entities_duration_micros,
            ),
        ),
        ItemRecord::Failed(_) => None,
    }
}

/// Evaluates every batch item against the shared context, in input
/// order. Fatal shared errors poison every item; otherwise each item is
/// assembled and decided independently of its siblings, and every
/// decided record carries the shared-stage durations it was given.
pub fn evaluate_items(
    requests: &Vec<RawRequest>,
    policy_set: &cedar_policy::PolicySet,
    entities_store: &cedar_policy::Entities,
    schema: &Option<cedar_policy::Schema>,
    shared_errs: &Vec<AuthzError>,
    parse_policies_micros: u128,
    parse_schema_micros: u128,
    load_entities_micros: u128,
    verbose: bool,
) -> (records: Vec<ItemRecord>)
    ensures
        records@.len() == requests@.len(),
        shared_errs@.len() > 0 ==> forall|i: int|
            0 <= i < records@.len() ==> ((#[trigger] records@[i]) matches ItemRecord::Failed(es)
                && es.deep_view() == shared_errs.deep_view()),
        forall|i: int|
            0 <= i < records@.len() ==> ((#[trigger] records@[i]) matches ItemRecord::Failed(es) ==> es@.len()
                > 0),
        forall|i: int|
            0 <= i < records@.len() ==> ((#[trigger] records@[i]) matches ItemRecord::Decided(a)
                ==> a.correlation_id == requests@[i].correlation_id),
        forall|i: int|
            0 <= i < records@.len() ==> ((#[trigger] records@[i]) matches ItemRecord::Decided(a)
                ==> (a.metrics.parse_policies_duration_micros == parse_policies_micros
                && a.metrics.parse_schema_duration_micros == parse_schema_micros
                && a.metrics.load_entities_duration_micros == load_entities_micros)),
        (shared_errs@.len() == 0 && schema is None) ==> forall|i: int|
            0 <= i < records@.len() ==> (((#[trigger] records@[i]) is Decided)
                <==> item_failure_texts(requests@[i]).len() == 0),
        (shared_errs@.len() == 0 && schema is None) ==> forall|i: int|
            0 <= i < records@.len() ==> ((#[trigger] records@[i]) matches ItemRecord::Failed(es)
                ==> es.deep_view() == item_failure_texts(requests@[i])),
        shared_errs@.len() == 0 ==> forall|i: int|
            0 <= i < records@.len() ==> (item_surely_fails(requests@[i]) ==> !((#[trigger]
            records@[i]) is Decided)),
{
    let mut records: Vec<ItemRecord> = Vec::new();
    let mut i: usize = 0;
    while i < requests.len()
        invariant
            i <= requests@.len(),
            records@.len() == i,
            shared_errs@.len() > 0 ==> forall|j: int|
                0 <= j < i ==> ((#[trigger] records@[j]) matches ItemRecord::Failed(es) && es.deep_view()
                    == shared_errs.deep_view()),
            forall|j: int|
                0 <= j < i ==> ((#[trigger] records@[j]) matches ItemRecord::Failed(es) ==> es@.len() > 0),
            forall|j: int|
                0 <= j < i ==> ((#[trigger] records@[j]) matches ItemRecord::Decided(a) ==> a.correlation_id
                    == requests@[j].correlation_id),
            forall|j: int|
                0 <= j < i ==> ((#[trigger] records@[j]) matches ItemRecord::Decided(a)
                    ==> (a.metrics.parse_policies_duration_micros == parse_policies_micros
                    && a.metrics.parse_schema_duration_micros == parse_schema_micros
                    && a.metrics.load_entities_duration_micros == load_entities_micros)),
            (shared_errs@.len() == 0 && schema is None) ==> forall|j: int|
                0 <= j < i ==> (((#[trigger] records@[j]) is Decided)
                    <==> item_failure_texts(requests@[j]).len() == 0),
            (shared_errs@.len() == 0 && schema is None) ==> forall|j: int|
                0 <= j < i ==> ((#[trigger] records@[j]) matches ItemRecord::Failed(es)
                    ==> es.deep_view() == item_failure_texts(requests@[j])),
            shared_errs@.len() == 0 ==> forall|j: int|
                0 <= j < i ==> (item_surely_fails(requests@[j]) ==> !((#[trigger]
                records@[j]) is Decided)),
        decreases requests@.len() - i,
    {
        if shared_errs.len() == 0 {
            match to_request_args(&requests[i]) {
                Result::Ok(args) => {
                    proof {
                        assert(args == spec_request_args(requests@[i as int]));
                    }
                    match execute_authorization_request(
                        &args,
                        policy_set,
                        entities_store,
                        schema,
                        verbose,
                    ) {
                        Result::Ok(mut resp) => {
                            resp.metrics.parse_policies_duration_micros = parse_policies_micros;
                            resp.metrics.parse_schema_duration_micros = parse_schema_micros;
                            resp.metrics.load_entities_duration_micros = load_entities_micros;
                            records.push(ItemRecord::Decided(resp));
                        },
                        Result::Err(es) => {
                            proof {
                                if schema is None {
                                    assert(es.deep_view() == item_failure_texts(
                                        requests@[i as int],
                                    ));
                                }
                            }
                            records.push(ItemRecord::Failed(es));
                        },
                    }
                },
                Result::Err(e) => {
                    let mut es: Vec<AuthzError> = Vec::new();
                    es.push(e);
                    proof {
                        assert(es.deep_view() =~~= item_failure_texts(requests@[i as int]));
                    }
                    records.push(ItemRecord::Failed(es));
                },
            }
        } else {
            records.push(ItemRecord::Failed(clone_errors(shared_errs)));
        }
        i += 1;
    }
    records
}

/// Serializes every record, in order.
pub fn records_to_json(records: &Vec<ItemRecord>) -> (r: Vec<String>)
    ensures
        r@.len() == records@.len(),
        forall|i: int| 0 <= i < records@.len() ==> r@[i]@ == record_json(records@[i]),
{
    let mut out: Vec<String> = Vec::new();
    let mut i: usize = 0;
    while i < records.len()
        invariant
            i <= records@.len(),
            out@.len() == i,
            forall|j: int| 0 <= j < i ==> out@[j]@ == record_json(records@[j]),
        decreases records@.len() - i,
    {
        out.push(record_to_json(&records[i]));
        i += 1;
    }
    out
}

/// The recorded policy failure for this text, if it has one: blank text
/// declares no policy, and non-blank text may fail its parse — a fatal
/// batch error either way, whatever the schema.
pub open spec fn policy_failure_text(policies: String) -> Option<Seq<char>> {
    if all_ws(policies@) {
        Some(policy_error_text("policy text is empty"@))
    } else {
        match policy_parse_error(policies@) {
            Some(m) => Some(policy_error_text(m)),
            None => None,
        }
    }
}

/// The batch's fatal shared errors when the schema degrades to "no
/// schema": the blank-or-unparsable policy error, then the entity error.
pub open spec fn shared_failure_texts(policies: String, entities: String) -> Seq<Seq<char>> {
    (match policy_failure_text(policies) {
        Some(t) => seq![t],
        None => Seq::<Seq<char>>::empty(),
    }) + (if entities_json_parses(entities@) {
        Seq::<Seq<char>>::empty()
    } else {
        seq![entities_error_text(entities@)]
    })
}

/// Runs a whole batch and returns each item's structured outcome, in
/// input order: the shared policies, schema and entities are loaded
/// once, then every request is evaluated against them. When the schema
/// degrades to "no schema", the whole batch outcome is pinned: fatal
/// shared errors poison every item with exactly those errors, and
/// otherwise each item decides precisely when its own assembly succeeds,
/// failing with its own errors. Decided items agree on the shared-stage
/// durations.
pub fn is_authorized_batch_records(
    requests: &Vec<RawRequest>,
    policies: &String,
    entities: &String,
    schema: &Option<String>,
    verbose: bool,
) -> (records: Vec<ItemRecord>)
    ensures
        records@.len() == requests@.len(),
        forall|i: int|
            0 <= i < records@.len() ==> ((#[trigger] records@[i]) matches ItemRecord::Failed(es) ==> es@.len()
                > 0),
        forall|i: int|
            0 <= i < records@.len() ==> ((#[trigger] records@[i]) matches ItemRecord::Decided(a)
                ==> a.correlation_id == requests@[i].correlation_id),
        (schema_loads_none(*schema) && shared_failure_texts(*policies, *entities).len() > 0)
            ==> forall|i: int|
            0 <= i < records@.len() ==> ((#[trigger] records@[i]) matches ItemRecord::Failed(es)
                && es.deep_view() == shared_failure_texts(*policies, *entities)),
        (schema_loads_none(*schema) && shared_failure_texts(*policies, *entities).len() == 0)
            ==> forall|i: int|
            0 <= i < records@.len() ==> (((#[trigger] records@[i]) is Decided)
                <==> item_failure_texts(requests@[i]).len() == 0),
        (schema_loads_none(*schema) && shared_failure_texts(*policies, *entities).len() == 0)
            ==> forall|i: int|
            0 <= i < records@.len() ==> ((#[trigger] records@[i]) matches ItemRecord::Failed(es)
                ==> es.deep_view() == item_failure_texts(requests@[i])),
        forall|i: int, j: int|
            0 <= i < records@.len() && 0 <= j < records@.len() ==> ((#[trigger] shared_metrics_of(
                records@[i],
            )) is Some && (#[trigger] shared_metrics_of(records@[j])) is Some
                ==> shared_metrics_of(records@[i]) == shared_metrics_of(records@[j])),
        policy_failure_text(*policies) matches Some(t) ==> forall|i: int|
            0 <= i < records@.len() ==> ((#[trigger] records@[i]) matches ItemRecord::Failed(es)
                && es.deep_view().len() > 0 && es.deep_view()[0] == t),
        forall|i: int|
            0 <= i < records@.len() ==> (item_surely_fails(requests@[i]) ==> !((#[trigger]
            records@[i]) is Decided)),
{
    let mut errs: Vec<AuthzError> = Vec::new();
    let t_parse_policies = instant_now();
    let policy_set = load_policies(policies, &mut errs);
    let parse_policies_micros = elapsed_micros(&t_parse_policies);
    let t_parse_schema = instant_now();
    let schema_v = make_schema(schema, verbose);
    let parse_schema_micros = elapsed_micros(&t_parse_schema);
    let t_load_entities = instant_now();
    let store = make_entities(entities, &schema_v, &mut errs);
    let load_entities_micros = elapsed_micros(&t_load_entities);
    proof {
        if schema_loads_none(*schema) {
            assert(errs.deep_view() =~~= shared_failure_texts(*policies, *entities));
        }
        if policy_failure_text(*policies) is Some {
            assert(errs@.len() >= 1);
            assert(errs.deep_view()[0] == policy_failure_text(*policies)->0);
        }
    }
    let records = evaluate_items(
        requests,
        &policy_set,
        &store,
        &schema_v,
        &errs,
        parse_policies_micros,
        parse_schema_micros,
        load_entities_micros,
        verbose,
    );
    proof {
        assert forall|i: int, j: int|
            0 <= i < records@.len() && 0 <= j < records@.len() && (#[trigger] shared_metrics_of(
            records@[i],
        )) is Some && (#[trigger] shared_metrics_of(records@[j])) is Some implies shared_metrics_of(
            records@[i],
        ) == shared_metrics_of(records@[j]) by {
            assert(shared_metrics_of(records@[i]) is Some ==> shared_metrics_of(records@[i])
                == Some(
                (parse_policies_micros, parse_schema_micros, load_entities_micros),
            ));
            assert(shared_metrics_of(records@[j]) is Some ==> shared_metrics_of(records@[j])
                == Some(
                (parse_policies_micros, parse_schema_micros, load_entities_micros),
            ));
        }
        if policy_failure_text(*policies) is Some {
            let t = policy_failure_text(*policies)->0;
            assert forall|i: int|
                0 <= i < records@.len() implies ((#[trigger] records@[i])
                matches ItemRecord::Failed(es) && es.deep_view().len() > 0 && es.deep_view()[0]
                == t) by {
                assert(records@[i] matches ItemRecord::Failed(es) && es.deep_view()
                    == errs.deep_view());
            }
        }
        assert forall|i: int|
            0 <= i < records@.len() implies (item_surely_fails(requests@[i]) ==> !((#[trigger]
        records@[i]) is Decided)) by {
            if errs@.len() > 0 {
                assert(records@[i] matches ItemRecord::Failed(es) && es.deep_view()
                    == errs.deep_view());
            }
        }
    }
    records
}

/// Whether `t` is the JSON text of one item's record: either a decided
/// response echoing the item's correlation id, or a failure record that
/// carries at least one error.
pub open spec fn is_record_text(t: Seq<char>, correlation_id: Option<String>) -> bool {
    exists|rec: ItemRecord|
        t == #[trigger] record_json(rec) && (rec matches ItemRecord::Failed(es) ==> es@.len() > 0)
            && (rec matches ItemRecord::Decided(a) ==> a.correlation_id == correlation_id)
}

/// Whether `t` is the JSON text of a decided response echoing the given
/// correlation id.
pub open spec fn decided_record_text(t: Seq<char>, correlation_id: Option<String>) -> bool {
    exists|a: AuthzResponse| t == #[trigger] response_json(a) && a.correlation_id == correlation_id
}

/// Whether `t` is the JSON text of a failure record carrying at least
/// one error.
pub open spec fn failed_record_text(t: Seq<char>) -> bool {
    exists|es: Seq<Seq<char>>| t == #[trigger] error_record_json(es) && es.len() > 0
}

/// Whether `t` is the JSON text of a failure record whose first error
/// is the given message.
pub open spec fn poisoned_record_text(t: Seq<char>, first: Seq<char>) -> bool {
    exists|es: Seq<Seq<char>>|
        t == #[trigger] error_record_json(es) && es.len() > 0 && es[0] == first
}

/// Evaluates a batch of requests against one shared policy, entity and
/// schema context, returning exactly one serialized response per
/// request, in input order, however many items fail. The `verbose` flag
/// only controls auxiliary diagnostic output at the caller's boundary;
/// it never affects decision semantics.
pub fn is_authorized_batch(
    requests: &Vec<RawRequest>,
    policies: &String,
    entities: &String,
    schema: &Option<String>,
    verbose: bool,
) -> (r: Vec<String>)
    ensures
        r@.len() == requests@.len(),
        forall|i: int|
            0 <= i < r@.len() ==> is_record_text((#[trigger] r@[i])@, requests@[i].correlation_id),
        (schema_loads_none(*schema) && shared_failure_texts(*policies, *entities).len() > 0)
            ==> forall|i: int|
            0 <= i < r@.len() ==> (#[trigger] r@[i])@ == error_record_json(
                shared_failure_texts(*policies, *entities),
            ),
        (schema_loads_none(*schema) && shared_failure_texts(*policies, *entities).len() == 0)
            ==> forall|i: int|
            0 <= i < r@.len() ==> (item_failure_texts(requests@[i]).len() > 0 ==> (#[trigger] r@[i])@
                == error_record_json(item_failure_texts(requests@[i]))),
        (schema_loads_none(*schema) && shared_failure_texts(*policies, *entities).len() == 0)
            ==> forall|i: int|
            0 <= i < r@.len() ==> (item_failure_texts(requests@[i]).len() == 0
                ==> decided_record_text((#[trigger] r@[i])@, requests@[i].correlation_id)),
        policy_failure_text(*policies) matches Some(first) ==> forall|i: int|
            0 <= i < r@.len() ==> poisoned_record_text((#[trigger] r@[i])@, first),
        forall|i: int|
            0 <= i < r@.len() ==> (item_surely_fails(requests@[i]) ==> failed_record_text(
                (#[trigger] r@[i])@,
            )),
{
    let records = is_authorized_batch_records(requests, policies, entities, schema, verbose);
    let out = records_to_json(&records);
    proof {
        assert forall|i: int|
            0 <= i < out@.len() implies is_record_text(
            (#[trigger] out@[i])@,
            requests@[i].correlation_id,
        ) by {
            let rec = records@[i];
            assert(out@[i]@ == record_json(rec));
        }
        if schema_loads_none(*schema) && shared_failure_texts(*policies, *entities).len() > 0 {
            assert forall|i: int|
                0 <= i < out@.len() implies (#[trigger] out@[i])@ == error_record_json(
                shared_failure_texts(*policies, *entities),
            ) by {
                let rec = records@[i];
                assert(out@[i]@ == record_json(rec));
                assert(rec matches ItemRecord::Failed(es) && es.deep_view()
                    == shared_failure_texts(*policies, *entities));
            }
        }
        if schema_loads_none(*schema) && shared_failure_texts(*policies, *entities).len() == 0 {
            assert forall|i: int|
                0 <= i < out@.len() implies (item_failure_texts(requests@[i]).len() > 0 ==> (
            #[trigger] out@[i])@ == error_record_json(item_failure_texts(requests@[i]))) by {
                let rec = records@[i];
                assert(out@[i]@ == record_json(rec));
                if item_failure_texts(requests@[i]).len() > 0 {
                    assert(rec matches ItemRecord::Failed(es) && es.deep_view()
                        == item_failure_texts(requests@[i]));
                }
            }
            assert forall|i: int|
                0 <= i < out@.len() implies (item_failure_texts(requests@[i]).len() == 0
                ==> decided_record_text((#[trigger] out@[i])@, requests@[i].correlation_id)) by {
                let rec = records@[i];
                assert(out@[i]@ == record_json(rec));
                if item_failure_texts(requests@[i]).len() == 0 {
                    let a = rec->Decided_0;
                    assert(out@[i]@ == response_json(a));
                    assert(a.correlation_id == requests@[i].correlation_id);
                }
            }
        }
        if policy_failure_text(*policies) is Some {
            let first = policy_failure_text(*policies)->0;
            assert forall|i: int|
                0 <= i < out@.len() implies poisoned_record_text((#[trigger] out@[i])@, first) by {
                let rec = records@[i];
                assert(out@[i]@ == record_json(rec));
                assert(rec matches ItemRecord::Failed(es) && es.deep_view().len() > 0
                    && es.deep_view()[0] == first);
                assert(out@[i]@ == error_record_json(rec->Failed_0.deep_view()));
            }
        }
        assert forall|i: int|
            0 <= i < out@.len() implies (item_surely_fails(requests@[i]) ==> failed_record_text(
            (#[trigger] out@[i])@,
        )) by {
            let rec = records@[i];
            assert(out@[i]@ == record_json(rec));
            if item_surely_fails(requests@[i]) {
                assert(rec is Failed);
                assert(out@[i]@ == error_record_json(rec->Failed_0.deep_view()));
                assert(rec->Failed_0.deep_view().len() > 0);
            }
        }
    }
    out
}

/// Evaluates a single request: exactly a one-item batch. The result is
/// the serialization of that item's record, with the batch's guarantees
/// specialized to it: fatal shared errors yield exactly the poisoned
/// record, an item that cannot assemble yields exactly its own failure
/// record, and a decided response echoes the request's correlation id.
pub fn is_authorized(
    request: RawRequest,
    policies: &String,
    entities: &String,
    schema: &Option<String>,
    verbose: bool,
) -> (r: String)
    ensures
        is_record_text(r@, request.correlation_id),
        (schema_loads_none(*schema) && shared_failure_texts(*policies, *entities).len() > 0) ==> r@
            == error_record_json(shared_failure_texts(*policies, *entities)),
        (schema_loads_none(*schema) && shared_failure_texts(*policies, *entities).len() == 0
            && item_failure_texts(request).len() > 0) ==> r@ == error_record_json(
            item_failure_texts(request),
        ),
        (schema_loads_none(*schema) && shared_failure_texts(*policies, *entities).len() == 0
            && item_failure_texts(request).len() == 0) ==> decided_record_text(
            r@,
            request.correlation_id,
        ),
        policy_failure_text(*policies) matches Some(first) ==> poisoned_record_text(r@, first),
        item_surely_fails(request) ==> failed_record_text(r@),
{
    let ghost req0 = request;
    let mut reqs: Vec<RawRequest> = Vec::new();
    reqs.push(request);
    let mut records = is_authorized_batch_records(&reqs, policies, entities, schema, verbose);
    let rec = records.remove(0);
    let out = record_to_json(&rec);
    proof {
        assert(reqs@[0] == req0);
        assert(out@ == record_json(rec));
        if schema_loads_none(*schema) && shared_failure_texts(*policies, *entities).len() > 0 {
            assert(rec matches ItemRecord::Failed(es) && es.deep_view() == shared_failure_texts(
                *policies,
                *entities,
            ));
        }
        if schema_loads_none(*schema) && shared_failure_texts(*policies, *entities).len() == 0 {
            if item_failure_texts(req0).len() > 0 {
                assert(rec matches ItemRecord::Failed(es) && es.deep_view() == item_failure_texts(
                    req0,
                ));
            } else {
                let a = rec->Decided_0;
                assert(out@ == response_json(a));
                assert(a.correlation_id == req0.correlation_id);
            }
        }
        if policy_failure_text(*policies) is Some {
            assert(rec matches ItemRecord::Failed(es) && es.deep_view().len() > 0
                && es.deep_view()[0] == policy_failure_text(*policies)->0);
            assert(out@ == error_record_json(rec->Failed_0.deep_view()));
        }
        if item_surely_fails(req0) {
            assert(rec is Failed);
            assert(out@ == error_record_json(rec->Failed_0.deep_view()));
            assert(rec->Failed_0.deep_view().len() > 0);
        }
    }
    out
}

/// Returns the input string.
pub fn echo(s: String) -> (r: String)
    ensures
        r == s,
{
    s
}

/// Pretty-prints policy source text with the given line and indent
/// widths: pure delegation to the formatter, whose result — the pretty
/// text or its error message — is a function of the source and widths.
pub fn format_policies(s: &String, line_width: usize, indent_width: isize) -> (r: Result<
    String,
    AuthzError,
>)
    ensures
        r is Ok <==> pretty_result(s@, line_width as int, indent_width as int) is Ok,
        r matches Ok(t) ==> (pretty_result(s@, line_width as int, indent_width as int) matches Ok(p)
            && p == t@),
        r matches Err(e) ==> (pretty_result(s@, line_width as int, indent_width as int) matches Err(
        q,
        ) && q == e@),
{
    match pretty_policies(s.as_str(), line_width, indent_width) {
        Result::Ok(t) => Ok(t),
        Result::Err(m) => Err(AuthzError::from_message(m)),
    }
}

/// Converts policy source text to the policy set's JSON form: the
/// result — the parsed set's JSON text, or the first failing stage's
/// message — equals the named conversion outcome, and a parse failure
/// is the caller's error carrying the parser's message, unlike the
/// batch loader's empty-set fallback.
pub fn policies_to_json_str(s: &String) -> (r: Result<String, AuthzError>)
    ensures
        r is Ok <==> policy_to_json_result(s@) is Ok,
        r matches Ok(t) ==> (policy_to_json_result(s@) matches Ok(p) && p == t@),
        r matches Err(e) ==> (policy_to_json_result(s@) matches Err(q) && q == e@),
        policy_parse_error(s@) matches Some(m) ==> (r matches Err(e) && e@ == m),
{
    match policy_set_text_to_json_text(s.as_str()) {
        Result::Ok(t) => Ok(t),
        Result::Err(m) => Err(AuthzError::from_message(m)),
    }
}

/// Converts the JSON form of a policy set back to policy source text:
/// the result — the rendered source, or the parser's message — equals
/// the named conversion outcome, which succeeds exactly when the JSON
/// parses as a policy set.
pub fn policies_from_json_str(s: &String) -> (r: Result<String, AuthzError>)
    ensures
        r is Ok <==> policy_from_json_result(s@) is Ok,
        r matches Ok(t) ==> (policy_from_json_result(s@) matches Ok(p) && p == t@),
        r matches Err(e) ==> (policy_from_json_result(s@) matches Err(q) && q == e@),
{
    match policy_set_json_to_text(s.as_str()) {
        Result::Ok(t) => Ok(t),
        Result::Err(m) => Err(AuthzError::from_message(m)),
    }
}

} // verus!
