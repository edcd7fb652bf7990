//! The serializable response record and its JSON form.
//!
//! Every emitter here is proved equal to a spec-level model of the JSON
//! text, so a caller knows the exact bytes a response serializes to.

use vstd::prelude::*;

use crate::error::AuthzError;
use crate::error::stringify_errors;
use crate::text::append_escaped;
use crate::text::dec_digits;
use crate::text::escape_seq;
use crate::text::push_char;
use crate::text::u128_to_string;

verus! {

/// The decision the policy engine reached for one request.
#[derive(Debug, Clone, Copy, PartialEq, Eq, Structural)]
pub enum DecisionSer {
    /// The engine determined that the request should be allowed.
    Allow,
    /// The engine determined that the request should be denied.
    Deny,
}

/// Why a decision was reached: the contributing policy identifiers and
/// any evaluation-time errors, both unordered.
pub struct DiagnosticsSer {
    /// Identifiers of the policies that contributed to the decision.
    pub reason: Vec<String>,
    /// Errors that occurred during authorization; policies may be
    /// evaluated in any order, so this order carries no meaning.
    pub errors: Vec<String>,
}

/// Elapsed time of each pipeline stage, in microseconds.
#[derive(Clone, Copy)]
pub struct Metrics {
    pub build_request_duration_micros: u128,
    pub authz_duration_micros: u128,
    pub parse_policies_duration_micros: u128,
    pub parse_schema_duration_micros: u128,
    pub load_entities_duration_micros: u128,
}

/// What the engine reported for one evaluated request, as plain values.
pub struct OracleOutput {
    /// Whether the decision was to allow the request.
    pub allow: bool,
    /// Identifiers of the policies that determined the decision.
    pub reasons: Vec<String>,
    /// Evaluation-time errors reported alongside the decision.
    pub errors: Vec<String>,
}

/// One batch item's response: decision, echoed correlation id,
/// diagnostics and timing metrics.
pub struct AuthzResponse {
    /// Authorization decision.
    pub decision: DecisionSer,
    /// Optional id that correlates this response to its request.
    pub correlation_id: Option<String>,
    /// Diagnostics providing more information on the decision.
    pub diagnostics: DiagnosticsSer,
    /// Timing information for the stages behind the decision.
    pub metrics: Metrics,
}

impl AuthzResponse {
    /// Composes a response from the engine's output, the accumulated
    /// timing metrics and the request's correlation id.
    pub fn new(output: OracleOutput, metrics: Metrics, correlation_id: Option<String>) -> (r:
        AuthzResponse)
        ensures
            r.decision == (if output.allow {
                DecisionSer::Allow
            } else {
                DecisionSer::Deny
            }),
            r.correlation_id == correlation_id,
            r.diagnostics.reason == output.reasons,
            r.diagnostics.errors == output.errors,
            r.metrics == metrics,
    {
        AuthzResponse {
            decision: if output.allow {
                DecisionSer::Allow
            } else {
                DecisionSer::Deny
            },
            correlation_id,
            diagnostics: DiagnosticsSer { reason: output.reasons, errors: output.errors },
            metrics,
        }
    }
}

/// A JSON string literal: quoted and escaped.
pub open spec fn json_string(s: Seq<char>) -> Seq<char> {
    seq!['"'] + escape_seq(s) + seq!['"']
}

/// The comma-separated body of a JSON array of strings.
pub open spec fn json_string_list(items: Seq<Seq<char>>) -> Seq<char>
    decreases items.len(),
{
    if items.len() == 0 {
        Seq::empty()
    } else if items.len() == 1 {
        json_string(items[0])
    } else {
        json_string_list(items.drop_last()) + seq![','] + json_string(items.last())
    }
}

/// A JSON array of strings.
pub open spec fn json_string_array(items: Seq<Seq<char>>) -> Seq<char> {
    seq!['['] + json_string_list(items) + seq![']']
}

/// The JSON form of an optional correlation id: a string or `null`.
pub open spec fn correlation_json(c: Option<String>) -> Seq<char> {
    match c {
        Some(s) => json_string(s@),
        None => "null"@,
    }
}

/// The JSON name of a decision.
pub open spec fn decision_text(d: DecisionSer) -> Seq<char> {
    match d {
        DecisionSer::Allow => "Allow"@,
        DecisionSer::Deny => "Deny"@,
    }
}

/// The JSON form of the metrics object, keys in insertion order.
pub open spec fn metrics_json(m: Metrics) -> Seq<char> {
    "{\"build_request_duration_micros\":"@ + dec_digits(m.build_request_duration_micros as nat)
        + ",\"authz_duration_micros\":"@ + dec_digits(m.authz_duration_micros as nat)
        + ",\"parse_policies_duration_micros\":"@ + dec_digits(
        m.parse_policies_duration_micros as nat,
    ) + ",\"parse_schema_duration_micros\":"@ + dec_digits(m.parse_schema_duration_micros as nat)
        + ",\"load_entities_duration_micros\":"@ + dec_digits(m.load_entities_duration_micros as nat)
        + "}"@
}

/// The JSON form of a full response record.
pub open spec fn response_json(r: AuthzResponse) -> Seq<char> {
    "{\"decision\":\""@ + decision_text(r.decision) + "\",\"correlation_id\":"@ + correlation_json(
        r.correlation_id,
    ) + ",\"diagnostics\":{\"reason\":"@ + json_string_array(r.diagnostics.reason.deep_view())
        + ",\"errors\":"@ + json_string_array(r.diagnostics.errors.deep_view()) + "},\"metrics\":"@
        + metrics_json(r.metrics) + "}"@
}

/// The JSON form of the degraded record used when no decision could be
/// reached: decision `NoDecision` plus the recorded errors.
pub open spec fn error_record_json(errors: Seq<Seq<char>>) -> Seq<char> {
    "{\"decision\":\"NoDecision\",\"diagnostics\":{\"errors\":"@ + json_string_array(errors)
        + "}}"@
}

/// Appends a quoted, escaped JSON string to `out`.
pub fn append_json_string(out: &mut String, s: &str)
    ensures
        final(out)@ == old(out)@ + json_string(s@),
{
    push_char(out, '"');
    append_escaped(out, s);
    push_char(out, '"');
    proof {
        assert(final(out)@ =~= old(out)@ + json_string(s@));
    }
}

/// Appends a JSON array holding each of the given strings to `out`.
pub fn append_json_string_array(out: &mut String, items: &Vec<String>)
    ensures
        final(out)@ == old(out)@ + json_string_array(items.deep_view()),
{
    let ghost dv = items.deep_view();
    push_char(out, '[');
    let mut i: usize = 0;
    while i < items.len()
        invariant
            i <= items.len(),
            dv == items.deep_view(),
            dv.len() == items@.len(),
            out@ == old(out)@.push('[') + json_string_list(dv.subrange(0, i as int)),
        decreases items.len() - i,
    {
        if i > 0 {
            push_char(out, ',');
        }
        append_json_string(out, items[i].as_str());
        proof {
            let pre = dv.subrange(0, i as int);
            let cur = dv.subrange(0, i + 1 as int);
            assert(cur.drop_last() =~= pre);
            assert(cur.last() == dv[i as int]);
            if i == 0 {
                assert(out@ =~= old(out)@.push('[') + json_string_list(cur));
            } else {
                assert(json_string_list(cur) == json_string_list(pre) + seq![','] + json_string(
                    dv[i as int],
                ));
                assert(out@ =~= old(out)@.push('[') + json_string_list(cur));
            }
        }
        i += 1;
    }
    push_char(out, ']');
    proof {
        assert(dv.subrange(0, items@.len() as int) =~= dv);
        assert(final(out)@ =~= old(out)@ + json_string_array(dv));
    }
}

/// Appends the metrics object to `out`.
fn append_metrics(out: &mut String, m: &Metrics)
    ensures
        final(out)@ == old(out)@ + metrics_json(*m),
{
    out.append("{\"build_request_duration_micros\":");
    let s1 = u128_to_string(m.build_request_duration_micros);
    out.append(s1.as_str());
    out.append(",\"authz_duration_micros\":");
    let s2 = u128_to_string(m.authz_duration_micros);
    out.append(s2.as_str());
    out.append(",\"parse_policies_duration_micros\":");
    let s3 = u128_to_string(m.parse_policies_duration_micros);
    out.append(s3.as_str());
    out.append(",\"parse_schema_duration_micros\":");
    let s4 = u128_to_string(m.parse_schema_duration_micros);
    out.append(s4.as_str());
    out.append(",\"load_entities_duration_micros\":");
    let s5 = u128_to_string(m.load_entities_duration_micros);
    out.append(s5.as_str());
    out.append("}");
    proof {
        assert(final(out)@ =~= old(out)@ + metrics_json(*m));
    }
}

impl AuthzResponse {
    /// Serializes this response to its exact JSON text.
    pub fn to_json(&self) -> (r: String)
        ensures
            r@ == response_json(*self),
    {
        let mut out = String::new();
        out.append("{\"decision\":\"");
        match self.decision {
            DecisionSer::Allow => out.append("Allow"),
            DecisionSer::Deny => out.append("Deny"),
        }
        out.append("\",\"correlation_id\":");
        match &self.correlation_id {
            Option::None => out.append("null"),
            Option::Some(c) => append_json_string(&mut out, c.as_str()),
        }
        out.append(",\"diagnostics\":{\"reason\":");
        append_json_string_array(&mut out, &self.diagnostics.reason);
        out.append(",\"errors\":");
        append_json_string_array(&mut out, &self.diagnostics.errors);
        out.append("},\"metrics\":");
        append_metrics(&mut out, &self.metrics);
        out.append("}");
        proof {
            assert(out@ =~= response_json(*self));
        }
        out
    }
}

/// Serializes the degraded `NoDecision` record carrying the given errors;
/// used whenever evaluation could not proceed for an item.
pub fn make_authz_result_for_errors(errs: &Vec<AuthzError>) -> (r: String)
    ensures
        r@ == error_record_json(errs.deep_view()),
{
    let msgs = stringify_errors(errs);
    let mut out = String::new();
    out.append("{\"decision\":\"NoDecision\",\"diagnostics\":{\"errors\":");
    append_json_string_array(&mut out, &msgs);
    out.append("}}");
    proof {
        assert(out@ =~= error_record_json(errs.deep_view()));
    }
    out
}

} // verus!
