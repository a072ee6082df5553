//! The Cedar engine as this library sees it: its opaque values, each kept
//! with the text it was parsed from; what its parsers and its evaluation
//! give for those texts; and the calls that evaluate, validate and convert.

use vstd::prelude::*;
use vstd::multiset::Multiset;

use std::str::FromStr;

use cedar_policy::{
    Authorizer, Context, Entities, EntityUid, Policy, PolicySet, Request, Response, Schema,
    ValidationMode, Validator,
};

use crate::envelope::{texts, Decision};
use crate::json::json_error;

verus! {

#[verifier::external_type_specification]
#[verifier::external_body]
pub struct ExEntityUid(EntityUid);

#[verifier::external_type_specification]
#[verifier::external_body]
pub struct ExContext(Context);

#[verifier::external_type_specification]
#[verifier::external_body]
pub struct ExPolicySet(PolicySet);

#[verifier::external_type_specification]
#[verifier::external_body]
pub struct ExEntities(Entities);

#[verifier::external_type_specification]
#[verifier::external_body]
pub struct ExRequest(Request);

#[verifier::external_type_specification]
#[verifier::external_body]
pub struct ExResponse(Response);

#[verifier::external_type_specification]
#[verifier::external_body]
pub struct ExSchema(Schema);

#[verifier::external_type_specification]
#[verifier::external_body]
pub struct ExPolicy(Policy);

#[verifier::external_type_specification]
#[verifier::external_body]
pub struct ExValue(serde_json::Value);

/// The text of the engine's error for a text that does not parse as an
/// entity identifier (`Type::"id"`); none for one that does.
pub uninterp spec fn entity_uid_error(s: Seq<char>) -> Option<Seq<char>>;

/// The text of the engine's error for a JSON text that does not parse as a
/// request context record, with no schema; none for one that does.
pub uninterp spec fn context_error(s: Seq<char>) -> Option<Seq<char>>;

/// The text of the engine's error for a text that does not parse as a
/// policy set; none for one that does.
pub uninterp spec fn policy_set_error(s: Seq<char>) -> Option<Seq<char>>;

/// Whether the engine parses a JSON text as an entity set, with no schema.
/// Its error texts are not named: some list what a hash set holds.
pub uninterp spec fn accepts_entities(s: Seq<char>) -> bool;

/// Whether the engine parses a text as a schema. Its error texts are not
/// named: some list what a hash set holds.
pub uninterp spec fn accepts_schema(s: Seq<char>) -> bool;

/// The text of the engine's error for a text that does not parse as a
/// single policy; none for one that does.
pub uninterp spec fn policy_error(s: Seq<char>) -> Option<Seq<char>>;

/// Whether the request of the given principal, action, resource and context
/// is allowed by the policy set under the entity set, all given as the texts
/// they were parsed from.
pub uninterp spec fn authorization_allows(
    principal: Seq<char>,
    action: Seq<char>,
    resource: Seq<char>,
    context: Seq<char>,
    policies: Seq<char>,
    entities: Seq<char>,
) -> bool;

/// The identifiers of the policies that determined that decision.
pub uninterp spec fn authorization_reasons(
    principal: Seq<char>,
    action: Seq<char>,
    resource: Seq<char>,
    context: Seq<char>,
    policies: Seq<char>,
    entities: Seq<char>,
) -> Set<Seq<char>>;

/// The texts of the errors met while evaluating that request. Their order
/// follows the walk of a hash map, so only how often each occurs is named.
pub uninterp spec fn authorization_errors(
    principal: Seq<char>,
    action: Seq<char>,
    resource: Seq<char>,
    context: Seq<char>,
    policies: Seq<char>,
    entities: Seq<char>,
) -> Multiset<Seq<char>>;

/// Whether validating the policy set against the schema, in the default
/// mode, finds neither errors nor warnings. The wording of a finding is not
/// named: it can depend on the walk of a hash map.
pub uninterp spec fn validation_is_clean(schema: Seq<char>, policies: Seq<char>) -> bool;

/// Whether the engine gives a structured form for the policy parsed from a
/// text. The form itself is not named: record literals in it sit in a hash
/// map, so their keys come out in no fixed order.
pub uninterp spec fn policy_has_json(policy: Seq<char>) -> bool;

/// Whether the engine reads a policy from the JSON value parsed from a text.
pub uninterp spec fn accepts_policy_json(s: Seq<char>) -> bool;

/// An entity identifier the engine parsed, with its text.
pub struct ParsedUid {
    value: EntityUid,
    source: String,
}

/// A context record the engine parsed, with its text.
pub struct ParsedContext {
    value: Context,
    source: String,
}

/// A policy set the engine parsed, with its text.
pub struct ParsedPolicySet {
    value: PolicySet,
    source: String,
}

/// An entity set the engine parsed, with its text.
pub struct ParsedEntities {
    value: Entities,
    source: String,
}

/// A schema the engine parsed, with its text.
pub struct ParsedSchema {
    value: Schema,
    source: String,
}

/// A policy the engine parsed, with its text.
pub struct ParsedPolicy {
    value: Policy,
    source: String,
}

/// A JSON value serde_json parsed, with its text.
pub struct ParsedJson {
    value: serde_json::Value,
    source: String,
}

/// A request built from parsed parts, with their texts.
pub struct ParsedRequest {
    value: Request,
    principal: String,
    action: String,
    resource: String,
    context: String,
}

/// The engine's response to a request, with what it was evaluated on.
pub struct Evaluation {
    response: Response,
    request: ParsedRequest,
    policies: ParsedPolicySet,
    entities: ParsedEntities,
}

impl ParsedUid {
    pub closed spec fn source(&self) -> Seq<char> {
        self.source@
    }
}

impl ParsedContext {
    pub closed spec fn source(&self) -> Seq<char> {
        self.source@
    }
}

impl ParsedPolicySet {
    pub closed spec fn source(&self) -> Seq<char> {
        self.source@
    }
}

impl ParsedEntities {
    pub closed spec fn source(&self) -> Seq<char> {
        self.source@
    }
}

impl ParsedSchema {
    pub closed spec fn source(&self) -> Seq<char> {
        self.source@
    }
}

impl ParsedPolicy {
    pub closed spec fn source(&self) -> Seq<char> {
        self.source@
    }
}

impl ParsedJson {
    pub closed spec fn source(&self) -> Seq<char> {
        self.source@
    }
}

impl ParsedRequest {
    pub closed spec fn principal(&self) -> Seq<char> {
        self.principal@
    }

    pub closed spec fn action(&self) -> Seq<char> {
        self.action@
    }

    pub closed spec fn resource(&self) -> Seq<char> {
        self.resource@
    }

    pub closed spec fn context(&self) -> Seq<char> {
        self.context@
    }
}

impl Evaluation {
    /// Whether the engine allowed the evaluated request.
    pub closed spec fn allows(&self) -> bool {
        authorization_allows(
            self.request.principal@,
            self.request.action@,
            self.request.resource@,
            self.request.context@,
            self.policies.source@,
            self.entities.source@,
        )
    }

    /// The identifiers of the policies that determined the decision.
    pub closed spec fn reasons(&self) -> Set<Seq<char>> {
        authorization_reasons(
            self.request.principal@,
            self.request.action@,
            self.request.resource@,
            self.request.context@,
            self.policies.source@,
            self.entities.source@,
        )
    }

    /// The errors met during evaluation.
    pub closed spec fn errors(&self) -> Multiset<Seq<char>> {
        authorization_errors(
            self.request.principal@,
            self.request.action@,
            self.request.resource@,
            self.request.context@,
            self.policies.source@,
            self.entities.source@,
        )
    }
}

/// Relies on `EntityUid::from_str`; on failure, hands back the error's text.
#[verifier::external_body]
pub(crate) fn parse_entity_uid(s: &str) -> (r: Result<ParsedUid, String>)
    ensures
        match r {
            Ok(p) => entity_uid_error(s@) is None && p.source() == s@,
            Err(m) => entity_uid_error(s@) == Some(m@),
        },
{
    let source = s.to_string();
    EntityUid::from_str(s).map(|value| ParsedUid { value, source }).map_err(|e| e.to_string())
}

/// Relies on `Context::from_json_str` without a schema; on failure, hands
/// back the error's text.
#[verifier::external_body]
pub(crate) fn parse_context(s: &str) -> (r: Result<ParsedContext, String>)
    ensures
        match r {
            Ok(p) => context_error(s@) is None && p.source() == s@,
            Err(m) => context_error(s@) == Some(m@),
        },
{
    let source = s.to_string();
    Context::from_json_str(s, None).map(|value| ParsedContext { value, source }).map_err(
        |e| e.to_string(),
    )
}

/// Relies on `PolicySet::from_str`; on failure, hands back the error's text.
#[verifier::external_body]
pub(crate) fn parse_policy_set(s: &str) -> (r: Result<ParsedPolicySet, String>)
    ensures
        match r {
            Ok(p) => policy_set_error(s@) is None && p.source() == s@,
            Err(m) => policy_set_error(s@) == Some(m@),
        },
{
    let source = s.to_string();
    PolicySet::from_str(s).map(|value| ParsedPolicySet { value, source }).map_err(
        |e| e.to_string(),
    )
}

/// Relies on `Entities::from_json_str` without a schema; on failure, hands
/// back the error's text.
#[verifier::external_body]
pub(crate) fn parse_entities(s: &str) -> (r: Result<ParsedEntities, String>)
    ensures
        r is Ok <==> accepts_entities(s@),
        r is Ok ==> r->Ok_0.source() == s@,
{
    let source = s.to_string();
    Entities::from_json_str(s, None).map(|value| ParsedEntities { value, source }).map_err(
        |e| e.to_string(),
    )
}

/// Relies on `Schema::from_str`; on failure, hands back the error's text.
#[verifier::external_body]
pub(crate) fn parse_schema(s: &str) -> (r: Result<ParsedSchema, String>)
    ensures
        r is Ok <==> accepts_schema(s@),
        r is Ok ==> r->Ok_0.source() == s@,
{
    let source = s.to_string();
    Schema::from_str(s).map(|value| ParsedSchema { value, source }).map_err(|e| e.to_string())
}

/// Relies on `Policy::from_str`; on failure, hands back the error's text.
#[verifier::external_body]
pub(crate) fn parse_policy(s: &str) -> (r: Result<ParsedPolicy, String>)
    ensures
        match r {
            Ok(p) => policy_error(s@) is None && p.source() == s@,
            Err(m) => policy_error(s@) == Some(m@),
        },
{
    let source = s.to_string();
    Policy::from_str(s).map(|value| ParsedPolicy { value, source }).map_err(|e| e.to_string())
}

/// Relies on `serde_json::from_str` into a `Value`; on failure, hands back
/// the error's text.
#[verifier::external_body]
pub(crate) fn parse_json(s: &str) -> (r: Result<ParsedJson, String>)
    ensures
        match r {
            Ok(p) => json_error(s@) is None && p.source() == s@,
            Err(m) => json_error(s@) == Some(m@),
        },
{
    let source = s.to_string();
    serde_json::from_str(s).map(|value| ParsedJson { value, source }).map_err(|e| e.to_string())
}

/// Relies on `Request::new`, which checks a request only against a schema:
/// given none, it always succeeds.
#[verifier::external_body]
pub(crate) fn new_request(
    principal: ParsedUid,
    action: ParsedUid,
    resource: ParsedUid,
    context: ParsedContext,
) -> (r: Option<ParsedRequest>)
    ensures
        r is Some,
        r is Some ==> r->Some_0.principal() == principal.source() && r->Some_0.action()
            == action.source() && r->Some_0.resource() == resource.source()
            && r->Some_0.context() == context.source(),
{
    let value = Request::new(Some(principal.value), Some(action.value), Some(resource.value),
        context.value, None).ok()?;
    Some(ParsedRequest { value, principal: principal.source, action: action.source,
        resource: resource.source, context: context.source })
}

/// Relies on `Authorizer::is_authorized`, which evaluates a request against
/// policies and entities.
#[verifier::external_body]
pub(crate) fn evaluate(
    request: ParsedRequest,
    policies: ParsedPolicySet,
    entities: ParsedEntities,
) -> (r: Evaluation)
    ensures
        r.allows() == authorization_allows(request.principal(), request.action(),
            request.resource(), request.context(), policies.source(), entities.source()),
        r.reasons() == authorization_reasons(request.principal(), request.action(),
            request.resource(), request.context(), policies.source(), entities.source()),
        r.errors() == authorization_errors(request.principal(), request.action(),
            request.resource(), request.context(), policies.source(), entities.source()),
{
    let response = Authorizer::new().is_authorized(&request.value, &policies.value, &entities.value);
    Evaluation { response, request, policies, entities }
}

/// Relies on `Response::decision`.
#[verifier::external_body]
pub(crate) fn response_decision(evaluation: &Evaluation) -> (r: Decision)
    ensures
        r == (if evaluation.allows() { Decision::Allow } else { Decision::Deny }),
{
    match evaluation.response.decision() {
        cedar_policy::Decision::Allow => Decision::Allow,
        cedar_policy::Decision::Deny => Decision::Deny,
    }
}

/// Relies on `Diagnostics::reason`: the identifiers of the policies that
/// determined the decision, as text.
#[verifier::external_body]
pub(crate) fn response_reasons(evaluation: &Evaluation) -> (r: Vec<String>)
    ensures
        texts(r@).to_set() == evaluation.reasons(),
{
    evaluation.response.diagnostics().reason().map(|id| id.to_string()).collect()
}

/// Relies on `Diagnostics::errors`: the errors met during evaluation, as
/// text.
#[verifier::external_body]
pub(crate) fn response_errors(evaluation: &Evaluation) -> (r: Vec<String>)
    ensures
        texts(r@).to_multiset() == evaluation.errors(),
{
    evaluation.response.diagnostics().errors().map(|e| e.to_string()).collect()
}

/// Relies on `Validator::validate` in the default mode, and on the display
/// of its result: the first finding, or "no errors or warnings" when there
/// is none. A finding's text opens with "validation error on" or
/// "validation warning on".
#[verifier::external_body]
pub(crate) fn validation_findings(schema: ParsedSchema, policies: &ParsedPolicySet) -> (r: String)
    ensures
        r@ == "no errors or warnings"@ <==> validation_is_clean(schema.source(), policies.source()),
{
    Validator::new(schema.value).validate(&policies.value, ValidationMode::default()).to_string()
}

/// Relies on `Policy::to_json`, the policy's structured form, a JSON object
/// written as compact text; on failure, hands back the error's text.
#[verifier::external_body]
pub(crate) fn policy_json_text(policy: &ParsedPolicy) -> (r: Result<String, String>)
    ensures
        r is Ok <==> policy_has_json(policy.source()),
        r is Ok ==> r->Ok_0@.len() >= 2 && r->Ok_0@[0] == '{' && r->Ok_0@.last() == '}',
{
    policy.value.to_json().map(|v| v.to_string()).map_err(|e| e.to_string())
}

/// Relies on `Policy::from_json` without an identifier; on failure, hands
/// back the error's text.
#[verifier::external_body]
pub(crate) fn policy_from_value(json: ParsedJson) -> (r: Result<Policy, String>)
    ensures
        r is Ok <==> accepts_policy_json(json.source()),
{
    Policy::from_json(None, json.value).map_err(|e| e.to_string())
}

/// Relies on the display of a `Policy` read from JSON, which writes its
/// structured form as text ending in a semicolon.
#[verifier::external_body]
pub(crate) fn policy_text(policy: &Policy) -> (r: String)
    ensures
        r@.len() > 0 && r@.last() == ';',
{
    policy.to_string()
}

} // verus!
