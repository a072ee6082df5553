//! The five operations. Each parses its inputs in a fixed order, stops at the
//! first input the engine rejects, and otherwise hands the parsed values to
//! the engine; the answer is always one envelope.

use vstd::prelude::*;
use vstd::string::*;

use crate::diagnostics::authorization_data;
use crate::engine::{
    accepts_entities, accepts_policy_json, accepts_schema, authorization_allows,
    authorization_errors, authorization_reasons, context_error, entity_uid_error, evaluate,
    new_request, parse_context, parse_entities, parse_entity_uid, parse_json, parse_policy,
    parse_policy_set, parse_schema, policy_error, policy_from_value, policy_has_json,
    policy_json_text, policy_set_error, policy_text, response_decision, response_errors,
    response_reasons, validation_findings, validation_is_clean,
};
use crate::envelope::{envelope_json, texts, AuthorizationData, Decision, Envelope, Payload, Stage};
use crate::json::json_error;

verus! {

/// The version of the Cedar engine this library is built against.
pub const CEDAR_VERSION: &'static str = "3.1.5";

/// The data of a schema check that found nothing.
pub const NO_FINDINGS: &'static str = "no errors or warnings";

/// The first `isAuthorized` input, in the order principal, action, resource,
/// context, policy set, entity set, that the engine rejects.
pub open spec fn authorization_rejection(
    principal: Seq<char>,
    action: Seq<char>,
    resource: Seq<char>,
    context: Seq<char>,
    policies: Seq<char>,
    entities: Seq<char>,
) -> Option<Stage> {
    if entity_uid_error(principal) is Some {
        Some(Stage::Principal)
    } else if entity_uid_error(action) is Some {
        Some(Stage::Action)
    } else if entity_uid_error(resource) is Some {
        Some(Stage::Resource)
    } else if context_error(context) is Some {
        Some(Stage::Context)
    } else if policy_set_error(policies) is Some {
        Some(Stage::Policies)
    } else if !accepts_entities(entities) {
        Some(Stage::Entities)
    } else {
        None
    }
}

/// The engine's error text for an `isAuthorized` stage, where it is named.
pub open spec fn authorization_detail(
    stage: Stage,
    principal: Seq<char>,
    action: Seq<char>,
    resource: Seq<char>,
    context: Seq<char>,
    policies: Seq<char>,
) -> Option<Seq<char>> {
    match stage {
        Stage::Principal => entity_uid_error(principal),
        Stage::Action => entity_uid_error(action),
        Stage::Resource => entity_uid_error(resource),
        Stage::Context => context_error(context),
        Stage::Policies => policy_set_error(policies),
        _ => None,
    }
}

/// The first `validate` input, schema then policy set, that the engine rejects.
pub open spec fn validation_rejection(schema: Seq<char>, policies: Seq<char>) -> Option<Stage> {
    if !accepts_schema(schema) {
        Some(Stage::ValidatorSchema)
    } else if policy_set_error(policies) is Some {
        Some(Stage::ValidatorPolicies)
    } else {
        None
    }
}

/// An envelope fails at a stage, carrying the engine's error text where it
/// is named.
pub open spec fn fails_with(e: Envelope, stage: Stage, detail: Option<Seq<char>>) -> bool {
    &&& e is Failure
    &&& e->Failure_0 == stage
    &&& detail is Some ==> e->Failure_1@ == detail->Some_0
}

/// The authorization payload reports the engine's evaluation of the six
/// input texts: its decision, its reasons as a set without repeats, and its
/// errors with the number of times each occurs.
pub open spec fn reports_evaluation(
    d: AuthorizationData,
    principal: Seq<char>,
    action: Seq<char>,
    resource: Seq<char>,
    context: Seq<char>,
    policies: Seq<char>,
    entities: Seq<char>,
) -> bool {
    &&& d.wf()
    &&& d.decision == if authorization_allows(principal, action, resource, context, policies, entities) {
        Decision::Allow
    } else {
        Decision::Deny
    }
    &&& texts(d.reasons@).to_set() == authorization_reasons(
        principal,
        action,
        resource,
        context,
        policies,
        entities,
    )
    &&& texts(d.errors@).to_multiset() == authorization_errors(
        principal,
        action,
        resource,
        context,
        policies,
        entities,
    )
}

/// What `isAuthorized` answers: the first rejected input's failure, or the
/// engine's evaluation of the request.
pub open spec fn authorization_answer(
    e: Envelope,
    principal: Seq<char>,
    action: Seq<char>,
    resource: Seq<char>,
    context: Seq<char>,
    policies: Seq<char>,
    entities: Seq<char>,
) -> bool {
    match authorization_rejection(principal, action, resource, context, policies, entities) {
        Some(stage) => fails_with(
            e,
            stage,
            authorization_detail(stage, principal, action, resource, context, policies),
        ),
        None => e is Success && e->Success_0 is Authorization && reports_evaluation(
            e->Success_0->Authorization_0,
            principal,
            action,
            resource,
            context,
            policies,
            entities,
        ),
    }
}

/// What `validate` answers: the first rejected input's failure, or the
/// validator's findings as text, which read "no errors or warnings" exactly
/// when it found nothing.
pub open spec fn validation_answer(e: Envelope, schema: Seq<char>, policies: Seq<char>) -> bool {
    match validation_rejection(schema, policies) {
        Some(Stage::ValidatorPolicies) => fails_with(
            e,
            Stage::ValidatorPolicies,
            policy_set_error(policies),
        ),
        Some(stage) => fails_with(e, stage, None),
        None => e is Success && e->Success_0 is Text && (e->Success_0->Text_0@ == NO_FINDINGS@
            <==> validation_is_clean(schema, policies)),
    }
}

/// What `policyToJson` answers: the rejected policy's failure, or the
/// policy's structured form as a JSON object.
pub open spec fn to_json_answer(e: Envelope, policy: Seq<char>) -> bool {
    if policy_error(policy) is Some {
        fails_with(e, Stage::Policy, policy_error(policy))
    } else {
        e is Success && e->Success_0 is Document && {
            let doc = e->Success_0->Document_0@;
            doc.len() >= 2 && doc[0] == '{' && doc.last() == '}'
        }
    }
}

/// What `policyFromJson` answers: a failure on malformed JSON; a failure of
/// the policy shape on JSON the engine reads no policy from; else the
/// policy's textual form.
pub open spec fn from_json_answer(e: Envelope, policy_json: Seq<char>) -> bool {
    if json_error(policy_json) is Some {
        fails_with(e, Stage::PolicyJson, json_error(policy_json))
    } else if !accepts_policy_json(policy_json) {
        fails_with(e, Stage::PolicyShape, None)
    } else {
        e is Success && e->Success_0 is Text && {
            let text = e->Success_0->Text_0@;
            text.len() > 0 && text.last() == ';'
        }
    }
}

/// What `validateSchema` answers: the schema's failure, or the fixed text
/// that reports no findings.
pub open spec fn schema_answer(e: Envelope, schema: Seq<char>) -> bool {
    if accepts_schema(schema) {
        e is Success && e->Success_0 is Text && e->Success_0->Text_0@ == NO_FINDINGS@
    } else {
        fails_with(e, Stage::Schema, None)
    }
}

/// The version of the linked policy engine.
pub fn get_cedar_version() -> (r: String)
    ensures
        r@ == CEDAR_VERSION@,
        r@.len() > 0,
{
    proof {
        reveal_strlit("3.1.5");
    }
    String::from_str(CEDAR_VERSION)
}

/// Parses the six authorization inputs in order and, when all are accepted,
/// evaluates the request.
pub fn authorization_envelope(
    principal_str: &str,
    action_str: &str,
    resource_str: &str,
    context_str: &str,
    policies_str: &str,
    entities_str: &str,
) -> (e: Envelope)
    ensures
        authorization_answer(
            e,
            principal_str@,
            action_str@,
            resource_str@,
            context_str@,
            policies_str@,
            entities_str@,
        ),
{
    let principal = match parse_entity_uid(principal_str) {
        Ok(v) => v,
        Err(detail) => return Envelope::Failure(Stage::Principal, detail),
    };
    let action = match parse_entity_uid(action_str) {
        Ok(v) => v,
        Err(detail) => return Envelope::Failure(Stage::Action, detail),
    };
    let resource = match parse_entity_uid(resource_str) {
        Ok(v) => v,
        Err(detail) => return Envelope::Failure(Stage::Resource, detail),
    };
    let context = match parse_context(context_str) {
        Ok(v) => v,
        Err(detail) => return Envelope::Failure(Stage::Context, detail),
    };
    let policies = match parse_policy_set(policies_str) {
        Ok(v) => v,
        Err(detail) => return Envelope::Failure(Stage::Policies, detail),
    };
    let entities = match parse_entities(entities_str) {
        Ok(v) => v,
        Err(detail) => return Envelope::Failure(Stage::Entities, detail),
    };
    let request = new_request(principal, action, resource, context);
    let request = match request {
        Some(v) => v,
        None => {
            // Without a schema the engine accepts every request.
            assert(false);
            return Envelope::Failure(Stage::Principal, String::new());
        },
    };
    let evaluation = evaluate(request, policies, entities);
    let reasons = response_reasons(&evaluation);
    let errors = response_errors(&evaluation);
    let data = authorization_data(response_decision(&evaluation), &reasons, errors);
    Envelope::Success(Payload::Authorization(data))
}

/// Answers `isAuthorized` as JSON text.
pub fn is_authorized(
    principal_str: &str,
    action_str: &str,
    resource_str: &str,
    context_str: &str,
    policies_str: &str,
    entities_str: &str,
) -> (r: String)
    ensures
        exists|e: Envelope|
            #[trigger] envelope_json(e) == r@ && authorization_answer(
                e,
                principal_str@,
                action_str@,
                resource_str@,
                context_str@,
                policies_str@,
                entities_str@,
            ),
{
    let e = authorization_envelope(
        principal_str,
        action_str,
        resource_str,
        context_str,
        policies_str,
        entities_str,
    );
    e.to_json()
}

/// Parses the schema, then the policy set, and when both are accepted
/// validates the policies against the schema.
pub fn validation_envelope(schema_str: &str, policy_str: &str) -> (e: Envelope)
    ensures
        validation_answer(e, schema_str@, policy_str@),
{
    let schema = match parse_schema(schema_str) {
        Ok(v) => v,
        Err(detail) => return Envelope::Failure(Stage::ValidatorSchema, detail),
    };
    let policies = match parse_policy_set(policy_str) {
        Ok(v) => v,
        Err(detail) => return Envelope::Failure(Stage::ValidatorPolicies, detail),
    };
    Envelope::Success(Payload::Text(validation_findings(schema, &policies)))
}

/// Answers `validate` as JSON text.
pub fn validate(schema_str: &str, policy_str: &str) -> (r: String)
    ensures
        exists|e: Envelope|
            #[trigger] envelope_json(e) == r@ && validation_answer(e, schema_str@, policy_str@),
{
    validation_envelope(schema_str, policy_str).to_json()
}

/// A failure of the engine on input it had already accepted. It is no input
/// error and has no code: callers treat it as a defect.
#[derive(Clone, Debug)]
pub struct EngineFault {
    pub detail: String,
}

/// Parses a policy and gives its structured form.
pub fn policy_json_envelope(policy_str: &str) -> (r: Result<Envelope, EngineFault>)
    ensures
        r is Err <==> policy_error(policy_str@) is None && !policy_has_json(policy_str@),
        r is Ok ==> to_json_answer(r->Ok_0, policy_str@),
{
    let policy = match parse_policy(policy_str) {
        Ok(v) => v,
        Err(detail) => return Ok(Envelope::Failure(Stage::Policy, detail)),
    };
    match policy_json_text(&policy) {
        Ok(json) => Ok(Envelope::Success(Payload::Document(json))),
        Err(detail) => Err(EngineFault { detail }),
    }
}

/// Answers `policyToJson` as JSON text; a fault of the engine on a policy it
/// parsed is returned apart.
pub fn policy_to_json(policy_str: &str) -> (r: Result<String, EngineFault>)
    ensures
        r is Err <==> policy_error(policy_str@) is None && !policy_has_json(policy_str@),
        r is Ok ==> exists|e: Envelope|
            #[trigger] envelope_json(e) == r->Ok_0@ && to_json_answer(e, policy_str@),
{
    match policy_json_envelope(policy_str) {
        Ok(e) => Ok(e.to_json()),
        Err(fault) => Err(fault),
    }
}

/// Parses JSON text, reads a policy from it, and gives its textual form.
pub fn policy_text_envelope(policy_str: &str) -> (e: Envelope)
    ensures
        from_json_answer(e, policy_str@),
{
    let value = match parse_json(policy_str) {
        Ok(v) => v,
        Err(detail) => return Envelope::Failure(Stage::PolicyJson, detail),
    };
    let policy = match policy_from_value(value) {
        Ok(v) => v,
        Err(detail) => return Envelope::Failure(Stage::PolicyShape, detail),
    };
    Envelope::Success(Payload::Text(policy_text(&policy)))
}

/// Answers `policyFromJson` as JSON text.
pub fn policy_from_json(policy_str: &str) -> (r: String)
    ensures
        exists|e: Envelope| #[trigger] envelope_json(e) == r@ && from_json_answer(e, policy_str@),
{
    policy_text_envelope(policy_str).to_json()
}

/// Parses a schema; success carries the fixed text that reports no findings.
pub fn schema_envelope(schema_str: &str) -> (e: Envelope)
    ensures
        schema_answer(e, schema_str@),
{
    match parse_schema(schema_str) {
        Ok(_) => Envelope::Success(Payload::Text(String::from_str(NO_FINDINGS))),
        Err(detail) => Envelope::Failure(Stage::Schema, detail),
    }
}

/// Answers `validateSchema` as JSON text.
pub fn validate_schema(schema_str: &str) -> (r: String)
    ensures
        exists|e: Envelope| #[trigger] envelope_json(e) == r@ && schema_answer(e, schema_str@),
{
    schema_envelope(schema_str).to_json()
}

} // verus!
