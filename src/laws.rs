//! Properties of the operations, stated over the specifications their
//! contracts use.

use vstd::prelude::*;

use crate::engine::{
    accepts_entities, accepts_schema, authorization_allows, context_error, entity_uid_error,
    policy_set_error, validation_is_clean,
};
use crate::envelope::{
    code_of, envelope_code, envelope_json, failure_json, failure_message, success_json, tag_of,
    Decision, Envelope, Stage,
};
use crate::json::json_quoted;
use crate::pipeline::{
    authorization_answer, authorization_rejection, reports_evaluation, schema_answer,
    validation_answer, validation_rejection, CEDAR_VERSION,
};

verus! {

/// An envelope fails at a stage with the given code and tag; its message is
/// the tag in brackets before the engine's text, which is the given text
/// where one is given.
pub open spec fn fails_at(
    e: Envelope,
    stage: Stage,
    code: u32,
    tag: Seq<char>,
    detail: Option<Seq<char>>,
) -> bool {
    &&& e is Failure
    &&& e->Failure_0 == stage
    &&& code_of(stage) == code
    &&& tag_of(stage) == tag
    &&& envelope_json(e) == failure_json(stage, e->Failure_1@)
    &&& failure_message(stage, e->Failure_1@) == "["@ + tag + "]: "@ + e->Failure_1@
    &&& detail is Some ==> e->Failure_1@ == detail->Some_0
}

/// An envelope has exactly one shape: its code is zero exactly when it is a
/// success, and a failure always carries a non-zero code.
pub proof fn code_is_zero_exactly_on_success(e: Envelope)
    ensures
        envelope_code(e) == 0 <==> e is Success,
{
}

/// A code names one stage: no two stages share a code, so a caller can tell
/// which input failed from the code alone.
pub proof fn codes_identify_stages(s: Stage, t: Stage)
    ensures
        code_of(s) == code_of(t) <==> s == t,
{
}

/// When exactly one `isAuthorized` input is rejected, the answer is the
/// failure of that input's stage, with its own code and tag, around the
/// engine's error text where that text is named.
pub proof fn lone_rejection_is_reported(
    e: Envelope,
    principal: Seq<char>,
    action: Seq<char>,
    resource: Seq<char>,
    context: Seq<char>,
    policies: Seq<char>,
    entities: Seq<char>,
)
    requires
        authorization_answer(e, principal, action, resource, context, policies, entities),
    ensures
        entity_uid_error(principal) is Some && entity_uid_error(action) is None
            && entity_uid_error(resource) is None && context_error(context) is None
            && policy_set_error(policies) is None && accepts_entities(entities) ==> fails_at(
            e,
            Stage::Principal,
            101,
            "PrincipalErr"@,
            entity_uid_error(principal),
        ),
        entity_uid_error(principal) is None && entity_uid_error(action) is Some
            && entity_uid_error(resource) is None && context_error(context) is None
            && policy_set_error(policies) is None && accepts_entities(entities) ==> fails_at(
            e,
            Stage::Action,
            102,
            "ActionErr"@,
            entity_uid_error(action),
        ),
        entity_uid_error(principal) is None && entity_uid_error(action) is None
            && entity_uid_error(resource) is Some && context_error(context) is None
            && policy_set_error(policies) is None && accepts_entities(entities) ==> fails_at(
            e,
            Stage::Resource,
            103,
            "ResourceErr"@,
            entity_uid_error(resource),
        ),
        entity_uid_error(principal) is None && entity_uid_error(action) is None
            && entity_uid_error(resource) is None && context_error(context) is Some
            && policy_set_error(policies) is None && accepts_entities(entities) ==> fails_at(
            e,
            Stage::Context,
            104,
            "ContextErr"@,
            context_error(context),
        ),
        entity_uid_error(principal) is None && entity_uid_error(action) is None
            && entity_uid_error(resource) is None && context_error(context) is None
            && policy_set_error(policies) is Some && accepts_entities(entities) ==> fails_at(
            e,
            Stage::Policies,
            105,
            "PoliciesErr"@,
            policy_set_error(policies),
        ),
        entity_uid_error(principal) is None && entity_uid_error(action) is None
            && entity_uid_error(resource) is None && context_error(context) is None
            && policy_set_error(policies) is None && !accepts_entities(entities) ==> fails_at(
            e,
            Stage::Entities,
            106,
            "EntitiesErr"@,
            None,
        ),
{
}

/// With both the principal and the action rejected, the principal's failure
/// is reported, never the action's.
pub proof fn principal_failure_precedes_action_failure(
    e: Envelope,
    principal: Seq<char>,
    action: Seq<char>,
    resource: Seq<char>,
    context: Seq<char>,
    policies: Seq<char>,
    entities: Seq<char>,
)
    requires
        authorization_answer(e, principal, action, resource, context, policies, entities),
        entity_uid_error(principal) is Some,
        entity_uid_error(action) is Some,
    ensures
        fails_at(e, Stage::Principal, 101, "PrincipalErr"@, entity_uid_error(principal)),
{
}

/// Once an input is rejected, no later input is looked at: changing the
/// later inputs leaves the reported stage as it is.
pub proof fn later_inputs_do_not_matter(
    principal: Seq<char>,
    action: Seq<char>,
    resource: Seq<char>,
    context: Seq<char>,
    policies: Seq<char>,
    entities: Seq<char>,
    action2: Seq<char>,
    resource2: Seq<char>,
    context2: Seq<char>,
    policies2: Seq<char>,
    entities2: Seq<char>,
)
    ensures
        entity_uid_error(principal) is Some ==> authorization_rejection(
            principal,
            action,
            resource,
            context,
            policies,
            entities,
        ) == authorization_rejection(principal, action2, resource2, context2, policies2, entities2),
        entity_uid_error(action) is Some ==> authorization_rejection(
            principal,
            action,
            resource,
            context,
            policies,
            entities,
        ) == authorization_rejection(principal, action, resource2, context2, policies2, entities2),
        entity_uid_error(resource) is Some ==> authorization_rejection(
            principal,
            action,
            resource,
            context,
            policies,
            entities,
        ) == authorization_rejection(principal, action, resource, context2, policies2, entities2),
        context_error(context) is Some ==> authorization_rejection(
            principal,
            action,
            resource,
            context,
            policies,
            entities,
        ) == authorization_rejection(principal, action, resource, context, policies2, entities2),
        policy_set_error(policies) is Some ==> authorization_rejection(
            principal,
            action,
            resource,
            context,
            policies,
            entities,
        ) == authorization_rejection(principal, action, resource, context, policies, entities2),
{
}

/// With every input accepted, the answer is a success whatever the engine
/// reports: its decision, its reasons and its evaluation errors are data,
/// never a failure code.
pub proof fn evaluation_is_always_data(
    e: Envelope,
    principal: Seq<char>,
    action: Seq<char>,
    resource: Seq<char>,
    context: Seq<char>,
    policies: Seq<char>,
    entities: Seq<char>,
)
    requires
        authorization_answer(e, principal, action, resource, context, policies, entities),
        authorization_rejection(principal, action, resource, context, policies, entities) is None,
    ensures
        envelope_code(e) == 0,
        e->Success_0 is Authorization,
        reports_evaluation(
            e->Success_0->Authorization_0,
            principal,
            action,
            resource,
            context,
            policies,
            entities,
        ),
        e->Success_0->Authorization_0.decision == Decision::Allow <==> authorization_allows(
            principal,
            action,
            resource,
            context,
            policies,
            entities,
        ),
{
}

/// Validating accepted inputs always succeeds: the validator's findings are
/// the data, which read "no errors or warnings" exactly when it found
/// nothing.
pub proof fn findings_are_data(e: Envelope, schema: Seq<char>, policies: Seq<char>)
    requires
        validation_answer(e, schema, policies),
        validation_rejection(schema, policies) is None,
    ensures
        envelope_code(e) == 0,
        e->Success_0 is Text,
        envelope_json(e) == success_json(json_quoted(e->Success_0->Text_0@)),
        e->Success_0->Text_0@ == "no errors or warnings"@ <==> validation_is_clean(schema, policies),
{
}

/// A schema check of an accepted schema answers exactly the fixed text that
/// reports no findings; a rejected schema answers the schema stage's failure.
pub proof fn schema_check_outcomes(e: Envelope, schema: Seq<char>)
    requires
        schema_answer(e, schema),
    ensures
        accepts_schema(schema) ==> envelope_json(e) == success_json(
            json_quoted("no errors or warnings"@),
        ),
        !accepts_schema(schema) ==> fails_at(e, Stage::Schema, 501, "SchemaErr"@, None),
{
}

/// Every answer of the version accessor is the same non-empty text.
pub proof fn version_is_stable(first: Seq<char>, second: Seq<char>)
    requires
        first == CEDAR_VERSION@,
        second == CEDAR_VERSION@,
    ensures
        first == second,
        first.len() > 0,
{
    reveal_strlit("3.1.5");
}

} // verus!
