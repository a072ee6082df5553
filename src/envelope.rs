//! The two envelope shapes, the stage taxonomy of failures, and the exact
//! JSON text each envelope renders to.

use vstd::prelude::*;
use vstd::string::*;

use crate::json::{json_quoted, quote};

verus! {

/// The input stage that rejected an operation's argument. Each stage carries
/// a stable numeric code and a bracketed tag.
#[derive(Clone, Copy, Debug, PartialEq, Eq, Structural)]
pub enum Stage {
    /// `isAuthorized`: the principal identifier.
    Principal,
    /// `isAuthorized`: the action identifier.
    Action,
    /// `isAuthorized`: the resource identifier.
    Resource,
    /// `isAuthorized`: the request context record.
    Context,
    /// `isAuthorized`: the policy set.
    Policies,
    /// `isAuthorized`: the entity set.
    Entities,
    /// `validate`: the schema.
    ValidatorSchema,
    /// `validate`: the policy set.
    ValidatorPolicies,
    /// `policyToJson`: the policy text.
    Policy,
    /// `policyFromJson`: the JSON syntax of the input.
    PolicyJson,
    /// `policyFromJson`: the policy shape of the JSON value.
    PolicyShape,
    /// `validateSchema`: the schema.
    Schema,
}

/// The numeric code that identifies a stage.
pub open spec fn code_of(s: Stage) -> u32 {
    match s {
        Stage::Principal => 101,
        Stage::Action => 102,
        Stage::Resource => 103,
        Stage::Context => 104,
        Stage::Policies => 105,
        Stage::Entities => 106,
        Stage::ValidatorSchema => 201,
        Stage::ValidatorPolicies => 202,
        Stage::Policy => 301,
        Stage::PolicyJson => 401,
        Stage::PolicyShape => 402,
        Stage::Schema => 501,
    }
}

/// The tag, written between brackets, that opens a stage's failure message.
pub open spec fn tag_of(s: Stage) -> Seq<char> {
    match s {
        Stage::Principal => "PrincipalErr"@,
        Stage::Action => "ActionErr"@,
        Stage::Resource => "ResourceErr"@,
        Stage::Context => "ContextErr"@,
        Stage::Policies => "PoliciesErr"@,
        Stage::Entities => "EntitiesErr"@,
        Stage::ValidatorSchema => "SchemaErr"@,
        Stage::ValidatorPolicies => "PolicyErr"@,
        Stage::Policy => "PolicyErr"@,
        Stage::PolicyJson => "PolicyJsonErr"@,
        Stage::PolicyShape => "PolicyErr"@,
        Stage::Schema => "SchemaErr"@,
    }
}

/// The failure message: the stage tag in brackets, a colon, a space, and
/// the engine's own text, unchanged.
pub open spec fn failure_message(s: Stage, detail: Seq<char>) -> Seq<char> {
    "["@ + tag_of(s) + "]: "@ + detail
}

impl Stage {
    pub fn code(&self) -> (r: u32)
        ensures
            r == code_of(*self),
    {
        match self {
            Stage::Principal => 101,
            Stage::Action => 102,
            Stage::Resource => 103,
            Stage::Context => 104,
            Stage::Policies => 105,
            Stage::Entities => 106,
            Stage::ValidatorSchema => 201,
            Stage::ValidatorPolicies => 202,
            Stage::Policy => 301,
            Stage::PolicyJson => 401,
            Stage::PolicyShape => 402,
            Stage::Schema => 501,
        }
    }

    pub fn tag(&self) -> (r: &'static str)
        ensures
            r@ == tag_of(*self),
    {
        match self {
            Stage::Principal => "PrincipalErr",
            Stage::Action => "ActionErr",
            Stage::Resource => "ResourceErr",
            Stage::Context => "ContextErr",
            Stage::Policies => "PoliciesErr",
            Stage::Entities => "EntitiesErr",
            Stage::ValidatorSchema => "SchemaErr",
            Stage::ValidatorPolicies => "PolicyErr",
            Stage::Policy => "PolicyErr",
            Stage::PolicyJson => "PolicyJsonErr",
            Stage::PolicyShape => "PolicyErr",
            Stage::Schema => "SchemaErr",
        }
    }

    /// Builds the failure message for this stage around the engine's text.
    pub fn message(&self, detail: &str) -> (r: String)
        ensures
            r@ == failure_message(*self, detail@),
    {
        let mut m = String::from_str("[");
        m.append(self.tag());
        m.append("]: ");
        m.append(detail);
        m
    }
}

} // verus!

verus! {

/// The decimal digit character for a value below ten.
pub open spec fn digit_char(d: nat) -> char {
    seq!['0', '1', '2', '3', '4', '5', '6', '7', '8', '9'][d as int]
}

/// The decimal numeral of a natural number, without leading zeros.
pub open spec fn decimal(n: nat) -> Seq<char>
    decreases n,
{
    if n < 10 {
        seq![digit_char(n)]
    } else {
        decimal(n / 10) + seq![digit_char(n % 10)]
    }
}

fn digit_text(d: u32) -> (r: &'static str)
    requires
        d < 10,
    ensures
        r@ == seq![digit_char(d as nat)],
{
    proof {
        reveal_strlit("0");
        reveal_strlit("1");
        reveal_strlit("2");
        reveal_strlit("3");
        reveal_strlit("4");
        reveal_strlit("5");
        reveal_strlit("6");
        reveal_strlit("7");
        reveal_strlit("8");
        reveal_strlit("9");
    }
    let r = if d == 0 {
        "0"
    } else if d == 1 {
        "1"
    } else if d == 2 {
        "2"
    } else if d == 3 {
        "3"
    } else if d == 4 {
        "4"
    } else if d == 5 {
        "5"
    } else if d == 6 {
        "6"
    } else if d == 7 {
        "7"
    } else if d == 8 {
        "8"
    } else {
        "9"
    };
    assert(r@ =~= seq![digit_char(d as nat)]);
    r
}

/// Writes a number in decimal.
pub fn decimal_text(n: u32) -> (r: String)
    ensures
        r@ == decimal(n as nat),
    decreases n,
{
    if n < 10 {
        String::from_str(digit_text(n))
    } else {
        let mut s = decimal_text(n / 10);
        s.append(digit_text(n % 10));
        s
    }
}

} // verus!

verus! {

/// The engine's authorization outcome.
#[derive(Clone, Copy, Debug, PartialEq, Eq, Structural)]
pub enum Decision {
    Allow,
    Deny,
}

/// The name under which a decision is reported.
pub open spec fn decision_name(d: Decision) -> Seq<char> {
    match d {
        Decision::Allow => "Allow"@,
        Decision::Deny => "Deny"@,
    }
}

impl Decision {
    pub fn name(&self) -> (r: &'static str)
        ensures
            r@ == decision_name(*self),
    {
        match self {
            Decision::Allow => "Allow",
            Decision::Deny => "Deny",
        }
    }
}

/// The texts held by a sequence of strings.
pub open spec fn texts(v: Seq<String>) -> Seq<Seq<char>> {
    v.map_values(|s: String| s@)
}

/// The payload of a successful authorization: the decision, the identifiers
/// of the policies that determined it, and the errors met while evaluating.
#[derive(Clone, Debug)]
pub struct AuthorizationData {
    pub decision: Decision,
    pub reasons: Vec<String>,
    pub errors: Vec<String>,
}

impl AuthorizationData {
    /// Reasons form a set: no identifier occurs twice.
    pub open spec fn wf(&self) -> bool {
        texts(self.reasons@).no_duplicates()
    }
}

/// What a successful operation carries.
#[derive(Clone, Debug)]
pub enum Payload {
    /// The result of an authorization.
    Authorization(AuthorizationData),
    /// A text, sent as a JSON string.
    Text(String),
    /// A JSON document, sent as it stands.
    Document(String),
}

/// The answer of every operation: exactly one of the two shapes.
#[derive(Clone, Debug)]
pub enum Envelope {
    /// Code zero, with data.
    Success(Payload),
    /// A stage's non-zero code, with its tagged message around the engine's text.
    Failure(Stage, String),
}

/// The texts joined by commas, each written as a JSON string.
pub open spec fn joined(xs: Seq<Seq<char>>) -> Seq<char>
    decreases xs.len(),
{
    if xs.len() == 0 {
        Seq::empty()
    } else if xs.len() == 1 {
        json_quoted(xs[0])
    } else {
        joined(xs.drop_last()) + ","@ + json_quoted(xs.last())
    }
}

/// A JSON array of strings.
pub open spec fn json_list(xs: Seq<Seq<char>>) -> Seq<char> {
    "["@ + joined(xs) + "]"@
}

/// The JSON text of a payload.
pub open spec fn payload_json(p: Payload) -> Seq<char> {
    match p {
        Payload::Authorization(d) => "{\"decision\":"@ + json_quoted(decision_name(d.decision))
            + ",\"reasons\":"@ + json_list(texts(d.reasons@)) + ",\"errors\":"@ + json_list(
            texts(d.errors@),
        ) + "}"@,
        Payload::Text(s) => json_quoted(s@),
        Payload::Document(s) => s@,
    }
}

/// The success shape: code zero and the data.
pub open spec fn success_json(data: Seq<char>) -> Seq<char> {
    "{\"code\":"@ + decimal(0) + ",\"data\":"@ + data + "}"@
}

/// The failure shape: the stage's code and its tagged message.
pub open spec fn failure_json(s: Stage, detail: Seq<char>) -> Seq<char> {
    "{\"code\":"@ + decimal(code_of(s) as nat) + ",\"message\":"@ + json_quoted(
        failure_message(s, detail),
    ) + "}"@
}

/// The code of an envelope: zero on success, the stage's code on failure.
pub open spec fn envelope_code(e: Envelope) -> u32 {
    match e {
        Envelope::Success(_) => 0,
        Envelope::Failure(s, _) => code_of(s),
    }
}

/// The JSON text of an envelope.
pub open spec fn envelope_json(e: Envelope) -> Seq<char> {
    match e {
        Envelope::Success(p) => success_json(payload_json(p)),
        Envelope::Failure(s, detail) => failure_json(s, detail@),
    }
}

/// Writes a JSON array of strings.
pub fn list_text(items: &Vec<String>) -> (r: String)
    ensures
        r@ == json_list(texts(items@)),
{
    let ghost xs = texts(items@);
    let mut out = String::from_str("[");
    let mut i: usize = 0;
    while i < items.len()
        invariant
            0 <= i <= items.len(),
            xs == texts(items@),
            out@ == "["@ + joined(xs.take(i as int)),
        decreases items.len() - i,
    {
        let q = quote(items[i].as_str());
        proof {
            assert(xs.take(i + 1).drop_last() =~= xs.take(i as int));
            assert(xs.take(i + 1).last() == items@[i as int]@);
        }
        if i > 0 {
            out.append(",");
        } else {
            assert(xs.take(0) =~= Seq::<Seq<char>>::empty());
        }
        out.append(q.as_str());
        proof {
            if i == 0 {
                assert(out@ =~= "["@ + joined(xs.take(1)));
            } else {
                assert(out@ =~= "["@ + joined(xs.take(i + 1)));
            }
        }
        i += 1;
    }
    out.append("]");
    assert(xs.take(items.len() as int) =~= xs);
    out
}

impl Payload {
    /// Writes the payload as JSON.
    pub fn to_json(&self) -> (r: String)
        ensures
            r@ == payload_json(*self),
    {
        match self {
            Payload::Authorization(d) => {
                let mut out = String::from_str("{\"decision\":");
                let name = quote(d.decision.name());
                out.append(name.as_str());
                out.append(",\"reasons\":");
                let reasons = list_text(&d.reasons);
                out.append(reasons.as_str());
                out.append(",\"errors\":");
                let errors = list_text(&d.errors);
                out.append(errors.as_str());
                out.append("}");
                out
            },
            Payload::Text(s) => quote(s.as_str()),
            Payload::Document(s) => s.clone(),
        }
    }
}

impl Envelope {
    /// The envelope's code.
    pub fn code(&self) -> (r: u32)
        ensures
            r == envelope_code(*self),
    {
        match self {
            Envelope::Success(_) => 0,
            Envelope::Failure(s, _) => s.code(),
        }
    }

    /// The failure message, present exactly when the code is non-zero.
    pub fn message(&self) -> (r: Option<String>)
        ensures
            match *self {
                Envelope::Success(_) => r is None,
                Envelope::Failure(s, detail) => r is Some && r->Some_0@ == failure_message(
                    s,
                    detail@,
                ),
            },
    {
        match self {
            Envelope::Success(_) => None,
            Envelope::Failure(s, detail) => Some(s.message(detail.as_str())),
        }
    }

    /// Writes the envelope as JSON.
    pub fn to_json(&self) -> (r: String)
        ensures
            r@ == envelope_json(*self),
    {
        let mut out = String::from_str("{\"code\":");
        let code = decimal_text(self.code());
        assert(decimal(envelope_code(*self) as nat) == match *self {
            Envelope::Success(_) => decimal(0),
            Envelope::Failure(s, _) => decimal(code_of(s) as nat),
        });
        out.append(code.as_str());
        match self {
            Envelope::Success(p) => {
                out.append(",\"data\":");
                let data = p.to_json();
                out.append(data.as_str());
            },
            Envelope::Failure(s, detail) => {
                out.append(",\"message\":");
                let m = s.message(detail.as_str());
                let q = quote(m.as_str());
                out.append(q.as_str());
            },
        }
        out.append("}");
        out
    }
}

} // verus!
