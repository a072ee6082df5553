//! A panic-free boundary around the Cedar policy engine: every operation
//! parses its textual inputs in a fixed order, stops at the first input the
//! engine rejects, and answers with a JSON envelope whose shape is proved.

pub mod envelope;
pub mod json;
pub mod diagnostics;
pub mod engine;
pub mod pipeline;
pub mod laws;

pub use envelope::{Stage, Decision, AuthorizationData, Payload, Envelope, decimal_text, list_text};
pub use diagnostics::{distinct_reasons, authorization_data};
pub use pipeline::{
    CEDAR_VERSION, NO_FINDINGS, EngineFault, get_cedar_version, is_authorized, validate,
    policy_to_json, policy_from_json, validate_schema, authorization_envelope,
    validation_envelope, policy_json_envelope, policy_text_envelope, schema_envelope,
};
