//! Trusted boundary to the JSON crates: relaxed parsing through `json5`,
//! document values through `serde_json`, and schema validation through
//! `jsonschema`. Every wrapper here is believed, not verified; the logic
//! that consumes their results lives in verified code and holds for every
//! value they could return.

use vstd::prelude::*;

use crate::strutil::nesting_within;

verus! {

/// What parsing a text as relaxed JSON yields: `None` when the text parses,
/// the parser's message when it does not. The result depends on the text
/// alone; nothing further is assumed of it.
pub uninterp spec fn json5_parse_error(t: Seq<char>) -> Option<Seq<char>>;

#[verifier::external_type_specification]
#[verifier::external_body]
pub struct ExValue(serde_json::Value);

/// The fixed schema a configuration document is validated against. The
/// image/dockerfile choice is expressed as a root `oneOf` whose branches
/// overlap: a document carrying both fails only that top-level disjunction,
/// which the resolver treats as acceptance.
pub const SCHEMA_TEXT: &'static str = r#"{"$schema":"http://json-schema.org/draft-07/schema#","type":"object","properties":{"name":{"type":"string"},"image":{"type":"string"},"dockerFile":{"type":"string"},"workspaceFolder":{"type":"string"},"features":{"type":"object"},"forwardPorts":{"type":"array","items":{"anyOf":[{"type":"integer","minimum":0,"maximum":65535},{"type":"string","pattern":"^\\d{1,5}(:\\d{1,5})?$"}]}},"postCreateCommand":{"anyOf":[{"type":"string"},{"type":"array","items":{"type":"string"}},{"type":"object","additionalProperties":{"anyOf":[{"type":"string"},{"type":"array","items":{"type":"string"}}]}}]},"postAttachCommand":{"anyOf":[{"type":"string"},{"type":"array","items":{"type":"string"}},{"type":"object","additionalProperties":{"anyOf":[{"type":"string"},{"type":"array","items":{"type":"string"}}]}}]}},"oneOf":[{"required":["image"]},{"required":["dockerFile"]},{"not":{"anyOf":[{"required":["image"]},{"required":["dockerFile"]}]}}]}"#;

/// Relies on `json5::from_str`: parses relaxed JSON (comments, trailing
/// commas) into a document value, or reports the parser's message. The
/// parser recurses once per nesting level without its own depth limit, so
/// the caller must bound the text's nesting first; the bound here is what
/// [`crate::config::ConfigResolver::resolve_text`] enforces with a verified
/// pre-scan.
#[verifier::external_body]
pub(crate) fn parse_json5(text: &str) -> (r: Result<serde_json::Value, String>)
    requires
        nesting_within(text@, 128),
    ensures
        r is Ok <==> json5_parse_error(text@) is None,
        r matches Err(m) ==> Some(m@) == json5_parse_error(text@),
{
    json5::from_str::<serde_json::Value>(text).map_err(|e| e.to_string())
}

/// Relies on `serde_json::from_str`: parses strict JSON into a value.
#[verifier::external_body]
pub(crate) fn parse_json(text: &str) -> Option<serde_json::Value> {
    serde_json::from_str::<serde_json::Value>(text).ok()
}

/// Relies on `serde_json::Value::get`: the named member of an object, if
/// the value is an object and the member is present.
#[verifier::external_body]
pub(crate) fn get_field(doc: &serde_json::Value, key: &str) -> Option<serde_json::Value> {
    doc.get(key).cloned()
}

/// Relies on `serde_json::Value::as_str`: the content of a JSON string.
#[verifier::external_body]
pub(crate) fn value_as_str(v: &serde_json::Value) -> Option<String> {
    v.as_str().map(|s| s.to_string())
}

/// Relies on `serde_json::Value::as_u64`: the content of a JSON unsigned
/// integer.
#[verifier::external_body]
pub(crate) fn value_as_u64(v: &serde_json::Value) -> Option<u64> {
    v.as_u64()
}

/// Relies on `serde_json::Value::as_array`: the elements of a JSON array.
#[verifier::external_body]
pub(crate) fn value_as_array(v: &serde_json::Value) -> Option<Vec<serde_json::Value>> {
    v.as_array().cloned()
}

/// Relies on `serde_json::Value::as_object` and `Map::iter`: the entries of
/// a JSON object, in the object's key order.
#[verifier::external_body]
pub(crate) fn value_entries(v: &serde_json::Value) -> Option<Vec<(String, serde_json::Value)>> {
    v.as_object().map(|m| m.iter().map(|(k, val)| (k.clone(), val.clone())).collect())
}

/// Relies on `serde_json::Value`'s `Display`: the compact JSON text of a
/// value.
#[verifier::external_body]
pub(crate) fn value_to_json_text(v: &serde_json::Value) -> String {
    v.to_string()
}

/// One schema violation: its rendered message, whether its kind is the
/// "oneOf matched more than one branch" kind, and the schema location it
/// arose at.
pub struct SchemaViolation {
    pub message: String,
    pub one_of_multiple: bool,
    pub schema_path: String,
}

/// Relies on `jsonschema::validator_for` and `Validator::iter_errors`:
/// compiles the schema and lists every violation of `doc` against it, or
/// `None` when the schema itself does not compile.
#[verifier::external_body]
pub(crate) fn schema_violations(
    schema: &serde_json::Value,
    doc: &serde_json::Value,
) -> Option<Vec<SchemaViolation>> {
    let validator = jsonschema::validator_for(schema).ok()?;
    let list = validator.iter_errors(doc).map(|e| SchemaViolation {
        message: e.to_string(),
        one_of_multiple: matches!(e.kind(),
            jsonschema::error::ValidationErrorKind::OneOfMultipleValid { .. }),
        schema_path: e.schema_path().as_str().to_string(),
    }).collect();
    Some(list)
}

} // verus!
