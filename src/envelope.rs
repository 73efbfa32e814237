use vstd::prelude::*;
use crate::error::{ApiError, ResponseParameters};

verus! {

#[verifier::external_type_specification]
#[verifier::external_body]
pub struct ExValue(serde_json::Value);

/// Whether serde_json accepts the bytes as one JSON document.
pub uninterp spec fn json_accepts(b: Seq<u8>) -> bool;

/// The boolean under `key` in the JSON object that the bytes hold.
pub uninterp spec fn json_flag(b: Seq<u8>, key: Seq<char>) -> Option<bool>;

/// The string under `key` in the JSON object that the bytes hold.
pub uninterp spec fn json_text(b: Seq<u8>, key: Seq<char>) -> Option<Seq<char>>;

/// Whether the JSON object that the bytes hold has a member under `key`
/// that is not `null`.
pub uninterp spec fn json_present(b: Seq<u8>, key: Seq<char>) -> bool;

/// The integer under `key` in the `parameters` object of the JSON object
/// that the bytes hold.
pub uninterp spec fn json_parameter(b: Seq<u8>, key: Seq<char>) -> Option<i64>;

/// Relies on `serde_json::from_slice::<Value>`, `Value::get` and
/// `Value::as_bool`: the boolean member `key` of the document; nothing where
/// the bytes are not JSON.
#[verifier::external_body]
fn flag_member(b: &[u8], key: &str) -> (r: Option<bool>)
    ensures
        r == json_flag(b@, key@),
        r is Some ==> json_accepts(b@),
{
    match serde_json::from_slice::<serde_json::Value>(b) {
        Ok(doc) => doc.get(key).and_then(serde_json::Value::as_bool),
        Err(_) => None,
    }
}

/// Relies on `serde_json::from_slice::<Value>`, `Value::get` and
/// `Value::as_str`: the string member `key` of the document, copied.
#[verifier::external_body]
fn text_member(b: &[u8], key: &str) -> (r: Option<String>)
    ensures
        r is Some <==> json_text(b@, key@) is Some,
        r is Some ==> r->Some_0@ == json_text(b@, key@)->Some_0,
{
    match serde_json::from_slice::<serde_json::Value>(b) {
        Ok(doc) => doc.get(key).and_then(serde_json::Value::as_str).map(str::to_string),
        Err(_) => None,
    }
}

/// Relies on `serde_json::from_slice::<Value>`, `Value::get` and
/// `Value::is_null`: whether the document has a member `key` that is not
/// `null`.
#[verifier::external_body]
fn has_member(b: &[u8], key: &str) -> (r: bool)
    ensures
        r == json_present(b@, key@),
{
    match serde_json::from_slice::<serde_json::Value>(b) {
        Ok(doc) => match doc.get(key) {
            Some(m) => !m.is_null(),
            None => false,
        },
        Err(_) => false,
    }
}

/// Relies on `serde_json::from_slice::<Value>` and `Value::get`: the member
/// `result` of the document, copied out; it is there wherever a member of
/// that name that is not `null` is.
#[verifier::external_body]
fn result_member(b: &[u8]) -> (r: Option<serde_json::Value>)
    ensures
        json_present(b@, "result"@) ==> r is Some,
{
    match serde_json::from_slice::<serde_json::Value>(b) {
        Ok(mut doc) => doc.get_mut("result").map(serde_json::Value::take),
        Err(_) => None,
    }
}

/// Relies on `serde_json::from_slice::<Value>`, `Value::get` and
/// `Value::as_i64`: the integer member `key` of the document's `parameters`.
#[verifier::external_body]
fn parameter_member(b: &[u8], key: &str) -> (r: Option<i64>)
    ensures
        r == json_parameter(b@, key@),
{
    match serde_json::from_slice::<serde_json::Value>(b) {
        Ok(doc) => match doc.get("parameters") {
            Some(p) => p.get(key).and_then(serde_json::Value::as_i64),
            None => None,
        },
        Err(_) => None,
    }
}

/// What a response body says.
pub enum Envelope {
    /// `ok` is true and a result is there.
    Success,
    /// `ok` is false and a description is there.
    Refused { description: Seq<char>, parameters: Option<ResponseParameters> },
    /// Not JSON, or not a response envelope.
    Malformed,
}

/// The refusal's parameters, where the body carries them.
pub open spec fn parameters_of(b: Seq<u8>) -> Option<ResponseParameters> {
    if json_present(b, "parameters"@) {
        Some(
            ResponseParameters {
                migrate_to_chat_id: json_parameter(b, "migrate_to_chat_id"@),
                retry_after: json_parameter(b, "retry_after"@),
            },
        )
    } else {
        None
    }
}

/// The envelope in a body: the boolean `ok` decides between success and
/// refusal; a success needs a result, a refusal a description.
pub open spec fn envelope_of(b: Seq<u8>) -> Envelope {
    if json_flag(b, "ok"@) == Some(true) && json_present(b, "result"@) {
        Envelope::Success
    } else if json_flag(b, "ok"@) == Some(false) && json_text(b, "description"@) is Some {
        Envelope::Refused {
            description: json_text(b, "description"@)->Some_0,
            parameters: parameters_of(b),
        }
    } else {
        Envelope::Malformed
    }
}

/// `r` is the outcome that envelope `e` calls for.
pub open spec fn yields(r: Result<serde_json::Value, ApiError>, e: Envelope) -> bool {
    match e {
        Envelope::Success => r is Ok,
        Envelope::Refused { description, parameters } => match r {
            Err(ApiError::Telegram { description: d, parameters: p }) => d@ == description && p
                == parameters,
            _ => false,
        },
        Envelope::Malformed => match r {
            Err(ApiError::Decode) => true,
            _ => false,
        },
    }
}

/// What an envelope yields, given its fields as decoded: `ok` with a result
/// is a success; not `ok` with a description is the service's refusal;
/// anything else is not an envelope.
pub open spec fn envelope_outcome(
    ok: Option<bool>,
    description: Option<String>,
    result: Option<serde_json::Value>,
    parameters: Option<ResponseParameters>,
) -> Result<serde_json::Value, ApiError> {
    if ok == Some(true) && result is Some {
        Ok(result->Some_0)
    } else if ok == Some(false) && description is Some {
        Err(ApiError::Telegram { description: description->Some_0, parameters })
    } else {
        Err(ApiError::Decode)
    }
}

/// Splits a decoded envelope into the result or the service's refusal.
pub fn envelope_from_fields(
    ok: Option<bool>,
    description: Option<String>,
    result: Option<serde_json::Value>,
    parameters: Option<ResponseParameters>,
) -> (r: Result<serde_json::Value, ApiError>)
    ensures
        r == envelope_outcome(ok, description, result, parameters),
{
    match (ok, result, description) {
        (Some(true), Some(value), _) => Ok(value),
        (Some(false), _, Some(d)) => Err(ApiError::Telegram { description: d, parameters }),
        _ => Err(ApiError::Decode),
    }
}

/// A success envelope yields its result exactly as decoded, with nothing
/// added, lost or reordered.
pub proof fn lemma_success_yields_result(
    result: serde_json::Value,
    description: Option<String>,
    parameters: Option<ResponseParameters>,
)
    ensures
        envelope_outcome(Some(true), description, Some(result), parameters) == Ok::<
            serde_json::Value,
            ApiError,
        >(result),
{
}

/// A refusal yields the service's description and parameters verbatim.
pub proof fn lemma_refusal_yields_description(
    description: String,
    result: Option<serde_json::Value>,
    parameters: Option<ResponseParameters>,
)
    ensures
        envelope_outcome(Some(false), Some(description), result, parameters) == Err::<
            serde_json::Value,
            ApiError,
        >(ApiError::Telegram { description, parameters }),
{
}

/// Decodes a complete response body: a success gives its result, a
/// refusal the service's description and parameters, and anything else,
/// text that is not JSON included, is `Decode`.
pub fn decode_envelope(body: &[u8]) -> (r: Result<serde_json::Value, ApiError>)
    ensures
        yields(r, envelope_of(body@)),
        !json_accepts(body@) ==> r == Err::<serde_json::Value, ApiError>(ApiError::Decode),
{
    let ok = flag_member(body, "ok");
    let description = text_member(body, "description");
    let result = if has_member(body, "result") {
        result_member(body)
    } else {
        None
    };
    let parameters = if has_member(body, "parameters") {
        Some(
            ResponseParameters {
                migrate_to_chat_id: parameter_member(body, "migrate_to_chat_id"),
                retry_after: parameter_member(body, "retry_after"),
            },
        )
    } else {
        None
    };
    envelope_from_fields(ok, description, result, parameters)
}

} // verus!
