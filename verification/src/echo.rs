//! The echo endpoint: a validated payload is rendered back as pretty-printed
//! JSON, byte for byte the form below, for every payload.

use crate::app_error::AppError;
use crate::json_text::json_escaped;
use vstd::prelude::*;

verus! {

/// The payload the echo endpoint accepts: it is returned unchanged, never stored.
pub struct CreateUser {
    pub email: String,
    pub password: String,
}

/// The pretty-printed JSON text of a payload: two fields, two-space indent,
/// each value escaped.
pub open spec fn pretty_user_json(email: Seq<char>, password: Seq<char>) -> Seq<char> {
    "{\n  \"email\": \""@ + json_escaped(email) + "\",\n  \"password\": \""@ + json_escaped(
        password,
    ) + "\"\n}"@
}

/// Relies on serde_json::to_string_pretty over the object
/// `{"email": <email>, "password": <password>}`: the default pretty formatter
/// indents by two spaces, separates a key from its value by ": ", and escapes
/// each string with serde_json's escape table. It always succeeds here: the
/// serializer writes into a `Vec`, which never errors, and its only error path
/// is a non-string map key, while these keys are strings.
#[verifier::external_body]
fn serialize_user_pretty(payload: &CreateUser) -> (r: Result<String, String>)
    ensures
        r is Ok,
        r matches Ok(s) ==> s@ == pretty_user_json(payload.email@, payload.password@),
{
    let mut entries = serde_json::Map::new();
    entries.insert(String::from("email"), serde_json::Value::String(payload.email.clone()));
    entries.insert(String::from("password"), serde_json::Value::String(payload.password.clone()));
    match serde_json::to_string_pretty(&serde_json::Value::Object(entries)) {
        Ok(s) => Ok(s),
        Err(e) => Err(format!("{:?}", e)),
    }
}

/// What the echo endpoint returns for each serialization outcome: the text on
/// success, an internal failure carrying the cause otherwise.
pub fn echo_outcome(serialized: Result<String, String>) -> (r: Result<String, AppError>)
    ensures
        match serialized {
            Ok(s) => r == Ok::<String, AppError>(s),
            Err(detail) => r == Err::<String, AppError>(AppError::InternalServerError(detail)),
        },
{
    match serialized {
        Ok(s) => Ok(s),
        Err(detail) => Err(AppError::server_err(detail)),
    }
}

/// The echo endpoint: the payload back as pretty-printed JSON. It succeeds on
/// every payload, and the body is exactly the pretty form of that payload.
pub fn get_handler(payload: &CreateUser) -> (r: Result<String, AppError>)
    ensures
        r matches Ok(s) && s@ == pretty_user_json(payload.email@, payload.password@),
{
    echo_outcome(serialize_user_pretty(payload))
}

/// The echo body depends on the payload's fields alone: equal payloads are
/// echoed identically, so repeated posts of one payload get one answer.
pub proof fn lemma_echo_idempotent(a: CreateUser, b: CreateUser)
    requires
        a.email@ == b.email@,
        a.password@ == b.password@,
    ensures
        pretty_user_json(a.email@, a.password@) == pretty_user_json(b.email@, b.password@),
{
}

} // verus!
