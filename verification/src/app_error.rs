//! The error normalizer: every internal failure becomes exactly one
//! (HTTP status, message) pair, rendered as the JSON body `{"error": "<message>"}`.

use crate::json_text::error_body_json;
use crate::json_text::error_envelope;
use crate::json_text::lemma_json_escaped_plain;
use crate::json_text::plain_json_char;
use vstd::prelude::*;

verus! {

/// A failure detected by a handler, prior to HTTP serialization.
/// The `String` fields carry the debug-formatted cause of the failure.
#[derive(Debug)]
pub enum AppError {
    InternalServerError(String),
    AnyStatusError(u16, String),
    ValidationError,
}

/// A status code is a valid HTTP status when it lies in [100, 599].
pub open spec fn valid_status(code: u16) -> bool {
    100 <= code && code <= 599
}

/// An explicitly requested status code is kept when valid and replaced by 500 otherwise.
pub open spec fn normalized_status(code: u16) -> u16 {
    if valid_status(code) {
        code
    } else {
        500
    }
}

/// The status code the normalizer assigns to each failure.
pub open spec fn status_of(e: AppError) -> u16 {
    match e {
        AppError::InternalServerError(_) => 500,
        AppError::AnyStatusError(code, _) => normalized_status(code),
        AppError::ValidationError => 422,
    }
}

/// The message the normalizer places in the error envelope for each failure.
pub open spec fn message_of(e: AppError) -> Seq<char> {
    match e {
        AppError::InternalServerError(detail) => detail@,
        AppError::AnyStatusError(_, detail) => detail@,
        AppError::ValidationError => "validation errors"@,
    }
}

impl AppError {
    /// An unexpected internal failure; `detail` is the debug-formatted cause.
    pub fn server_err(detail: String) -> (r: AppError)
        ensures
            r == AppError::InternalServerError(detail),
    {
        AppError::InternalServerError(detail)
    }

    /// A failure with a caller-chosen status code; an invalid code falls back
    /// to 500. `detail` is the debug-formatted cause.
    pub fn make_err(code: u16, detail: String) -> (r: AppError)
        ensures
            r == AppError::AnyStatusError(normalized_status(code), detail),
    {
        let kept: u16 = if 100 <= code && code <= 599 {
            code
        } else {
            500
        };
        AppError::AnyStatusError(kept, detail)
    }

    /// The normalizer: a total, deterministic conversion of a failure into its
    /// HTTP status code and its JSON error body.
    pub fn into_response(self) -> (r: (u16, String))
        ensures
            r.0 == status_of(self),
            r.1@ == error_envelope(message_of(self)),
    {
        match self {
            AppError::InternalServerError(detail) => (500, error_body_json(detail.as_str())),
            AppError::AnyStatusError(code, detail) => {
                let kept: u16 = if 100 <= code && code <= 599 {
                    code
                } else {
                    500
                };
                (kept, error_body_json(detail.as_str()))
            },
            AppError::ValidationError => (422, error_body_json("validation errors")),
        }
    }
}

/// A validation failure is always reported with status 422 and the literal
/// body `{"error": "validation errors"}`.
pub proof fn lemma_validation_response()
    ensures
        status_of(AppError::ValidationError) == 422,
        error_envelope(message_of(AppError::ValidationError)) == "{\"error\":\"validation errors\"}"@,
{
    reveal_strlit("validation errors");
    reveal_strlit("{\"error\":\"");
    reveal_strlit("\"}");
    reveal_strlit("{\"error\":\"validation errors\"}");
    let m = "validation errors"@;
    assert(forall|i: int| 0 <= i < m.len() ==> plain_json_char(m[i]));
    lemma_json_escaped_plain(m);
    assert(error_envelope(m) =~= "{\"error\":\"validation errors\"}"@);
}

/// Whatever the failure, the normalizer's status code is itself a valid HTTP status.
pub proof fn lemma_status_always_valid(e: AppError)
    ensures
        valid_status(status_of(e)),
{
}

/// A coded failure with a valid status code keeps exactly that code.
pub proof fn lemma_coded_valid_status(code: u16, detail: String)
    requires
        valid_status(code),
    ensures
        status_of(AppError::AnyStatusError(code, detail)) == code,
{
}

/// A coded failure with an out-of-range status code is reported as 500.
pub proof fn lemma_coded_invalid_status(code: u16, detail: String)
    requires
        !valid_status(code),
    ensures
        status_of(AppError::AnyStatusError(code, detail)) == 500,
{
}

} // verus!
