//! The static-file fallback rule: a first lookup of the request URI, and on a
//! "not found" one retry with the `.html`-suffixed URI, whose outcome is
//! returned as it stands. The lookups themselves are the file-serving
//! collaborator's work; this module decides what to do with each outcome.

use crate::app_error::AppError;
use crate::app_error::message_of;
use crate::app_error::normalized_status;
use crate::app_error::status_of;
use vstd::prelude::*;
use vstd::string::StringExecFns;

verus! {

/// The outcome of one static-file lookup, reduced to what the fallback rule
/// reads: the status code of the response the collaborator served, or the
/// (status, message) failure pair it reported.
pub enum LookupOutcome {
    Served(u16),
    Failed(u16, String),
}

/// What the handler does after the first lookup.
pub enum StaticStep {
    /// Hand the first lookup's response back unchanged.
    Respond,
    /// Look this `.html`-suffixed URI text — checked to be well formed — up,
    /// and answer with that outcome.
    Retry(String),
    /// Answer with a normalized failure.
    Reject(AppError),
}

/// The debug form of the parse failure for a string that is not a well-formed
/// URI, and nothing for one that is.
pub uninterp spec fn uri_parse_error(s: Seq<char>) -> Option<Seq<char>>;

/// The debug form of a string: quoted and escaped.
pub uninterp spec fn str_debug_of(s: Seq<char>) -> Seq<char>;

/// Relies on http::Uri::try_from(&str): whether a string is a well-formed URI
/// depends on its characters alone, and so does the debug form of the error
/// the parse reports.
#[verifier::external_body]
fn check_uri(s: &str) -> (r: Result<(), String>)
    ensures
        (r is Ok) == (uri_parse_error(s@) is None),
        r matches Err(d) ==> uri_parse_error(s@) == Some(d@),
{
    match http::Uri::try_from(s) {
        Ok(_) => Ok(()),
        Err(e) => Err(format!("{:?}", e)),
    }
}

/// Relies on std's Debug for str: the string quoted and escaped, a function of
/// its characters alone.
#[verifier::external_body]
fn debug_str(s: &str) -> (r: String)
    ensures
        r@ == str_debug_of(s@),
{
    format!("{:?}", s)
}

/// The failure a lookup reports when the file-serving collaborator itself
/// errs, rather than serving a response: status 500 and a fixed message frame
/// around the collaborator's own error text.
pub fn lookup_failure(err_text: &str) -> (r: LookupOutcome)
    ensures
        r matches LookupOutcome::Failed(status, msg) && status == 500 && msg@
            == "Somthing went wrong: "@ + err_text@,
{
    let mut msg = "Somthing went wrong: ".to_owned();
    msg.append(err_text);
    LookupOutcome::Failed(500, msg)
}

/// The fallback rule, applied to the first lookup of `uri_text`: a failure is
/// rejected under its own status code with its message in debug form; a served
/// response other than "not found" goes back unchanged; on a "not found" the
/// `.html`-suffixed URI is retried when it is well formed, and a malformed one
/// is rejected with status 404 and the parse failure's detail.
pub fn first_lookup_step(uri_text: &str, outcome: LookupOutcome) -> (r: StaticStep)
    ensures
        outcome matches LookupOutcome::Failed(status, msg) ==> (r matches StaticStep::Reject(
            AppError::AnyStatusError(code, detail),
        ) && code == normalized_status(status) && detail@ == str_debug_of(msg@)),
        outcome matches LookupOutcome::Served(status) && status != 404 ==> r
            == StaticStep::Respond,
        outcome matches LookupOutcome::Served(status) && status == 404 ==> match uri_parse_error(
            uri_text@ + ".html"@,
        ) {
            Option::None => (r matches StaticStep::Retry(suffixed) && suffixed@ == uri_text@
                + ".html"@),
            Option::Some(d) => (r matches StaticStep::Reject(
                AppError::AnyStatusError(code, detail),
            ) && code == 404 && detail@ == d),
        },
{
    match outcome {
        LookupOutcome::Failed(status, msg) => {
            let detail = debug_str(msg.as_str());
            StaticStep::Reject(AppError::make_err(status, detail))
        },
        LookupOutcome::Served(status) => {
            if status != 404 {
                StaticStep::Respond
            } else {
                let mut suffixed = uri_text.to_owned();
                suffixed.append(".html");
                match check_uri(suffixed.as_str()) {
                    Ok(()) => StaticStep::Retry(suffixed),
                    Err(detail) => StaticStep::Reject(AppError::make_err(404, detail)),
                }
            }
        },
    }
}

/// What the handler answers after the `.html` retry: the retried lookup's
/// response goes back as it stands — a second "not found" included — and a
/// lookup failure is rejected under its own status code with its message in
/// debug form.
pub fn second_lookup_step(outcome: LookupOutcome) -> (r: Result<(), AppError>)
    ensures
        outcome matches LookupOutcome::Served(_) ==> r == Ok::<(), AppError>(()),
        outcome matches LookupOutcome::Failed(status, msg) ==> (r matches Err(
            AppError::AnyStatusError(code, detail),
        ) && code == normalized_status(status) && detail@ == str_debug_of(msg@)),
{
    match outcome {
        LookupOutcome::Served(_) => Ok(()),
        LookupOutcome::Failed(status, msg) => {
            let detail = debug_str(msg.as_str());
            Err(AppError::make_err(status, detail))
        },
    }
}

/// The rejection for a malformed `.html` suffix — status 404 with the parse
/// failure's detail — is normalized to status 404, and the error body's
/// message is exactly that detail.
pub proof fn lemma_malformed_suffix_response(detail: String)
    ensures
        status_of(AppError::AnyStatusError(404, detail)) == 404,
        message_of(AppError::AnyStatusError(404, detail)) == detail@,
{
}

} // verus!
