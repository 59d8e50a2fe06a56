//! Reading the answer of the text-upload service: its body is JSON whose
//! `data.url` string is the retrieval URL of the uploaded report.

use vstd::prelude::*;

verus! {

/// The `data.url` string of a body, where the body is a JSON document whose
/// `data` object holds a string under `url`; nothing otherwise. The value
/// depends on the body alone.
pub uninterp spec fn upload_url_of(body: Seq<char>) -> Option<Seq<char>>;

/// Relies on serde_json's `from_str`, `Value::get` and `Value::as_str`:
/// parsing the body as JSON and walking to the string under `data.url` is a
/// function of the body alone, named `upload_url_of`. `from_str` answers
/// malformed input with an error, `get` answers a missing key or a non-object
/// with nothing, and `as_str` answers a non-string with nothing.
#[verifier::external_body]
fn extract_data_url(body: &str) -> (r: Option<String>)
    ensures
        r is Some <==> upload_url_of(body@) is Some,
        r is Some ==> r->0@ == upload_url_of(body@)->0,
{
    serde_json::from_str::<serde_json::Value>(body)
        .ok()
        .and_then(|v| v.get("data").and_then(|d| d.get("url")).and_then(|u| u.as_str()).map(|s| s.to_owned()))
}

/// The retrieval URL of an upload answer: the `data.url` string of the
/// service's JSON body, and nothing exactly where the body holds no such
/// string — the case the caller turns into its reporting error.
pub fn parse_upload_response(body: &str) -> (r: Option<String>)
    ensures
        r is Some <==> upload_url_of(body@) is Some,
        r is Some ==> r->0@ == upload_url_of(body@)->0,
{
    extract_data_url(body)
}

} // verus!
