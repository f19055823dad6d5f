//! The error that the ingestion endpoints answer with.
use vstd::prelude::*;

use crate::json::{json_member, json_object, json_string, lemma_member_models, member_models, model, JsonModel, JsonValue};
use crate::text::{concat};

verus! {

/// An error with a stable code, the HTTP status to answer with, and a message.
#[derive(Debug)]
pub struct IngestError {
    pub code: String,
    pub status: u16,
    pub message: String,
}

/// Whether `e` carries `code` and `status`.
pub open spec fn ingest_error_is(e: IngestError, code: Seq<char>, status: u16) -> bool {
    e.code@ == code && e.status == status
}

/// The text that `http::StatusCode` displays for a status: its number and reason.
pub uninterp spec fn http_status_text(status: u16) -> Seq<char>;

/// Calls `StatusCode::from_u16` and displays the status. Claimed: the text is the
/// value named `http_status_text` of the number; `from_u16` accepts 100 to 999.
#[verifier::external_body]
fn status_text(status: u16) -> (s: String)
    requires
        100 <= status <= 999,
    ensures
        s@ == http_status_text(status),
{
    match axum::http::StatusCode::from_u16(status) {
        Ok(code) => code.to_string(),
        Err(_) => String::new(),
    }
}

/// The response body of an error: `{"error": {"code": .., "message": ..}}`.
pub open spec fn error_body(code: Seq<char>, message: Seq<char>) -> JsonModel {
    JsonModel::Object(
        seq![
            (
                "error"@,
                JsonModel::Object(
                    seq![("code"@, JsonModel::String(code)), ("message"@, JsonModel::String(message))],
                ),
            ),
        ],
    )
}

impl IngestError {
    pub fn new(code: &str, status: u16, message: &str) -> (e: Self)
        ensures
            e.code@ == code@,
            e.status == status,
            e.message@ == message@,
    {
        IngestError { code: code.to_owned(), status, message: message.to_owned() }
    }

    /// An error answered with 400 Bad Request.
    pub fn bad_request(code: &str, message: &str) -> (e: Self)
        ensures
            e.code@ == code@,
            e.status == 400,
            e.message@ == message@,
    {
        Self::new(code, 400, message)
    }

    /// An error answered with 502 Bad Gateway.
    pub fn bad_gateway(code: &str, message: &str) -> (e: Self)
        ensures
            e.code@ == code@,
            e.status == 502,
            e.message@ == message@,
    {
        Self::new(code, 502, message)
    }

    /// `{code} with status {status}: {message}`, the status as HTTP displays it.
    pub fn describe(&self) -> (s: String)
        requires
            100 <= self.status <= 999,
        ensures
            s@ == self.code@ + " with status "@ + http_status_text(self.status) + ": "@
                + self.message@,
    {
        let mut s = concat(self.code.as_str(), " with status ");
        let status = status_text(self.status);
        s.append(status.as_str());
        s.append(": ");
        s.append(self.message.as_str());
        s
    }

    /// The status and JSON body an endpoint answers this error with.
    pub fn response_parts(&self) -> (r: (u16, JsonValue))
        ensures
            r.0 == self.status,
            model(r.1) == error_body(self.code@, self.message@),
    {
        let mut members: Vec<(String, JsonValue)> = Vec::new();
        members.push(json_member("code", json_string(self.code.as_str())));
        members.push(json_member("message", json_string(self.message.as_str())));
        proof {
            lemma_member_models(members@);
        }
        assert(member_models(members@) =~= seq![
            ("code"@, JsonModel::String(self.code@)),
            ("message"@, JsonModel::String(self.message@)),
        ]);
        let inner = json_object(members);
        let mut outer: Vec<(String, JsonValue)> = Vec::new();
        outer.push(json_member("error", inner));
        proof {
            lemma_member_models(outer@);
        }
        assert(member_models(outer@) =~= seq![("error"@, model(inner))]);
        (self.status, json_object(outer))
    }
}

} // verus!
