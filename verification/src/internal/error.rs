//! Errors of payload normalization and export.
use vstd::prelude::*;

use crate::json::{json_member, json_object, json_string, lemma_member_models, member_models, model, JsonModel, JsonValue};

verus! {

/// Why a payload could not be ingested.
#[derive(Debug)]
pub enum IngestError {
    /// The payload has no form the ingestor knows; the text says which.
    InvalidPayload(&'static str),
    /// The collector did not take the telemetry.
    Export(String),
}

pub type IngestResult<T> = Result<T, IngestError>;

/// The status and message an error is answered with.
pub open spec fn error_status(e: IngestError) -> (u16, Seq<char>) {
    match e {
        IngestError::InvalidPayload(m) => (400, m@),
        IngestError::Export(m) => (502, m@),
    }
}

impl IngestError {
    /// The status and JSON body an endpoint answers this error with:
    /// 400 for an invalid payload, 502 for a failed export, and
    /// `{"status": "error", "message": ..}`.
    pub fn response_parts(&self) -> (r: (u16, JsonValue))
        ensures
            r.0 == error_status(*self).0,
            model(r.1) == JsonModel::Object(
                seq![
                    ("status"@, JsonModel::String("error"@)),
                    ("message"@, JsonModel::String(error_status(*self).1)),
                ],
            ),
    {
        let (status, message) = match self {
            IngestError::InvalidPayload(message) => (400u16, json_string(message)),
            IngestError::Export(message) => (502u16, json_string(message.as_str())),
        };
        let mut members: Vec<(String, JsonValue)> = Vec::new();
        members.push(json_member("status", json_string("error")));
        members.push(json_member("message", message));
        proof {
            lemma_member_models(members@);
        }
        let body = json_object(members);
        assert(member_models(members@) =~= seq![
            ("status"@, JsonModel::String("error"@)),
            ("message"@, JsonModel::String(error_status(*self).1)),
        ]);
        (status, body)
    }
}

} // verus!
