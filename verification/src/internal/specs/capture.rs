//! Typed HAR records and console events as the capture endpoints receive them.
use vstd::prelude::*;

use crate::internal::specs::network::TraceContext;
use crate::internal::specs::timing::RequestTiming;
use crate::json::{as_str, get, opt_chars, text_of, Json};
use crate::prelude::{ingest_error_is, IngestError};

verus! {

/// A HAR request header.
#[derive(Debug)]
pub struct HarHeader {
    pub name: String,
    pub value: String,
}

/// Body of a HAR request.
#[derive(Debug)]
pub struct HarPostData {
    pub mime_type: Option<String>,
    pub text: Option<String>,
}

/// Body of a HAR response.
#[derive(Debug)]
pub struct HarContent {
    pub mime_type: Option<String>,
    pub text: Option<String>,
    pub encoding: Option<String>,
}

/// The request of a HAR record.
#[derive(Debug)]
pub struct HarRequest {
    pub method: Option<String>,
    pub url: Option<String>,
    pub http_version: Option<String>,
    pub headers: Vec<HarHeader>,
    pub headers_size: Option<i64>,
    pub body_size: Option<i64>,
    pub post_data: Option<HarPostData>,
}

/// The response of a HAR record.
#[derive(Debug)]
pub struct HarResponse {
    pub status: Option<i64>,
    pub status_text: Option<String>,
    pub http_version: Option<String>,
    pub headers: Vec<HarHeader>,
    pub headers_size: Option<i64>,
    pub body_size: Option<i64>,
    pub content: Option<HarContent>,
}

/// A typed HAR record: request, response, timing and trace context.
#[derive(Debug)]
pub struct HarRecord {
    pub request: HarRequest,
    pub response: HarResponse,
    pub timing: RequestTiming,
    pub trace: TraceContext,
}

/// A console event: its level, its message, its arguments and where it came from.
#[derive(Debug)]
pub struct ConsoleRecord {
    pub level: String,
    pub body: String,
    pub args: Vec<Json>,
    pub url: Option<String>,
    pub captured_at: Option<String>,
}

/// How one console argument reads in a message: a string as its text, any other
/// value as its compact JSON text.
pub open spec fn arg_text(arg: Json) -> Seq<char> {
    match arg {
        Json::String { value, .. } => value@,
        _ => text_of(arg),
    }
}

/// The console message of a list of arguments: their texts joined by single spaces.
pub open spec fn console_message(args: Seq<Json>) -> Seq<char>
    decreases args.len(),
{
    if args.len() == 0 {
        Seq::empty()
    } else if args.len() == 1 {
        arg_text(args[0])
    } else {
        console_message(args.drop_last()) + " "@ + arg_text(args.last())
    }
}

/// The console message of a list of arguments: their texts joined by single spaces.
pub fn console_body(args: &Vec<Json>) -> (body: String)
    ensures
        body@ == console_message(args@),
{
    let mut body = String::new();
    let mut i: usize = 0;
    while i < args.len()
        invariant
            0 <= i <= args@.len(),
            body@ == console_message(args@.take(i as int)),
        decreases args@.len() - i,
    {
        assert(args@.take(i + 1).drop_last() =~= args@.take(i as int));
        if i > 0 {
            body.append(" ");
        }
        match &args[i] {
            Json::String { value, .. } => body.append(value.as_str()),
            other => body.append(other.text().as_str()),
        }
        proof {
            if i == 0 {
                assert(args@.take(1) =~= seq![args@[0]]);
            }
        }
        i = i + 1;
    }
    assert(args@.take(args@.len() as int) =~= args@);
    body
}

/// The arguments of a console event: its `args` array, none otherwise.
pub open spec fn event_args(event: Json) -> Seq<Json> {
    match get(event, "args"@) {
        Some(Json::Array { items, .. }) => items@,
        _ => Seq::empty(),
    }
}

/// The level of a console event: its `level` string, `log` otherwise.
pub open spec fn event_level(event: Json) -> Seq<char> {
    match as_str(get(event, "level"@)) {
        Some(l) => l,
        None => "log"@,
    }
}

/// The arguments of a console event, taken out of it.
pub fn take_args(event: Json) -> (args: Vec<Json>)
    ensures
        args@ == event_args(event),
{
    match event.into_member("args") {
        Some(Json::Array { items, .. }) => items,
        _ => Vec::new(),
    }
}

/// The level of a console event: its `level` string, `log` otherwise.
pub fn level_of(event: &Json) -> (level: String)
    ensures
        level@ == event_level(*event),
{
    match event.get_str("level") {
        Some(l) => l,
        None => "log".to_owned(),
    }
}

impl ConsoleRecord {
    /// Reads a console event. An event without `level` is refused with
    /// `ERR-CAPTURE-001` (400).
    pub fn try_from(event: Json) -> (r: Result<ConsoleRecord, IngestError>)
        ensures
            get(event, "level"@) is None <==> r is Err,
            r matches Err(e) ==> ingest_error_is(e, "ERR-CAPTURE-001"@, 400),
            r matches Ok(c) ==> {
                &&& c.level@ == event_level(event)
                &&& c.args@ == event_args(event)
                &&& c.body@ == console_message(event_args(event))
                &&& opt_chars(c.url) == as_str(get(event, "url"@))
                &&& opt_chars(c.captured_at) == as_str(get(event, "capturedAt"@))
            },
    {
        if event.get("level").is_none() {
            return Err(IngestError::bad_request("ERR-CAPTURE-001", ""));
        }
        let level = level_of(&event);
        let url = event.get_str("url");
        let captured_at = event.get_str("capturedAt");
        let args = take_args(event);
        let body = console_body(&args);
        Ok(ConsoleRecord { level, body, args, url, captured_at })
    }
}

} // verus!
