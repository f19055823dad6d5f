//! Envelopes in which console events arrive, the capture metadata they carry, and
//! the normalized console record.
use vstd::prelude::*;

use crate::json::{
    opt_chars, opt_i64_field, opt_string_field, read_opt_i64, read_opt_string, struct_field,
    struct_shape, Json,
};

verus! {

pub const CONSOLE_EVENT_SCHEMA: &'static str = "hosho.console.event.v1";

pub const CONSOLE_BATCH_SCHEMA: &'static str = "hosho.console.batch.v1";

/// Where console events were captured.
#[derive(Debug)]
pub struct ConsoleCapture {
    pub session_id: Option<String>,
    pub page_id: Option<String>,
    pub tab_id: Option<i64>,
    pub page_url: Option<String>,
}

/// One normalized console event.
#[derive(Debug)]
pub struct ConsoleRecord {
    pub level: String,
    pub body: String,
    pub args: Vec<Json>,
    pub url: Option<String>,
    pub tab_id: Option<i64>,
    pub captured_at: Option<String>,
    pub capture: ConsoleCapture,
}

/// Whether `v` reads as console capture metadata.
pub open spec fn console_capture_ok(v: Json) -> bool {
    &&& struct_shape(v, 4)
    &&& opt_string_field(struct_field(v, "sessionId"@, 0)) is Some
    &&& opt_string_field(struct_field(v, "pageId"@, 1)) is Some
    &&& opt_i64_field(struct_field(v, "tabId"@, 2)) is Some
    &&& opt_string_field(struct_field(v, "pageUrl"@, 3)) is Some
}

/// Whether `c` holds what `v` reads as.
pub open spec fn console_capture_read(c: ConsoleCapture, v: Json) -> bool {
    &&& opt_string_field(struct_field(v, "sessionId"@, 0)) == Some(opt_chars(c.session_id))
    &&& opt_string_field(struct_field(v, "pageId"@, 1)) == Some(opt_chars(c.page_id))
    &&& opt_i64_field(struct_field(v, "tabId"@, 2)) == Some(c.tab_id)
    &&& opt_string_field(struct_field(v, "pageUrl"@, 3)) == Some(opt_chars(c.page_url))
}

pub open spec fn console_capture_empty(c: ConsoleCapture) -> bool {
    &&& c.session_id is None
    &&& c.page_id is None
    &&& c.tab_id is None
    &&& c.page_url is None
}

impl ConsoleCapture {
    /// Capture metadata that knows nothing.
    pub fn empty() -> (c: Self)
        ensures
            console_capture_empty(c),
    {
        ConsoleCapture { session_id: None, page_id: None, tab_id: None, page_url: None }
    }

    /// A copy.
    pub fn copy(&self) -> (c: Self)
        ensures
            c == *self,
    {
        ConsoleCapture {
            session_id: self.session_id.clone(),
            page_id: self.page_id.clone(),
            tab_id: self.tab_id,
            page_url: self.page_url.clone(),
        }
    }

    /// Reads capture metadata from an object (or a four-item array); `None` when a
    /// field has the wrong type.
    pub fn from_json(v: &Json) -> (r: Option<Self>)
        ensures
            r is Some <==> console_capture_ok(*v),
            r matches Some(c) ==> console_capture_read(c, *v),
    {
        if !v.has_struct_shape(4) {
            return None;
        }
        let session_id = read_opt_string(v.struct_field("sessionId", 0));
        let page_id = read_opt_string(v.struct_field("pageId", 1));
        let tab_id = read_opt_i64(v.struct_field("tabId", 2));
        let page_url = read_opt_string(v.struct_field("pageUrl", 3));
        match (session_id, page_id, tab_id, page_url) {
            (Ok(session_id), Ok(page_id), Ok(tab_id), Ok(page_url)) => Some(
                ConsoleCapture { session_id, page_id, tab_id, page_url },
            ),
            _ => None,
        }
    }
}

/// Whether the `capture` member of a console envelope reads.
pub open spec fn console_envelope_capture_ok(v: Json) -> bool {
    match struct_field(v, "capture"@, 0) {
        None => true,
        Some(c) => console_capture_ok(c),
    }
}

/// Whether `c` is what the `capture` member of a console envelope reads as.
pub open spec fn console_envelope_capture_read(c: ConsoleCapture, v: Json) -> bool {
    match struct_field(v, "capture"@, 0) {
        None => console_capture_empty(c),
        Some(j) => console_capture_read(c, j),
    }
}

fn read_envelope_capture(v: &Json) -> (r: Option<ConsoleCapture>)
    ensures
        r is Some <==> console_envelope_capture_ok(*v),
        r matches Some(c) ==> console_envelope_capture_read(c, *v),
{
    match v.struct_field("capture", 0) {
        None => Some(ConsoleCapture::empty()),
        Some(c) => ConsoleCapture::from_json(c),
    }
}

/// One console event with its capture metadata.
#[derive(Debug)]
pub struct ConsoleEventEnvelope {
    pub capture: ConsoleCapture,
    pub event: Json,
}

/// Console events sharing capture metadata.
#[derive(Debug)]
pub struct ConsoleBatchEnvelope {
    pub capture: ConsoleCapture,
    pub events: Vec<Json>,
}

pub open spec fn event_envelope_ok(v: Json) -> bool {
    &&& struct_shape(v, 2)
    &&& console_envelope_capture_ok(v)
    &&& struct_field(v, "event"@, 1) is Some
}

pub open spec fn console_batch_ok(v: Json) -> bool {
    &&& struct_shape(v, 2)
    &&& console_envelope_capture_ok(v)
    &&& match struct_field(v, "events"@, 1) {
        None => true,
        Some(Json::Array { .. }) => true,
        Some(_) => false,
    }
}

/// The events of a batch envelope: its `events` array, none when absent.
pub open spec fn batch_events(v: Json) -> Seq<Json> {
    match struct_field(v, "events"@, 1) {
        Some(Json::Array { items, .. }) => items@,
        _ => Seq::empty(),
    }
}

impl ConsoleEventEnvelope {
    /// Reads an event envelope; `None` when the payload is not one.
    pub fn from_json(payload: Json) -> (r: Option<Self>)
        ensures
            r is Some <==> event_envelope_ok(payload),
            r matches Some(e) ==> console_envelope_capture_read(e.capture, payload) && struct_field(
                payload,
                "event"@,
                1,
            ) == Some(e.event),
    {
        if !payload.has_struct_shape(2) {
            return None;
        }
        let capture = match read_envelope_capture(&payload) {
            Some(c) => c,
            None => return None,
        };
        match payload.into_struct_field("event", 1) {
            Some(event) => Some(ConsoleEventEnvelope { capture, event }),
            None => None,
        }
    }
}

impl ConsoleBatchEnvelope {
    /// Reads a batch envelope; `None` when the payload is not one.
    pub fn from_json(payload: Json) -> (r: Option<Self>)
        ensures
            r is Some <==> console_batch_ok(payload),
            r matches Some(e) ==> console_envelope_capture_read(e.capture, payload) && e.events@
                == batch_events(payload),
    {
        if !payload.has_struct_shape(2) {
            return None;
        }
        let capture = match read_envelope_capture(&payload) {
            Some(c) => c,
            None => return None,
        };
        match payload.into_struct_field("events", 1) {
            None => Some(ConsoleBatchEnvelope { capture, events: Vec::new() }),
            Some(Json::Array { items, .. }) => Some(ConsoleBatchEnvelope { capture, events: items }),
            Some(_) => None,
        }
    }
}

impl ConsoleRecord {
    /// The record of a console event received without capture metadata: no tab id
    /// and an empty capture.
    pub fn from_captured(record: crate::internal::specs::capture::ConsoleRecord) -> (r: Self)
        ensures
            r.level == record.level,
            r.body == record.body,
            r.args == record.args,
            r.url == record.url,
            r.captured_at == record.captured_at,
            r.tab_id is None,
            console_capture_empty(r.capture),
    {
        ConsoleRecord {
            level: record.level,
            body: record.body,
            args: record.args,
            url: record.url,
            tab_id: None,
            captured_at: record.captured_at,
            capture: ConsoleCapture::empty(),
        }
    }
}

} // verus!
