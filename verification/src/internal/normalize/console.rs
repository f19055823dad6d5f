//! Console payloads: a single event, an event envelope, or a batch envelope, each
//! read into normalized console records.
use vstd::prelude::*;

use crate::internal::error::{IngestError, IngestResult};
use crate::internal::specs::capture::{console_body, console_message, event_args, event_level, level_of, take_args};
use crate::internal::specs::console::{
    batch_events, console_batch_ok, console_capture_empty, console_envelope_capture_read,
    event_envelope_ok, ConsoleBatchEnvelope, ConsoleCapture, ConsoleEventEnvelope, ConsoleRecord,
    CONSOLE_BATCH_SCHEMA, CONSOLE_EVENT_SCHEMA,
};
use crate::json::{as_i64, as_str, get, opt_chars, struct_field, Json};
use crate::text::str_eq;

verus! {

/// The `schema` string of a payload, if it has one.
pub open spec fn schema_of(payload: Json) -> Option<Seq<char>> {
    as_str(get(payload, "schema"@))
}

/// The `schema` string of a payload, if it has one.
pub fn schema_is(payload: &Json, schema: &str) -> (r: bool)
    ensures
        r == (schema_of(*payload) == Some(schema@)),
{
    match payload.get("schema") {
        Some(j) => match j.str_value() {
            Some(s) => str_eq(s.as_str(), schema),
            None => false,
        },
        None => false,
    }
}

/// Whether `r` is the console record of `event`: its level (`log` by default),
/// its arguments and their message, its URL, its tab (that of the capture when
/// the event names none) and its capture time.
pub open spec fn console_record_read(r: ConsoleRecord, event: Json) -> bool {
    &&& r.level@ == event_level(event)
    &&& r.args@ == event_args(event)
    &&& r.body@ == console_message(event_args(event))
    &&& opt_chars(r.url) == as_str(get(event, "url"@))
    &&& r.tab_id == match as_i64(get(event, "tabId"@)) {
        Some(t) => Some(t),
        None => r.capture.tab_id,
    }
    &&& opt_chars(r.captured_at) == as_str(get(event, "capturedAt"@))
}

/// A console record reads its event literally: the level is the event's `level`
/// string, `log` when it has none; the message is the event's `args` array read
/// as a message (no arguments when `args` is not an array); the URL and capture
/// time are `url` and `capturedAt`; and the tab is `tabId` when that is an
/// integer, the capture's tab otherwise.
pub proof fn law_console_record(r: ConsoleRecord, event: Json)
    requires
        console_record_read(r, event),
    ensures
        r.level@ == match as_str(get(event, "level"@)) {
            Some(l) => l,
            None => "log"@,
        },
        r.body@ == console_message(
            match get(event, "args"@) {
                Some(Json::Array { items, .. }) => items@,
                _ => Seq::empty(),
            },
        ),
        opt_chars(r.url) == as_str(get(event, "url"@)),
        opt_chars(r.captured_at) == as_str(get(event, "capturedAt"@)),
        r.tab_id == match as_i64(get(event, "tabId"@)) {
            Some(t) => Some(t),
            None => r.capture.tab_id,
        },
{
}

/// Whether `r` is the console record of the `event` of an envelope.
pub open spec fn enveloped_record_read(r: ConsoleRecord, payload: Json) -> bool {
    match struct_field(payload, "event"@, 1) {
        Some(e) => console_record_read(r, e),
        None => false,
    }
}

/// Whether an error is `InvalidPayload` with the given message.
pub open spec fn invalid_payload(r: IngestError, message: Seq<char>) -> bool {
    r matches IngestError::InvalidPayload(m) && m@ == message
}

/// The console record of one event under the given capture metadata.
pub fn record_from_value(capture: ConsoleCapture, event: Json) -> (r: ConsoleRecord)
    ensures
        console_record_read(r, event),
        r.capture == capture,
{
    let level = level_of(&event);
    let url = event.get_str("url");
    let tab_id = match event.get_i64("tabId") {
        Some(t) => Some(t),
        None => capture.tab_id,
    };
    let captured_at = event.get_str("capturedAt");
    let args = take_args(event);
    let body = console_body(&args);
    ConsoleRecord { level, body, args, url, tab_id, captured_at, capture }
}

fn event_envelope(payload: Json) -> (r: IngestResult<Vec<ConsoleRecord>>)
    ensures
        r is Ok <==> event_envelope_ok(payload),
        r matches Ok(v) ==> v@.len() == 1 && console_envelope_capture_read(v@[0].capture, payload)
            && enveloped_record_read(v@[0], payload),
        r matches Err(e) ==> invalid_payload(e, "invalid console event envelope"@),
{
    match ConsoleEventEnvelope::from_json(payload) {
        Some(envelope) => {
            let mut records: Vec<ConsoleRecord> = Vec::new();
            records.push(record_from_value(envelope.capture, envelope.event));
            Ok(records)
        },
        None => Err(IngestError::InvalidPayload("invalid console event envelope")),
    }
}

fn batch_envelope(payload: Json) -> (r: IngestResult<Vec<ConsoleRecord>>)
    ensures
        r is Ok <==> console_batch_ok(payload),
        r matches Ok(v) ==> {
            &&& v@.len() == batch_events(payload).len()
            &&& forall|i: int|
                0 <= i < v@.len() ==> console_envelope_capture_read(#[trigger] v@[i].capture, payload)
                    && console_record_read(v@[i], batch_events(payload)[i])
        },
        r matches Err(e) ==> invalid_payload(e, "invalid console batch envelope"@),
{
    let envelope = match ConsoleBatchEnvelope::from_json(payload) {
        Some(envelope) => envelope,
        None => return Err(IngestError::InvalidPayload("invalid console batch envelope")),
    };
    let ghost events = envelope.events@;
    let capture = envelope.capture;
    let mut remaining = envelope.events;
    let mut records: Vec<ConsoleRecord> = Vec::new();
    while remaining.len() > 0
        invariant
            records@.len() + remaining@.len() == events.len(),
            remaining@ == events.skip(records@.len() as int),
            forall|i: int|
                0 <= i < records@.len() ==> #[trigger] records@[i].capture == capture
                    && console_record_read(records@[i], events[i]),
        decreases remaining@.len(),
    {
        let event = remaining.remove(0);
        assert(remaining@ =~= events.skip(records@.len() as int + 1));
        records.push(record_from_value(capture.copy(), event));
    }
    Ok(records)
}

/// The console records of a payload: an event envelope (`hosho.console.event.v1`),
/// a batch envelope (`hosho.console.batch.v1`), or a single event with a `level`.
pub fn normalize_console_payload(payload: Json) -> (r: IngestResult<Vec<ConsoleRecord>>)
    ensures
        schema_of(payload) == Some(CONSOLE_EVENT_SCHEMA@) ==> {
            &&& r is Ok <==> event_envelope_ok(payload)
            &&& r matches Ok(v) ==> v@.len() == 1 && console_envelope_capture_read(
                v@[0].capture,
                payload,
            ) && enveloped_record_read(v@[0], payload)
            &&& r matches Err(e) ==> invalid_payload(e, "invalid console event envelope"@)
        },
        schema_of(payload) == Some(CONSOLE_BATCH_SCHEMA@) ==> {
            &&& r is Ok <==> console_batch_ok(payload)
            &&& r matches Ok(v) ==> {
                &&& v@.len() == batch_events(payload).len()
                &&& forall|i: int|
                    0 <= i < v@.len() ==> console_envelope_capture_read(
                        #[trigger] v@[i].capture,
                        payload,
                    ) && console_record_read(v@[i], batch_events(payload)[i])
            }
            &&& r matches Err(e) ==> invalid_payload(e, "invalid console batch envelope"@)
        },
        schema_of(payload) != Some(CONSOLE_EVENT_SCHEMA@) && schema_of(payload) != Some(
            CONSOLE_BATCH_SCHEMA@,
        ) ==> {
            &&& r is Ok <==> get(payload, "level"@) is Some
            &&& r matches Ok(v) ==> v@.len() == 1 && console_capture_empty(v@[0].capture)
                && console_record_read(v@[0], payload)
            &&& r matches Err(e) ==> invalid_payload(e, "unsupported console payload"@)
        },
{
    proof {
        reveal_strlit("hosho.console.event.v1");
        reveal_strlit("hosho.console.batch.v1");
        assert(CONSOLE_EVENT_SCHEMA@[14] != CONSOLE_BATCH_SCHEMA@[14]);
    }
    if schema_is(&payload, CONSOLE_EVENT_SCHEMA) {
        event_envelope(payload)
    } else if schema_is(&payload, CONSOLE_BATCH_SCHEMA) {
        batch_envelope(payload)
    } else if payload.get("level").is_some() {
        let mut records: Vec<ConsoleRecord> = Vec::new();
        records.push(record_from_value(ConsoleCapture::empty(), payload));
        Ok(records)
    } else {
        Err(IngestError::InvalidPayload("unsupported console payload"))
    }
}

} // verus!
