//! Envelopes in which HAR entries arrive, and the capture metadata they carry.
use vstd::prelude::*;

use crate::json::{
    opt_chars, opt_i64_field, opt_string_field, read_opt_i64, read_opt_string, struct_field,
    struct_shape, Json,
};

pub use crate::internal::specs::network::NETWORK_REQUEST_SCHEMA;

verus! {

pub const HAR_ENTRY_SCHEMA: &'static str = "hosho.har.entry.v1";

pub const HAR_BATCH_SCHEMA: &'static str = "hosho.har.batch.v1";

/// Where and when a HAR entry was captured.
#[derive(Debug)]
pub struct HarCapture {
    pub source: Option<String>,
    pub session_id: Option<String>,
    pub page_id: Option<String>,
    pub tab_id: Option<i64>,
    pub page_url: Option<String>,
    pub extension_version: Option<String>,
    pub captured_at: Option<String>,
}

/// Whether `v` reads as capture metadata: each field absent, null or of its type.
pub open spec fn har_capture_ok(v: Json) -> bool {
    &&& struct_shape(v, 7)
    &&& opt_string_field(struct_field(v, "source"@, 0)) is Some
    &&& opt_string_field(struct_field(v, "sessionId"@, 1)) is Some
    &&& opt_string_field(struct_field(v, "pageId"@, 2)) is Some
    &&& opt_i64_field(struct_field(v, "tabId"@, 3)) is Some
    &&& opt_string_field(struct_field(v, "pageUrl"@, 4)) is Some
    &&& opt_string_field(struct_field(v, "extensionVersion"@, 5)) is Some
    &&& opt_string_field(struct_field(v, "capturedAt"@, 6)) is Some
}

/// Whether `c` holds what `v` reads as.
pub open spec fn har_capture_read(c: HarCapture, v: Json) -> bool {
    &&& opt_string_field(struct_field(v, "source"@, 0)) == Some(opt_chars(c.source))
    &&& opt_string_field(struct_field(v, "sessionId"@, 1)) == Some(opt_chars(c.session_id))
    &&& opt_string_field(struct_field(v, "pageId"@, 2)) == Some(opt_chars(c.page_id))
    &&& opt_i64_field(struct_field(v, "tabId"@, 3)) == Some(c.tab_id)
    &&& opt_string_field(struct_field(v, "pageUrl"@, 4)) == Some(opt_chars(c.page_url))
    &&& opt_string_field(struct_field(v, "extensionVersion"@, 5)) == Some(
        opt_chars(c.extension_version),
    )
    &&& opt_string_field(struct_field(v, "capturedAt"@, 6)) == Some(opt_chars(c.captured_at))
}

/// Capture metadata that knows nothing.
pub open spec fn har_capture_empty(c: HarCapture) -> bool {
    &&& c.source is None
    &&& c.session_id is None
    &&& c.page_id is None
    &&& c.tab_id is None
    &&& c.page_url is None
    &&& c.extension_version is None
    &&& c.captured_at is None
}

impl HarCapture {
    /// Capture metadata that knows nothing.
    pub fn empty() -> (c: Self)
        ensures
            har_capture_empty(c),
    {
        HarCapture {
            source: None,
            session_id: None,
            page_id: None,
            tab_id: None,
            page_url: None,
            extension_version: None,
            captured_at: None,
        }
    }

    /// A copy.
    pub fn copy(&self) -> (c: Self)
        ensures
            c == *self,
    {
        HarCapture {
            source: self.source.clone(),
            session_id: self.session_id.clone(),
            page_id: self.page_id.clone(),
            tab_id: self.tab_id,
            page_url: self.page_url.clone(),
            extension_version: self.extension_version.clone(),
            captured_at: self.captured_at.clone(),
        }
    }

    /// Reads capture metadata from an object (or a seven-item array); `None` when a
    /// field has the wrong type.
    pub fn from_json(v: &Json) -> (r: Option<Self>)
        ensures
            r is Some <==> har_capture_ok(*v),
            r matches Some(c) ==> har_capture_read(c, *v),
    {
        if !v.has_struct_shape(7) {
            return None;
        }
        let source = read_opt_string(v.struct_field("source", 0));
        let session_id = read_opt_string(v.struct_field("sessionId", 1));
        let page_id = read_opt_string(v.struct_field("pageId", 2));
        let tab_id = read_opt_i64(v.struct_field("tabId", 3));
        let page_url = read_opt_string(v.struct_field("pageUrl", 4));
        let extension_version = read_opt_string(v.struct_field("extensionVersion", 5));
        let captured_at = read_opt_string(v.struct_field("capturedAt", 6));
        match (source, session_id, page_id, tab_id, page_url, extension_version, captured_at) {
            (
                Ok(source),
                Ok(session_id),
                Ok(page_id),
                Ok(tab_id),
                Ok(page_url),
                Ok(extension_version),
                Ok(captured_at),
            ) => Some(
                HarCapture {
                    source,
                    session_id,
                    page_id,
                    tab_id,
                    page_url,
                    extension_version,
                    captured_at,
                },
            ),
            _ => None,
        }
    }
}

/// Whether the `capture` member of an envelope reads: absent, or capture metadata.
pub open spec fn envelope_capture_ok(v: Json) -> bool {
    match struct_field(v, "capture"@, 0) {
        None => true,
        Some(c) => har_capture_ok(c),
    }
}

/// Whether `c` is what the `capture` member of an envelope reads as (empty when absent).
pub open spec fn envelope_capture_read(c: HarCapture, v: Json) -> bool {
    match struct_field(v, "capture"@, 0) {
        None => har_capture_empty(c),
        Some(j) => har_capture_read(c, j),
    }
}

fn read_envelope_capture(v: &Json) -> (r: Option<HarCapture>)
    ensures
        r is Some <==> envelope_capture_ok(*v),
        r matches Some(c) ==> envelope_capture_read(c, *v),
{
    match v.struct_field("capture", 0) {
        None => Some(HarCapture::empty()),
        Some(c) => HarCapture::from_json(c),
    }
}

/// One HAR entry with its capture metadata.
#[derive(Debug)]
pub struct HarEntryEnvelope {
    pub capture: HarCapture,
    pub entry: Json,
}

/// HAR entries sharing capture metadata.
#[derive(Debug)]
pub struct HarBatchEnvelope {
    pub capture: HarCapture,
    pub entries: Vec<Json>,
}

/// Whether a payload reads as an entry envelope: an object (or a two-item array)
/// with readable `capture` and an `entry` member of any kind.
pub open spec fn entry_envelope_ok(v: Json) -> bool {
    &&& struct_shape(v, 2)
    &&& envelope_capture_ok(v)
    &&& struct_field(v, "entry"@, 1) is Some
}

/// Whether a payload reads as a batch envelope: an object (or a two-item array)
/// with readable `capture` and `entries`, absent or an array.
pub open spec fn batch_envelope_ok(v: Json) -> bool {
    &&& struct_shape(v, 2)
    &&& envelope_capture_ok(v)
    &&& match struct_field(v, "entries"@, 1) {
        None => true,
        Some(Json::Array { .. }) => true,
        Some(_) => false,
    }
}

/// The entries of a batch envelope: its `entries` array, none when absent.
pub open spec fn batch_entries(v: Json) -> Seq<Json> {
    match struct_field(v, "entries"@, 1) {
        Some(Json::Array { items, .. }) => items@,
        _ => Seq::empty(),
    }
}

impl HarEntryEnvelope {
    /// Reads an entry envelope; `None` when the payload is not one.
    pub fn from_json(payload: Json) -> (r: Option<Self>)
        ensures
            r is Some <==> entry_envelope_ok(payload),
            r matches Some(e) ==> envelope_capture_read(e.capture, payload) && struct_field(
                payload,
                "entry"@,
                1,
            ) == Some(e.entry),
    {
        if !payload.has_struct_shape(2) {
            return None;
        }
        let capture = match read_envelope_capture(&payload) {
            Some(c) => c,
            None => return None,
        };
        match payload.into_struct_field("entry", 1) {
            Some(entry) => Some(HarEntryEnvelope { capture, entry }),
            None => None,
        }
    }
}

impl HarBatchEnvelope {
    /// Reads a batch envelope; `None` when the payload is not one.
    pub fn from_json(payload: Json) -> (r: Option<Self>)
        ensures
            r is Some <==> batch_envelope_ok(payload),
            r matches Some(e) ==> envelope_capture_read(e.capture, payload) && e.entries@
                == batch_entries(payload),
    {
        if !payload.has_struct_shape(2) {
            return None;
        }
        let capture = match read_envelope_capture(&payload) {
            Some(c) => c,
            None => return None,
        };
        match payload.into_struct_field("entries", 1) {
            None => Some(HarBatchEnvelope { capture, entries: Vec::new() }),
            Some(Json::Array { items, .. }) => Some(HarBatchEnvelope { capture, entries: items }),
            Some(_) => None,
        }
    }
}

} // verus!
