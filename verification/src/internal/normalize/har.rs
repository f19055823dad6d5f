//! HAR payloads: an entry envelope, a batch envelope, a bare HAR entry, or a HAR
//! log, each read into normalized network request records.
use vstd::prelude::*;

use crate::internal::error::{IngestError, IngestResult};
use crate::internal::normalize::console::{invalid_payload, schema_is, schema_of};
use crate::internal::normalize::headers::{har_headers, har_headers_of};
use crate::internal::normalize::identity::{dedupe_key, identity_for_entry, text_hash};
use crate::internal::normalize::initiator::{browser_context, browser_read};
use crate::internal::normalize::url::{sanitize_url, sanitized_of, url_parts_of};
use crate::internal::specs::har::{
    batch_entries, batch_envelope_ok, entry_envelope_ok, envelope_capture_read, har_capture_empty,
    HarBatchEnvelope, HarCapture, HarEntryEnvelope, HAR_BATCH_SCHEMA, HAR_ENTRY_SCHEMA,
    NETWORK_REQUEST_SCHEMA,
};
use crate::internal::specs::network::{
    method_or_other, non_negative, non_negative_i64, url_or_empty, HttpRequestSpec,
    HttpResponseSpec, NetworkRequest, TraceContext,
};
use crate::internal::specs::timing::RequestTiming;
use crate::json::{as_array, as_bool, as_i64, as_str, get, opt_chars, opt_get, struct_field, text_of, Json};

verus! {

/// The `entries` of a HAR log (JSON pointer `/log/entries`).
pub open spec fn log_entries(payload: Json) -> Option<Json> {
    opt_get(get(payload, "log"@), "entries"@)
}

/// Whether a payload has the members of a bare HAR entry.
pub open spec fn har_entry_like(payload: Json) -> bool {
    &&& get(payload, "request"@) is Some
    &&& get(payload, "response"@) is Some
    &&& get(payload, "startedDateTime"@) is Some
}

/// Whether `v` pairs each entry with empty capture metadata.
pub open spec fn bare_entries(v: Seq<(HarCapture, Json)>, entries: Seq<Json>) -> bool {
    &&& v.len() == entries.len()
    &&& forall|i: int|
        0 <= i < v.len() ==> har_capture_empty(#[trigger] v[i].0) && v[i].1 == entries[i]
}

/// Whether `r` is what extracting entries from a payload yields.
pub open spec fn extracted(payload: Json, r: IngestResult<Vec<(HarCapture, Json)>>) -> bool {
    if schema_of(payload) == Some(HAR_ENTRY_SCHEMA@) {
        &&& r is Ok <==> entry_envelope_ok(payload)
        &&& r matches Ok(v) ==> v@.len() == 1 && envelope_capture_read(v@[0].0, payload)
            && struct_field(payload, "entry"@, 1) == Some(v@[0].1)
        &&& r matches Err(e) ==> invalid_payload(e, "invalid HAR entry envelope"@)
    } else if schema_of(payload) == Some(HAR_BATCH_SCHEMA@) {
        &&& r is Ok <==> batch_envelope_ok(payload)
        &&& r matches Ok(v) ==> {
            &&& v@.len() == batch_entries(payload).len()
            &&& forall|i: int|
                0 <= i < v@.len() ==> envelope_capture_read(#[trigger] v@[i].0, payload)
                    && v@[i].1 == batch_entries(payload)[i]
        }
        &&& r matches Err(e) ==> invalid_payload(e, "invalid HAR batch envelope"@)
    } else if har_entry_like(payload) {
        r matches Ok(v) && bare_entries(v@, seq![payload])
    } else if log_entries(payload) is Some {
        match as_array(log_entries(payload)) {
            Some(items) => r matches Ok(v) && bare_entries(v@, items),
            None => r matches Err(e) && invalid_payload(e, "invalid HAR log"@),
        }
    } else {
        r matches Err(e) && invalid_payload(e, "unsupported HAR payload"@)
    }
}

/// Pairs each entry with empty capture metadata.
fn with_empty_capture(entries: Vec<Json>) -> (r: Vec<(HarCapture, Json)>)
    ensures
        bare_entries(r@, entries@),
{
    let ghost all = entries@;
    let mut remaining = entries;
    let mut r: Vec<(HarCapture, Json)> = Vec::new();
    while remaining.len() > 0
        invariant
            r@.len() + remaining@.len() == all.len(),
            remaining@ == all.skip(r@.len() as int),
            forall|i: int|
                0 <= i < r@.len() ==> har_capture_empty(#[trigger] r@[i].0) && r@[i].1 == all[i],
        decreases remaining@.len(),
    {
        let entry = remaining.remove(0);
        assert(remaining@ =~= all.skip(r@.len() as int + 1));
        r.push((HarCapture::empty(), entry));
    }
    r
}

fn entry_envelope(payload: Json) -> (r: IngestResult<Vec<(HarCapture, Json)>>)
    ensures
        r is Ok <==> entry_envelope_ok(payload),
        r matches Ok(v) ==> v@.len() == 1 && envelope_capture_read(v@[0].0, payload) && struct_field(
            payload,
            "entry"@,
            1,
        ) == Some(v@[0].1),
        r matches Err(e) ==> invalid_payload(e, "invalid HAR entry envelope"@),
{
    match HarEntryEnvelope::from_json(payload) {
        Some(envelope) => {
            let mut v: Vec<(HarCapture, Json)> = Vec::new();
            v.push((envelope.capture, envelope.entry));
            Ok(v)
        },
        None => Err(IngestError::InvalidPayload("invalid HAR entry envelope")),
    }
}

fn batch_envelope(payload: Json) -> (r: IngestResult<Vec<(HarCapture, Json)>>)
    ensures
        r is Ok <==> batch_envelope_ok(payload),
        r matches Ok(v) ==> {
            &&& v@.len() == batch_entries(payload).len()
            &&& forall|i: int|
                0 <= i < v@.len() ==> envelope_capture_read(#[trigger] v@[i].0, payload)
                    && v@[i].1 == batch_entries(payload)[i]
        },
        r matches Err(e) ==> invalid_payload(e, "invalid HAR batch envelope"@),
{
    let envelope = match HarBatchEnvelope::from_json(payload) {
        Some(envelope) => envelope,
        None => return Err(IngestError::InvalidPayload("invalid HAR batch envelope")),
    };
    let ghost all = envelope.entries@;
    let capture = envelope.capture;
    let mut remaining = envelope.entries;
    let mut r: Vec<(HarCapture, Json)> = Vec::new();
    while remaining.len() > 0
        invariant
            r@.len() + remaining@.len() == all.len(),
            remaining@ == all.skip(r@.len() as int),
            forall|i: int| 0 <= i < r@.len() ==> #[trigger] r@[i].0 == capture && r@[i].1 == all[i],
        decreases remaining@.len(),
    {
        let entry = remaining.remove(0);
        assert(remaining@ =~= all.skip(r@.len() as int + 1));
        r.push((capture.copy(), entry));
    }
    Ok(r)
}

fn har_log(payload: Json) -> (r: IngestResult<Vec<(HarCapture, Json)>>)
    ensures
        match as_array(log_entries(payload)) {
            Some(items) => r matches Ok(v) && bare_entries(v@, items),
            None => r matches Err(e) && invalid_payload(e, "invalid HAR log"@),
        },
{
    let entries = match payload.into_member("log") {
        Some(log) => log.into_member("entries"),
        None => None,
    };
    match entries {
        Some(Json::Array { items, .. }) => Ok(with_empty_capture(items)),
        _ => Err(IngestError::InvalidPayload("invalid HAR log")),
    }
}

/// Which entries a payload that is no envelope (its `schema` is neither
/// `hosho.har.entry.v1` nor `hosho.har.batch.v1`) yields, each without capture
/// metadata: the payload itself when it has `request`, `response` and
/// `startedDateTime`; else the items of `log.entries` when that is an array; else
/// it is refused, as an invalid HAR log when `log.entries` is there but no array,
/// and as an unsupported HAR payload when it is not there.
pub proof fn law_bare_payloads(payload: Json, r: IngestResult<Vec<(HarCapture, Json)>>)
    requires
        extracted(payload, r),
        as_str(get(payload, "schema"@)) != Some("hosho.har.entry.v1"@),
        as_str(get(payload, "schema"@)) != Some("hosho.har.batch.v1"@),
    ensures
        ({
            let entry_like = get(payload, "request"@) is Some && get(payload, "response"@) is Some
                && get(payload, "startedDateTime"@) is Some;
            let entries = opt_get(get(payload, "log"@), "entries"@);
            &&& entry_like ==> (r matches Ok(v) && v@.len() == 1 && v@[0].1 == payload
                && har_capture_empty(v@[0].0))
            &&& !entry_like ==> match entries {
                Some(Json::Array { items, .. }) => r matches Ok(v) && v@.len() == items@.len()
                    && forall|i: int|
                    0 <= i < v@.len() ==> #[trigger] v@[i].1 == items@[i] && har_capture_empty(
                        v@[i].0,
                    ),
                Some(_) => r matches Err(e) && e matches IngestError::InvalidPayload(m) && m@
                    == "invalid HAR log"@,
                None => r matches Err(e) && e matches IngestError::InvalidPayload(m) && m@
                    == "unsupported HAR payload"@,
            }
        }),
{
    assert(schema_of(payload) != Some(HAR_ENTRY_SCHEMA@));
    assert(schema_of(payload) != Some(HAR_BATCH_SCHEMA@));
    if har_entry_like(payload) {
        let v = r->Ok_0;
        assert(bare_entries(v@, seq![payload]));
        assert(har_capture_empty(v@[0].0) && v@[0].1 == seq![payload][0]);
    } else if log_entries(payload) is Some {
        if let Some(items) = as_array(log_entries(payload)) {
            let v = r->Ok_0;
            assert(bare_entries(v@, items));
            assert forall|i: int| 0 <= i < v@.len() implies #[trigger] v@[i].1 == items[i]
                && har_capture_empty(v@[i].0) by {
                assert(har_capture_empty(v@[i].0) && v@[i].1 == items[i]);
            }
        }
    }
}

/// Whether a payload has the members of a bare HAR entry.
pub fn looks_like_har_entry(payload: &Json) -> (r: bool)
    ensures
        r == har_entry_like(*payload),
{
    payload.get("request").is_some() && payload.get("response").is_some() && payload.get(
        "startedDateTime",
    ).is_some()
}

/// The HAR entries of a payload, each with the capture metadata it came with.
pub fn extract_entries(payload: Json) -> (r: IngestResult<Vec<(HarCapture, Json)>>)
    ensures
        extracted(payload, r),
{
    proof {
        reveal_strlit("hosho.har.entry.v1");
        reveal_strlit("hosho.har.batch.v1");
        assert(HAR_ENTRY_SCHEMA@[10] != HAR_BATCH_SCHEMA@[10]);
    }
    if schema_is(&payload, HAR_ENTRY_SCHEMA) {
        entry_envelope(payload)
    } else if schema_is(&payload, HAR_BATCH_SCHEMA) {
        batch_envelope(payload)
    } else if looks_like_har_entry(&payload) {
        let ghost p = payload;
        let mut v: Vec<Json> = Vec::new();
        v.push(payload);
        let r = with_empty_capture(v);
        assert(v@ =~= seq![p]);
        Ok(r)
    } else {
        let has_log = match payload.get("log") {
            Some(log) => log.get("entries").is_some(),
            None => false,
        };
        if has_log {
            har_log(payload)
        } else {
            Err(IngestError::InvalidPayload("unsupported HAR payload"))
        }
    }
}

/// Whether `r` is the request half that a HAR entry's `request` member reads as.
pub open spec fn request_read(r: HttpRequestSpec, request: Json) -> bool {
    let url = url_or_empty(as_str(get(request, "url"@)));
    let parts = url_parts_of(url);
    &&& r.method@ == method_or_other(as_str(get(request, "method"@)))
    &&& r.url@ == url
    &&& opt_chars(r.url_sanitized) == Some(sanitized_of(url))
    &&& opt_chars(r.scheme) == parts.0
    &&& opt_chars(r.host) == parts.1
    &&& r.port == parts.2
    &&& opt_chars(r.http_version) == as_str(get(request, "httpVersion"@))
    &&& r.headers@ == har_headers_of(get(request, "headers"@))
    &&& r.headers_size == non_negative(as_i64(get(request, "headersSize"@)))
    &&& r.body_size == non_negative(as_i64(get(request, "bodySize"@)))
}

/// Whether `r` is the response half that a HAR entry's `response` member reads as
/// (every part absent when there is none).
pub open spec fn response_read(r: HttpResponseSpec, response: Option<Json>) -> bool {
    &&& r.status == non_negative(as_i64(opt_get(response, "status"@)))
    &&& opt_chars(r.status_text) == as_str(opt_get(response, "statusText"@))
    &&& opt_chars(r.http_version) == as_str(opt_get(response, "httpVersion"@))
    &&& opt_chars(r.mime_type) == as_str(opt_get(opt_get(response, "content"@), "mimeType"@))
    &&& r.headers@ == har_headers_of(opt_get(response, "headers"@))
    &&& r.headers_size == non_negative(as_i64(opt_get(response, "headersSize"@)))
    &&& r.body_size == non_negative(as_i64(opt_get(response, "bodySize"@)))
    &&& r.from_cache == (as_bool(opt_get(response, "_fromDiskCache"@)) == Some(true) || as_bool(
        opt_get(response, "_fromMemoryCache"@),
    ) == Some(true))
}

fn member_of<'a>(o: Option<&'a Json>, key: &str) -> (r: Option<&'a Json>)
    ensures
        match r {
            Some(x) => opt_get(
                match o {
                    Some(j) => Some(*j),
                    None => None,
                },
                key@,
            ) == Some(*x),
            None => opt_get(
                match o {
                    Some(j) => Some(*j),
                    None => None,
                },
                key@,
            ) is None,
        },
{
    match o {
        Some(j) => j.get(key),
        None => None,
    }
}

/// The request half of a HAR entry; an entry without `request` is refused.
pub fn request_spec(entry: &Json) -> (r: IngestResult<HttpRequestSpec>)
    ensures
        match get(*entry, "request"@) {
            Some(request) => r matches Ok(spec) && request_read(spec, request),
            None => r matches Err(e) && invalid_payload(e, "HAR entry missing request"@),
        },
{
    let request = match entry.get("request") {
        Some(request) => request,
        None => return Err(IngestError::InvalidPayload("HAR entry missing request")),
    };
    let url = match request.get_str("url") {
        Some(u) => u,
        None => String::new(),
    };
    let parts = sanitize_url(url.as_str());
    let method = match request.get_str("method") {
        Some(m) => m,
        None => "_OTHER".to_owned(),
    };
    Ok(
        HttpRequestSpec {
            method,
            url,
            url_sanitized: Some(parts.sanitized),
            scheme: parts.scheme,
            host: parts.host,
            port: parts.port,
            http_version: request.get_str("httpVersion"),
            headers: har_headers(request.get("headers")),
            headers_size: non_negative_i64(request.get_i64("headersSize")),
            body_size: non_negative_i64(request.get_i64("bodySize")),
        },
    )
}

fn str_of(o: Option<&Json>) -> (r: Option<String>)
    ensures
        opt_chars(r) == as_str(
            match o {
                Some(j) => Some(*j),
                None => None,
            },
        ),
{
    match o {
        Some(Json::String { value, .. }) => Some(value.clone()),
        _ => None,
    }
}

fn i64_of(o: Option<&Json>) -> (r: Option<i64>)
    ensures
        r == as_i64(
            match o {
                Some(j) => Some(*j),
                None => None,
            },
        ),
{
    match o {
        Some(Json::Number { number, .. }) => number.as_i64(),
        _ => None,
    }
}

fn flag_of(o: Option<&Json>) -> (r: bool)
    ensures
        r == (as_bool(
            match o {
                Some(j) => Some(*j),
                None => None,
            },
        ) == Some(true)),
{
    match o {
        Some(Json::Bool { flag, .. }) => *flag,
        _ => false,
    }
}

/// The response half of a HAR entry.
pub fn response_spec(entry: &Json) -> (r: HttpResponseSpec)
    ensures
        response_read(r, get(*entry, "response"@)),
{
    let response = entry.get("response");
    HttpResponseSpec {
        status: non_negative_i64(i64_of(member_of(response, "status"))),
        status_text: str_of(member_of(response, "statusText")),
        http_version: str_of(member_of(response, "httpVersion")),
        mime_type: str_of(member_of(member_of(response, "content"), "mimeType")),
        headers: har_headers(member_of(response, "headers")),
        headers_size: non_negative_i64(i64_of(member_of(response, "headersSize"))),
        body_size: non_negative_i64(i64_of(member_of(response, "bodySize"))),
        from_cache: flag_of(member_of(response, "_fromDiskCache")) || flag_of(
            member_of(response, "_fromMemoryCache"),
        ),
    }
}

/// Whether `r` is the normalized record of a HAR entry captured under `capture`
/// with the given timing.
pub open spec fn entry_normalized(
    r: NetworkRequest,
    capture: HarCapture,
    entry: Json,
    timing: RequestTiming,
) -> bool {
    &&& r.schema@ == NETWORK_REQUEST_SCHEMA@
    &&& r.capture == capture
    &&& get(entry, "request"@) matches Some(request) && request_read(r.request, request)
    &&& response_read(r.response, get(entry, "response"@))
    &&& opt_chars(r.identity.request_id) == as_str(get(entry, "_requestId"@))
    &&& r.identity.entry_hash@ == text_hash("hosho.har.entry.v1"@, text_of(entry))
    &&& r.identity.dedupe_key@ == dedupe_key(
        r.identity.entry_hash@,
        r.request.method@,
        r.request.url@,
    )
    &&& r.timing == timing
    &&& r.trace.traceparent is None
    &&& r.trace.trigger is None
    &&& browser_read(r.browser, entry)
}

/// The sizes and status of a normalized record are the entry's own: the response
/// body size is the entry's `response.bodySize`, its headers size
/// `response.headersSize` and its status `response.status`, and the request body
/// and headers sizes are `request.bodySize` and `request.headersSize`; each one is
/// present exactly when that member is a non-negative integer.
pub proof fn law_entry_sizes(
    r: NetworkRequest,
    capture: HarCapture,
    entry: Json,
    timing: RequestTiming,
)
    requires
        entry_normalized(r, capture, entry, timing),
    ensures
        ({
            let response = get(entry, "response"@);
            let request = get(entry, "request"@)->Some_0;
            &&& r.response.body_size == match as_i64(opt_get(response, "bodySize"@)) {
                Some(n) => if n >= 0 {
                    Some(n)
                } else {
                    None
                },
                None => None,
            }
            &&& r.response.headers_size == match as_i64(opt_get(response, "headersSize"@)) {
                Some(n) => if n >= 0 {
                    Some(n)
                } else {
                    None
                },
                None => None,
            }
            &&& r.response.status == match as_i64(opt_get(response, "status"@)) {
                Some(n) => if n >= 0 {
                    Some(n)
                } else {
                    None
                },
                None => None,
            }
            &&& r.request.body_size == match as_i64(get(request, "bodySize"@)) {
                Some(n) => if n >= 0 {
                    Some(n)
                } else {
                    None
                },
                None => None,
            }
            &&& r.request.headers_size == match as_i64(get(request, "headersSize"@)) {
                Some(n) => if n >= 0 {
                    Some(n)
                } else {
                    None
                },
                None => None,
            }
        }),
{
}

/// The other parts of a normalized record are the entry's own too: the request's
/// method is `request.method` (`_OTHER` when absent), its URL is `request.url`
/// (empty when absent) and its HTTP version
/// `request.httpVersion`; the response's status text, HTTP version and MIME type
/// are `response.statusText`, `response.httpVersion` and
/// `response.content.mimeType`; it came from a cache exactly when
/// `response._fromDiskCache` or `response._fromMemoryCache` is `true`; and the
/// request id is `_requestId`.
pub proof fn law_entry_fields(
    r: NetworkRequest,
    capture: HarCapture,
    entry: Json,
    timing: RequestTiming,
)
    requires
        entry_normalized(r, capture, entry, timing),
    ensures
        ({
            let response = get(entry, "response"@);
            let request = get(entry, "request"@)->Some_0;
            &&& r.request.method@ == match as_str(get(request, "method"@)) {
                Some(m) => m,
                None => "_OTHER"@,
            }
            &&& r.request.url@ == match as_str(get(request, "url"@)) {
                Some(u) => u,
                None => Seq::empty(),
            }
            &&& opt_chars(r.request.http_version) == as_str(get(request, "httpVersion"@))
            &&& opt_chars(r.response.status_text) == as_str(opt_get(response, "statusText"@))
            &&& opt_chars(r.response.http_version) == as_str(opt_get(response, "httpVersion"@))
            &&& opt_chars(r.response.mime_type) == as_str(
                opt_get(opt_get(response, "content"@), "mimeType"@),
            )
            &&& r.response.from_cache == (as_bool(opt_get(response, "_fromDiskCache"@)) == Some(
                true,
            ) || as_bool(opt_get(response, "_fromMemoryCache"@)) == Some(true))
            &&& opt_chars(r.identity.request_id) == as_str(get(entry, "_requestId"@))
            &&& r.capture == capture
            &&& r.timing == timing
        }),
{
}

/// The normalized record of one HAR entry. `timing` is the entry's timing as the
/// host read it; an entry without `request` is refused.
pub fn normalize_entry(capture: HarCapture, entry: &Json, timing: RequestTiming) -> (r: IngestResult<
    NetworkRequest,
>)
    ensures
        get(*entry, "request"@) is Some <==> r is Ok,
        r matches Ok(n) ==> entry_normalized(n, capture, *entry, timing),
        r matches Err(e) ==> invalid_payload(e, "HAR entry missing request"@),
{
    let request = match request_spec(entry) {
        Ok(request) => request,
        Err(e) => return Err(e),
    };
    let response = response_spec(entry);
    let identity = identity_for_entry(entry, &request);
    Ok(
        NetworkRequest {
            schema: NETWORK_REQUEST_SCHEMA.to_owned(),
            capture,
            identity,
            request,
            response,
            timing,
            trace: TraceContext::empty(),
            browser: browser_context(entry),
        },
    )
}

/// The normalized records of HAR entries, each with its capture metadata and
/// timing; refused as a whole when one entry has no `request`.
pub fn normalize_entries(entries: Vec<(HarCapture, Json, RequestTiming)>) -> (r: IngestResult<
    Vec<NetworkRequest>,
>)
    ensures
        r is Ok <==> forall|i: int|
            0 <= i < entries@.len() ==> get(#[trigger] entries@[i].1, "request"@) is Some,
        r matches Ok(v) ==> {
            &&& v@.len() == entries@.len()
            &&& forall|i: int|
                0 <= i < v@.len() ==> entry_normalized(
                    #[trigger] v@[i],
                    entries@[i].0,
                    entries@[i].1,
                    entries@[i].2,
                )
        },
        r matches Err(e) ==> invalid_payload(e, "HAR entry missing request"@),
{
    let ghost all = entries@;
    let mut remaining = entries;
    let mut records: Vec<NetworkRequest> = Vec::new();
    while remaining.len() > 0
        invariant
            all == entries@,
            records@.len() + remaining@.len() == all.len(),
            remaining@ == all.skip(records@.len() as int),
            forall|i: int| 0 <= i < records@.len() ==> get(#[trigger] all[i].1, "request"@) is Some,
            forall|i: int|
                0 <= i < records@.len() ==> entry_normalized(
                    #[trigger] records@[i],
                    all[i].0,
                    all[i].1,
                    all[i].2,
                ),
        decreases remaining@.len(),
    {
        let k = records.len();
        let (capture, entry, timing) = remaining.remove(0);
        assert(remaining@ =~= all.skip(k as int + 1));
        assert(all[k as int].1 == entry);
        match normalize_entry(capture, &entry, timing) {
            Ok(record) => records.push(record),
            Err(e) => {
                assert(get(entries@[k as int].1, "request"@) is None);
                return Err(e);
            },
        }
    }
    Ok(records)
}

} // verus!
