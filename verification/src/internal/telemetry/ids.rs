//! Trace and span ids of a request span: taken from an outbound W3C
//! `traceparent` header when it is well formed, else derived from hashes so that
//! the same capture always gets the same ids.
use vstd::prelude::*;

use vstd::utf8::encode_utf8;

use crate::internal::normalize::identity::{
    digest_hex, framed, hash_parts, hashed, hex_lower, is_hex, lemma_hex_lower_is_hex, sha256,
    str_views,
};
use crate::internal::specs::network::{header_values, NetworkRequest};
use crate::json::opt_chars;
use crate::parse::{lemma_first_index_is, segment};
use crate::text::{chars_of, or_empty, string_of};
use crate::parse::segment_at;

verus! {

/// The trace id and span id of one span, as lowercase hexadecimal text.
pub struct SpanIds {
    pub trace_id: String,
    pub span_id: String,
}

/// Whether `s` is a W3C trace-context id of `n` characters: lowercase
/// hexadecimal digits, not all zero.
pub open spec fn hex_id(s: Seq<char>, n: nat) -> bool {
    &&& s.len() == n
    &&& is_hex(s)
    &&& exists|i: int| 0 <= i < s.len() && #[trigger] s[i] != '0'
}

/// The trace id and span id of a `traceparent` value: the second and third of
/// exactly four `-`-separated fields, valid ids of 32 and 16 hexadecimal digits.
pub open spec fn traceparent_parts(header: Seq<char>) -> Option<(Seq<char>, Seq<char>)> {
    match (segment(header, '-', 1), segment(header, '-', 2), segment(header, '-', 3), segment(header, '-', 4)) {
        (Some(trace), Some(span), Some(_), None) => if hex_id(trace, 32) && hex_id(span, 16) {
            Some((trace, span))
        } else {
            None
        },
        _ => None,
    }
}

/// The ids that the first `traceparent` request header carries, if any.
pub open spec fn traceparent_of(headers: Seq<(Seq<char>, Seq<Seq<char>>)>) -> Option<
    (Seq<char>, Seq<char>),
> {
    match header_values(headers, "traceparent"@) {
        Some(values) => if values.len() > 0 {
            traceparent_parts(values[0])
        } else {
            None
        },
        None => None,
    }
}

/// `s` with every leading occurrence of `p` removed.
pub open spec fn trim_start(s: Seq<char>, p: Seq<char>) -> Seq<char>
    decreases s.len(),
{
    if p.len() > 0 && p.len() <= s.len() && s.take(p.len() as int) == p {
        trim_start(s.skip(p.len() as int), p)
    } else {
        s
    }
}

/// The first `n` characters of `s`, or all of it when it is shorter.
pub open spec fn first_chars(s: Seq<char>, n: nat) -> Seq<char> {
    if n <= s.len() {
        s.take(n as int)
    } else {
        s
    }
}

/// The first `n` characters of the hash of the parts, with its `sha256:` removed.
pub open spec fn compact(prefix: Seq<char>, parts: Seq<Seq<char>>, n: nat) -> Seq<char> {
    first_chars(trim_start(hashed(prefix, parts), "sha256:"@), n)
}

/// The parts that a derived trace id hashes: the session id and page id when
/// both are known, so that the requests of one page share one trace; otherwise
/// session id, page id, host and start time, each empty when unknown.
pub open spec fn trace_parts_of(record: NetworkRequest) -> Seq<Seq<char>> {
    match (record.capture.session_id, record.capture.page_id) {
        (Some(session), Some(page)) => seq![session@, page@],
        _ => seq![
            or_empty(opt_chars(record.capture.session_id)),
            or_empty(opt_chars(record.capture.page_id)),
            or_empty(opt_chars(record.request.host)),
            or_empty(opt_chars(record.timing.started_at)),
        ],
    }
}

/// The ids of the span of a request: those of its `traceparent` header when it
/// is well formed, else a trace id of 32 characters hashed from the trace parts and
/// a span id of 16 characters hashed from the deduplication key.
pub open spec fn span_ids_of(record: NetworkRequest) -> (Seq<char>, Seq<char>) {
    match traceparent_of(record.request.headers@) {
        Some(ids) => ids,
        None => (
            compact("hosho.trace.v1"@, trace_parts_of(record), 32),
            compact("hosho.span.v1"@, seq![record.identity.dedupe_key@], 16),
        ),
    }
}

/// The items that `split(c)` yields of `a`, `c`, `b`, where `a` holds no `c`:
/// first `a`, then those of `b`.
proof fn lemma_segment_after(a: Seq<char>, b: Seq<char>, c: char, n: nat)
    requires
        forall|j: int| 0 <= j < a.len() ==> a[j] != c,
    ensures
        segment(a + seq![c] + b, c, 0) == Some(a),
        segment(a + seq![c] + b, c, n + 1) == segment(b, c, n),
{
    let s = a + seq![c] + b;
    lemma_first_index_is(s, c, a.len() as int);
    assert(s.take(a.len() as int) =~= a);
    assert(s.skip(a.len() as int + 1) =~= b);
}

/// A text without `c` is the one item that `split(c)` yields.
proof fn lemma_segment_last(f: Seq<char>, c: char)
    requires
        forall|j: int| 0 <= j < f.len() ==> f[j] != c,
    ensures
        segment(f, c, 0) == Some(f),
        segment(f, c, 1) is None,
{
    lemma_first_index_is(f, c, -1);
}

/// A `traceparent` value of four `-`-separated fields (version, trace id, span
/// id, flags) gives the trace id and the span id exactly when the trace id is 32
/// and the span id 16 lowercase hexadecimal digits, not all zero; otherwise none.
pub proof fn law_traceparent(version: Seq<char>, trace: Seq<char>, span: Seq<char>, flags: Seq<char>)
    requires
        forall|j: int| 0 <= j < version.len() ==> version[j] != '-',
        forall|j: int| 0 <= j < trace.len() ==> trace[j] != '-',
        forall|j: int| 0 <= j < span.len() ==> span[j] != '-',
        forall|j: int| 0 <= j < flags.len() ==> flags[j] != '-',
    ensures
        traceparent_parts(version + seq!['-'] + trace + seq!['-'] + span + seq!['-'] + flags) == if (
        trace.len() == 32 && span.len() == 16 && is_hex(trace) && is_hex(span) && (exists|i: int|
            0 <= i < 32 && trace[i] != '0') && (exists|i: int| 0 <= i < 16 && span[i] != '0')) {
            Some((trace, span))
        } else {
            None
        },
{
    let d = '-';
    let r3 = flags;
    let r2 = span + seq![d] + r3;
    let r1 = trace + seq![d] + r2;
    let h = version + seq![d] + r1;
    assert(h =~= version + seq![d] + trace + seq![d] + span + seq![d] + flags);
    lemma_segment_last(r3, d);
    lemma_segment_after(span, r3, d, 0);
    lemma_segment_after(span, r3, d, 1);
    lemma_segment_after(trace, r2, d, 0);
    lemma_segment_after(trace, r2, d, 1);
    lemma_segment_after(trace, r2, d, 2);
    lemma_segment_after(version, r1, d, 0);
    lemma_segment_after(version, r1, d, 1);
    lemma_segment_after(version, r1, d, 2);
    lemma_segment_after(version, r1, d, 3);
    assert(segment(h, d, 1) == Some(trace));
    assert(segment(h, d, 2) == Some(span));
    assert(segment(h, d, 3) == Some(flags));
    assert(segment(h, d, 4) is None);
    if hex_id(trace, 32) {
        let i = choose|i: int| 0 <= i < trace.len() && #[trigger] trace[i] != '0';
        assert(0 <= i < 32 && trace[i] != '0');
    }
    if hex_id(span, 16) {
        let i = choose|i: int| 0 <= i < span.len() && #[trigger] span[i] != '0';
        assert(0 <= i < 16 && span[i] != '0');
    }
    if trace.len() == 32 && (exists|i: int| 0 <= i < 32 && trace[i] != '0') {
        let i = choose|i: int| 0 <= i < 32 && trace[i] != '0';
        assert(0 <= i < trace.len() && trace[i] != '0');
    }
    if span.len() == 16 && (exists|i: int| 0 <= i < 16 && span[i] != '0') {
        let i = choose|i: int| 0 <= i < 16 && span[i] != '0';
        assert(0 <= i < span.len() && span[i] != '0');
    }
}

/// A compact hash is the start of the hexadecimal digest itself: removing
/// `sha256:` leaves exactly the digest, which never begins with that text again.
proof fn lemma_compact_digest(prefix: Seq<char>, parts: Seq<Seq<char>>, n: nat)
    ensures
        compact(prefix, parts, n) == first_chars(digest_hex(prefix, parts), n),
{
    reveal_strlit("sha256:");
    let p = "sha256:"@;
    let d = digest_hex(prefix, parts);
    lemma_hex_lower_is_hex(sha256(framed(prefix, parts)));
    let all = hashed(prefix, parts);
    assert(all.take(7) =~= p);
    assert(all.skip(7) =~= d);
    if 7 <= d.len() && d.take(7) == p {
        assert(d.take(7)[0] == d[0]);
        assert(p[0] == 's');
    }
    assert(trim_start(d, p) == d);
    assert(trim_start(all, p) == d);
}

/// Without a valid `traceparent`, the ids are derived from SHA-256 digests in
/// lowercase hexadecimal: the span id is the first 16 digits of the digest of
/// `hosho.span.v1`, a zero byte and the deduplication key; the trace id is the
/// first 32 digits of the digest of `hosho.trace.v1` followed, each after a zero
/// byte, by the session id and page id when both are known, or else by the
/// session id, page id, host and start time, each empty when unknown.
pub proof fn law_derived_ids(record: NetworkRequest)
    requires
        traceparent_of(record.request.headers@) is None,
    ensures
        ({
            let first = |h: Seq<char>, n: int|
                if n <= h.len() {
                    h.take(n)
                } else {
                    h
                };
            let digest = |bytes: Seq<u8>| hex_lower(sha256(bytes));
            let z = seq![0u8];
            let c = record.capture;
            let ids = span_ids_of(record);
            &&& ids.1 == first(
                digest(encode_utf8("hosho.span.v1"@) + z + encode_utf8(record.identity.dedupe_key@)),
                16,
            )
            &&& (c.session_id is Some && c.page_id is Some) ==> ids.0 == first(
                digest(
                    encode_utf8("hosho.trace.v1"@) + z + encode_utf8(c.session_id->Some_0@) + z
                        + encode_utf8(c.page_id->Some_0@),
                ),
                32,
            )
            &&& !(c.session_id is Some && c.page_id is Some) ==> ids.0 == first(
                digest(
                    encode_utf8("hosho.trace.v1"@) + z + encode_utf8(
                        or_empty(opt_chars(c.session_id)),
                    ) + z + encode_utf8(or_empty(opt_chars(c.page_id))) + z + encode_utf8(
                        or_empty(opt_chars(record.request.host)),
                    ) + z + encode_utf8(or_empty(opt_chars(record.timing.started_at))),
                ),
                32,
            )
        }),
{
    let sp = "hosho.span.v1"@;
    let tp = "hosho.trace.v1"@;
    let key = seq![record.identity.dedupe_key@];
    lemma_compact_digest(sp, key, 16);
    assert(key.drop_last() =~= Seq::<Seq<char>>::empty());
    assert(framed(sp, key.drop_last()) == encode_utf8(sp));
    assert(key.last() == record.identity.dedupe_key@);
    let parts = trace_parts_of(record);
    lemma_compact_digest(tp, parts, 32);
    let c = record.capture;
    if c.session_id is Some && c.page_id is Some {
        let session = c.session_id->Some_0@;
        let page = c.page_id->Some_0@;
        assert(parts == seq![session, page]);
        let one = seq![session];
        assert(parts.drop_last() =~= one);
        assert(one.drop_last() =~= Seq::<Seq<char>>::empty());
        assert(framed(tp, one.drop_last()) == encode_utf8(tp));
        assert(one.last() == session && parts.last() == page);
        assert(framed(tp, one) == encode_utf8(tp) + seq![0u8] + encode_utf8(session));
    } else {
        let a = or_empty(opt_chars(c.session_id));
        let b = or_empty(opt_chars(c.page_id));
        let h = or_empty(opt_chars(record.request.host));
        let t = or_empty(opt_chars(record.timing.started_at));
        assert(parts == seq![a, b, h, t]);
        let p3 = seq![a, b, h];
        let p2 = seq![a, b];
        let p1 = seq![a];
        assert(parts.drop_last() =~= p3);
        assert(p3.drop_last() =~= p2);
        assert(p2.drop_last() =~= p1);
        assert(p1.drop_last() =~= Seq::<Seq<char>>::empty());
        assert(framed(tp, p1.drop_last()) == encode_utf8(tp));
        assert(p1.last() == a && p2.last() == b && p3.last() == h && parts.last() == t);
        assert(framed(tp, p1) == encode_utf8(tp) + seq![0u8] + encode_utf8(a));
        assert(framed(tp, p2) == framed(tp, p1) + seq![0u8] + encode_utf8(b));
        assert(framed(tp, p3) == framed(tp, p2) + seq![0u8] + encode_utf8(h));
    }
}

/// Span ids are deterministic: two records with the same request headers, the
/// same trace parts (`trace_parts_of`), and the same deduplication key get
/// the same trace id and span id, so reprocessing a capture yields the same span.
pub proof fn law_span_ids_deterministic(a: NetworkRequest, b: NetworkRequest)
    requires
        a.request.headers@ == b.request.headers@,
        trace_parts_of(a) == trace_parts_of(b),
        a.identity.dedupe_key@ == b.identity.dedupe_key@,
    ensures
        span_ids_of(a) == span_ids_of(b),
{
}

/// Without a valid `traceparent`, the requests of one page share one trace: two
/// records whose captures carry the same session id and page id get the same trace
/// id.
pub proof fn law_page_shares_trace(a: NetworkRequest, b: NetworkRequest)
    requires
        traceparent_of(a.request.headers@) is None,
        traceparent_of(b.request.headers@) is None,
        a.capture.session_id is Some,
        a.capture.page_id is Some,
        opt_chars(a.capture.session_id) == opt_chars(b.capture.session_id),
        opt_chars(a.capture.page_id) == opt_chars(b.capture.page_id),
    ensures
        span_ids_of(a).0 == span_ids_of(b).0,
{
    assert(trace_parts_of(a) =~= trace_parts_of(b));
}

/// The first `chars` characters of the hash of the parts, with its `sha256:`
/// removed.
pub fn compact_hash(prefix: &str, parts: Vec<&str>, chars: usize) -> (r: String)
    ensures
        r@ == compact(prefix@, str_views(parts@), chars as nat),
        r@ == first_chars(digest_hex(prefix@, str_views(parts@)), chars as nat),
        r@.len() == if chars <= 64 {
            chars as int
        } else {
            64
        },
        is_hex(r@),
{
    let h = hash_parts(prefix, parts.as_slice());
    let all = chars_of(h.as_str());
    let ghost p = "sha256:"@;
    proof {
        reveal_strlit("sha256:");
    }
    let mut start: usize = 0;
    assert(all@.skip(0) =~= all@);
    loop
        invariant
            0 <= start <= all@.len(),
            p == "sha256:"@,
            trim_start(all@, p) == trim_start(all@.skip(start as int), p),
        ensures
            0 <= start <= all@.len(),
            trim_start(all@, p) == all@.skip(start as int),
        decreases all@.len() - start,
    {
        let ghost rest = all@.skip(start as int);
        proof {
            reveal_strlit("sha256:");
        }
        if all.len() - start >= 7 && all[start] == 's' && all[start + 1] == 'h' && all[start + 2]
            == 'a' && all[start + 3] == '2' && all[start + 4] == '5' && all[start + 5] == '6'
            && all[start + 6] == ':' {
            assert(rest.take(7) =~= p);
            assert(rest.skip(7) =~= all@.skip(start + 7));
            start = start + 7;
        } else {
            proof {
                if 7 <= rest.len() && rest.take(7) == p {
                    assert(rest.take(7)[0] == p[0]);
                    assert(rest.take(7)[1] == p[1]);
                    assert(rest.take(7)[2] == p[2]);
                    assert(rest.take(7)[3] == p[3]);
                    assert(rest.take(7)[4] == p[4]);
                    assert(rest.take(7)[5] == p[5]);
                    assert(rest.take(7)[6] == p[6]);
                }
            }
            assert(trim_start(rest, p) == rest);
            break;
        }
    }
    let end: usize = if all.len() - start > chars {
        start + chars
    } else {
        all.len()
    };
    let r = string_of(&all, start, end);
    assert(r@ =~= first_chars(all@.skip(start as int), chars as nat));
    proof {
        let d = digest_hex(prefix@, str_views(parts@));
        assert(all@.take(7) =~= p);
        assert(all@.skip(7) =~= d);
        if 7 <= d.len() && d.take(7) == p {
            assert(d.take(7)[0] == d[0]);
            assert(p[0] == 's');
        }
        assert(trim_start(d, p) == d);
        assert(trim_start(all@, p) == d);
        assert forall|i: int| 0 <= i < r@.len() implies ('0' <= #[trigger] r@[i] <= '9' || 'a'
            <= r@[i] <= 'f') by {
            assert(r@[i] == d[i]);
        }
    }
    r
}

/// Whether `chars[lo..hi]` is a trace-context id of `n` characters.
fn is_hex_id(chars: &Vec<char>, lo: usize, hi: usize, n: usize) -> (r: bool)
    requires
        lo <= hi <= chars@.len(),
    ensures
        r == hex_id(chars@.subrange(lo as int, hi as int), n as nat),
{
    let ghost s = chars@.subrange(lo as int, hi as int);
    if hi - lo != n {
        return false;
    }
    let mut nonzero = false;
    let mut i = lo;
    while i < hi
        invariant
            lo <= i <= hi <= chars@.len(),
            s == chars@.subrange(lo as int, hi as int),
            forall|j: int| 0 <= j < i - lo ==> ('0' <= #[trigger] s[j] <= '9' || 'a' <= s[j] <= 'f'),
            nonzero <==> exists|j: int| 0 <= j < i - lo && #[trigger] s[j] != '0',
        decreases hi - i,
    {
        let c = chars[i];
        assert(s[i - lo] == c);
        if !(('0' <= c && c <= '9') || ('a' <= c && c <= 'f')) {
            return false;
        }
        if c != '0' {
            nonzero = true;
        }
        i = i + 1;
    }
    nonzero
}

/// The ids carried by a `traceparent` value, if it is well formed.
pub fn traceparent_ids(header: &str) -> (r: Option<(String, String)>)
    ensures
        match r {
            Some((t, s)) => traceparent_parts(header@) == Some((t@, s@)),
            None => traceparent_parts(header@) is None,
        },
{
    let chars = chars_of(header);
    let n = chars.len();
    assert(chars@.subrange(0, n as int) =~= header@);
    let fourth = segment_at(&chars, 0, n, '-', 3);
    let fifth = segment_at(&chars, 0, n, '-', 4);
    let second = segment_at(&chars, 0, n, '-', 1);
    let third = segment_at(&chars, 0, n, '-', 2);
    match (second, third, fourth, fifth) {
        (Some((a, b)), Some((c, d)), Some(_), None) => {
            let trace = string_of(&chars, a, b);
            let span = string_of(&chars, c, d);
            if is_hex_id(&chars, a, b, 32) && is_hex_id(&chars, c, d, 16) {
                Some((trace, span))
            } else {
                None
            }
        },
        _ => None,
    }
}

/// The ids of the span of a request.
pub fn ids_for_request(record: &NetworkRequest) -> (ids: SpanIds)
    ensures
        (ids.trace_id@, ids.span_id@) == span_ids_of(*record),
        ids.trace_id@.len() == 32,
        ids.span_id@.len() == 16,
        is_hex(ids.trace_id@),
        is_hex(ids.span_id@),
{
    let carried = match record.request.headers.get("traceparent") {
        Some(values) => if values.len() > 0 {
            traceparent_ids(values[0].as_str())
        } else {
            None
        },
        None => None,
    };
    match carried {
        Some((trace_id, span_id)) => {
            return SpanIds { trace_id, span_id };
        },
        None => {},
    }
    let mut parts: Vec<&str> = Vec::new();
    match (&record.capture.session_id, &record.capture.page_id) {
        (Some(session), Some(page)) => {
            parts.push(session.as_str());
            parts.push(page.as_str());
        },
        _ => {
            parts.push(option_text(&record.capture.session_id));
            parts.push(option_text(&record.capture.page_id));
            parts.push(option_text(&record.request.host));
            parts.push(option_text(&record.timing.started_at));
        },
    }
    assert(str_views(parts@) =~= trace_parts_of(*record));
    let mut key: Vec<&str> = Vec::new();
    key.push(record.identity.dedupe_key.as_str());
    assert(str_views(key@) =~= seq![record.identity.dedupe_key@]);
    SpanIds {
        trace_id: compact_hash("hosho.trace.v1", parts, 32),
        span_id: compact_hash("hosho.span.v1", key, 16),
    }
}

/// The text of an optional string, empty when absent.
fn option_text(o: &Option<String>) -> (t: &str)
    ensures
        t@ == or_empty(opt_chars(*o)),
{
    match o {
        Some(s) => s.as_str(),
        None => {
            proof {
                reveal_strlit("");
            }
            ""
        },
    }
}

} // verus!
