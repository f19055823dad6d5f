//! Content hashes that identify a captured request: a hash of its JSON text, and
//! a deduplication key over that hash, the method and the URL.
use vstd::prelude::*;
use vstd::utf8::encode_utf8;

use sha2::Digest;

use crate::internal::specs::network::{HttpRequestSpec, RequestIdentity};
use crate::json::{as_str, get, opt_chars, text_of, Json};

verus! {

/// The SHA-256 digest of a byte string, as `sha2::Sha256` computes it.
pub uninterp spec fn sha256(data: Seq<u8>) -> Seq<u8>;

/// Calls `sha2::Sha256::digest`. Claimed: the result is the digest named `sha256`
/// of the input bytes, 32 bytes long (the output size of `Sha256`).
#[verifier::external_body]
fn sha256_digest(data: &[u8]) -> (d: Vec<u8>)
    ensures
        d@ == sha256(data@),
        d@.len() == 32,
{
    sha2::Sha256::digest(data).to_vec()
}

/// The lowercase hexadecimal digit for `n < 16`.
pub open spec fn hex_digit(n: int) -> char {
    if n < 10 {
        (48 + n) as char
    } else {
        (87 + n) as char
    }
}

/// Lowercase hexadecimal text of a byte string, high nibble first.
pub open spec fn hex_lower(bytes: Seq<u8>) -> Seq<char>
    decreases bytes.len(),
{
    if bytes.len() == 0 {
        Seq::empty()
    } else {
        hex_lower(bytes.drop_last()) + seq![
            hex_digit(bytes.last() as int / 16),
            hex_digit(bytes.last() as int % 16),
        ]
    }
}

/// Calls `hex::encode`. Claimed: each byte becomes two lowercase hexadecimal
/// digits, high nibble first, in the order of the bytes (`hex` encodes with the
/// table `0123456789abcdef`).
#[verifier::external_body]
fn hex_encode(bytes: &[u8]) -> (s: String)
    ensures
        s@ == hex_lower(bytes@),
{
    hex::encode(bytes)
}

/// Whether every character is a lowercase hexadecimal digit.
pub open spec fn is_hex(s: Seq<char>) -> bool {
    forall|i: int| 0 <= i < s.len() ==> ('0' <= #[trigger] s[i] <= '9' || 'a' <= s[i] <= 'f')
}

pub proof fn lemma_hex_lower_is_hex(bytes: Seq<u8>)
    ensures
        is_hex(hex_lower(bytes)),
    decreases bytes.len(),
{
    if bytes.len() > 0 {
        lemma_hex_lower_is_hex(bytes.drop_last());
        let h = hex_lower(bytes);
        let rest = hex_lower(bytes.drop_last());
        assert forall|i: int| 0 <= i < h.len() implies ('0' <= #[trigger] h[i] <= '9' || 'a' <= h[i] <= 'f') by {
            if i >= rest.len() {
                let n = if i == rest.len() {
                    bytes.last() as int / 16
                } else {
                    bytes.last() as int % 16
                };
                assert(0 <= n < 16);
                assert(h[i] == hex_digit(n));
            } else {
                assert(h[i] == rest[i]);
            }
        }
    }
}

pub proof fn lemma_hex_lower_len(bytes: Seq<u8>)
    ensures
        hex_lower(bytes).len() == 2 * bytes.len(),
    decreases bytes.len(),
{
    if bytes.len() > 0 {
        lemma_hex_lower_len(bytes.drop_last());
    }
}

/// The bytes that are hashed for a prefix and its parts: the UTF-8 prefix, then
/// for each part a zero byte and the part's UTF-8 bytes.
pub open spec fn framed(prefix: Seq<char>, parts: Seq<Seq<char>>) -> Seq<u8>
    decreases parts.len(),
{
    if parts.len() == 0 {
        encode_utf8(prefix)
    } else {
        framed(prefix, parts.drop_last()) + seq![0u8] + encode_utf8(parts.last())
    }
}

/// Hex encoding writes two lowercase digits per byte, high nibble first: for byte
/// `i` with value `b`, characters `2i` and `2i + 1` are the digits of `b / 16` and
/// `b % 16`, `0` to `9` then `a` to `f`.
pub proof fn law_hex_lower(bytes: Seq<u8>)
    ensures
        hex_lower(bytes).len() == 2 * bytes.len(),
        forall|i: int|
            0 <= i < bytes.len() ==> {
                let hi = #[trigger] bytes[i] as int / 16;
                let lo = bytes[i] as int % 16;
                &&& hex_lower(bytes)[2 * i] == if hi < 10 {
                    ('0' as int + hi) as char
                } else {
                    ('a' as int + hi - 10) as char
                }
                &&& hex_lower(bytes)[2 * i + 1] == if lo < 10 {
                    ('0' as int + lo) as char
                } else {
                    ('a' as int + lo - 10) as char
                }
            },
    decreases bytes.len(),
{
    if bytes.len() > 0 {
        let front = bytes.drop_last();
        law_hex_lower(front);
        lemma_hex_lower_len(bytes);
        assert forall|i: int| 0 <= i < bytes.len() implies {
            let hi = #[trigger] bytes[i] as int / 16;
            let lo = bytes[i] as int % 16;
            &&& hex_lower(bytes)[2 * i] == if hi < 10 {
                ('0' as int + hi) as char
            } else {
                ('a' as int + hi - 10) as char
            }
            &&& hex_lower(bytes)[2 * i + 1] == if lo < 10 {
                ('0' as int + lo) as char
            } else {
                ('a' as int + lo - 10) as char
            }
        } by {
            if i < bytes.len() - 1 {
                assert(front[i] == bytes[i]);
                assert(hex_lower(bytes)[2 * i] == hex_lower(front)[2 * i]);
                assert(hex_lower(bytes)[2 * i + 1] == hex_lower(front)[2 * i + 1]);
            }
        }
    }
}

/// A hash with prefix `p` over parts `a`, `b`, `c` is `sha256:` and the hex
/// digest of the UTF-8 bytes of `p`, then of each part after a zero byte: so the
/// content hash of a JSON text frames one part, and the deduplication key frames
/// the entry hash, the method and the URL, in that order, under
/// `hosho.har.dedupe.v1`.
pub proof fn law_hash_framing(prefix: Seq<char>, entry_hash: Seq<char>, method: Seq<char>, url: Seq<char>)
    ensures
        text_hash(prefix, url) == "sha256:"@ + hex_lower(
            sha256(encode_utf8(prefix) + seq![0u8] + encode_utf8(url)),
        ),
        dedupe_key(entry_hash, method, url) == "sha256:"@ + hex_lower(
            sha256(
                encode_utf8("hosho.har.dedupe.v1"@) + seq![0u8] + encode_utf8(entry_hash) + seq![
                    0u8,
                ] + encode_utf8(method) + seq![0u8] + encode_utf8(url),
            ),
        ),
{
    let one = seq![url];
    assert(one.drop_last() =~= Seq::<Seq<char>>::empty());
    assert(framed(prefix, one.drop_last()) == encode_utf8(prefix));
    assert(one.last() == url);
    assert(framed(prefix, one) == encode_utf8(prefix) + seq![0u8] + encode_utf8(url));
    let d = "hosho.har.dedupe.v1"@;
    let three = seq![entry_hash, method, url];
    let two = seq![entry_hash, method];
    let first = seq![entry_hash];
    assert(three.drop_last() =~= two);
    assert(two.drop_last() =~= first);
    assert(first.drop_last() =~= Seq::<Seq<char>>::empty());
    assert(framed(d, first.drop_last()) == encode_utf8(d));
    assert(first.last() == entry_hash && two.last() == method && three.last() == url);
    assert(framed(d, first) == encode_utf8(d) + seq![0u8] + encode_utf8(entry_hash));
    assert(framed(d, two) == framed(d, first) + seq![0u8] + encode_utf8(method));
    assert(framed(d, three) == framed(d, two) + seq![0u8] + encode_utf8(url));
}

/// The characters of a sequence of string slices.
pub open spec fn str_views(parts: Seq<&str>) -> Seq<Seq<char>> {
    parts.map_values(|p: &str| p@)
}

/// Hexadecimal SHA-256 digest of the framed prefix and parts.
pub open spec fn digest_hex(prefix: Seq<char>, parts: Seq<Seq<char>>) -> Seq<char> {
    hex_lower(sha256(framed(prefix, parts)))
}

/// `sha256:` followed by the hexadecimal digest of the framed prefix and parts.
pub open spec fn hashed(prefix: Seq<char>, parts: Seq<Seq<char>>) -> Seq<char> {
    "sha256:"@ + digest_hex(prefix, parts)
}

/// The hexadecimal digest of the framed prefix and parts, 64 characters.
pub fn digest_parts(prefix: &str, parts: &[&str]) -> (hex: String)
    ensures
        hex@ == digest_hex(prefix@, str_views(parts@)),
        hex@.len() == 64,
        is_hex(hex@),
{
    let mut data: Vec<u8> = Vec::new();
    data.extend_from_slice(prefix.as_bytes());
    let mut i: usize = 0;
    assert(str_views(parts@).take(0) =~= Seq::<Seq<char>>::empty());
    while i < parts.len()
        invariant
            0 <= i <= parts@.len(),
            data@ == framed(prefix@, str_views(parts@).take(i as int)),
        decreases parts@.len() - i,
    {
        data.push(0u8);
        data.extend_from_slice(parts[i].as_bytes());
        assert(str_views(parts@).take(i + 1).drop_last() =~= str_views(parts@).take(i as int));
        i = i + 1;
    }
    assert(str_views(parts@).take(parts@.len() as int) =~= str_views(parts@));
    let digest = sha256_digest(data.as_slice());
    proof {
        lemma_hex_lower_len(digest@);
        lemma_hex_lower_is_hex(digest@);
    }
    hex_encode(digest.as_slice())
}

/// `sha256:` followed by the hexadecimal SHA-256 digest of the UTF-8 prefix and,
/// for each part, a zero byte and the part's UTF-8 bytes.
pub fn hash_parts(prefix: &str, parts: &[&str]) -> (h: String)
    ensures
        h@ == hashed(prefix@, str_views(parts@)),
        digest_hex(prefix@, str_views(parts@)).len() == 64,
        is_hex(digest_hex(prefix@, str_views(parts@))),
{
    let hex = digest_parts(prefix, parts);
    let mut h = "sha256:".to_owned();
    h.append(hex.as_str());
    h
}

/// The content hash of a JSON text under a prefix.
pub open spec fn text_hash(prefix: Seq<char>, text: Seq<char>) -> Seq<char> {
    hashed(prefix, seq![text])
}

/// `sha256:` and the hexadecimal digest of the UTF-8 prefix, a zero byte and the
/// UTF-8 JSON text of a value.
pub fn stable_hash(prefix: &str, json_text: &str) -> (h: String)
    ensures
        h@ == text_hash(prefix@, json_text@),
{
    let parts: [&str; 1] = [json_text];
    let h = hash_parts(prefix, &parts);
    assert(str_views(parts@) =~= seq![json_text@]);
    h
}

/// The deduplication key of a request: the hash of its entry hash, method and URL.
pub open spec fn dedupe_key(entry_hash: Seq<char>, method: Seq<char>, url: Seq<char>) -> Seq<
    char,
> {
    hashed("hosho.har.dedupe.v1"@, seq![entry_hash, method, url])
}

/// The identity of a HAR entry: its request id (`_requestId`), the hash of its JSON
/// text, and the deduplication key over that hash and the request's method and URL.
pub fn identity_for_entry(entry: &Json, request: &HttpRequestSpec) -> (id: RequestIdentity)
    ensures
        opt_chars(id.request_id) == as_str(get(*entry, "_requestId"@)),
        id.entry_hash@ == text_hash("hosho.har.entry.v1"@, text_of(*entry)),
        id.dedupe_key@ == dedupe_key(id.entry_hash@, request.method@, request.url@),
{
    let entry_hash = stable_hash("hosho.har.entry.v1", entry.text().as_str());
    let request_id = entry.get_str("_requestId");
    let parts: [&str; 3] = [entry_hash.as_str(), request.method.as_str(), request.url.as_str()];
    let dedupe_key = hash_parts("hosho.har.dedupe.v1", &parts);
    assert(str_views(parts@) =~= seq![entry_hash@, request.method@, request.url@]);
    RequestIdentity { request_id, entry_hash, dedupe_key }
}

impl RequestIdentity {
    /// The identity of a typed HAR record whose JSON text is `payload_json`: no
    /// request id, the hash of that text under `hosho.har.payload.v1`, and the
    /// deduplication key over that hash and the request's method and URL.
    pub fn from_payload(payload_json: &str, request: &HttpRequestSpec) -> (id: RequestIdentity)
        ensures
            id.request_id is None,
            id.entry_hash@ == text_hash("hosho.har.payload.v1"@, payload_json@),
            id.dedupe_key@ == dedupe_key(id.entry_hash@, request.method@, request.url@),
    {
        let entry_hash = stable_hash("hosho.har.payload.v1", payload_json);
        let parts: [&str; 3] = [entry_hash.as_str(), request.method.as_str(), request.url.as_str()];
        let dedupe_key = hash_parts("hosho.har.dedupe.v1", &parts);
        assert(str_views(parts@) =~= seq![entry_hash@, request.method@, request.url@]);
        RequestIdentity { request_id: None, entry_hash, dedupe_key }
    }
}

} // verus!
