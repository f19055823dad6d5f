//! URLs of captured requests: their scheme, host and port, and a sanitized form
//! without credentials and with sensitive query values redacted.
use vstd::prelude::*;

use crate::json::opt_chars;
use crate::text::str_eq;

verus! {

/// Whether `url::Url::parse` accepts the text.
pub uninterp spec fn url_parses(raw: Seq<char>) -> bool;

/// `Url::scheme` of the parsed text.
pub uninterp spec fn url_scheme(raw: Seq<char>) -> Seq<char>;

/// `Url::host_str` of the parsed text.
pub uninterp spec fn url_host(raw: Seq<char>) -> Option<Seq<char>>;

/// `Url::port_or_known_default` of the parsed text.
pub uninterp spec fn url_port(raw: Seq<char>) -> Option<u16>;

/// `Url::query_pairs` of the parsed text: its decoded name/value pairs, in order.
pub uninterp spec fn url_query_pairs(raw: Seq<char>) -> Seq<(Seq<char>, Seq<char>)>;

/// The serialization of the parsed text after its username is set to empty, its
/// password removed, and its query replaced by the given pairs.
pub uninterp spec fn url_rewritten(raw: Seq<char>, pairs: Seq<(Seq<char>, Seq<char>)>) -> Seq<
    char,
>;

/// The characters of string pairs.
pub open spec fn pair_views(pairs: Seq<(String, String)>) -> Seq<(Seq<char>, Seq<char>)> {
    pairs.map_values(|p: (String, String)| (p.0@, p.1@))
}

/// What a parse of a URL text yields.
pub struct ParsedUrl {
    pub scheme: String,
    pub host: Option<String>,
    pub port: Option<u16>,
    pub query: Vec<(String, String)>,
}

/// Calls `url::Url::parse`, then `scheme`, `host_str`, `port_or_known_default`
/// and `query_pairs` on the result. Claimed: `Some` exactly when the text parses,
/// and then each part is the value that its name gives for the text.
#[verifier::external_body]
fn parse_url(raw: &str) -> (r: Option<ParsedUrl>)
    ensures
        r is Some <==> url_parses(raw@),
        r matches Some(p) ==> {
            &&& p.scheme@ == url_scheme(raw@)
            &&& opt_chars(p.host) == url_host(raw@)
            &&& p.port == url_port(raw@)
            &&& pair_views(p.query@) == url_query_pairs(raw@)
        },
{
    let url = match url::Url::parse(raw) {
        Ok(url) => url,
        Err(_) => return None,
    };
    let query = url.query_pairs().map(|(k, v)| (k.into_owned(), v.into_owned())).collect();
    let host = url.host_str().map(|h| h.to_string());
    Some(ParsedUrl { scheme: url.scheme().to_string(), host, port: url.port_or_known_default(), query })
}

/// Calls `url::Url::parse`, `set_username("")`, `set_password(None)`, then
/// `query_pairs_mut().clear().extend_pairs(pairs)` and serializes the URL.
/// Claimed: the text is the value named `url_rewritten` of the input and pairs.
#[verifier::external_body]
fn rewrite_url(raw: &str, pairs: &Vec<(String, String)>) -> (s: String)
    requires
        url_parses(raw@),
    ensures
        s@ == url_rewritten(raw@, pair_views(pairs@)),
{
    let mut url = match url::Url::parse(raw) {
        Ok(url) => url,
        Err(_) => return raw.to_string(),
    };
    let _ = url.set_username("");
    let _ = url.set_password(None);
    url.query_pairs_mut().clear().extend_pairs(pairs.iter().map(|(k, v)| (k.as_str(), v.as_str())));
    url.to_string()
}

/// A URL as exported: sanitized text, scheme, host and port (default of the scheme
/// when none is written).
pub struct SanitizedUrl {
    pub sanitized: String,
    pub scheme: Option<String>,
    pub host: Option<String>,
    pub port: Option<u16>,
}

/// Scheme, host and port of a URL text; all absent when it does not parse.
pub open spec fn url_parts_of(raw: Seq<char>) -> (Option<Seq<char>>, Option<Seq<char>>, Option<u16>) {
    if url_parses(raw) {
        (Some(url_scheme(raw)), url_host(raw), url_port(raw))
    } else {
        (None, None, None)
    }
}

/// Query parameter names whose values are redacted.
pub open spec fn sensitive_query_key(key: Seq<char>) -> bool {
    key == "access_token"@ || key == "auth"@ || key == "code"@ || key == "id_token"@ || key
        == "password"@ || key == "short_path"@ || key == "token"@
}

/// Query pairs with the values of sensitive names replaced by `REDACTED`.
pub open spec fn redacted(pairs: Seq<(Seq<char>, Seq<char>)>) -> Seq<(Seq<char>, Seq<char>)> {
    pairs.map_values(
        |p: (Seq<char>, Seq<char>)|
            (
                p.0,
                if sensitive_query_key(p.0) {
                    "REDACTED"@
                } else {
                    p.1
                },
            ),
    )
}

/// Redaction keeps every query name and its position, replaces the value of each
/// sensitive name (`access_token`, `auth`, `code`, `id_token`, `password`,
/// `short_path`, `token`) by `REDACTED`, keeps every other value, and changes nothing when
/// applied a second time.
pub proof fn law_redaction(pairs: Seq<(Seq<char>, Seq<char>)>)
    ensures
        redacted(pairs).len() == pairs.len(),
        forall|i: int|
            0 <= i < pairs.len() ==> {
                let r = #[trigger] redacted(pairs)[i];
                let k = pairs[i].0;
                &&& r.0 == k
                &&& (k == "access_token"@ || k == "auth"@ || k == "code"@ || k == "id_token"@
                    || k == "password"@ || k == "short_path"@ || k == "token"@) ==> r.1
                    == "REDACTED"@
                &&& !(k == "access_token"@ || k == "auth"@ || k == "code"@ || k == "id_token"@
                    || k == "password"@ || k == "short_path"@ || k == "token"@) ==> r.1
                    == pairs[i].1
            },
        redacted(redacted(pairs)) == redacted(pairs),
{
    assert(redacted(redacted(pairs)) =~= redacted(pairs));
}

/// The sanitized text of a URL that parses is its rewriting with a query whose
/// names are those of the URL's query, in order, where the value of every name
/// that is exactly `access_token`, `auth`, `code`, `id_token`, `password`,
/// `short_path` or `token` is `REDACTED` and every other value is kept; a text
/// that does not parse stays as it is.
pub proof fn law_sanitized_query_redacts(raw: Seq<char>)
    ensures
        url_parses(raw) ==> exists|q: Seq<(Seq<char>, Seq<char>)>|
            {
                &&& #[trigger] url_rewritten(raw, q) == sanitized_of(raw)
                &&& q.len() == url_query_pairs(raw).len()
                &&& forall|i: int|
                    0 <= i < q.len() ==> {
                        let k = url_query_pairs(raw)[i].0;
                        &&& (#[trigger] q[i]).0 == k
                        &&& (k == "access_token"@ || k == "auth"@ || k == "code"@ || k
                            == "id_token"@ || k == "password"@ || k == "short_path"@ || k
                            == "token"@) ==> q[i].1 == "REDACTED"@
                        &&& !(k == "access_token"@ || k == "auth"@ || k == "code"@ || k
                            == "id_token"@ || k == "password"@ || k == "short_path"@ || k
                            == "token"@) ==> q[i].1 == url_query_pairs(raw)[i].1
                    }
            },
        !url_parses(raw) ==> sanitized_of(raw) == raw,
{
    if url_parses(raw) {
        let p = url_query_pairs(raw);
        let q = redacted(p);
        law_redaction(p);
        assert forall|i: int| 0 <= i < q.len() implies {
            let k = p[i].0;
            &&& (#[trigger] q[i]).0 == k
            &&& (k == "access_token"@ || k == "auth"@ || k == "code"@ || k == "id_token"@ || k
                == "password"@ || k == "short_path"@ || k == "token"@) ==> q[i].1 == "REDACTED"@
            &&& !(k == "access_token"@ || k == "auth"@ || k == "code"@ || k == "id_token"@ || k
                == "password"@ || k == "short_path"@ || k == "token"@) ==> q[i].1 == p[i].1
        } by {
            assert(redacted(p)[i] == q[i]);
        }
        assert(url_rewritten(raw, q) == sanitized_of(raw));
    }
}

/// Redaction hides sensitive values: two query lists with the same names in the
/// same order, which differ only in the values of sensitive names, redact alike.
pub proof fn law_redaction_hides_sensitive_values(
    a: Seq<(Seq<char>, Seq<char>)>,
    b: Seq<(Seq<char>, Seq<char>)>,
)
    requires
        a.len() == b.len(),
        forall|i: int| 0 <= i < a.len() ==> #[trigger] a[i].0 == b[i].0,
        forall|i: int|
            0 <= i < a.len() && !sensitive_query_key(a[i].0) ==> #[trigger] a[i].1 == b[i].1,
    ensures
        redacted(a) == redacted(b),
{
    assert forall|i: int| 0 <= i < a.len() implies #[trigger] redacted(a)[i] == redacted(b)[i] by {
        assert(a[i].0 == b[i].0);
        if !sensitive_query_key(a[i].0) {
            assert(a[i].1 == b[i].1);
        }
    }
    assert(redacted(a) =~= redacted(b));
}

fn is_sensitive_query_key(key: &str) -> (r: bool)
    ensures
        r == sensitive_query_key(key@),
{
    str_eq(key, "access_token") || str_eq(key, "auth") || str_eq(key, "code") || str_eq(
        key,
        "id_token",
    ) || str_eq(key, "password") || str_eq(key, "short_path") || str_eq(key, "token")
}

/// Query pairs with the values of sensitive names replaced by `REDACTED`.
pub fn redact_query(pairs: &Vec<(String, String)>) -> (r: Vec<(String, String)>)
    ensures
        pair_views(r@) == redacted(pair_views(pairs@)),
{
    let mut r: Vec<(String, String)> = Vec::new();
    let mut i: usize = 0;
    while i < pairs.len()
        invariant
            0 <= i <= pairs@.len(),
            r@.len() == i,
            pair_views(r@) == redacted(pair_views(pairs@)).take(i as int),
        decreases pairs@.len() - i,
    {
        let key = pairs[i].0.clone();
        let value = if is_sensitive_query_key(key.as_str()) {
            "REDACTED".to_owned()
        } else {
            pairs[i].1.clone()
        };
        let ghost pv = pair_views(pairs@);
        assert(pv[i as int] == (pairs@[i as int].0@, pairs@[i as int].1@));
        r.push((key, value));
        assert(pair_views(r@)[i as int] == (key@, value@));
        assert(pair_views(r@)[i as int] == redacted(pv)[i as int]);
        assert(pair_views(r@) =~= redacted(pair_views(pairs@)).take(i + 1));
        i = i + 1;
    }
    assert(redacted(pair_views(pairs@)).take(pairs@.len() as int) =~= redacted(
        pair_views(pairs@),
    ));
    r
}

impl SanitizedUrl {
    /// A text that is no URL, kept as it is, with no parts.
    pub fn from_raw(raw: &str) -> (u: Self)
        ensures
            u.sanitized@ == raw@,
            u.scheme is None,
            u.host is None,
            u.port is None,
    {
        SanitizedUrl { sanitized: raw.to_owned(), scheme: None, host: None, port: None }
    }
}

/// The sanitized text of a URL: rewritten without credentials and with redacted
/// query values when it parses, the text itself otherwise.
pub open spec fn sanitized_of(raw: Seq<char>) -> Seq<char> {
    if url_parses(raw) {
        url_rewritten(raw, redacted(url_query_pairs(raw)))
    } else {
        raw
    }
}

/// A URL without credentials and with the values of sensitive query names
/// (`access_token`, `auth`, `code`, `id_token`, `password`, `short_path`, `token`)
/// replaced by
/// `REDACTED`; a text that does not parse as a URL is kept as it is.
pub fn sanitize_url(raw: &str) -> (u: SanitizedUrl)
    ensures
        u.sanitized@ == sanitized_of(raw@),
        (opt_chars(u.scheme), opt_chars(u.host), u.port) == url_parts_of(raw@),
        url_parses(raw@) ==> {
            &&& u.sanitized@ == url_rewritten(raw@, redacted(url_query_pairs(raw@)))
            &&& opt_chars(u.scheme) == Some(url_scheme(raw@))
            &&& opt_chars(u.host) == url_host(raw@)
            &&& u.port == url_port(raw@)
        },
        !url_parses(raw@) ==> {
            &&& u.sanitized@ == raw@
            &&& u.scheme is None
            &&& u.host is None
            &&& u.port is None
        },
{
    match parse_url(raw) {
        None => SanitizedUrl::from_raw(raw),
        Some(p) => {
            let pairs = redact_query(&p.query);
            SanitizedUrl {
                sanitized: rewrite_url(raw, &pairs),
                scheme: Some(p.scheme),
                host: p.host,
                port: p.port,
            }
        },
    }
}

} // verus!
