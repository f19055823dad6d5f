//! Header maps of HAR entries read from JSON: names lowercased, sensitive headers
//! dropped, values grouped by name.
use vstd::prelude::*;

use crate::internal::specs::network::{
    allowed_attributes, allowed_header, exported_from, header_insert, is_sensitive,
    law_exported_headers, lemma_header_insert_keeps, lemma_header_insert_sorted,
    lemma_lowercase_idempotent, sensitive_header, sorted_keys, HeaderMap,
};
use crate::json::{as_array, as_str, get, Json};
use crate::text::{ascii_lowercase, lowercase};

pub use crate::internal::specs::network::allowed_header_attributes;

verus! {

/// A header map after one HAR header item: an item with a string `name` and some
/// `value` adds that value (empty unless a string) under the lowercased name,
/// unless the name is sensitive; any other item is skipped.
pub open spec fn add_json_header(
    s: Seq<(Seq<char>, Seq<Seq<char>>)>,
    item: Json,
) -> Seq<(Seq<char>, Seq<Seq<char>>)> {
    match (get(item, "name"@), get(item, "value"@)) {
        (Some(n), Some(v)) => match as_str(Some(n)) {
            Some(name) => if sensitive_header(lowercase(name)) {
                s
            } else {
                header_insert(
                    s,
                    lowercase(name),
                    match as_str(Some(v)) {
                        Some(x) => x,
                        None => Seq::empty(),
                    },
                )
            },
            None => s,
        },
        _ => s,
    }
}

/// The header map of HAR header items, added one after the other.
pub open spec fn json_headers(items: Seq<Json>) -> Seq<(Seq<char>, Seq<Seq<char>>)>
    decreases items.len(),
{
    if items.len() == 0 {
        Seq::empty()
    } else {
        add_json_header(json_headers(items.drop_last()), items.last())
    }
}

/// The header map of a `headers` member: its items when it is an array, none otherwise.
pub open spec fn har_headers_of(value: Option<Json>) -> Seq<(Seq<char>, Seq<Seq<char>>)> {
    match as_array(value) {
        Some(items) => json_headers(items),
        None => Seq::empty(),
    }
}

fn insert_header(headers: &mut HeaderMap, name: &Json, value: &Json)
    ensures
        ({
            let item_ok = as_str(Some(*name));
            match item_ok {
                Some(n) => final(headers)@ == if sensitive_header(lowercase(n)) {
                    old(headers)@
                } else {
                    header_insert(
                        old(headers)@,
                        lowercase(n),
                        match as_str(Some(*value)) {
                            Some(x) => x,
                            None => Seq::empty(),
                        },
                    )
                },
                None => final(headers)@ == old(headers)@,
            }
        }),
{
    let name = match name.str_value() {
        Some(n) => ascii_lowercase(n.as_str()),
        None => return,
    };
    if !is_sensitive(name.as_str()) {
        let value = match value.str_value() {
            Some(v) => v.clone(),
            None => String::new(),
        };
        headers.insert(name, value);
    }
}

/// The header map of a `headers` member of a HAR request or response.
pub fn har_headers(value: Option<&Json>) -> (m: HeaderMap)
    ensures
        m@ == har_headers_of(
            match value {
                Some(j) => Some(*j),
                None => None,
            },
        ),
{
    let mut headers = HeaderMap::new();
    let items = match value {
        Some(Json::Array { items, .. }) => items,
        _ => return headers,
    };
    let mut i: usize = 0;
    while i < items.len()
        invariant
            0 <= i <= items@.len(),
            headers@ == json_headers(items@.take(i as int)),
        decreases items@.len() - i,
    {
        assert(items@.take(i + 1).drop_last() =~= items@.take(i as int));
        let item = &items[i];
        if let (Some(name), Some(header_value)) = (item.get("name"), item.get("value")) {
            insert_header(&mut headers, name, header_value);
        }
        i = i + 1;
    }
    assert(items@.take(items@.len() as int) =~= items@);
    headers
}

/// `a` is `prefix.name` with the values of an entry of `s` whose name is
/// `accept`, `content-type` or `traceparent`.
pub open spec fn export_of_named(
    prefix: Seq<char>,
    s: Seq<(Seq<char>, Seq<Seq<char>>)>,
    a: (Seq<char>, Seq<Seq<char>>),
) -> bool {
    exists|j: int|
        0 <= j < s.len() && (#[trigger] s[j].0 == "accept"@ || s[j].0 == "content-type"@ || s[j].0
            == "traceparent"@) && a == (prefix + "."@ + s[j].0, s[j].1)
}

/// The exported headers are exactly the entries named `accept`, `content-type` or
/// `traceparent`: every exported attribute is `prefix.name` with the values of
/// such an entry, and every such entry is exported.
pub proof fn law_header_allowlist(prefix: Seq<char>, s: Seq<(Seq<char>, Seq<Seq<char>>)>)
    ensures
        forall|i: int|
            0 <= i < allowed_attributes(prefix, s).len() ==> export_of_named(
                prefix,
                s,
                #[trigger] allowed_attributes(prefix, s)[i],
            ),
        forall|j: int|
            0 <= j < s.len() && (#[trigger] s[j].0 == "accept"@ || s[j].0 == "content-type"@
                || s[j].0 == "traceparent"@) ==> allowed_attributes(prefix, s).contains(
                (prefix + "."@ + s[j].0, s[j].1),
            ),
    decreases s.len(),
{
    if s.len() > 0 {
        let rest = s.drop_last();
        law_header_allowlist(prefix, rest);
        let r = allowed_attributes(prefix, s);
        let q = allowed_attributes(prefix, rest);
        assert forall|j: int|
            0 <= j < s.len() && (#[trigger] s[j].0 == "accept"@ || s[j].0 == "content-type"@
                || s[j].0 == "traceparent"@) implies r.contains((prefix + "."@ + s[j].0, s[j].1)) by {
            if j < rest.len() {
                assert(rest[j] == s[j]);
                assert(q.contains((prefix + "."@ + rest[j].0, rest[j].1)));
                let k = choose|k: int| 0 <= k < q.len() && q[k] == (prefix + "."@ + rest[j].0, rest[j].1);
                assert(r[k] == q[k]);
            } else {
                assert(r[r.len() - 1] == (prefix + "."@ + s[j].0, s[j].1));
            }
        }
    }
    law_exported_headers(prefix, s);
    assert forall|i: int| 0 <= i < allowed_attributes(prefix, s).len() implies export_of_named(
        prefix,
        s,
        #[trigger] allowed_attributes(prefix, s)[i],
    ) by {
        let a = allowed_attributes(prefix, s)[i];
        assert(exported_from(prefix, s, a));
        let j = choose|j: int|
            0 <= j < s.len() && allowed_header(#[trigger] s[j].0) && !sensitive_header(s[j].0)
                && a == (prefix + "."@ + s[j].0, s[j].1);
        assert(s[j].0 == "accept"@ || s[j].0 == "content-type"@ || s[j].0 == "traceparent"@);
        assert(a == (prefix + "."@ + s[j].0, s[j].1));
    }
}

/// Headers read from a HAR entry's JSON are grouped under names in ascending
/// order, each name once; every name is lowercased and never one of the sensitive
/// headers (`authorization`, `cookie`, `proxy-authorization`, `set-cookie`).
pub proof fn law_json_headers(items: Seq<Json>)
    ensures
        sorted_keys(json_headers(items)),
        forall|i: int|
            0 <= i < json_headers(items).len() ==> {
                let k = #[trigger] json_headers(items)[i].0;
                lowercase(k) == k && !sensitive_header(k)
            },
    decreases items.len(),
{
    if items.len() > 0 {
        let rest = items.drop_last();
        law_json_headers(rest);
        let s = json_headers(rest);
        let item = items.last();
        match (get(item, "name"@), get(item, "value"@)) {
            (Some(n), Some(v)) => match as_str(Some(n)) {
                Some(name) => if !sensitive_header(lowercase(name)) {
                    let value = match as_str(Some(v)) {
                        Some(x) => x,
                        None => Seq::empty(),
                    };
                    lemma_header_insert_sorted(s, lowercase(name), value);
                    lemma_lowercase_idempotent(name);
                    lemma_header_insert_keeps(
                        s,
                        lowercase(name),
                        value,
                        |k: Seq<char>| lowercase(k) == k && !sensitive_header(k),
                    );
                },
                None => {},
            },
            _ => {},
        }
    }
}

} // verus!
