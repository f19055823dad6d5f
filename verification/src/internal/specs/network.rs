//! The normalized record of one network request, and its header map.
use vstd::prelude::*;

use crate::internal::normalize::url::{sanitize_url, sanitized_of, url_parts_of};
use crate::internal::specs::capture::{HarHeader, HarRecord, HarRequest, HarResponse};
use crate::internal::normalize::identity::{dedupe_key, text_hash};
use crate::internal::specs::har::{har_capture_empty, HarCapture};
use crate::internal::specs::timing::{BrowserContext, RequestTiming};
use crate::json::opt_chars;
use crate::text::{
    ascii_lowercase, concat, key_less, key_lt, lemma_key_less_transitive, lemma_key_order, lower_char,
    lowercase, str_eq,
};

pub use crate::internal::normalize::identity::hash_parts;

verus! {

pub const NETWORK_REQUEST_SCHEMA: &'static str = "hosho.network.request.v1";

/// The characters of a sequence of strings.
pub open spec fn strings(v: Seq<String>) -> Seq<Seq<char>> {
    v.map_values(|s: String| s@)
}

/// Header names in ascending key order, each at most once.
pub open spec fn sorted_keys(s: Seq<(Seq<char>, Seq<Seq<char>>)>) -> bool {
    forall|i: int, j: int| 0 <= i < j < s.len() ==> key_less(s[i].0, s[j].0)
}

/// Adds `value` under `name` to an ordered header map: appended to the values of
/// that name when it is present, else as a new entry in key order.
pub open spec fn header_insert(
    s: Seq<(Seq<char>, Seq<Seq<char>>)>,
    name: Seq<char>,
    value: Seq<char>,
) -> Seq<(Seq<char>, Seq<Seq<char>>)>
    decreases s.len(),
{
    if s.len() == 0 {
        seq![(name, seq![value])]
    } else if s[0].0 == name {
        seq![(name, s[0].1.push(value))] + s.drop_first()
    } else if key_less(name, s[0].0) {
        seq![(name, seq![value])] + s
    } else {
        seq![s[0]] + header_insert(s.drop_first(), name, value)
    }
}

/// Header values grouped by name, ordered by name.
#[derive(Debug)]
pub struct HeaderMap {
    entries: Vec<(String, Vec<String>)>,
}

impl View for HeaderMap {
    type V = Seq<(Seq<char>, Seq<Seq<char>>)>;

    closed spec fn view(&self) -> Seq<(Seq<char>, Seq<Seq<char>>)> {
        self.entries@.map_values(|e: (String, Vec<String>)| (e.0@, strings(e.1@)))
    }
}

proof fn lemma_insert_at(
    s: Seq<(Seq<char>, Seq<Seq<char>>)>,
    name: Seq<char>,
    value: Seq<char>,
    i: int,
)
    requires
        0 <= i <= s.len(),
        forall|j: int| 0 <= j < i ==> key_less(#[trigger] s[j].0, name),
        i < s.len() ==> !key_less(s[i].0, name),
    ensures
        i < s.len() && s[i].0 == name ==> header_insert(s, name, value) == s.take(i) + seq![
            (name, s[i].1.push(value)),
        ] + s.skip(i + 1),
        !(i < s.len() && s[i].0 == name) ==> header_insert(s, name, value) == s.take(i) + seq![
            (name, seq![value]),
        ] + s.skip(i),
    decreases i,
{
    if i == 0 {
        assert(s.take(0) =~= Seq::<(Seq<char>, Seq<Seq<char>>)>::empty());
        assert(s.skip(0) =~= s);
        if s.len() > 0 {
            lemma_key_order(s[0].0, name);
            assert(s.skip(1) =~= s.drop_first());
        }
    } else {
        lemma_key_order(s[0].0, name);
        assert(key_less(s[0].0, name));
        let t = s.drop_first();
        assert forall|j: int| 0 <= j < i - 1 implies key_less(#[trigger] t[j].0, name) by {
            assert(t[j] == s[j + 1]);
        }
        lemma_insert_at(t, name, value, i - 1);
        assert(s.take(i) =~= seq![s[0]] + t.take(i - 1));
        assert(s.skip(i) =~= t.skip(i - 1));
        if i < s.len() && s[i].0 == name {
            assert(s.skip(i + 1) =~= t.skip(i));
            assert(seq![s[0]] + (t.take(i - 1) + seq![(name, t[i - 1].1.push(value))] + t.skip(i))
                =~= s.take(i) + seq![(name, s[i].1.push(value))] + s.skip(i + 1));
        } else {
            assert(seq![s[0]] + (t.take(i - 1) + seq![(name, seq![value])] + t.skip(i - 1))
                =~= s.take(i) + seq![(name, seq![value])] + s.skip(i));
        }
    }
}

impl HeaderMap {
    #[verifier::type_invariant]
    closed spec fn keys_ordered(&self) -> bool {
        sorted_keys(self@)
    }

    /// An empty map.
    pub fn new() -> (m: Self)
        ensures
            m@ == Seq::<(Seq<char>, Seq<Seq<char>>)>::empty(),
    {
        let m = HeaderMap { entries: Vec::new() };
        assert(m@ =~= Seq::<(Seq<char>, Seq<Seq<char>>)>::empty());
        m
    }

    /// Number of distinct header names.
    pub fn len(&self) -> (n: usize)
        ensures
            n == self@.len(),
    {
        self.entries.len()
    }

    /// The name and values of the entry at position `i`.
    pub fn entry(&self, i: usize) -> (e: (&String, &Vec<String>))
        requires
            i < self@.len(),
        ensures
            e.0@ == self@[i as int].0,
            strings(e.1@) == self@[i as int].1,
    {
        (&self.entries[i].0, &self.entries[i].1)
    }

    /// Keys stay in ascending order, each at most once.
    pub fn ordered(&self)
        ensures
            sorted_keys(self@),
    {
        proof {
            use_type_invariant(self);
        }
    }

    /// Adds `value` under `name`.
    pub fn insert(&mut self, name: String, value: String)
        ensures
            final(self)@ == header_insert(old(self)@, name@, value@),
            sorted_keys(final(self)@),
    {
        proof {
            use_type_invariant(&*self);
        }
        let ghost s = self@;
        let mut i: usize = 0;
        while i < self.entries.len() && key_lt(self.entries[i].0.as_str(), name.as_str())
            invariant
                0 <= i <= self.entries@.len(),
                s == self@,
                sorted_keys(s),
                forall|j: int| 0 <= j < i ==> key_less(#[trigger] s[j].0, name@),
            decreases self.entries@.len() - i,
        {
            i = i + 1;
        }
        proof {
            lemma_insert_at(s, name@, value@, i as int);
        }
        let mut entries = Vec::new();
        std::mem::swap(&mut entries, &mut self.entries);
        if i < entries.len() && str_eq(entries[i].0.as_str(), name.as_str()) {
            let (key, mut values) = entries.remove(i);
            let ghost old_values = values@;
            values.push(value);
            entries.insert(i, (key, values));
            let ghost r = entries@.map_values(|e: (String, Vec<String>)| (e.0@, strings(e.1@)));
            assert(strings(values@) =~= strings(old_values).push(value@));
            assert(r =~= s.take(i as int) + seq![(name@, s[i as int].1.push(value@))] + s.skip(
                i + 1,
            ));
        } else {
            let mut values: Vec<String> = Vec::new();
            values.push(value);
            entries.insert(i, (name, values));
            let ghost r = entries@.map_values(|e: (String, Vec<String>)| (e.0@, strings(e.1@)));
            assert(strings(seq![value]) =~= seq![value@]);
            assert(r =~= s.take(i as int) + seq![(name@, seq![value@])] + s.skip(i as int));
            proof {
                if i < s.len() {
                    lemma_key_order(s[i as int].0, name@);
                }
                assert forall|a: int, b: int| 0 <= a < b < r.len() implies key_less(
                    r[a].0,
                    r[b].0,
                ) by {
                    if b == i {
                        assert(r[a] == s[a]);
                    } else if a == i {
                        assert(r[b] == s[b - 1]);
                        if b - 1 > i {
                            lemma_key_less_transitive(name@, s[i as int].0, s[b - 1].0);
                        }
                    } else if a > i {
                        assert(r[a] == s[a - 1] && r[b] == s[b - 1]);
                    } else if b > i {
                        assert(r[a] == s[a] && r[b] == s[b - 1]);
                    } else {
                        assert(r[a] == s[a] && r[b] == s[b]);
                    }
                }
            }
        }
        self.entries = entries;
    }
}

/// The values recorded under `name` in an ordered header map, if any.
pub open spec fn header_values(
    s: Seq<(Seq<char>, Seq<Seq<char>>)>,
    name: Seq<char>,
) -> Option<Seq<Seq<char>>>
    decreases s.len(),
{
    if s.len() == 0 {
        None
    } else if s[0].0 == name {
        Some(s[0].1)
    } else {
        header_values(s.drop_first(), name)
    }
}

impl HeaderMap {
    /// The values recorded under `name`, if any.
    pub fn get(&self, name: &str) -> (r: Option<&Vec<String>>)
        ensures
            match r {
                Some(v) => header_values(self@, name@) == Some(strings(v@)),
                None => header_values(self@, name@) is None,
            },
    {
        let mut i: usize = 0;
        assert(self@.skip(0) =~= self@);
        while i < self.entries.len()
            invariant
                0 <= i <= self@.len(),
                header_values(self@, name@) == header_values(self@.skip(i as int), name@),
            decreases self@.len() - i,
        {
            assert(self@.skip(i as int)[0] == self@[i as int]);
            if str_eq(self.entries[i].0.as_str(), name) {
                return Some(&self.entries[i].1);
            }
            assert(self@.skip(i as int).drop_first() =~= self@.skip(i + 1));
            i = i + 1;
        }
        None
    }
}

/// Every key of `header_insert(s, name, value)` is `name` or a key of `s`.
pub proof fn lemma_header_insert_keys(
    s: Seq<(Seq<char>, Seq<Seq<char>>)>,
    name: Seq<char>,
    value: Seq<char>,
)
    ensures
        forall|i: int|
            0 <= i < header_insert(s, name, value).len() ==> #[trigger] header_insert(
                s,
                name,
                value,
            )[i].0 == name || exists|j: int| 0 <= j < s.len() && s[j].0 == header_insert(
                s,
                name,
                value,
            )[i].0,
    decreases s.len(),
{
    let r = header_insert(s, name, value);
    if s.len() > 0 && s[0].0 != name && !key_less(name, s[0].0) {
        let t = s.drop_first();
        lemma_header_insert_keys(t, name, value);
        assert forall|i: int| 0 <= i < r.len() implies #[trigger] r[i].0 == name || exists|j: int|
            0 <= j < s.len() && s[j].0 == r[i].0 by {
            if i > 0 {
                let k = header_insert(t, name, value);
                assert(r[i] == k[i - 1]);
                if k[i - 1].0 != name {
                    let j = choose|j: int| 0 <= j < t.len() && t[j].0 == k[i - 1].0;
                    assert(s[j + 1] == t[j]);
                }
            } else {
                assert(s[0].0 == r[0].0);
            }
        }
    } else if s.len() > 0 {
        assert forall|i: int| 0 <= i < r.len() implies #[trigger] r[i].0 == name || exists|j: int|
            0 <= j < s.len() && s[j].0 == r[i].0 by {
            if i > 0 {
                if s[0].0 == name {
                    assert(r[i] == s[i]);
                } else {
                    assert(r[i] == s[i - 1]);
                }
            }
        }
    }
}

/// Inserting keeps keys in ascending order, each once.
#[verifier::spinoff_prover]
pub proof fn lemma_header_insert_sorted(
    s: Seq<(Seq<char>, Seq<Seq<char>>)>,
    name: Seq<char>,
    value: Seq<char>,
)
    requires
        sorted_keys(s),
    ensures
        sorted_keys(header_insert(s, name, value)),
    decreases s.len(),
{
    let r = header_insert(s, name, value);
    if s.len() == 0 {
    } else if s[0].0 == name {
        assert forall|i: int, j: int| 0 <= i < j < r.len() implies key_less(r[i].0, r[j].0) by {
            assert(r[j] == s[j]);
            if i > 0 {
                assert(r[i] == s[i]);
            }
        }
    } else if key_less(name, s[0].0) {
        assert forall|i: int, j: int| 0 <= i < j < r.len() implies key_less(r[i].0, r[j].0) by {
            assert(r[j] == s[j - 1]);
            if i > 0 {
                assert(r[i] == s[i - 1]);
            } else if j > 1 {
                lemma_key_less_transitive(name, s[0].0, s[j - 1].0);
            }
        }
    } else {
        let t = s.drop_first();
        lemma_key_order(s[0].0, name);
        assert(key_less(s[0].0, name));
        lemma_header_insert_sorted(t, name, value);
        lemma_header_insert_keys(t, name, value);
        let k = header_insert(t, name, value);
        assert forall|i: int, j: int| 0 <= i < j < r.len() implies key_less(r[i].0, r[j].0) by {
            assert(r[j] == k[j - 1]);
            if i > 0 {
                assert(r[i] == k[i - 1]);
            } else {
                assert(r[0] == s[0]);
                if k[j - 1].0 != name {
                    let m = choose|m: int| 0 <= m < t.len() && t[m].0 == k[j - 1].0;
                    assert(t[m] == s[m + 1]);
                }
            }
        }
    }
}

/// In an ordered map whose first key comes after `name`, `name` has no values.
proof fn lemma_absent_before(s: Seq<(Seq<char>, Seq<Seq<char>>)>, name: Seq<char>)
    requires
        sorted_keys(s),
        s.len() > 0,
        key_less(name, s[0].0),
    ensures
        header_values(s, name) is None,
    decreases s.len(),
{
    lemma_key_order(name, s[0].0);
    assert(s[0].0 != name);
    let t = s.drop_first();
    if t.len() > 0 {
        assert(t[0] == s[1]);
        assert(key_less(s[0].0, s[1].0));
        lemma_key_less_transitive(name, s[0].0, s[1].0);
        assert(sorted_keys(t)) by {
            assert forall|i: int, j: int| 0 <= i < j < t.len() implies key_less(t[i].0, t[j].0) by {
                assert(t[i] == s[i + 1] && t[j] == s[j + 1]);
            }
        }
        lemma_absent_before(t, name);
    }
}

/// What a read gives back of a write: after adding `value` under `name`, the
/// values under `name` are those before with `value` appended (or `value` alone),
/// and the values under every other name are unchanged.
#[verifier::spinoff_prover]
pub proof fn law_header_insert_get(
    s: Seq<(Seq<char>, Seq<Seq<char>>)>,
    name: Seq<char>,
    value: Seq<char>,
    other: Seq<char>,
)
    requires
        sorted_keys(s),
    ensures
        header_values(header_insert(s, name, value), name) == Some(
            match header_values(s, name) {
                Some(values) => values.push(value),
                None => seq![value],
            },
        ),
        other != name ==> header_values(header_insert(s, name, value), other) == header_values(
            s,
            other,
        ),
    decreases s.len(),
{
    let r = header_insert(s, name, value);
    if s.len() == 0 {
        assert(r.drop_first() =~= Seq::<(Seq<char>, Seq<Seq<char>>)>::empty());
        assert(r[0].0 == name);
        if other != name {
            assert(header_values(r, other) == header_values(r.drop_first(), other));
        }
    } else if s[0].0 == name {
        assert(r.drop_first() =~= s.drop_first());
        assert(r[0].0 == name);
        if other != name {
            assert(header_values(r, other) == header_values(r.drop_first(), other));
            assert(header_values(s, other) == header_values(s.drop_first(), other));
        }
    } else if key_less(name, s[0].0) {
        lemma_absent_before(s, name);
        assert(r.drop_first() =~= s);
        assert(r[0].0 == name);
        if other != name {
            assert(header_values(r, other) == header_values(r.drop_first(), other));
        }
    } else {
        let t = s.drop_first();
        assert(sorted_keys(t)) by {
            assert forall|i: int, j: int| 0 <= i < j < t.len() implies key_less(t[i].0, t[j].0) by {
                assert(t[i] == s[i + 1] && t[j] == s[j + 1]);
            }
        }
        law_header_insert_get(t, name, value, other);
        assert(r.drop_first() =~= header_insert(t, name, value));
        assert(r[0] == s[0]);
        if other != name && s[0].0 != other {
            assert(header_values(r, other) == header_values(r.drop_first(), other));
            assert(header_values(s, other) == header_values(t, other));
        }
    }
}

/// Lowercasing twice is lowercasing once.
pub proof fn lemma_lowercase_idempotent(s: Seq<char>)
    ensures
        lowercase(lowercase(s)) == lowercase(s),
{
    assert forall|i: int| 0 <= i < s.len() implies lower_char(lower_char(s[i])) == lower_char(s[i]) by {
        let c = s[i];
        if 'A' <= c && c <= 'Z' {
            assert('a' <= lower_char(c) && lower_char(c) <= 'z');
        }
    }
    assert(lowercase(lowercase(s)) =~= lowercase(s));
}

/// The keys of a header map all satisfy `ok`, when those of `s` and `name` do.
pub proof fn lemma_header_insert_keeps(
    s: Seq<(Seq<char>, Seq<Seq<char>>)>,
    name: Seq<char>,
    value: Seq<char>,
    ok: spec_fn(Seq<char>) -> bool,
)
    requires
        forall|i: int| 0 <= i < s.len() ==> ok(#[trigger] s[i].0),
        ok(name),
    ensures
        forall|i: int|
            0 <= i < header_insert(s, name, value).len() ==> ok(
                #[trigger] header_insert(s, name, value)[i].0,
            ),
{
    lemma_header_insert_keys(s, name, value);
    let r = header_insert(s, name, value);
    assert forall|i: int| 0 <= i < r.len() implies ok(#[trigger] r[i].0) by {
        if r[i].0 != name {
            let j = choose|j: int| 0 <= j < s.len() && s[j].0 == r[i].0;
            assert(ok(s[j].0));
        }
    }
}

/// A stored header name: not empty, in lower case, and not sensitive.
pub open spec fn stored_name(name: Seq<char>) -> bool {
    name.len() > 0 && lowercase(name) == name && !sensitive_header(name)
}

/// Headers recorded from a HAR record are grouped under names in ascending order,
/// each name once; every name is lowercased, not empty, and never one of the
/// sensitive headers (`authorization`, `cookie`, `proxy-authorization`,
/// `set-cookie`).
pub proof fn law_recorded_headers(items: Seq<HarHeader>)
    ensures
        sorted_keys(headers_of(items)),
        forall|i: int|
            0 <= i < headers_of(items).len() ==> stored_name(#[trigger] headers_of(items)[i].0),
    decreases items.len(),
{
    if items.len() > 0 {
        let rest = items.drop_last();
        law_recorded_headers(rest);
        let s = headers_of(rest);
        let lower = lowercase(items.last().name@);
        if lower.len() > 0 && !sensitive_header(lower) {
            lemma_header_insert_sorted(s, lower, items.last().value@);
            lemma_lowercase_idempotent(items.last().name@);
            lemma_header_insert_keeps(s, lower, items.last().value@, |k: Seq<char>| stored_name(k));
        }
    }
}

/// Header names whose values may be exported as span attributes.
pub open spec fn allowed_header(name: Seq<char>) -> bool {
    name == "accept"@ || name == "content-type"@ || name == "traceparent"@
}

/// Header names whose values are never kept.
pub open spec fn sensitive_header(name: Seq<char>) -> bool {
    name == "authorization"@ || name == "cookie"@ || name == "proxy-authorization"@ || name
        == "set-cookie"@
}

/// The exportable headers of a map, each named `prefix.name`, in key order.
pub open spec fn allowed_attributes(
    prefix: Seq<char>,
    s: Seq<(Seq<char>, Seq<Seq<char>>)>,
) -> Seq<(Seq<char>, Seq<Seq<char>>)>
    decreases s.len(),
{
    if s.len() == 0 {
        Seq::empty()
    } else {
        let rest = allowed_attributes(prefix, s.drop_last());
        if allowed_header(s.last().0) {
            rest.push((prefix + "."@ + s.last().0, s.last().1))
        } else {
            rest
        }
    }
}

/// `a` is the export of an entry of `s` under `prefix`: the entry's name is
/// allowed, hence not sensitive, and `a` is `prefix.name` with the entry's values.
pub open spec fn exported_from(
    prefix: Seq<char>,
    s: Seq<(Seq<char>, Seq<Seq<char>>)>,
    a: (Seq<char>, Seq<Seq<char>>),
) -> bool {
    exists|j: int|
        0 <= j < s.len() && allowed_header(#[trigger] s[j].0) && !sensitive_header(s[j].0) && a == (
            prefix + "."@ + s[j].0,
            s[j].1,
        )
}

/// Only allowed headers are exported: each exported attribute is named `prefix.`
/// and the name of an entry of the map whose name is `accept`, `content-type` or
/// `traceparent` (so never a sensitive one), and carries that entry's values.
pub proof fn law_exported_headers(prefix: Seq<char>, s: Seq<(Seq<char>, Seq<Seq<char>>)>)
    ensures
        forall|i: int|
            0 <= i < allowed_attributes(prefix, s).len() ==> exported_from(
                prefix,
                s,
                #[trigger] allowed_attributes(prefix, s)[i],
            ),
    decreases s.len(),
{
    if s.len() > 0 {
        let rest = s.drop_last();
        law_exported_headers(prefix, rest);
        let r = allowed_attributes(prefix, s);
        let q = allowed_attributes(prefix, rest);
        assert forall|i: int| 0 <= i < r.len() implies exported_from(prefix, s, #[trigger] r[i]) by {
            if i < q.len() {
                assert(r[i] == q[i]);
                assert(exported_from(prefix, rest, q[i]));
                let j = choose|j: int|
                    0 <= j < rest.len() && allowed_header(#[trigger] rest[j].0) && !sensitive_header(
                        rest[j].0,
                    ) && q[i] == (prefix + "."@ + rest[j].0, rest[j].1);
                assert(s[j] == rest[j]);
                assert(allowed_header(s[j].0));
            } else {
                let j = s.len() - 1;
                assert(allowed_header(s[j].0));
                assert(r[i] == (prefix + "."@ + s[j].0, s[j].1));
                proof_allowed_not_sensitive(s[j].0);
            }
        }
    }
}

proof fn proof_allowed_not_sensitive(name: Seq<char>)
    requires
        allowed_header(name),
    ensures
        !sensitive_header(name),
{
    reveal_strlit("accept");
    reveal_strlit("content-type");
    reveal_strlit("traceparent");
    reveal_strlit("authorization");
    reveal_strlit("cookie");
    reveal_strlit("proxy-authorization");
    reveal_strlit("set-cookie");
    if sensitive_header(name) {
        assert(name.len() == "accept"@.len() || name.len() == "content-type"@.len() || name.len()
            == "traceparent"@.len());
        if name == "cookie"@ {
            assert(name[0] != "accept"@[0]);
        }
        if name == "set-cookie"@ {
            assert(name[0] != "traceparent"@[0]);
        }
    }
}

pub fn is_allowed_header(name: &str) -> (r: bool)
    ensures
        r == allowed_header(name@),
{
    str_eq(name, "accept") || str_eq(name, "content-type") || str_eq(name, "traceparent")
}

pub fn is_sensitive(name: &str) -> (r: bool)
    ensures
        r == sensitive_header(name@),
{
    str_eq(name, "authorization") || str_eq(name, "cookie") || str_eq(name, "proxy-authorization")
        || str_eq(name, "set-cookie")
}

/// The characters of attribute pairs.
pub open spec fn attribute_views(v: Seq<(String, Vec<String>)>) -> Seq<(Seq<char>, Seq<Seq<char>>)> {
    v.map_values(|e: (String, Vec<String>)| (e.0@, strings(e.1@)))
}

/// The exportable headers (`accept`, `content-type`, `traceparent`) of a map, each
/// named `prefix.name`, in key order.
pub fn allowed_header_attributes(prefix: &str, headers: &HeaderMap) -> (r: Vec<(String, Vec<String>)>)
    ensures
        attribute_views(r@) == allowed_attributes(prefix@, headers@),
{
    let mut r: Vec<(String, Vec<String>)> = Vec::new();
    let mut i: usize = 0;
    let dotted = concat(prefix, ".");
    assert(headers@.take(0) =~= Seq::<(Seq<char>, Seq<Seq<char>>)>::empty());
    assert(attribute_views(r@) =~= Seq::<(Seq<char>, Seq<Seq<char>>)>::empty());
    while i < headers.len()
        invariant
            0 <= i <= headers@.len(),
            dotted@ == prefix@ + "."@,
            attribute_views(r@) == allowed_attributes(prefix@, headers@.take(i as int)),
        decreases headers@.len() - i,
    {
        let (name, values) = headers.entry(i);
        assert(headers@.take(i + 1).drop_last() =~= headers@.take(i as int));
        if is_allowed_header(name.as_str()) {
            let key = concat(dotted.as_str(), name.as_str());
            let copied = values.clone();
            r.push((key, copied));
            assert(attribute_views(r@) =~= allowed_attributes(prefix@, headers@.take(i as int)).push(
                (prefix@ + "."@ + name@, strings(values@)),
            ));
        }
        i = i + 1;
    }
    assert(headers@.take(headers@.len() as int) =~= headers@);
    r
}

/// A size or status when it is not negative.
pub open spec fn non_negative(value: Option<i64>) -> Option<i64> {
    match value {
        Some(n) => if n >= 0 {
            Some(n)
        } else {
            None
        },
        None => None,
    }
}

pub fn non_negative_i64(value: Option<i64>) -> (r: Option<i64>)
    ensures
        r == non_negative(value),
{
    match value {
        Some(n) => if n >= 0 {
            Some(n)
        } else {
            None
        },
        None => None,
    }
}

/// A header as recorded: its name is lowercased, and it is dropped when the name
/// is empty or sensitive.
pub open spec fn record_header(
    s: Seq<(Seq<char>, Seq<Seq<char>>)>,
    name: Seq<char>,
    value: Seq<char>,
) -> Seq<(Seq<char>, Seq<Seq<char>>)> {
    let lower = lowercase(name);
    if lower.len() > 0 && !sensitive_header(lower) {
        header_insert(s, lower, value)
    } else {
        s
    }
}

/// The header map of a list of HAR headers, recorded one after the other.
pub open spec fn headers_of(items: Seq<HarHeader>) -> Seq<(Seq<char>, Seq<Seq<char>>)>
    decreases items.len(),
{
    if items.len() == 0 {
        Seq::empty()
    } else {
        record_header(headers_of(items.drop_last()), items.last().name@, items.last().value@)
    }
}

fn insert_header(headers: &mut HeaderMap, name: &str, value: &str)
    ensures
        final(headers)@ == record_header(old(headers)@, name@, value@),
{
    let name = ascii_lowercase(name);
    if !name.as_str().is_empty() && !is_sensitive(name.as_str()) {
        headers.insert(name, value.to_owned());
    }
}

impl HeaderMap {
    /// The header map of a list of HAR headers.
    pub fn from_headers(items: &[HarHeader]) -> (m: HeaderMap)
        ensures
            m@ == headers_of(items@),
    {
        let mut headers = HeaderMap::new();
        let mut i: usize = 0;
        while i < items.len()
            invariant
                0 <= i <= items@.len(),
                headers@ == headers_of(items@.take(i as int)),
            decreases items@.len() - i,
        {
            assert(items@.take(i + 1).drop_last() =~= items@.take(i as int));
            insert_header(&mut headers, items[i].name.as_str(), items[i].value.as_str());
            i = i + 1;
        }
        assert(items@.take(items@.len() as int) =~= items@);
        headers
    }
}

/// How a request is identified: by the browser's request id when known, by the
/// hash of its capture, and by a key that deduplicates repeated captures.
#[derive(Debug)]
pub struct RequestIdentity {
    pub request_id: Option<String>,
    pub entry_hash: String,
    pub dedupe_key: String,
}

/// The request half of a captured exchange.
#[derive(Debug)]
pub struct HttpRequestSpec {
    pub method: String,
    pub url: String,
    pub url_sanitized: Option<String>,
    pub scheme: Option<String>,
    pub host: Option<String>,
    pub port: Option<u16>,
    pub http_version: Option<String>,
    pub headers: HeaderMap,
    pub headers_size: Option<i64>,
    pub body_size: Option<i64>,
}

/// The response half of a captured exchange.
#[derive(Debug)]
pub struct HttpResponseSpec {
    pub status: Option<i64>,
    pub status_text: Option<String>,
    pub http_version: Option<String>,
    pub mime_type: Option<String>,
    pub headers: HeaderMap,
    pub headers_size: Option<i64>,
    pub body_size: Option<i64>,
    pub from_cache: bool,
}

/// The code location that triggered a request.
#[derive(Debug)]
pub struct TraceTrigger {
    pub function_name: Option<String>,
    pub url: Option<String>,
    pub line_number: Option<i64>,
    pub column_number: Option<i64>,
}

/// Trace context that the capture carried along.
#[derive(Debug)]
pub struct TraceContext {
    pub traceparent: Option<String>,
    pub trigger: Option<TraceTrigger>,
}

impl TraceContext {
    /// A context without traceparent or trigger.
    pub fn empty() -> (t: Self)
        ensures
            t.traceparent is None,
            t.trigger is None,
    {
        TraceContext { traceparent: None, trigger: None }
    }
}

/// One normalized network request.
#[derive(Debug)]
pub struct NetworkRequest {
    pub schema: String,
    pub capture: HarCapture,
    pub identity: RequestIdentity,
    pub request: HttpRequestSpec,
    pub response: HttpResponseSpec,
    pub timing: RequestTiming,
    pub trace: TraceContext,
    pub browser: BrowserContext,
}

/// The method of a request, `_OTHER` when unknown.
pub open spec fn method_or_other(method: Option<Seq<char>>) -> Seq<char> {
    match method {
        Some(m) => m,
        None => "_OTHER"@,
    }
}

/// The URL of a request, empty when unknown.
pub open spec fn url_or_empty(url: Option<Seq<char>>) -> Seq<char> {
    match url {
        Some(u) => u,
        None => Seq::empty(),
    }
}

/// How a request half reads a typed HAR request.
pub open spec fn request_of(spec: HttpRequestSpec, request: HarRequest) -> bool {
    let parts = url_parts_of(spec.url@);
    &&& spec.method@ == method_or_other(opt_chars(request.method))
    &&& spec.url@ == url_or_empty(opt_chars(request.url))
    &&& opt_chars(spec.url_sanitized) == Some(sanitized_of(spec.url@))
    &&& opt_chars(spec.scheme) == parts.0
    &&& opt_chars(spec.host) == parts.1
    &&& spec.port == parts.2
    &&& spec.http_version == request.http_version
    &&& spec.headers@ == headers_of(request.headers@)
    &&& spec.headers_size == non_negative(request.headers_size)
    &&& spec.body_size == non_negative(request.body_size)
}

/// How a response half reads a typed HAR response.
pub open spec fn response_of(spec: HttpResponseSpec, response: HarResponse) -> bool {
    &&& spec.status == non_negative(response.status)
    &&& spec.status_text == response.status_text
    &&& spec.http_version == response.http_version
    &&& spec.mime_type == match response.content {
        Some(c) => c.mime_type,
        None => None,
    }
    &&& spec.headers@ == headers_of(response.headers@)
    &&& spec.headers_size == non_negative(response.headers_size)
    &&& spec.body_size == non_negative(response.body_size)
    &&& !spec.from_cache
}

impl HttpRequestSpec {
    /// The request half of a typed HAR record.
    pub fn from(request: &HarRequest) -> (spec: HttpRequestSpec)
        ensures
            request_of(spec, *request),
    {
        let url = match &request.url {
            Some(u) => u.clone(),
            None => String::new(),
        };
        let parts = sanitize_url(url.as_str());
        HttpRequestSpec {
            method: match &request.method {
                Some(m) => m.clone(),
                None => "_OTHER".to_owned(),
            },
            url,
            url_sanitized: Some(parts.sanitized),
            scheme: parts.scheme,
            host: parts.host,
            port: parts.port,
            http_version: request.http_version.clone(),
            headers: HeaderMap::from_headers(request.headers.as_slice()),
            headers_size: non_negative_i64(request.headers_size),
            body_size: non_negative_i64(request.body_size),
        }
    }
}

impl HttpResponseSpec {
    /// The response half of a typed HAR record.
    pub fn from(response: &HarResponse) -> (spec: HttpResponseSpec)
        ensures
            response_of(spec, *response),
    {
        HttpResponseSpec {
            status: non_negative_i64(response.status),
            status_text: response.status_text.clone(),
            http_version: response.http_version.clone(),
            mime_type: match &response.content {
                Some(c) => c.mime_type.clone(),
                None => None,
            },
            headers: HeaderMap::from_headers(response.headers.as_slice()),
            headers_size: non_negative_i64(response.headers_size),
            body_size: non_negative_i64(response.body_size),
            from_cache: false,
        }
    }
}

impl NetworkRequest {
    /// The normalized record of a typed HAR record. `payload_json` is the record's
    /// JSON text: its hash under `hosho.har.payload.v1` identifies the record.
    pub fn from(payload: HarRecord, payload_json: &str) -> (r: NetworkRequest)
        ensures
            r.schema@ == NETWORK_REQUEST_SCHEMA@,
            har_capture_empty(r.capture),
            r.identity.request_id is None,
            r.identity.entry_hash@ == text_hash("hosho.har.payload.v1"@, payload_json@),
            r.identity.dedupe_key@ == dedupe_key(
                r.identity.entry_hash@,
                r.request.method@,
                r.request.url@,
            ),
            request_of(r.request, payload.request),
            response_of(r.response, payload.response),
            r.timing == payload.timing,
            r.trace == payload.trace,
            r.browser.resource_type is None,
            r.browser.priority is None,
            r.browser.connection_id is None,
            r.browser.initiator is None,
    {
        let request = HttpRequestSpec::from(&payload.request);
        let response = HttpResponseSpec::from(&payload.response);
        let identity = RequestIdentity::from_payload(payload_json, &request);
        NetworkRequest {
            schema: NETWORK_REQUEST_SCHEMA.to_owned(),
            capture: HarCapture::empty(),
            identity,
            request,
            response,
            timing: payload.timing,
            trace: payload.trace,
            browser: BrowserContext::empty(),
        }
    }
}

} // verus!
