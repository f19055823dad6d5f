//! The resource that every exported payload describes: the browser service.
use vstd::prelude::*;

use opentelemetry::KeyValue;
use opentelemetry_sdk::Resource;

use crate::internal::normalize::url::pair_views;
use crate::internal::specs::telemetry::{attr_views, TelemetryAttribute, TelemetryValue, ValueView};
use crate::internal::telemetry::config::{SERVICE_NAME, SERVICE_NAMESPACE};

verus! {

/// The value of the last pair with key `key`, if any.
pub open spec fn last_value(pairs: Seq<(Seq<char>, Seq<char>)>, key: Seq<char>) -> Option<Seq<char>>
    decreases pairs.len(),
{
    if pairs.len() == 0 {
        None
    } else if pairs.last().0 == key {
        Some(pairs.last().1)
    } else {
        last_value(pairs.drop_last(), key)
    }
}

/// `out` holds each key of `input` once, with the value of its last occurrence
/// there, in some order.
pub open spec fn deduplicated(
    out: Seq<(Seq<char>, Seq<char>)>,
    input: Seq<(Seq<char>, Seq<char>)>,
) -> bool {
    &&& forall|i: int, j: int| 0 <= i < j < out.len() ==> out[i].0 != out[j].0
    &&& forall|i: int| 0 <= i < out.len() ==> last_value(input, out[i].0) == Some(out[i].1)
    &&& forall|j: int|
        0 <= j < input.len() ==> exists|i: int| 0 <= i < out.len() && #[trigger] out[i].0 == #[trigger] input[j].0
}

/// Builds an `opentelemetry_sdk::Resource` from key-value pairs
/// (`Resource::builder_empty().with_attributes(..).build()`) and reads its
/// attributes back with `Resource::iter`, each key and string value displayed.
/// Claimed, as the SDK's source shows: the resource keeps its attributes in a
/// `HashMap`, so each key comes back once, with the value of its last occurrence.
/// The order in which they come back is that of the map, and is left unsaid.
#[verifier::external_body]
fn resource_entries(pairs: Vec<(String, String)>) -> (r: Vec<(String, String)>)
    ensures
        deduplicated(pair_views(r@), pair_views(pairs@)),
{
    let mut kvs: Vec<KeyValue> = Vec::new();
    for (key, value) in pairs {
        kvs.push(KeyValue::new(key, value));
    }
    let resource = Resource::builder_empty().with_attributes(kvs).build();
    let mut r: Vec<(String, String)> = Vec::new();
    for (key, value) in resource.iter() {
        r.push((key.to_string(), value.to_string()));
    }
    r
}

/// The resource attributes: the service's name and namespace, the telemetry SDK's
/// name and language, and the instance id when one is given.
pub open spec fn resource_pairs(instance_id: Option<Seq<char>>) -> Seq<(Seq<char>, Seq<char>)> {
    let base = seq![
        ("service.name"@, SERVICE_NAME@),
        ("service.namespace"@, SERVICE_NAMESPACE@),
        ("telemetry.sdk.name"@, "hosho"@),
        ("telemetry.sdk.language"@, "webjs"@),
    ];
    match instance_id {
        Some(id) => base.push(("service.instance.id"@, id)),
        None => base,
    }
}

/// The resource attributes as string attributes.
pub open spec fn resource_attr_views(instance_id: Option<Seq<char>>) -> Seq<(Seq<char>, ValueView)> {
    resource_pairs(instance_id).map_values(
        |p: (Seq<char>, Seq<char>)| (p.0, ValueView::Text(p.1)),
    )
}

/// `a` and `b` hold the same items, each once: `a` is `b` in some order.
pub open spec fn reordered<T>(a: Seq<T>, b: Seq<T>) -> bool {
    &&& a.len() == b.len()
    &&& a.no_duplicates()
    &&& forall|i: int| 0 <= i < a.len() ==> b.contains(#[trigger] a[i])
    &&& forall|j: int| 0 <= j < b.len() ==> a.contains(#[trigger] b[j])
}

proof fn lemma_last_value_found(pairs: Seq<(Seq<char>, Seq<char>)>, key: Seq<char>)
    requires
        forall|i: int, j: int| 0 <= i < j < pairs.len() ==> pairs[i].0 != pairs[j].0,
    ensures
        forall|j: int| 0 <= j < pairs.len() ==> last_value(pairs, #[trigger] pairs[j].0) == Some(pairs[j].1),
        last_value(pairs, key) matches Some(v) ==> pairs.contains((key, v)),
    decreases pairs.len(),
{
    if pairs.len() > 0 {
        let rest = pairs.drop_last();
        lemma_last_value_found(rest, key);
        assert forall|j: int| 0 <= j < pairs.len() implies last_value(pairs, #[trigger] pairs[j].0)
            == Some(pairs[j].1) by {
            if j < pairs.len() - 1 {
                assert(rest[j] == pairs[j]);
                lemma_last_value_found(rest, pairs[j].0);
            }
        }
        if let Some(v) = last_value(rest, key) {
            if pairs.last().0 != key {
                let k = choose|k: int| 0 <= k < rest.len() && rest[k] == (key, v);
                assert(pairs[k] == (key, v));
            }
        }
        if pairs.last().0 == key {
            assert(pairs[pairs.len() - 1] == (key, pairs.last().1));
        }
    }
}

/// The resource attributes, in the order the SDK's resource gives them back: the
/// service name `hosho-browser`, the namespace `hosho`, the SDK name `hosho`, the
/// SDK language `webjs`, and `service.instance.id` when an id is given.
pub fn resource_attributes(instance_id: Option<&str>) -> (r: Vec<TelemetryAttribute>)
    ensures
        reordered(
            attr_views(r@),
            resource_attr_views(
                match instance_id {
                    Some(id) => Some(id@),
                    None => None,
                },
            ),
        ),
{
    let ghost inst = match instance_id {
        Some(id) => Some(id@),
        None => None,
    };
    let mut pairs: Vec<(String, String)> = Vec::new();
    pairs.push(("service.name".to_owned(), SERVICE_NAME.to_owned()));
    pairs.push(("service.namespace".to_owned(), SERVICE_NAMESPACE.to_owned()));
    pairs.push(("telemetry.sdk.name".to_owned(), "hosho".to_owned()));
    pairs.push(("telemetry.sdk.language".to_owned(), "webjs".to_owned()));
    match instance_id {
        Some(id) => pairs.push(("service.instance.id".to_owned(), id.to_owned())),
        None => {},
    }
    let ghost input = pair_views(pairs@);
    proof {
        reveal_strlit("service.name");
        reveal_strlit("service.namespace");
        reveal_strlit("telemetry.sdk.name");
        reveal_strlit("telemetry.sdk.language");
        reveal_strlit("service.instance.id");
        assert(input =~= resource_pairs(inst));
        assert forall|i: int, j: int| 0 <= i < j < input.len() implies input[i].0 != input[j].0 by {
            if input[i].0 == input[j].0 {
                assert(input[i].0.len() == input[j].0.len());
                if i == 0 && j == 4 {
                    assert(input[i].0[8] != input[j].0[8]);
                }
            }
        }
    }
    let entries = resource_entries(pairs);
    let mut r: Vec<TelemetryAttribute> = Vec::new();
    let mut i: usize = 0;
    while i < entries.len()
        invariant
            0 <= i <= entries@.len(),
            r@.len() == i,
            forall|k: int|
                0 <= k < i ==> #[trigger] r@[k]@ == (entries@[k].0@, ValueView::Text(
                    entries@[k].1@,
                )),
        decreases entries@.len() - i,
    {
        let (key, value) = (&entries[i].0, &entries[i].1);
        r.push(TelemetryAttribute { key: key.clone(), value: TelemetryValue::String(value.clone()) });
        i = i + 1;
    }
    proof {
        let out = pair_views(entries@);
        let expected = resource_pairs(inst);
        lemma_last_value_found(expected, Seq::empty());
        assert forall|k: int| 0 <= k < out.len() implies expected.contains(#[trigger] out[k]) by {
            lemma_last_value_found(expected, out[k].0);
        }
        assert forall|j: int| 0 <= j < expected.len() implies out.contains(#[trigger] expected[j]) by {
            let k = choose|k: int| 0 <= k < out.len() && out[k].0 == expected[j].0;
            assert(out[k] == expected[j]);
        }
        assert(out.no_duplicates());
        assert(expected.no_duplicates());
        assert(out.to_set() =~= expected.to_set());
        out.unique_seq_to_set();
        expected.unique_seq_to_set();
        let views = attr_views(r@);
        let want = resource_attr_views(inst);
        assert(views =~= out.map_values(|p: (Seq<char>, Seq<char>)| (p.0, ValueView::Text(p.1))));
        assert forall|k: int| 0 <= k < views.len() implies want.contains(#[trigger] views[k]) by {
            let j = choose|j: int| 0 <= j < expected.len() && expected[j] == out[k];
            assert(want[j] == views[k]);
        }
        assert forall|j: int| 0 <= j < want.len() implies views.contains(#[trigger] want[j]) by {
            let k = choose|k: int| 0 <= k < out.len() && out[k] == expected[j];
            assert(want[j] == views[k]);
        }
        assert forall|a: int, b: int| 0 <= a < views.len() && 0 <= b < views.len() && a != b implies views[a] != views[b] by {
            if a < b {
                assert(out[a].0 != out[b].0);
            } else {
                assert(out[b].0 != out[a].0);
            }
        }
    }
    r
}

} // verus!
