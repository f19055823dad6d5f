//! OTLP JSON payloads: the document shape shared by the three signals, and the
//! batch of payloads that one export sends.
use vstd::prelude::*;

use crate::internal::telemetry::config::{OtlpSignal, SCOPE_VERSION};
use crate::json::{
    json_single, json_string, member_models, model, models, push_item, push_member, single,
    JsonModel, JsonValue,
};

verus! {

/// The payloads of one export, one per signal that has data.
pub struct TelemetryBatch {
    pub traces: Option<JsonValue>,
    pub logs: Option<JsonValue>,
    pub metrics: Option<JsonValue>,
}

/// One request to the collector: the signal it carries and its JSON body.
pub struct ExportRequest {
    pub signal: OtlpSignal,
    pub body: JsonValue,
}

/// An OTLP JSON document with one resource and one instrumentation scope:
/// `{top: [{"resource": {"attributes": resource}, scopes: [{"scope": {"name": scope,
/// "version": SCOPE_VERSION}, items_key: items}]}]}`.
pub open spec fn otlp_doc(
    top: Seq<char>,
    scopes: Seq<char>,
    items_key: Seq<char>,
    scope: Seq<char>,
    resource: Seq<JsonModel>,
    items: Seq<JsonModel>,
) -> JsonModel {
    single(
        top,
        JsonModel::Array(
            seq![
                JsonModel::Object(
                    seq![
                        ("resource"@, single("attributes"@, JsonModel::Array(resource))),
                        (
                            scopes,
                            JsonModel::Array(
                                seq![
                                    JsonModel::Object(
                                        seq![
                                            (
                                                "scope"@,
                                                JsonModel::Object(
                                                    seq![
                                                        ("name"@, JsonModel::String(scope)),
                                                        (
                                                            "version"@,
                                                            JsonModel::String(SCOPE_VERSION@),
                                                        ),
                                                    ],
                                                ),
                                            ),
                                            (items_key, JsonModel::Array(items)),
                                        ],
                                    ),
                                ],
                            ),
                        ),
                    ],
                ),
            ],
        ),
    )
}

/// Builds an OTLP JSON document with one resource and one instrumentation scope.
pub fn otlp_document(
    top: &str,
    scopes: &str,
    items_key: &str,
    scope: &str,
    resource: Vec<JsonValue>,
    items: Vec<JsonValue>,
) -> (v: JsonValue)
    ensures
        model(v) == otlp_doc(top@, scopes@, items_key@, scope@, models(resource@), models(items@)),
{
    let mut scope_members: Vec<(String, JsonValue)> = Vec::new();
    push_member(&mut scope_members, "name", json_string(scope));
    push_member(&mut scope_members, "version", json_string(SCOPE_VERSION));
    assert(member_models(scope_members@) =~= seq![
        ("name"@, JsonModel::String(scope@)),
        ("version"@, JsonModel::String(SCOPE_VERSION@)),
    ]);
    let ghost scope_model = model(JsonValue::Object(scope_members));
    let mut scoped: Vec<(String, JsonValue)> = Vec::new();
    push_member(&mut scoped, "scope", JsonValue::Object(scope_members));
    push_member(&mut scoped, items_key, JsonValue::Array(items));
    assert(member_models(scoped@) =~= seq![
        ("scope"@, scope_model),
        (items_key@, JsonModel::Array(models(items@))),
    ]);
    let mut scope_list: Vec<JsonValue> = Vec::new();
    push_item(&mut scope_list, JsonValue::Object(scoped));
    assert(models(scope_list@) =~= seq![JsonModel::Object(member_models(scoped@))]);
    let mut entry: Vec<(String, JsonValue)> = Vec::new();
    push_member(&mut entry, "resource", json_single("attributes", JsonValue::Array(resource)));
    push_member(&mut entry, scopes, JsonValue::Array(scope_list));
    assert(member_models(entry@) =~= seq![
        ("resource"@, single("attributes"@, JsonModel::Array(models(resource@)))),
        (scopes@, JsonModel::Array(models(scope_list@))),
    ]);
    let mut top_list: Vec<JsonValue> = Vec::new();
    push_item(&mut top_list, JsonValue::Object(entry));
    assert(models(top_list@) =~= seq![JsonModel::Object(member_models(entry@))]);
    json_single(top, JsonValue::Array(top_list))
}

} // verus!
