//! What the ingestion endpoints answer when they have taken a capture.
use vstd::prelude::*;

use crate::json::{json_uint, member_models, model, push_member, JsonModel, JsonNumber, JsonValue};

verus! {

/// The answer to an accepted capture: `{"accepted": count}`.
pub fn accepted_body(count: u64) -> (v: JsonValue)
    ensures
        model(v) == JsonModel::Object(seq![("accepted"@, JsonModel::Number(JsonNumber::PosInt(count)))]),
{
    let mut members: Vec<(String, JsonValue)> = Vec::new();
    push_member(&mut members, "accepted", json_uint(count));
    assert(member_models(members@) =~= seq![
        ("accepted"@, JsonModel::Number(JsonNumber::PosInt(count))),
    ]);
    JsonValue::Object(members)
}

} // verus!
