//! Browser context of a HAR entry: resource type, priority, connection, and the
//! top frame of the initiator's stack.
use vstd::prelude::*;

use crate::internal::specs::timing::{BrowserContext, InitiatorContext};
use crate::json::{as_array, as_i64, as_str, first_child, get, opt_chars, opt_get, Json};

verus! {

/// The `callFrames` of an initiator's `stack`.
pub open spec fn call_frames_of(initiator: Json) -> Option<Json> {
    opt_get(get(initiator, "stack"@), "callFrames"@)
}

/// The top frame of an initiator's stack (JSON pointer `/stack/callFrames/0`).
pub open spec fn top_frame_of(initiator: Json) -> Option<Json> {
    match call_frames_of(initiator) {
        Some(frames) => first_child(frames),
        None => None,
    }
}

/// Whether `c` is what the initiator reads as.
pub open spec fn initiator_read(c: InitiatorContext, initiator: Json) -> bool {
    let frame = top_frame_of(initiator);
    &&& opt_chars(c.top_function) == as_str(opt_get(frame, "functionName"@))
    &&& opt_chars(c.top_url) == as_str(opt_get(frame, "url"@))
    &&& c.top_line == as_i64(opt_get(frame, "lineNumber"@))
    &&& c.top_column == as_i64(opt_get(frame, "columnNumber"@))
    &&& c.stack_depth == match as_array(call_frames_of(initiator)) {
        Some(frames) => Some(frames.len() as usize),
        None => None,
    }
}

/// Whether `b` is what a HAR entry's browser fields read as.
pub open spec fn browser_read(b: BrowserContext, entry: Json) -> bool {
    &&& opt_chars(b.resource_type) == as_str(get(entry, "_resourceType"@))
    &&& opt_chars(b.priority) == as_str(get(entry, "_priority"@))
    &&& opt_chars(b.connection_id) == as_str(get(entry, "_connectionId"@))
    &&& match get(entry, "_initiator"@) {
        None => b.initiator is None,
        Some(i) => b.initiator matches Some(c) && initiator_read(c, i),
    }
}

/// The browser context of a HAR entry has an initiator exactly when the entry has
/// `_initiator`, and then its top function, top URL, top line and top column are
/// `functionName`, `url`, `lineNumber` and `columnNumber` of the frame at
/// `/_initiator/stack/callFrames/0`, each present when that member is a string
/// (for the name and URL) or an integer (for line and column).
pub proof fn law_initiator_top_frame(b: BrowserContext, entry: Json)
    requires
        browser_read(b, entry),
    ensures
        get(entry, "_initiator"@) is None ==> b.initiator is None,
        get(entry, "_initiator"@) matches Some(i) ==> {
            let frame = match opt_get(get(i, "stack"@), "callFrames"@) {
                Some(frames) => first_child(frames),
                None => None,
            };
            &&& b.initiator is Some
            &&& b.initiator->Some_0.top_column == as_i64(opt_get(frame, "columnNumber"@))
            &&& b.initiator->Some_0.top_line == as_i64(opt_get(frame, "lineNumber"@))
            &&& opt_chars(b.initiator->Some_0.top_function) == as_str(
                opt_get(frame, "functionName"@),
            )
            &&& opt_chars(b.initiator->Some_0.top_url) == as_str(opt_get(frame, "url"@))
        },
{
}

fn member_of<'a>(o: Option<&'a Json>, key: &str) -> (r: Option<&'a Json>)
    ensures
        match r {
            Some(x) => opt_get(
                match o {
                    Some(j) => Some(*j),
                    None => None,
                },
                key@,
            ) == Some(*x),
            None => opt_get(
                match o {
                    Some(j) => Some(*j),
                    None => None,
                },
                key@,
            ) is None,
        },
{
    match o {
        Some(j) => j.get(key),
        None => None,
    }
}

/// The top frame of an initiator's stack.
pub fn top_frame(initiator: &Json) -> (r: Option<&Json>)
    ensures
        match r {
            Some(x) => top_frame_of(*initiator) == Some(*x),
            None => top_frame_of(*initiator) is None,
        },
{
    match member_of(initiator.get("stack"), "callFrames") {
        Some(frames) => frames.first_child(),
        None => None,
    }
}

fn str_of(o: Option<&Json>) -> (r: Option<String>)
    ensures
        opt_chars(r) == as_str(
            match o {
                Some(j) => Some(*j),
                None => None,
            },
        ),
{
    match o {
        Some(Json::String { value, .. }) => Some(value.clone()),
        _ => None,
    }
}

fn i64_of(o: Option<&Json>) -> (r: Option<i64>)
    ensures
        r == as_i64(
            match o {
                Some(j) => Some(*j),
                None => None,
            },
        ),
{
    match o {
        Some(Json::Number { number, .. }) => number.as_i64(),
        _ => None,
    }
}

/// The initiator context of an `_initiator` member, when there is one.
pub fn initiator_context(value: Option<&Json>) -> (r: Option<InitiatorContext>)
    ensures
        match value {
            None => r is None,
            Some(i) => r matches Some(c) && initiator_read(c, *i),
        },
{
    let initiator = match value {
        Some(i) => i,
        None => return None,
    };
    let frame = top_frame(initiator);
    let frames = member_of(initiator.get("stack"), "callFrames");
    Some(
        InitiatorContext {
            top_function: str_of(member_of(frame, "functionName")),
            top_url: str_of(member_of(frame, "url")),
            top_line: i64_of(member_of(frame, "lineNumber")),
            top_column: i64_of(member_of(frame, "columnNumber")),
            stack_depth: match frames {
                Some(Json::Array { items, .. }) => Some(items.len()),
                _ => None,
            },
        },
    )
}

/// The browser context of a HAR entry.
pub fn browser_context(entry: &Json) -> (b: BrowserContext)
    ensures
        browser_read(b, *entry),
{
    BrowserContext {
        resource_type: entry.get_str("_resourceType"),
        priority: entry.get_str("_priority"),
        connection_id: entry.get_str("_connectionId"),
        initiator: initiator_context(entry.get("_initiator")),
    }
}

} // verus!
