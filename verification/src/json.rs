//! JSON results: a tree value goes to the host as its compact text, marked
//! with the subtype by which the host's JSON functions know their own.

use vstd::prelude::*;
use serde_json::Value as JsonValue;
use crate::context::{Context, HostCallView};
use crate::error::Error;
use crate::results::{result_subtype, result_text, text_call, JSON_SUBTYPE};
use crate::text::bytes_of;

verus! {

/// The tree value of `serde_json`, `serde_json::Value`. Nothing is known of
/// what is inside one: it is carried to the formatter and no further.
#[verifier::external_type_specification]
#[verifier::external_body]
pub struct ExJsonValue(JsonValue);

/// The compact JSON text of `value`, as `serde_json` displays it.
pub uninterp spec fn json_text(value: JsonValue) -> Seq<char>;

/// Calls `to_string` on a value of `serde_json`, which formats it through its
/// `Display` impl. Claimed, not proved: the string returned is a function of
/// the value alone, here named `json_text`.
#[verifier::external_body]
fn json_to_string(value: &JsonValue) -> (text: String)
    ensures
        text@ == json_text(*value),
{
    value.to_string()
}

/// What a JSON result of the text `text` does to the calls `before`: the
/// text result and then the JSON subtype, or nothing and the error where the
/// text may not cross.
pub open spec fn json_recorded(
    before: Seq<HostCallView>,
    text: Seq<char>,
    after: Seq<HostCallView>,
    outcome: Result<(), Error>,
) -> bool {
    match text_call(bytes_of(text)) {
        Ok(call) => outcome.is_ok() && after == before.push(call).push(
            HostCallView::Subtype(JSON_SUBTYPE as u32),
        ),
        Err(e) => outcome == Err::<(), Error>(e) && after == before,
    }
}

/// Sets the result to `text`, which is JSON already, and marks it as JSON.
/// Fails, and writes nothing, where `text` holds a zero byte or is too long.
pub fn result_json_text(context: &mut Context, text: &str) -> (outcome: Result<(), Error>)
    ensures
        json_recorded(old(context)@, text@, final(context)@, outcome),
{
    match result_text(context, text) {
        Ok(()) => {
            result_subtype(context, JSON_SUBTYPE);
            Ok(())
        },
        Err(e) => Err(e),
    }
}

/// Sets the result to `value` as the host's JSON functions expect it: its
/// compact text, with the JSON subtype.
pub fn result_json(context: &mut Context, value: JsonValue) -> (outcome: Result<
    (),
    Error,
>)
    ensures
        json_recorded(old(context)@, json_text(value), final(context)@, outcome),
{
    let text = json_to_string(&value);
    result_json_text(context, text.as_str())
}

} // verus!
