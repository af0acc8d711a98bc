//! Reading a property out of JSON event data with `serde_json`.
use vstd::prelude::*;

verus! {

/// `serde_json::Error`, carried opaquely in `HarnessError::JsonParse`.
#[verifier::external_type_specification]
#[verifier::external_body]
pub struct ExJsonError(serde_json::Error);

/// What looking up JSON Pointer `path` in the document `text` gives:
/// `None` where `serde_json::from_str::<serde_json::Value>` refuses `text`, and
/// otherwise the text of the string that `Value::pointer(path)` finds there
/// (`None` inside where the pointer finds nothing or no string, as `Value::as_str`).
pub uninterp spec fn json_lookup(text: Seq<char>, path: Seq<char>) -> Option<Option<Seq<char>>>;

/// The text of an optional string.
pub open spec fn opt_text(s: Option<String>) -> Option<Seq<char>> {
    match s {
        Some(t) => Some(t@),
        None => None,
    }
}

/// Parses `text` with `serde_json::from_str::<serde_json::Value>`, then looks up
/// `path` with `Value::pointer` and reads the string found with `Value::as_str`.
/// Claimed: the result is `Ok` exactly when the parse succeeds, and it then holds
/// what `json_lookup` names for `text` and `path`.
#[verifier::external_body]
pub(crate) fn lookup_json_string(text: &str, path: &str) -> (res: Result<Option<String>, serde_json::Error>)
    ensures
        res is Ok <==> json_lookup(text@, path@) is Some,
        res matches Ok(found) ==> json_lookup(text@, path@) == Some(opt_text(found)),
{
    match serde_json::from_str::<serde_json::Value>(text) {
        Ok(document) => Ok(document.pointer(path).and_then(|v| v.as_str()).map(|s| s.to_string())),
        Err(e) => Err(e),
    }
}

} // verus!
