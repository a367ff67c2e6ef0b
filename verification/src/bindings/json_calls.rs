//! JSON reading through `serde_json`.

use vstd::prelude::*;

use crate::text::opt_view;

verus! {

/// `serde_json::Value`, carried through the library without being read.
#[verifier::external_type_specification]
#[verifier::external_body]
pub struct ExJsonValue(serde_json::Value);

/// What `serde_json::from_str::<serde_json::Value>` gives for `text`, seen
/// through the shape the library reads: `None` when the text is not JSON,
/// `Some(None)` when it is JSON but not an array, and `Some(Some(items))`
/// for an array, each item given as its string value, or `None` for an
/// item that is not a string.
pub uninterp spec fn json_array_items(text: Seq<char>) -> Option<Option<Seq<Option<Seq<char>>>>>;

/// What `serde_json::from_str::<Vec<String>>` gives for `text`: the strings
/// when the text is a JSON array of strings, otherwise `None`.
pub uninterp spec fn json_string_list(text: Seq<char>) -> Option<Seq<Seq<char>>>;

/// What `serde_json::from_str::<serde_json::Value>` followed by indexing
/// with `field` and `Value::as_str` gives: `None` when the text is not
/// JSON, otherwise the string held under `field` (if any).
pub uninterp spec fn json_field_str(text: Seq<char>, field: Seq<char>) -> Option<Option<Seq<char>>>;

/// What `serde_json::from_str::<serde_json::Value>` followed by indexing
/// with `field` and `Value::as_bool` gives: `None` when the text is not
/// JSON, otherwise the boolean held under `field` (if any).
pub uninterp spec fn json_field_bool(text: Seq<char>, field: Seq<char>) -> Option<Option<bool>>;

/// The views of optional strings.
pub open spec fn opt_views(v: Seq<Option<String>>) -> Seq<Option<Seq<char>>> {
    v.map_values(|o: Option<String>| opt_view(o))
}

/// Parses `text` with `serde_json::from_str::<serde_json::Value>` and hands
/// out the array items as optional strings. Only the dependence on `text`
/// is claimed.
#[verifier::external_body]
pub(crate) fn parse_json_array(text: &str) -> (r: Option<Option<Vec<Option<String>>>>)
    ensures
        match r {
            None => json_array_items(text@) is None,
            Some(None) => json_array_items(text@) == Some(None::<Seq<Option<Seq<char>>>>),
            Some(Some(items)) => json_array_items(text@) == Some(Some(opt_views(items@))),
        },
{
    match serde_json::from_str::<serde_json::Value>(text) {
        Ok(serde_json::Value::Array(items)) => Some(
            Some(
                items.into_iter().map(
                    |v|
                        match v {
                            serde_json::Value::String(s) => Some(s),
                            _ => None,
                        },
                ).collect(),
            ),
        ),
        Ok(_) => Some(None),
        Err(_) => None,
    }
}

/// Parses `text` with `serde_json::from_str::<Vec<String>>`. Only the
/// dependence on `text` is claimed.
#[verifier::external_body]
pub(crate) fn parse_string_list(text: &str) -> (r: Option<Vec<String>>)
    ensures
        match r {
            None => json_string_list(text@) is None,
            Some(v) => json_string_list(text@) == Some(v@.map_values(|s: String| s@)),
        },
{
    serde_json::from_str::<Vec<String>>(text).ok()
}

/// Parses `text` as a JSON value and reads the string under `field`. Only
/// the dependence on the arguments is claimed.
#[verifier::external_body]
pub(crate) fn read_str_field(text: &str, field: &str) -> (r: Option<Option<String>>)
    ensures
        match r {
            None => json_field_str(text@, field@) is None,
            Some(v) => json_field_str(text@, field@) == Some(opt_view(v)),
        },
{
    match serde_json::from_str::<serde_json::Value>(text) {
        Ok(v) => Some(v[field].as_str().map(|s| s.to_string())),
        Err(_) => None,
    }
}

/// Parses `text` as a JSON value and reads the boolean under `field`. Only
/// the dependence on the arguments is claimed.
#[verifier::external_body]
pub(crate) fn read_bool_field(text: &str, field: &str) -> (r: Option<Option<bool>>)
    ensures
        match r {
            None => json_field_bool(text@, field@) is None,
            Some(v) => json_field_bool(text@, field@) == Some(v),
        },
{
    match serde_json::from_str::<serde_json::Value>(text) {
        Ok(v) => Some(v[field].as_bool()),
        Err(_) => None,
    }
}

} // verus!
