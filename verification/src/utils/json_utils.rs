//! Reading a list of strings out of free-form model output.

use vstd::prelude::*;

use crate::bindings::json_calls::{json_array_items, parse_json_array};
use crate::bindings::regex_calls::{
    all_captures, all_caps, last_captures, last_caps,
};

verus! {

/// A JSON array inside a code fence (optionally tagged `json`).
pub const JSON_BLOCK_PATTERN: &'static str = r"```(?:json)?\s*(\[[\s\S]*?\])\s*```";

/// Any bracketed text, shortest first.
pub const BRACKET_PATTERN: &'static str = r"\[([\s\S]*?)\]";

/// A quoted text that holds a dot, such as a file path.
pub const QUOTED_PATH_PATTERN: &'static str = r#"["']([^"']+\.[^"']+)["']"#;

/// Why no list could be read.
#[derive(Debug, Clone, PartialEq, Eq, Structural)]
pub enum JsonExtractError {
    /// The text holds no bracketed list at all.
    NoJsonArray,
    /// A candidate was found but held no strings, and no quoted paths were found.
    NoValidArray,
}

impl JsonExtractError {
    /// The error message.
    pub fn message(&self) -> (r: String)
        ensures
            r@ == error_message(*self),
    {
        match self {
            JsonExtractError::NoJsonArray => "No JSON array found in text".to_string(),
            JsonExtractError::NoValidArray =>
                "Could not extract a valid JSON array or file paths from text".to_string(),
        }
    }
}

/// The message of each error.
pub open spec fn error_message(e: JsonExtractError) -> Seq<char> {
    match e {
        JsonExtractError::NoJsonArray => "No JSON array found in text"@,
        JsonExtractError::NoValidArray =>
            "Could not extract a valid JSON array or file paths from text"@,
    }
}

/// A missing capture group reads as empty text.
pub open spec fn or_empty(g: Option<Seq<char>>) -> Seq<char> {
    match g {
        Some(s) => s,
        None => Seq::empty(),
    }
}

/// The JSON text to parse: the array of the last fenced block, otherwise the
/// last bracketed text wrapped in brackets again; none when there is neither.
pub open spec fn json_candidate(text: Seq<char>) -> Option<Seq<char>> {
    match last_caps(JSON_BLOCK_PATTERN@, text, 1) {
        Some(g) => Some(or_empty(g)),
        None => match last_caps(BRACKET_PATTERN@, text, 1) {
            Some(g) => Some("["@ + or_empty(g) + "]"@),
            None => None,
        },
    }
}

/// The string items of a parsed array, in order.
pub open spec fn string_items(items: Seq<Option<Seq<char>>>) -> Seq<Seq<char>>
    decreases items.len(),
{
    if items.len() == 0 {
        Seq::empty()
    } else {
        let rest = string_items(items.drop_last());
        match items.last() {
            Some(s) => rest.push(s),
            None => rest,
        }
    }
}

/// The outcome of reading a list of strings from `text`: the string items of
/// the JSON candidate when it parses as an array holding some; the quoted
/// paths of the text when the candidate is not JSON; otherwise an error.
pub open spec fn extract_last_json_spec(text: Seq<char>) -> Result<Seq<Seq<char>>, JsonExtractError> {
    match json_candidate(text) {
        None => Err(JsonExtractError::NoJsonArray),
        Some(js) => match json_array_items(js) {
            Some(Some(items)) => if string_items(items).len() > 0 {
                Ok(string_items(items))
            } else {
                Err(JsonExtractError::NoValidArray)
            },
            Some(None) => Err(JsonExtractError::NoValidArray),
            None => {
                let paths = all_caps(QUOTED_PATH_PATTERN@, text, 1);
                if paths.len() > 0 {
                    Ok(paths)
                } else {
                    Err(JsonExtractError::NoValidArray)
                }
            },
        },
    }
}

/// The views of a vector of strings.
pub open spec fn views(v: Seq<String>) -> Seq<Seq<char>> {
    v.map_values(|s: String| s@)
}

/// The text of an optional capture group, empty when it is missing.
fn group_or_empty(g: Option<String>) -> (r: String)
    ensures
        r@ == or_empty(crate::text::opt_view(g)),
{
    match g {
        Some(s) => s,
        None => String::new(),
    }
}

/// Extract the last JSON array or object from a string
pub fn extract_last_json(text: &str) -> (r: Result<Vec<String>, JsonExtractError>)
    ensures
        match r {
            Ok(v) => extract_last_json_spec(text@) == Ok::<_, JsonExtractError>(views(v@)),
            Err(e) => extract_last_json_spec(text@) == Err::<Seq<Seq<char>>, _>(e),
        },
{
    let json_str: String = match last_captures(JSON_BLOCK_PATTERN, text, 1) {
        Some(g) => group_or_empty(g),
        None => match last_captures(BRACKET_PATTERN, text, 1) {
            Some(g) => {
                let inner = group_or_empty(g);
                let mut s = "[".to_string();
                s.append(inner.as_str());
                s.append("]");
                s
            },
            None => {
                return Err(JsonExtractError::NoJsonArray);
            },
        },
    };
    proof {
        assert(json_candidate(text@) == Some(json_str@));
    }
    match parse_json_array(json_str.as_str()) {
        Some(Some(items)) => {
            let mut out: Vec<String> = Vec::new();
            let ghost iv = crate::bindings::json_calls::opt_views(items@);
            let mut i: usize = 0;
            while i < items.len()
                invariant
                    0 <= i <= items@.len(),
                    iv == crate::bindings::json_calls::opt_views(items@),
                    views(out@) == string_items(iv.take(i as int)),
                decreases items.len() - i,
            {
                proof {
                    assert(iv.take(i + 1).drop_last() =~= iv.take(i as int));
                }
                match &items[i] {
                    Some(s) => {
                        out.push(s.clone());
                        proof {
                            assert(views(out@) =~= string_items(iv.take(i as int)).push(s@));
                        }
                    },
                    None => {},
                }
                i = i + 1;
            }
            proof {
                assert(iv.take(iv.len() as int) =~= iv);
            }
            if out.len() > 0 {
                Ok(out)
            } else {
                Err(JsonExtractError::NoValidArray)
            }
        },
        Some(None) => Err(JsonExtractError::NoValidArray),
        None => {
            let paths = all_captures(QUOTED_PATH_PATTERN, text, 1);
            if paths.len() > 0 {
                Ok(paths)
            } else {
                Err(JsonExtractError::NoValidArray)
            }
        },
    }
}

} // verus!
