//! Selecting the files to study: reading the model's list of file patterns
//! out of its reply.

use vstd::prelude::*;

use crate::bindings::json_calls::{json_string_list, parse_string_list};
use crate::bindings::regex_calls::{first_captures, first_caps};
use crate::models::file::FilePatternSelection;
use crate::paths::{split_chars, split_seq, vec_views};
use crate::text::{chars_of, string_of, texts, trim, trim_seq};

verus! {

/// A JSON array in a code fence (optionally tagged `json`).
pub const PATTERN_BLOCK_PATTERN: &'static str = r"```(?:json)?\s*(\[[\s\S]*?\])```";

/// Any bracketed text, shortest first.
pub const LIST_PATTERN: &'static str = r"\[([\s\S]*?)\]";

/// The text without every leading `c`.
pub open spec fn strip_start_char(s: Seq<char>, c: char) -> Seq<char>
    decreases s.len(),
{
    if s.len() > 0 && s[0] == c {
        strip_start_char(s.drop_first(), c)
    } else {
        s
    }
}

/// The text without every trailing `c`.
pub open spec fn strip_end_char(s: Seq<char>, c: char) -> Seq<char>
    decreases s.len(),
{
    if s.len() > 0 && s.last() == c {
        strip_end_char(s.drop_last(), c)
    } else {
        s
    }
}

/// The text without every leading and trailing `c` (`str::trim_matches`).
pub open spec fn trim_matches_seq(s: Seq<char>, c: char) -> Seq<char> {
    strip_end_char(strip_start_char(s, c), c)
}

/// A list item cleaned of whitespace and quotes.
pub open spec fn clean_item(t: Seq<char>) -> Seq<char> {
    trim_seq(trim_matches_seq(trim_matches_seq(t, '"'), '\''))
}

/// The cleaned non-empty items of a comma-separated list.
pub open spec fn clean_items(pieces: Seq<Seq<char>>) -> Seq<Seq<char>>
    decreases pieces.len(),
{
    if pieces.len() == 0 {
        Seq::empty()
    } else if trim_seq(pieces.last()).len() > 0 {
        clean_items(pieces.drop_last()).push(clean_item(trim_seq(pieces.last())))
    } else {
        clean_items(pieces.drop_last())
    }
}

/// The patterns of the first bracketed list in a reply.
pub open spec fn fallback_patterns(response: Seq<char>) -> Option<Seq<Seq<char>>> {
    match first_caps(LIST_PATTERN@, response, 1) {
        Some(Some(l)) => if clean_items(split_seq(l, ',')).len() > 0 {
            Some(clean_items(split_seq(l, ',')))
        } else {
            None
        },
        _ => None,
    }
}

/// The patterns in a reply: the JSON array of strings in the first fenced
/// block, or else the items of the first bracketed list; `None` when
/// neither gives any.
pub open spec fn parse_file_patterns_spec(response: Seq<char>) -> Option<Seq<Seq<char>>> {
    match first_caps(PATTERN_BLOCK_PATTERN@, response, 1) {
        Some(Some(j)) => match json_string_list(j) {
            Some(ps) => Some(ps),
            None => fallback_patterns(response),
        },
        _ => fallback_patterns(response),
    }
}

/// No file patterns could be read from the reply.
#[derive(Debug, Clone, PartialEq, Eq, Structural)]
pub struct PatternParseError;

impl PatternParseError {
    /// The error message.
    pub fn message(&self) -> (r: String)
        ensures
            r@ == "Failed to parse file patterns from LLM response"@,
    {
        "Failed to parse file patterns from LLM response".to_string()
    }
}

fn strip_char(s: Vec<char>, c: char) -> (r: Vec<char>)
    ensures
        r@ == trim_matches_seq(s@, c),
{
    let n = s.len();
    let mut lo: usize = 0;
    proof {
        assert(s@.skip(0) =~= s@);
    }
    while lo < n && s[lo] == c
        invariant
            0 <= lo <= n,
            n == s@.len(),
            strip_start_char(s@, c) == strip_start_char(s@.skip(lo as int), c),
        decreases n - lo,
    {
        proof {
            assert(s@.skip(lo as int).drop_first() =~= s@.skip(lo + 1));
        }
        lo = lo + 1;
    }
    let front = crate::text::copy_range(&s, lo, n);
    proof {
        assert(front@ =~= s@.skip(lo as int));
        assert(strip_start_char(s@, c) == front@);
    }
    let mut hi: usize = front.len();
    proof {
        assert(front@.take(front@.len() as int) =~= front@);
    }
    while hi > 0 && front[hi - 1] == c
        invariant
            0 <= hi <= front@.len(),
            strip_end_char(front@, c) == strip_end_char(front@.take(hi as int), c),
        decreases hi,
    {
        proof {
            assert(front@.take(hi as int).drop_last() =~= front@.take(hi - 1));
        }
        hi = hi - 1;
    }
    let r = crate::text::copy_range(&front, 0, hi);
    proof {
        assert(r@ =~= front@.take(hi as int));
    }
    r
}

fn cleaned_items(pieces: &Vec<Vec<char>>) -> (r: Vec<String>)
    ensures
        texts(r@) == clean_items(vec_views(pieces@)),
{
    let ghost pv = vec_views(pieces@);
    let mut r: Vec<String> = Vec::new();
    let mut i: usize = 0;
    while i < pieces.len()
        invariant
            0 <= i <= pieces@.len(),
            pv == vec_views(pieces@),
            texts(r@) == clean_items(pv.take(i as int)),
        decreases pieces.len() - i,
    {
        proof {
            assert(pv.take(i + 1).drop_last() =~= pv.take(i as int));
            assert(pv.take(i + 1).last() == pieces@[i as int]@);
        }
        let t = trim(&pieces[i]);
        if t.len() > 0 {
            let a = strip_char(t, '"');
            let b = strip_char(a, '\'');
            let c = trim(&b);
            let item = string_of(&c);
            proof {
                assert(texts(r@.push(item)) =~= texts(r@).push(item@));
            }
            r.push(item);
        }
        i = i + 1;
    }
    proof {
        assert(pv.take(pieces@.len() as int) =~= pv);
    }
    r
}

fn fallback_pattern_list(response: &str) -> (r: Option<Vec<String>>)
    ensures
        match r {
            Some(v) => fallback_patterns(response@) == Some(texts(v@)),
            None => fallback_patterns(response@) is None,
        },
{
    match first_captures(LIST_PATTERN, response, 1) {
        Some(Some(l)) => {
            let pieces = split_chars(&chars_of(l.as_str()), ',');
            let items = cleaned_items(&pieces);
            if items.len() > 0 {
                Some(items)
            } else {
                None
            }
        },
        _ => None,
    }
}

/// Parse the LLM response to extract the file patterns
pub fn parse_file_patterns(response: &str) -> (r: Result<FilePatternSelection, PatternParseError>)
    ensures
        match r {
            Ok(sel) => parse_file_patterns_spec(response@) == Some(texts(sel.patterns@)),
            Err(_) => parse_file_patterns_spec(response@) is None,
        },
{
    match first_captures(PATTERN_BLOCK_PATTERN, response, 1) {
        Some(Some(j)) => {
            match parse_string_list(j.as_str()) {
                Some(ps) => {
                    proof {
                        assert(texts(ps@) =~= ps@.map_values(|s: String| s@));
                    }
                    return Ok(FilePatternSelection::new(ps));
                },
                None => {},
            }
        },
        _ => {},
    }
    match fallback_pattern_list(response) {
        Some(v) => Ok(FilePatternSelection::new(v)),
        None => Err(PatternParseError),
    }
}

/// The API key used for file selection: the configured key unless it is
/// blank, otherwise the one from the environment (empty when unset).
pub fn choose_api_key(configured: &str, from_env: Option<String>) -> (r: String)
    ensures
        trim_seq(configured@).len() > 0 ==> r@ == configured@,
        trim_seq(configured@).len() == 0 ==> r@ == match from_env {
            Some(k) => k@,
            None => Seq::<char>::empty(),
        },
{
    let t = trim(&chars_of(configured));
    if t.len() == 0 {
        match from_env {
            Some(k) => k,
            None => String::new(),
        }
    } else {
        configured.to_string()
    }
}

/// When the reply's first fenced block holds a JSON array of strings, the
/// patterns are exactly those strings, whatever bracketed text comes
/// before or after it; the first bracketed list is read only when there is
/// no such block.
pub proof fn law_fenced_json_patterns_win(response: Seq<char>, block: Seq<char>, patterns: Seq<Seq<char>>)
    requires
        first_caps(PATTERN_BLOCK_PATTERN@, response, 1) == Some(Some(block)),
        json_string_list(block) == Some(patterns),
    ensures
        parse_file_patterns_spec(response) == Some(patterns),
{
}

} // verus!
