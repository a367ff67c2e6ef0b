//! Assessing the relevance of single files: which files are assessed, and
//! how the model's verdict is read from its reply.

use vstd::prelude::*;

use crate::bindings::regex_calls::{first_captures, first_caps, is_match, matches_re};
use crate::models::relevance::{RelevanceDecision, RelevanceStatus};
use crate::paths::{extension, extension_spec, split_seq};
use crate::text::{
    chars_of, contains, contains_seq, find, find_seq, lemma_find_contains, opt_view, string_of,
    texts, to_lowercase, trim, trim_seq, unicode_lowercase,
};

verus! {

pub const NOT_RELEVANT_1: &'static str = r"RELEVANCE:\s*Not\s+Relevant";
pub const NOT_RELEVANT_2: &'static str = r"Relevance\s*(?:of\s*(?:File|the\s*file))?\s*(?:to\s*(?:Issue|the\s*issue))?:\s*Not\s+Relevant";
pub const NOT_RELEVANT_3: &'static str = r"Not\s+[Rr]elevant";
pub const NOT_RELEVANT_4: &'static str = r"(?:file|relevance)(?:\s+is|\s*:)\s*Not\s+Relevant";
pub const NOT_RELEVANT_5: &'static str = r"(?:^|[:\n])\s*The file is not relevant";
pub const NOT_RELEVANT_6: &'static str = r"Relevance(?:\s+Decision)?:\s*Not Relevant";
pub const NOT_RELEVANT_7: &'static str = r"File relevance:\s*Not relevant";
pub const NOT_RELEVANT_8: &'static str = r"Final decision on the relevance(?:\s+of the file)?(?:\s+to the issue)?:\s*Not\s+Relevant";

pub const RELEVANT_1: &'static str = r"RELEVANCE:\s*(?:Yes|Relevant)\s*\nSUMMARY:(.*?)(?:\n|$)";
pub const RELEVANT_2: &'static str = r"Relevance\s*(?:of\s*(?:File|the\s*file))?\s*(?:to\s*(?:Issue|the\s*issue))?:\s*(?:Yes|Relevant)";
pub const RELEVANT_3: &'static str = r"(?:file|relevance)(?:\s+is|\s*:)\s*(?:Yes|Relevant)";
pub const RELEVANT_4: &'static str = r"Relevance (?:Decision|Reasoning):\s*(?:Yes|Relevant|Include)";
pub const RELEVANT_5: &'static str = r"Final Decision on Relevance:\s*(?:Yes|Relevant|Include)";
pub const RELEVANT_6: &'static str = r"File relevance:\s*(?:Yes|Relevant|Include)";

pub const SUMMARY_1: &'static str = r"Summary:\s*(.*?)(?:\n\n|\n[A-Z]|$)";
pub const SUMMARY_2: &'static str = r"Summary of the File:\s*(.*?)(?:\n\n|\n[A-Z]|$)";
pub const SUMMARY_3: &'static str = r"Important Functions.*?(?:\n\n|\n[A-Z]|$)(.*?)(?:\n\n|\n[A-Z]|$)";
pub const SUMMARY_4: &'static str = r"Functions in the File.*?(?:\n\n|\n[A-Z]|$)(.*?)(?:\n\n|\n[A-Z]|$)";

/// The patterns that mark a reply as "not relevant", in order.
pub open spec fn not_relevant_patterns() -> Seq<Seq<char>> {
    seq![
        NOT_RELEVANT_1@,
        NOT_RELEVANT_2@,
        NOT_RELEVANT_3@,
        NOT_RELEVANT_4@,
        NOT_RELEVANT_5@,
        NOT_RELEVANT_6@,
        NOT_RELEVANT_7@,
        NOT_RELEVANT_8@,
    ]
}

/// The patterns that mark a reply as "relevant", in order; only the first
/// captures a summary.
pub open spec fn relevant_patterns() -> Seq<Seq<char>> {
    seq![RELEVANT_1@, RELEVANT_2@, RELEVANT_3@, RELEVANT_4@, RELEVANT_5@, RELEVANT_6@]
}

/// The patterns that find a summary paragraph, in order.
pub open spec fn summary_patterns() -> Seq<Seq<char>> {
    seq![SUMMARY_1@, SUMMARY_2@, SUMMARY_3@, SUMMARY_4@]
}

/// Some pattern matches the text.
pub open spec fn any_match(ps: Seq<Seq<char>>, text: Seq<char>) -> bool {
    exists|i: int| 0 <= i < ps.len() && matches_re(#[trigger] ps[i], text)
}

/// The first group of the first pattern whose match has one.
pub open spec fn first_group(ps: Seq<Seq<char>>, text: Seq<char>) -> Option<Seq<char>>
    decreases ps.len(),
{
    if ps.len() == 0 {
        None
    } else {
        match first_caps(ps[0], text, 1) {
            Some(Some(s)) => Some(s),
            _ => first_group(ps.drop_first(), text),
        }
    }
}

/// The lowered reply says "not relevant".
pub open spec fn says_not_relevant(lower: Seq<char>) -> bool {
    contains_seq(lower, "not relevant"@) || contains_seq(lower, "file is not relevant"@)
        || contains_seq(lower, "is not relevant to the issue"@) || (contains_seq(
        lower,
        "relevance"@,
    ) && contains_seq(lower, "not relevant"@))
}

/// The lowered reply says "relevant".
pub open spec fn says_relevant(lower: Seq<char>) -> bool {
    (contains_seq(lower, "yes"@) && contains_seq(lower, "relevance"@)) || contains_seq(
        lower,
        "is relevant"@,
    ) || contains_seq(lower, "highly relevant"@) || contains_seq(lower, "partially relevant"@)
        || (contains_seq(lower, "relevant"@) && !contains_seq(lower, "not relevant"@))
}

/// The summary given when the reply has no summary paragraph.
pub open spec fn default_summary() -> Seq<char> {
    "Summary not explicitly provided, but file was marked as relevant"@
}

/// The verdict read from the `Output:` section of a reply.
pub open spec fn output_section_verdict(response: Seq<char>) -> (RelevanceStatus, Option<Seq<char>>) {
    match find_seq(response, "Output:"@) {
        Some(k) => {
            let part = response.skip(k);
            if contains_seq(part, "Not Relevant"@) || contains_seq(
                unicode_lowercase(part),
                "not relevant"@,
            ) {
                (RelevanceStatus::NotRelevant, None)
            } else if contains_seq(part, "Relevant"@) && !contains_seq(part, "Not Relevant"@) {
                (RelevanceStatus::Relevant, Some("Summary extracted from Output section"@))
            } else {
                (RelevanceStatus::ParseError, None)
            }
        },
        None => (RelevanceStatus::ParseError, None),
    }
}

/// The verdict and summary read from a reply.
pub open spec fn parse_response_spec(response: Seq<char>) -> (RelevanceStatus, Option<Seq<char>>) {
    let lower = unicode_lowercase(response);
    if any_match(not_relevant_patterns(), response) {
        (RelevanceStatus::NotRelevant, None)
    } else if says_not_relevant(lower) {
        (RelevanceStatus::NotRelevant, None)
    } else {
        match first_group(relevant_patterns(), response) {
            Some(s) => (RelevanceStatus::Relevant, Some(trim_seq(s))),
            None => if says_relevant(lower) {
                (
                    RelevanceStatus::Relevant,
                    Some(
                        match first_group(summary_patterns(), response) {
                            Some(s) => trim_seq(s),
                            None => default_summary(),
                        },
                    ),
                )
            } else {
                output_section_verdict(response)
            },
        }
    }
}

fn pattern_list(which: u8) -> (r: Vec<&'static str>)
    ensures
        which == 0 ==> r@.map_values(|s: &str| s@) == not_relevant_patterns(),
        which == 1 ==> r@.map_values(|s: &str| s@) == relevant_patterns(),
        which >= 2 ==> r@.map_values(|s: &str| s@) == summary_patterns(),
{
    if which == 0 {
        let r = vec![
            NOT_RELEVANT_1,
            NOT_RELEVANT_2,
            NOT_RELEVANT_3,
            NOT_RELEVANT_4,
            NOT_RELEVANT_5,
            NOT_RELEVANT_6,
            NOT_RELEVANT_7,
            NOT_RELEVANT_8,
        ];
        proof {
            assert(r@.map_values(|s: &str| s@) =~= not_relevant_patterns());
        }
        r
    } else if which == 1 {
        let r = vec![RELEVANT_1, RELEVANT_2, RELEVANT_3, RELEVANT_4, RELEVANT_5, RELEVANT_6];
        proof {
            assert(r@.map_values(|s: &str| s@) =~= relevant_patterns());
        }
        r
    } else {
        let r = vec![SUMMARY_1, SUMMARY_2, SUMMARY_3, SUMMARY_4];
        proof {
            assert(r@.map_values(|s: &str| s@) =~= summary_patterns());
        }
        r
    }
}

fn matches_any(ps: &Vec<&'static str>, text: &str) -> (r: bool)
    ensures
        r == any_match(ps@.map_values(|s: &str| s@), text@),
{
    let ghost pv = ps@.map_values(|s: &str| s@);
    let mut i: usize = 0;
    while i < ps.len()
        invariant
            0 <= i <= ps@.len(),
            pv == ps@.map_values(|s: &str| s@),
            forall|j: int| 0 <= j < i ==> !matches_re(#[trigger] pv[j], text@),
        decreases ps.len() - i,
    {
        if is_match(ps[i], text) {
            proof {
                assert(pv[i as int] == ps@[i as int]@);
            }
            return true;
        }
        proof {
            assert(pv[i as int] == ps@[i as int]@);
        }
        i = i + 1;
    }
    false
}

fn first_group_of(ps: &Vec<&'static str>, text: &str) -> (r: Option<String>)
    ensures
        opt_view(r) == first_group(ps@.map_values(|s: &str| s@), text@),
{
    let ghost pv = ps@.map_values(|s: &str| s@);
    let mut i: usize = 0;
    proof {
        assert(pv.skip(0) =~= pv);
    }
    while i < ps.len()
        invariant
            0 <= i <= ps@.len(),
            pv == ps@.map_values(|s: &str| s@),
            first_group(pv, text@) == first_group(pv.skip(i as int), text@),
        decreases ps.len() - i,
    {
        proof {
            assert(pv.skip(i as int)[0] == ps@[i as int]@);
            assert(pv.skip(i as int).drop_first() =~= pv.skip(i + 1));
        }
        match first_captures(ps[i], text, 1) {
            Some(Some(s)) => {
                return Some(s);
            },
            _ => {},
        }
        i = i + 1;
    }
    None
}

fn holds_text(text: &[char], lit: &str) -> (r: bool)
    ensures
        r == contains_seq(text@, lit@),
{
    contains(text, &chars_of(lit))
}

fn decision(response: &str, status: RelevanceStatus, summary: Option<String>) -> (d: RelevanceDecision)
    ensures
        d.message@ == response@,
        d.status == status,
        d.summary == summary,
{
    RelevanceDecision { message: response.to_string(), status, summary }
}

fn trimmed(s: &str) -> (r: String)
    ensures
        r@ == trim_seq(s@),
{
    string_of(&trim(&chars_of(s)))
}

/// Parse the LLM response to extract the relevance decision
pub fn parse_response(response: &str) -> (d: RelevanceDecision)
    ensures
        d.message@ == response@,
        d.status == parse_response_spec(response@).0,
        opt_view(d.summary) == parse_response_spec(response@).1,
{
    let lower_s = to_lowercase(response);
    let lower = chars_of(lower_s.as_str());
    let nr = pattern_list(0);
    if matches_any(&nr, response) {
        return decision(response, RelevanceStatus::NotRelevant, None);
    }
    if holds_text(&lower, "not relevant") || holds_text(&lower, "file is not relevant") || holds_text(
        &lower,
        "is not relevant to the issue",
    ) || (holds_text(&lower, "relevance") && holds_text(&lower, "not relevant")) {
        return decision(response, RelevanceStatus::NotRelevant, None);
    }
    let rel = pattern_list(1);
    match first_group_of(&rel, response) {
        Some(s) => {
            return decision(response, RelevanceStatus::Relevant, Some(trimmed(s.as_str())));
        },
        None => {},
    }
    if (holds_text(&lower, "yes") && holds_text(&lower, "relevance")) || holds_text(&lower, "is relevant") || holds_text(
        &lower,
        "highly relevant",
    ) || holds_text(&lower, "partially relevant") || (holds_text(&lower, "relevant") && !holds_text(
        &lower,
        "not relevant",
    )) {
        let sp = pattern_list(2);
        let summary = match first_group_of(&sp, response) {
            Some(s) => trimmed(s.as_str()),
            None => "Summary not explicitly provided, but file was marked as relevant".to_string(),
        };
        return decision(response, RelevanceStatus::Relevant, Some(summary));
    }
    let r = chars_of(response);
    let marker = chars_of("Output:");
    match find(&r, &marker) {
        Some(k) => {
            let part_chars = crate::text::copy_range(&r, k, r.len());
            let part = string_of(&part_chars);
            proof {
                assert(part@ =~= response@.skip(k as int));
            }
            let part_lower_s = to_lowercase(part.as_str());
            let part_lower = chars_of(part_lower_s.as_str());
            if holds_text(&part_chars, "Not Relevant") || holds_text(&part_lower, "not relevant") {
                decision(response, RelevanceStatus::NotRelevant, None)
            } else if holds_text(&part_chars, "Relevant") && !holds_text(&part_chars, "Not Relevant") {
                decision(
                    response,
                    RelevanceStatus::Relevant,
                    Some("Summary extracted from Output section".to_string()),
                )
            } else {
                decision(response, RelevanceStatus::ParseError, None)
            }
        },
        None => decision(response, RelevanceStatus::ParseError, None),
    }
}

/// The first component of a path names a test directory (`test` or
/// `tests`).
pub open spec fn in_test_dir(path: Seq<char>) -> bool {
    path.len() > 0 && path[0] != '/' && (split_seq(path, '/')[0] == "test"@ || split_seq(
        path,
        '/',
    )[0] == "tests"@)
}

/// Whether a file is assessed: its extension is among the included ones
/// (when any are given), and it does not lie in a test directory.
pub open spec fn should_include_spec(path: Seq<char>, include_extensions: Seq<Seq<char>>) -> bool {
    (include_extensions.len() == 0 || match extension_spec(path) {
        Some(e) => include_extensions.contains(e),
        None => false,
    }) && !in_test_dir(path)
}

fn first_piece(s: &[char]) -> (r: Vec<char>)
    ensures
        r@ == split_seq(s@, '/')[0],
{
    let slash = vec!['/'];
    proof {
        assert(slash@ =~= seq!['/']);
        lemma_find_contains(s@, seq!['/']);
    }
    match find(s, &slash) {
        Some(i) => crate::text::copy_range(s, 0, i),
        None => crate::paths::copy_all(s),
    }
}

/// Check if a file should be included in the relevance assessment
pub fn should_include_file(file_path: &str, include_extensions: &Vec<String>) -> (r: bool)
    ensures
        r == should_include_spec(file_path@, texts(include_extensions@)),
{
    let p = chars_of(file_path);
    if include_extensions.len() > 0 {
        match extension(&p) {
            Some(e) => {
                if !crate::models::exclusion::list_contains(include_extensions, &e) {
                    proof {
                        assert(crate::paths::string_views(include_extensions@) =~= texts(include_extensions@));
                    }
                    return false;
                }
                proof {
                    assert(crate::paths::string_views(include_extensions@) =~= texts(include_extensions@));
                }
            },
            None => {
                return false;
            },
        }
    }
    if p.len() > 0 && p[0] != '/' {
        let first = first_piece(&p);
        let test = chars_of("test");
        let tests = chars_of("tests");
        if crate::paths::chars_eq(&first, &test) || crate::paths::chars_eq(&first, &tests) {
            return false;
        }
    }
    true
}

/// Whether a file is sent to the model: it has content, has no decision
/// yet, and is not too large.
pub fn should_assess(
    content_empty: bool,
    already_decided: bool,
    token_count: usize,
    max_file_tokens: usize,
) -> (r: bool)
    ensures
        r == (!content_empty && !already_decided && token_count <= max_file_tokens),
{
    !content_empty && !already_decided && token_count <= max_file_tokens
}

/// A reply whose lower case (as `str::to_lowercase` gives it) says "not
/// relevant" anywhere is read as not relevant, with no summary; so is a
/// reply that one of the "not relevant" patterns matches.
pub proof fn law_not_relevant_wins(response: Seq<char>)
    ensures
        contains_seq(unicode_lowercase(response), "not relevant"@) ==> parse_response_spec(response)
            == (RelevanceStatus::NotRelevant, None::<Seq<char>>),
        (exists|i: int|
            0 <= i < not_relevant_patterns().len() && matches_re(
                #[trigger] not_relevant_patterns()[i],
                response,
            )) ==> parse_response_spec(response) == (RelevanceStatus::NotRelevant, None::<Seq<char>>),
{
}

} // verus!
