//! Writing the setup, lint and test scripts: reading a script out of a
//! model reply, and the texts the scripts stage sends and keeps.

use vstd::prelude::*;

use crate::bindings::regex_calls::{first_captures, first_caps};
use crate::collections::OrderedMap;
use crate::models::relevance::{RelevanceDecision, RelevanceStatus};
use crate::paths::{lines_seq, text_lines, vec_views};
use crate::text::{chars_of, contains, contains_seq, starts_with, starts_with_seq, string_of};

verus! {

/// A fenced block tagged `sh`.
pub const SH_BLOCK_PATTERN: &'static str = r"```sh\s*([\s\S]*?)\s*```";

/// Any fenced block.
pub const ANY_BLOCK_PATTERN: &'static str = r"```\s*([\s\S]*?)\s*```";

/// The script in a reply: the first `sh` block, else the first fenced
/// block, else the whole reply.
pub open spec fn extract_script_spec(response: Seq<char>) -> Seq<char> {
    match first_caps(SH_BLOCK_PATTERN@, response, 1) {
        Some(Some(c)) => c,
        _ => match first_caps(ANY_BLOCK_PATTERN@, response, 1) {
            Some(Some(c)) => c,
            _ => response,
        },
    }
}

/// Extract shell script content from LLM response
pub fn extract_script(response: &str) -> (r: String)
    ensures
        r@ == extract_script_spec(response@),
{
    match first_captures(SH_BLOCK_PATTERN, response, 1) {
        Some(Some(c)) => {
            return c;
        },
        _ => {},
    }
    match first_captures(ANY_BLOCK_PATTERN, response, 1) {
        Some(Some(c)) => c,
        _ => response.to_string(),
    }
}

/// The relevant files of the decisions with their summaries (empty when a
/// decision has none), in the order of the decisions.
pub open spec fn relevant_summaries(entries: Seq<(String, RelevanceDecision)>) -> Seq<(Seq<char>, Seq<char>)>
    decreases entries.len(),
{
    if entries.len() == 0 {
        Seq::empty()
    } else if entries.last().1.status == RelevanceStatus::Relevant {
        relevant_summaries(entries.drop_last()).push(
            (
                entries.last().0@,
                match entries.last().1.summary {
                    Some(s) => s@,
                    None => Seq::empty(),
                },
            ),
        )
    } else {
        relevant_summaries(entries.drop_last())
    }
}

/// The views of path and summary pairs.
pub open spec fn pair_views(v: Seq<(String, String)>) -> Seq<(Seq<char>, Seq<char>)> {
    v.map_values(|p: (String, String)| (p.0@, p.1@))
}

/// The relevant files of the decisions with their summaries.
pub fn relevant_file_summaries(decisions: &OrderedMap<RelevanceDecision>) -> (r: Vec<(String, String)>)
    ensures
        pair_views(r@) == relevant_summaries(decisions.entries@),
{
    let ghost es = decisions.entries@;
    let mut r: Vec<(String, String)> = Vec::new();
    let mut i: usize = 0;
    while i < decisions.entries.len()
        invariant
            0 <= i <= es.len(),
            es == decisions.entries@,
            pair_views(r@) == relevant_summaries(es.take(i as int)),
        decreases decisions.entries.len() - i,
    {
        let entry = &decisions.entries[i];
        proof {
            assert(es.take(i + 1).drop_last() =~= es.take(i as int));
            assert(es.take(i + 1).last() == es[i as int]);
        }
        if entry.1.status == RelevanceStatus::Relevant {
            let summary = match &entry.1.summary {
                Some(s) => s.clone(),
                None => String::new(),
            };
            let p = (entry.0.clone(), summary);
            proof {
                assert(pair_views(r@.push(p)) =~= pair_views(r@).push((p.0@, p.1@)));
            }
            r.push(p);
        }
        i = i + 1;
    }
    proof {
        assert(es.take(es.len() as int) =~= es);
    }
    r
}

/// How a relevant file is listed for the model: its path, then its summary.
pub fn format_file_entry(path: &str, summary: &str) -> (r: String)
    ensures
        r@ == path@ + ":\n"@ + summary@,
{
    let mut r = path.to_string();
    r.append(":\n");
    r.append(summary);
    r
}

/// The note on the setup script added to the lint and test requests.
pub fn setup_context(setup_script: &str) -> (r: String)
    ensures
        r@ == "\n\nSetup Script (for context - already taken care of):\n<setup_script>\n"@
            + setup_script@
            + "\n</setup_script>\n\nYour script should NOT duplicate any setup from the above setup script."@,
{
    let mut r = "\n\nSetup Script (for context - already taken care of):\n<setup_script>\n".to_string();
    r.append(setup_script);
    r.append("\n</setup_script>\n\nYour script should NOT duplicate any setup from the above setup script.");
    r
}

/// Whether a line of a test script looks like the start of a test.
pub open spec fn looks_like_test(line: Seq<char>) -> bool {
    contains_seq(line, "function test_"@) || contains_seq(line, "def test_"@) || contains_seq(
        line,
        "test() {"@,
    ) || (starts_with_seq(line, "test"@) && contains_seq(line, "{"@))
}

/// The first line that looks like a test, if any.
pub open spec fn first_test_in(lines: Seq<Seq<char>>) -> Option<Seq<char>>
    decreases lines.len(),
{
    if lines.len() == 0 {
        None
    } else if looks_like_test(lines[0]) {
        Some(lines[0])
    } else {
        first_test_in(lines.drop_first())
    }
}

/// The example test shown to the model: the first line of the test script
/// that looks like a test, or a placeholder comment.
pub open spec fn first_test_spec(test_script: Seq<char>) -> Seq<char> {
    match first_test_in(lines_seq(test_script)) {
        Some(l) => l,
        None => "# First test"@,
    }
}

fn line_looks_like_test(line: &[char]) -> (r: bool)
    ensures
        r == looks_like_test(line@),
{
    contains(line, &chars_of("function test_")) || contains(line, &chars_of("def test_"))
        || contains(line, &chars_of("test() {")) || (starts_with(line, &chars_of("test"))
        && contains(line, &chars_of("{")))
}

/// The first line of a test script that looks like a test.
pub fn first_test_line(test_script: &str) -> (r: String)
    ensures
        r@ == first_test_spec(test_script@),
{
    let lines = text_lines(&chars_of(test_script));
    let ghost ls = vec_views(lines@);
    proof {
        assert(ls.skip(0) =~= ls);
    }
    let mut i: usize = 0;
    while i < lines.len()
        invariant
            0 <= i <= lines@.len(),
            ls == vec_views(lines@),
            ls == lines_seq(test_script@),
            first_test_in(ls) == first_test_in(ls.skip(i as int)),
        decreases lines.len() - i,
    {
        proof {
            assert(ls.skip(i as int)[0] == lines@[i as int]@);
            assert(ls.skip(i as int).drop_first() =~= ls.skip(i + 1));
        }
        if line_looks_like_test(&lines[i]) {
            proof {
                assert(first_test_in(ls.skip(i as int)) == Some(lines@[i as int]@));
            }
            return string_of(&lines[i]);
        }
        i = i + 1;
    }
    proof {
        assert(ls.skip(i as int).len() == 0);
    }
    "# First test".to_string()
}

/// The request for the single-test script.
pub open spec fn single_test_prompt_spec(test_script: Seq<char>, first_test: Seq<char>) -> Seq<char> {
    "Based on the test script, please create a script to run a single test. The script should:\n        \n1. Accept a test name as argument\n2. Run only that specific test\n3. Work in the docker container environment\n4. Use the same testing framework as the main test script\n\nFor reference, here's the test script:\n```sh\n"@
        + test_script + "\n```\n\nAnd here's what looks like a test function: "@ + first_test
        + "\n\nCreate a script called 'single-test-script.sh' that runs just one specified test."@
}

/// The request for the single-test script.
pub fn single_test_prompt(test_script: &str, first_test: &str) -> (r: String)
    ensures
        r@ == single_test_prompt_spec(test_script@, first_test@),
{
    let mut r = "Based on the test script, please create a script to run a single test. The script should:\n        \n1. Accept a test name as argument\n2. Run only that specific test\n3. Work in the docker container environment\n4. Use the same testing framework as the main test script\n\nFor reference, here's the test script:\n```sh\n".to_string();
    r.append(test_script);
    r.append("\n```\n\nAnd here's what looks like a test function: ");
    r.append(first_test);
    r.append("\n\nCreate a script called 'single-test-script.sh' that runs just one specified test.");
    r
}

/// Why scripts cannot be generated yet.
#[derive(Debug, Clone, PartialEq, Eq, Structural)]
pub enum ScriptInputError {
    /// The relevance step has not run.
    NoDecisions,
    /// No file was found relevant.
    NoRelevantFiles,
}

impl ScriptInputError {
    /// The error message for a problem.
    pub fn message(&self, problem_id: &str) -> (r: String)
        ensures
            r@ == match *self {
                ScriptInputError::NoDecisions => "No relevance decisions found for problem: "@
                    + problem_id@ + ". Run the relevance step first."@,
                ScriptInputError::NoRelevantFiles => "No relevant files found for problem: "@
                    + problem_id@,
            },
    {
        match self {
            ScriptInputError::NoDecisions => {
                let mut m = "No relevance decisions found for problem: ".to_string();
                m.append(problem_id);
                m.append(". Run the relevance step first.");
                m
            },
            ScriptInputError::NoRelevantFiles => {
                let mut m = "No relevant files found for problem: ".to_string();
                m.append(problem_id);
                m
            },
        }
    }
}

/// The relevant files the scripts are written for: an error when the
/// decisions are missing or none is relevant.
pub fn script_inputs(decisions: Option<&OrderedMap<RelevanceDecision>>) -> (r: Result<
    Vec<(String, String)>,
    ScriptInputError,
>)
    ensures
        decisions is None ==> r == Err::<Vec<(String, String)>, _>(ScriptInputError::NoDecisions),
        decisions is Some && relevant_summaries(decisions.unwrap().entries@).len() == 0 ==> r
            == Err::<Vec<(String, String)>, _>(ScriptInputError::NoRelevantFiles),
        decisions is Some && relevant_summaries(decisions.unwrap().entries@).len() > 0 ==> (r matches Ok(
            v,
        ) && pair_views(v@) == relevant_summaries(decisions.unwrap().entries@)),
{
    match decisions {
        None => Err(ScriptInputError::NoDecisions),
        Some(d) => {
            let v = relevant_file_summaries(d);
            if v.len() == 0 {
                Err(ScriptInputError::NoRelevantFiles)
            } else {
                Ok(v)
            }
        },
    }
}

} // verus!
