//! Building the overview of a problem: which stage a saved reasoning file
//! belongs to, and where its reasoning goes in the overview.

use vstd::prelude::*;

use crate::bindings::regex_calls::{first_captures, first_caps, is_match, matches_re};
use crate::models::overview::OverviewData;
use crate::text::{chars_of, contains, contains_seq, opt_view};

verus! {

pub const FILE_SELECTION_RE: &'static str = r"file_selection_.*\.json$";
pub const RELEVANCE_RE: &'static str = r"relevance_.*_(.+)\.json$";
pub const RANKING_RE: &'static str = r"ranking_.*\.json$";
pub const SETUP_SCRIPT_RE: &'static str = r"setup_script_.*\.json$";
pub const LINT_SCRIPT_RE: &'static str = r"lint_script_.*\.json$";
pub const TEST_SCRIPT_RE: &'static str = r"test_script_.*\.json$";
pub const SINGLE_TEST_SCRIPT_RE: &'static str = r"single_test_script_.*\.json$";
pub const DOCKERFILE_RE: &'static str = r"dockerfile_.*\.json$";
pub const DOCKERFILE_ERROR_RE: &'static str = r"dockerfile_error_.*_(\d+)\.json$";
pub const TEST_SCRIPT_ERROR_RE: &'static str = r"test_script_error_.*_(\d+)\.json$";

/// The stage a reasoning file belongs to.
#[derive(Debug, Clone, PartialEq, Eq)]
pub enum ReasoningKind {
    FileSelection,
    /// Relevance reasoning for the named file.
    Relevance(String),
    Ranking,
    SetupScript,
    LintScript,
    TestScript,
    SingleTestScript,
    Dockerfile,
    /// A Dockerfile repair, by attempt.
    DockerfileError(String),
    /// A test script repair, by attempt.
    TestScriptError(String),
    /// Not a reasoning file of any stage.
    Other,
}

/// The model of a kind: its tag and its text, if any.
pub open spec fn kind_model(k: ReasoningKind) -> (nat, Seq<char>) {
    match k {
        ReasoningKind::FileSelection => (0, Seq::empty()),
        ReasoningKind::Relevance(p) => (1, p@),
        ReasoningKind::Ranking => (2, Seq::empty()),
        ReasoningKind::SetupScript => (3, Seq::empty()),
        ReasoningKind::LintScript => (4, Seq::empty()),
        ReasoningKind::TestScript => (5, Seq::empty()),
        ReasoningKind::SingleTestScript => (6, Seq::empty()),
        ReasoningKind::Dockerfile => (7, Seq::empty()),
        ReasoningKind::DockerfileError(a) => (8, a@),
        ReasoningKind::TestScriptError(a) => (9, a@),
        ReasoningKind::Other => (10, Seq::empty()),
    }
}

/// The kind of a reasoning file by its name, tried in this order: file
/// selection, relevance (with the file it names), ranking, setup, lint,
/// test (not single-test or repair files), single-test, Dockerfile (not
/// repair files), Dockerfile repair and test script repair (with the
/// attempt).
pub open spec fn classify_spec(name: Seq<char>) -> (nat, Seq<char>) {
    if matches_re(FILE_SELECTION_RE@, name) {
        (0, Seq::empty())
    } else if first_caps(RELEVANCE_RE@, name, 1) is Some {
        match first_caps(RELEVANCE_RE@, name, 1) {
            Some(Some(p)) => (1, p),
            _ => (10, Seq::empty()),
        }
    } else if matches_re(RANKING_RE@, name) {
        (2, Seq::empty())
    } else if matches_re(SETUP_SCRIPT_RE@, name) {
        (3, Seq::empty())
    } else if matches_re(LINT_SCRIPT_RE@, name) {
        (4, Seq::empty())
    } else if matches_re(TEST_SCRIPT_RE@, name) && !contains_seq(name, "single_test_script"@)
        && !contains_seq(name, "test_script_error"@) {
        (5, Seq::empty())
    } else if matches_re(SINGLE_TEST_SCRIPT_RE@, name) {
        (6, Seq::empty())
    } else if matches_re(DOCKERFILE_RE@, name) && !contains_seq(name, "dockerfile_error"@) {
        (7, Seq::empty())
    } else if first_caps(DOCKERFILE_ERROR_RE@, name, 1) is Some {
        match first_caps(DOCKERFILE_ERROR_RE@, name, 1) {
            Some(Some(a)) => (8, a),
            _ => (10, Seq::empty()),
        }
    } else if first_caps(TEST_SCRIPT_ERROR_RE@, name, 1) is Some {
        match first_caps(TEST_SCRIPT_ERROR_RE@, name, 1) {
            Some(Some(a)) => (9, a),
            _ => (10, Seq::empty()),
        }
    } else {
        (10, Seq::empty())
    }
}

fn holds_text(name: &str, lit: &str) -> (r: bool)
    ensures
        r == contains_seq(name@, lit@),
{
    contains(&chars_of(name), &chars_of(lit))
}

/// Which stage a reasoning file belongs to, by its file name.
pub fn classify_reasoning_file(file_name: &str) -> (k: ReasoningKind)
    ensures
        kind_model(k) == classify_spec(file_name@),
{
    if is_match(FILE_SELECTION_RE, file_name) {
        return ReasoningKind::FileSelection;
    }
    match first_captures(RELEVANCE_RE, file_name, 1) {
        Some(Some(p)) => {
            return ReasoningKind::Relevance(p);
        },
        Some(None) => {
            return ReasoningKind::Other;
        },
        None => {},
    }
    if is_match(RANKING_RE, file_name) {
        ReasoningKind::Ranking
    } else if is_match(SETUP_SCRIPT_RE, file_name) {
        ReasoningKind::SetupScript
    } else if is_match(LINT_SCRIPT_RE, file_name) {
        ReasoningKind::LintScript
    } else if is_match(TEST_SCRIPT_RE, file_name) && !holds_text(file_name, "single_test_script")
        && !holds_text(file_name, "test_script_error") {
        ReasoningKind::TestScript
    } else if is_match(SINGLE_TEST_SCRIPT_RE, file_name) {
        ReasoningKind::SingleTestScript
    } else if is_match(DOCKERFILE_RE, file_name) && !holds_text(file_name, "dockerfile_error") {
        ReasoningKind::Dockerfile
    } else {
        match first_captures(DOCKERFILE_ERROR_RE, file_name, 1) {
            Some(Some(a)) => {
                return ReasoningKind::DockerfileError(a);
            },
            Some(None) => {
                return ReasoningKind::Other;
            },
            None => {},
        }
        match first_captures(TEST_SCRIPT_ERROR_RE, file_name, 1) {
            Some(Some(a)) => ReasoningKind::TestScriptError(a),
            _ => ReasoningKind::Other,
        }
    }
}

/// The stage name and suffix under which a kind's reasoning is stored.
pub open spec fn load_key_spec(k: (nat, Seq<char>)) -> Option<(Seq<char>, Seq<char>)> {
    if k.0 == 0 {
        Some(("file_selection"@, Seq::empty()))
    } else if k.0 == 1 {
        Some(("relevance"@, "_"@ + k.1))
    } else if k.0 == 2 {
        Some(("ranking"@, Seq::empty()))
    } else if k.0 == 3 {
        Some(("setup_script"@, Seq::empty()))
    } else if k.0 == 4 {
        Some(("lint_script"@, Seq::empty()))
    } else if k.0 == 5 {
        Some(("test_script"@, Seq::empty()))
    } else if k.0 == 6 {
        Some(("single_test_script"@, Seq::empty()))
    } else if k.0 == 7 {
        Some(("dockerfile"@, Seq::empty()))
    } else if k.0 == 8 {
        Some(("dockerfile_error"@, "_"@ + k.1))
    } else if k.0 == 9 {
        Some(("test_script_error"@, "_"@ + k.1))
    } else {
        None
    }
}

fn underscore(s: &String) -> (r: String)
    ensures
        r@ == "_"@ + s@,
{
    let mut r = "_".to_string();
    r.append(s.as_str());
    r
}

impl ReasoningKind {
    /// The stage name and suffix to load this kind's reasoning with.
    pub fn load_key(&self) -> (r: Option<(String, String)>)
        ensures
            match r {
                Some((a, b)) => load_key_spec(kind_model(*self)) == Some((a@, b@)),
                None => load_key_spec(kind_model(*self)) is None,
            },
    {
        match self {
            ReasoningKind::FileSelection => Some(("file_selection".to_string(), String::new())),
            ReasoningKind::Relevance(p) => Some(("relevance".to_string(), underscore(p))),
            ReasoningKind::Ranking => Some(("ranking".to_string(), String::new())),
            ReasoningKind::SetupScript => Some(("setup_script".to_string(), String::new())),
            ReasoningKind::LintScript => Some(("lint_script".to_string(), String::new())),
            ReasoningKind::TestScript => Some(("test_script".to_string(), String::new())),
            ReasoningKind::SingleTestScript => Some(
                ("single_test_script".to_string(), String::new()),
            ),
            ReasoningKind::Dockerfile => Some(("dockerfile".to_string(), String::new())),
            ReasoningKind::DockerfileError(a) => Some(
                ("dockerfile_error".to_string(), underscore(a)),
            ),
            ReasoningKind::TestScriptError(a) => Some(
                ("test_script_error".to_string(), underscore(a)),
            ),
            ReasoningKind::Other => None,
        }
    }
}

/// Puts the loaded reasoning of a file into the overview, in the place its
/// kind names; every other part of the overview stays as it was.
pub fn record_reasoning(overview: &mut OverviewData, kind: ReasoningKind, reasoning: String)
    ensures
        final(overview).problem_id == old(overview).problem_id,
        final(overview).problem_statement == old(overview).problem_statement,
        final(overview).metadata == old(overview).metadata,
        final(overview).file_selection_reasoning == if kind is FileSelection {
            Some(reasoning)
        } else {
            old(overview).file_selection_reasoning
        },
        final(overview).ranking_reasoning == if kind is Ranking {
            Some(reasoning)
        } else {
            old(overview).ranking_reasoning
        },
        final(overview).setup_script_reasoning == if kind is SetupScript {
            Some(reasoning)
        } else {
            old(overview).setup_script_reasoning
        },
        final(overview).lint_script_reasoning == if kind is LintScript {
            Some(reasoning)
        } else {
            old(overview).lint_script_reasoning
        },
        final(overview).test_script_reasoning == if kind is TestScript {
            Some(reasoning)
        } else {
            old(overview).test_script_reasoning
        },
        final(overview).single_test_script_reasoning == if kind is SingleTestScript {
            Some(reasoning)
        } else {
            old(overview).single_test_script_reasoning
        },
        final(overview).dockerfile_reasoning == if kind is Dockerfile {
            Some(reasoning)
        } else {
            old(overview).dockerfile_reasoning
        },
        final(overview).relevance_reasoning.view_map() == match kind {
            ReasoningKind::Relevance(p) => old(overview).relevance_reasoning.view_map().insert(
                p@,
                reasoning,
            ),
            _ => old(overview).relevance_reasoning.view_map(),
        },
        final(overview).dockerfile_error_reasoning.view_map() == match kind {
            ReasoningKind::DockerfileError(a) => old(
                overview,
            ).dockerfile_error_reasoning.view_map().insert(a@, reasoning),
            _ => old(overview).dockerfile_error_reasoning.view_map(),
        },
        final(overview).test_script_error_reasoning.view_map() == match kind {
            ReasoningKind::TestScriptError(a) => old(
                overview,
            ).test_script_error_reasoning.view_map().insert(a@, reasoning),
            _ => old(overview).test_script_error_reasoning.view_map(),
        },
{
    match kind {
        ReasoningKind::FileSelection => {
            overview.file_selection_reasoning = Some(reasoning);
        },
        ReasoningKind::Relevance(p) => {
            overview.relevance_reasoning.insert(p, reasoning);
        },
        ReasoningKind::Ranking => {
            overview.ranking_reasoning = Some(reasoning);
        },
        ReasoningKind::SetupScript => {
            overview.setup_script_reasoning = Some(reasoning);
        },
        ReasoningKind::LintScript => {
            overview.lint_script_reasoning = Some(reasoning);
        },
        ReasoningKind::TestScript => {
            overview.test_script_reasoning = Some(reasoning);
        },
        ReasoningKind::SingleTestScript => {
            overview.single_test_script_reasoning = Some(reasoning);
        },
        ReasoningKind::Dockerfile => {
            overview.dockerfile_reasoning = Some(reasoning);
        },
        ReasoningKind::DockerfileError(a) => {
            overview.dockerfile_error_reasoning.insert(a, reasoning);
        },
        ReasoningKind::TestScriptError(a) => {
            overview.test_script_error_reasoning.insert(a, reasoning);
        },
        ReasoningKind::Other => {},
    }
}

/// The request for a summary of the overview.
pub fn summary_prompt(detailed_md: &str) -> (r: String)
    ensures
        r@ == "You are an expert software engineer tasked with summarizing detailed reasoning about a project build process. I'll provide you with the full reasoning for each step, and I need you to create a concise but comprehensive summary of the build process.\n\n            Here's the full detailed reasoning document:\n            \n            ```markdown\n            "@
            + detailed_md@
            + "\n            ```\n            \n            Please create a summarized version that:\n            1. Keeps the same section structure\n            2. Significantly condenses each section to focus only on key points and decisions\n            3. Explains WHY choices were made rather than HOW they were implemented\n            4. Highlights important tradeoffs and considerations\n            5. Is approximately 1/4 the length of the original document\n            \n            Format your response as a complete Markdown document."@,
{
    let mut r = "You are an expert software engineer tasked with summarizing detailed reasoning about a project build process. I'll provide you with the full reasoning for each step, and I need you to create a concise but comprehensive summary of the build process.\n\n            Here's the full detailed reasoning document:\n            \n            ```markdown\n            ".to_string();
    r.append(detailed_md);
    r.append("\n            ```\n            \n            Please create a summarized version that:\n            1. Keeps the same section structure\n            2. Significantly condenses each section to focus only on key points and decisions\n            3. Explains WHY choices were made rather than HOW they were implemented\n            4. Highlights important tradeoffs and considerations\n            5. Is approximately 1/4 the length of the original document\n            \n            Format your response as a complete Markdown document.");
    r
}

} // verus!
