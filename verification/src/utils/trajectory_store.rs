//! Where the results of each stage are kept for a problem: the layout of
//! the trajectory directory.

use vstd::prelude::*;

use crate::collections::OrderedMap;
use crate::models::problem::SWEBenchProblem;
use crate::models::relevance::RelevanceDecision;

verus! {

/// A path joined with a relative name (`Path::join` for a name that does
/// not start at the root): a separator is put between them unless the
/// base is empty or already ends with one.
pub open spec fn join_path(base: Seq<char>, name: Seq<char>) -> Seq<char> {
    if name.len() > 0 && name[0] == '/' {
        name
    } else if base.len() == 0 || base.last() == '/' {
        base + name
    } else {
        base + "/"@ + name
    }
}

/// Joins a path and a name as `Path::join` does.
pub fn join_path_str(base: &str, name: &str) -> (r: String)
    ensures
        r@ == join_path(base@, name@),
{
    let n = crate::text::chars_of(name);
    if n.len() > 0 && n[0] == '/' {
        return name.to_string();
    }
    let b = crate::text::chars_of(base);
    let mut r = base.to_string();
    if !(b.len() == 0 || b[b.len() - 1] == '/') {
        r.append("/");
    }
    r.append(name);
    r
}

/// Store for trajectory data
#[derive(Debug, Clone)]
pub struct TrajectoryStore {
    /// Base directory for trajectory data
    pub base_dir: String,
    /// Problem ID
    pub problem_id: String,
}

impl TrajectoryStore {
    /// A store rooted at `base_dir` for the given problem (the program
    /// creates the directory).
    pub fn new(base_dir: &str, problem: &SWEBenchProblem) -> (s: Self)
        ensures
            s.base_dir@ == base_dir@,
            s.problem_id == problem.id,
    {
        TrajectoryStore { base_dir: base_dir.to_string(), problem_id: problem.id.clone() }
    }

    /// Get the path to the problem directory
    pub fn problem_dir(&self) -> (r: String)
        ensures
            r@ == self.base_dir@,
    {
        self.base_dir.clone()
    }

    /// Get the path to the overview data file
    pub fn overview_data_path(&self) -> (r: String)
        ensures
            r@ == join_path(self.base_dir@, "overview_data.json"@),
    {
        join_path_str(self.base_dir.as_str(), "overview_data.json")
    }

    /// Get the path to the overview markdown file
    pub fn overview_md_path(&self) -> (r: String)
        ensures
            r@ == join_path(self.base_dir@, "overview.md"@),
    {
        join_path_str(self.base_dir.as_str(), "overview.md")
    }

    /// Get the path to the reasoning directory
    pub fn reasoning_dir(&self) -> (r: String)
        ensures
            r@ == join_path(self.base_dir@, "reasoning"@),
    {
        join_path_str(self.base_dir.as_str(), "reasoning")
    }

    /// Get the path for storing reasoning for a specific stage
    pub fn reasoning_path(&self, stage: &str, suffix: &str) -> (r: String)
        ensures
            r@ == join_path(
                join_path(self.base_dir@, "reasoning"@),
                stage@ + "_"@ + self.problem_id@ + suffix@ + ".json"@,
            ),
    {
        let dir = self.reasoning_dir();
        let mut name = stage.to_string();
        name.append("_");
        name.append(self.problem_id.as_str());
        name.append(suffix);
        name.append(".json");
        join_path_str(dir.as_str(), name.as_str())
    }

    /// Get the path to the relevance decisions file
    pub fn relevance_decisions_path(&self) -> (r: String)
        ensures
            r@ == join_path(self.base_dir@, "relevance_decisions.json"@),
    {
        join_path_str(self.base_dir.as_str(), "relevance_decisions.json")
    }

    /// Get the path to the file ranking
    pub fn ranking_path(&self) -> (r: String)
        ensures
            r@ == join_path(self.base_dir@, "ranking.json"@),
    {
        join_path_str(self.base_dir.as_str(), "ranking.json")
    }

    /// Get the path to the saved file patterns
    pub fn file_patterns_path(&self) -> (r: String)
        ensures
            r@ == join_path(self.base_dir@, "file_patterns.json"@),
    {
        join_path_str(self.base_dir.as_str(), "file_patterns.json")
    }

    /// Whether a decision for the file is among the loaded decisions (none
    /// when they could not be loaded).
    pub fn relevance_decision_exists(
        &self,
        loaded: Option<&OrderedMap<RelevanceDecision>>,
        file_path: &str,
    ) -> (r: bool)
        ensures
            r == match loaded {
                Some(d) => d.view_map().contains_key(file_path@),
                None => false,
            },
    {
        match loaded {
            Some(d) => d.contains_key(file_path),
            None => false,
        }
    }
}

/// A decision is recorded for a file: it replaces any earlier decision for
/// that file and leaves the others as they were.
pub fn record_decision(
    decisions: &mut OrderedMap<RelevanceDecision>,
    file_path: &str,
    decision: RelevanceDecision,
)
    ensures
        final(decisions).view_map() == old(decisions).view_map().insert(file_path@, decision),
{
    decisions.insert(file_path.to_string(), decision);
}

/// Reading back a recorded decision gives the decision recorded last for
/// that file, and decisions for other files are untouched.
pub proof fn law_record_then_read(
    before: OrderedMap<RelevanceDecision>,
    after: OrderedMap<RelevanceDecision>,
    file_path: Seq<char>,
    decision: RelevanceDecision,
    other: Seq<char>,
)
    requires
        after.view_map() == before.view_map().insert(file_path, decision),
    ensures
        after.view_map().contains_key(file_path),
        after.view_map()[file_path] == decision,
        other != file_path ==> (after.view_map().contains_key(other) == before.view_map().contains_key(other)),
        other != file_path && before.view_map().contains_key(other) ==> after.view_map()[other]
            == before.view_map()[other],
{
}

} // verus!
