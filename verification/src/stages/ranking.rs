//! Ranking the relevant files: which files are ranked, how the ranking is
//! read from the model's reply, and the ranked list that results.

use vstd::prelude::*;

use crate::bindings::regex_calls::{all_captures, all_caps};
use crate::collections::OrderedMap;
use crate::models::ranking::{FileRanking, RankedCodebaseFile, RelevantFileDataForPrompt};
use crate::models::relevance::{RelevanceDecision, RelevanceStatus};
use crate::models::tree::{lemma_lex_asym, lemma_lex_total, lemma_lex_trans, lex_less, lex_lt};
use crate::paths::{lines_seq, text_lines, vec_views};
use crate::text::{
    chars_of, contains, contains_seq, starts_with, starts_with_seq, string_of, str_is, texts, trim,
    trim_seq,
};
use crate::utils::json_utils::{extract_last_json, extract_last_json_spec, QUOTED_PATH_PATTERN};

verus! {

/// The summary given to a relevant file whose decision has none.
pub open spec fn default_relevant_summary() -> Seq<char> {
    "This file was marked as relevant to the issue."@
}

/// The relevant files of the decisions with their summaries, in order.
pub open spec fn ranking_candidates_spec(entries: Seq<(String, RelevanceDecision)>) -> Seq<(Seq<char>, Seq<char>)>
    decreases entries.len(),
{
    if entries.len() == 0 {
        Seq::empty()
    } else if entries.last().1.status == RelevanceStatus::Relevant {
        ranking_candidates_spec(entries.drop_last()).push(
            (
                entries.last().0@,
                match entries.last().1.summary {
                    Some(s) => s@,
                    None => default_relevant_summary(),
                },
            ),
        )
    } else {
        ranking_candidates_spec(entries.drop_last())
    }
}

/// The relevant files to rank, each with its summary.
pub fn ranking_candidates(decisions: &OrderedMap<RelevanceDecision>) -> (r: Vec<(String, String)>)
    ensures
        crate::stages::scripts::pair_views(r@) == ranking_candidates_spec(decisions.entries@),
{
    let ghost es = decisions.entries@;
    let mut r: Vec<(String, String)> = Vec::new();
    let mut i: usize = 0;
    while i < decisions.entries.len()
        invariant
            0 <= i <= es.len(),
            es == decisions.entries@,
            crate::stages::scripts::pair_views(r@) == ranking_candidates_spec(es.take(i as int)),
        decreases decisions.entries.len() - i,
    {
        let entry = &decisions.entries[i];
        proof {
            assert(es.take(i + 1).drop_last() =~= es.take(i as int));
            assert(es.take(i + 1).last() == es[i as int]);
        }
        if entry.1.status == RelevanceStatus::Relevant {
            let summary = match &entry.1.summary {
                Some(s) => s.clone(),
                None => "This file was marked as relevant to the issue.".to_string(),
            };
            let p = (entry.0.clone(), summary);
            proof {
                assert(crate::stages::scripts::pair_views(r@.push(p))
                    =~= crate::stages::scripts::pair_views(r@).push((p.0@, p.1@)));
            }
            r.push(p);
        }
        i = i + 1;
    }
    proof {
        assert(es.take(es.len() as int) =~= es);
    }
    r
}

/// Whether a line of a reply is taken for a file path.
pub open spec fn path_line(line: Seq<char>) -> bool {
    contains_seq(line, "/"@) && !starts_with_seq(line, "```"@) && !starts_with_seq(line, "- "@)
}

/// The path lines of a reply, trimmed, in order.
pub open spec fn path_lines(lines: Seq<Seq<char>>) -> Seq<Seq<char>>
    decreases lines.len(),
{
    if lines.len() == 0 {
        Seq::empty()
    } else if path_line(lines.last()) {
        path_lines(lines.drop_last()).push(trim_seq(lines.last()))
    } else {
        path_lines(lines.drop_last())
    }
}

/// The ranking a reply gives: the list read from it as JSON; else its
/// quoted paths; else its lines that look like paths; `None` when all
/// three are empty.
pub open spec fn ranking_from_response_spec(content: Seq<char>) -> Option<Seq<Seq<char>>> {
    match extract_last_json_spec(content) {
        Ok(r) => Some(r),
        Err(_) => {
            let quoted = all_caps(QUOTED_PATH_PATTERN@, content, 1);
            if quoted.len() > 0 {
                Some(quoted)
            } else if path_lines(lines_seq(content)).len() > 0 {
                Some(path_lines(lines_seq(content)))
            } else {
                None
            }
        },
    }
}

fn is_path_line(line: &[char]) -> (r: bool)
    ensures
        r == path_line(line@),
{
    contains(line, &chars_of("/")) && !starts_with(line, &chars_of("```")) && !starts_with(
        line,
        &chars_of("- "),
    )
}

fn path_lines_of(content: &str) -> (r: Vec<String>)
    ensures
        texts(r@) == path_lines(lines_seq(content@)),
{
    let lines = text_lines(&chars_of(content));
    let ghost ls = vec_views(lines@);
    let mut r: Vec<String> = Vec::new();
    let mut i: usize = 0;
    while i < lines.len()
        invariant
            0 <= i <= lines@.len(),
            ls == vec_views(lines@),
            texts(r@) == path_lines(ls.take(i as int)),
        decreases lines.len() - i,
    {
        proof {
            assert(ls.take(i + 1).drop_last() =~= ls.take(i as int));
            assert(ls.take(i + 1).last() == lines@[i as int]@);
        }
        if is_path_line(&lines[i]) {
            let t = string_of(&trim(&lines[i]));
            proof {
                assert(texts(r@.push(t)) =~= texts(r@).push(t@));
            }
            r.push(t);
        }
        i = i + 1;
    }
    proof {
        assert(ls.take(lines@.len() as int) =~= ls);
    }
    r
}

/// Reads the ranking from a reply of the model.
pub fn ranking_from_response(content: &str) -> (r: Option<Vec<String>>)
    ensures
        match r {
            Some(v) => ranking_from_response_spec(content@) == Some(texts(v@)),
            None => ranking_from_response_spec(content@) is None,
        },
{
    match extract_last_json(content) {
        Ok(v) => {
            proof {
                assert(texts(v@) =~= crate::utils::json_utils::views(v@));
            }
            return Some(v);
        },
        Err(_) => {},
    }
    let quoted = all_captures(QUOTED_PATH_PATTERN, content, 1);
    if quoted.len() > 0 {
        proof {
            assert(texts(quoted@) =~= quoted@.map_values(|s: String| s@));
        }
        return Some(quoted);
    }
    let lines = path_lines_of(content);
    if lines.len() > 0 {
        Some(lines)
    } else {
        None
    }
}

/// The message kept with the fallback ranking.
pub open spec fn fallback_message() -> Seq<char> {
    "Fallback ranking - all files in alphabetical order"@
}

/// The paths of the relevant files, in order.
pub open spec fn relevant_paths(files: Seq<RelevantFileDataForPrompt>) -> Seq<Seq<char>> {
    files.map_values(|f: RelevantFileDataForPrompt| f.path@)
}

/// The sum of the first `n` costs.
pub open spec fn prefix_cost(costs: Seq<usize>, n: int) -> int
    decreases n,
{
    if n <= 0 {
        0
    } else {
        prefix_cost(costs, n - 1) + costs[n - 1]
    }
}

/// How many entries of a listing, taken in order, fit within a token
/// budget: the longest prefix whose costs add up to at most `max_tokens`.
pub fn entries_within_budget(costs: &Vec<usize>, max_tokens: usize) -> (n: usize)
    ensures
        n <= costs@.len(),
        prefix_cost(costs@, n as int) <= max_tokens,
        n < costs@.len() ==> prefix_cost(costs@, n + 1) > max_tokens,
{
    let mut used: usize = 0;
    let mut n: usize = 0;
    while n < costs.len()
        invariant
            n <= costs@.len(),
            used == prefix_cost(costs@, n as int),
            used <= max_tokens,
        decreases costs.len() - n,
    {
        if costs[n] > max_tokens - used {
            return n;
        }
        used = used + costs[n];
        n = n + 1;
    }
    n
}

/// Texts in ascending character-code order (the order of `str`'s `Ord`).
pub open spec fn paths_sorted(s: Seq<Seq<char>>) -> bool {
    forall|i: int, j: int| 0 <= i < j < s.len() ==> !lex_lt(#[trigger] s[j], #[trigger] s[i])
}

proof fn lemma_insert_sorted(s: Seq<Seq<char>>, e: Seq<char>, pos: int)
    requires
        paths_sorted(s),
        0 <= pos <= s.len(),
        forall|k: int| pos <= k < s.len() ==> lex_lt(e, #[trigger] s[k]),
        pos == 0 || !lex_lt(e, s[pos - 1]),
    ensures
        paths_sorted(s.insert(pos, e)),
{
    let t = s.insert(pos, e);
    assert forall|i: int, j: int| 0 <= i < j < t.len() implies !lex_lt(#[trigger] t[j], #[trigger] t[i]) by {
        if j < pos {
            assert(t[i] == s[i] && t[j] == s[j]);
        } else if i > pos {
            assert(t[i] == s[i - 1] && t[j] == s[j - 1]);
        } else if i == pos {
            assert(t[i] == e && t[j] == s[j - 1]);
            lemma_lex_asym(e, s[j - 1]);
        } else if j == pos {
            assert(t[i] == s[i] && t[j] == e);
            let p = s[pos - 1];
            if lex_lt(e, s[i]) {
                if i < pos - 1 {
                    assert(!lex_lt(p, s[i]));
                } 
                if p == e {
                    assert(lex_lt(p, s[i]));
                } else {
                    lemma_lex_total(p, e);
                    lemma_lex_trans(p, e, s[i]);
                    if i == pos - 1 {
                        lemma_lex_asym(p, e);
                    }
                }
            }
        } else {
            assert(i < pos && j > pos);
            assert(t[i] == s[i] && t[j] == s[j - 1]);
        }
    }
}

/// The texts in ascending order (the fallback ranking lists the relevant
/// files this way).
fn sorted_paths(paths: &Vec<String>) -> (r: Vec<String>)
    ensures
        paths_sorted(texts(r@)),
        texts(r@).to_multiset() == texts(paths@).to_multiset(),
{
    let mut r: Vec<String> = Vec::new();
    let mut i: usize = 0;
    proof {
        assert(texts(r@) =~= texts(paths@.take(0)));
    }
    while i < paths.len()
        invariant
            0 <= i <= paths@.len(),
            paths_sorted(texts(r@)),
            texts(r@).to_multiset() == texts(paths@.take(i as int)).to_multiset(),
        decreases paths.len() - i,
    {
        let e = paths[i].clone();
        let ec = chars_of(e.as_str());
        let ghost s = texts(r@);
        let mut pos: usize = r.len();
        while pos > 0 && lex_less(&ec, &chars_of(r[pos - 1].as_str()))
            invariant
                0 <= pos <= r@.len(),
                s == texts(r@),
                ec@ == e@,
                forall|k: int| pos <= k < s.len() ==> lex_lt(e@, #[trigger] s[k]),
            decreases pos,
        {
            pos = pos - 1;
        }
        proof {
            lemma_insert_sorted(s, e@, pos as int);
            assert(texts(r@.insert(pos as int, e)) =~= s.insert(pos as int, e@));
            vstd::seq_lib::to_multiset_insert(s, pos as int, e@);
            assert(texts(paths@.take(i + 1)) =~= texts(paths@.take(i as int)).push(e@));
            vstd::seq_lib::to_multiset_build(texts(paths@.take(i as int)), e@);
        }
        r.insert(pos, e);
        i = i + 1;
    }
    proof {
        assert(paths@.take(paths@.len() as int) =~= paths@);
    }
    r
}

/// The ranking kept: the model's when it gave one, otherwise every relevant
/// file, in ascending order of path (as its message says).
pub fn choose_ranking(
    model: Option<(String, Vec<String>)>,
    relevant: &Vec<RelevantFileDataForPrompt>,
) -> (r: FileRanking)
    ensures
        match model {
            Some((message, ranking)) => r.message == message && r.ranking == ranking,
            None => r.message@ == fallback_message() && paths_sorted(texts(r.ranking@)) && texts(
                r.ranking@,
            ).to_multiset() == relevant_paths(relevant@).to_multiset(),
        },
{
    match model {
        Some((message, ranking)) => FileRanking { message, ranking },
        None => {
            let mut paths: Vec<String> = Vec::new();
            let mut i: usize = 0;
            while i < relevant.len()
                invariant
                    0 <= i <= relevant@.len(),
                    texts(paths@) == relevant_paths(relevant@.take(i as int)),
                decreases relevant.len() - i,
            {
                let p = relevant[i].path.clone();
                proof {
                    assert(relevant_paths(relevant@.take(i + 1)) =~= relevant_paths(
                        relevant@.take(i as int),
                    ).push(relevant@[i as int].path@));
                    assert(texts(paths@.push(p)) =~= texts(paths@).push(p@));
                }
                paths.push(p);
                i = i + 1;
            }
            proof {
                assert(relevant@.take(relevant@.len() as int) =~= relevant@);
            }
            FileRanking {
                message: "Fallback ranking - all files in alphabetical order".to_string(),
                ranking: sorted_paths(&paths),
            }
        },
    }
}

/// The token count of the last relevant file with the given path.
pub open spec fn tokens_of(files: Seq<RelevantFileDataForPrompt>, path: Seq<char>) -> Option<usize>
    decreases files.len(),
{
    if files.len() == 0 {
        None
    } else if files.last().path@ == path {
        Some(files.last().token_count)
    } else {
        tokens_of(files.drop_last(), path)
    }
}

/// The ranked files: each ranked path that is a relevant file, with its
/// token count, in ranking order.
pub open spec fn ranked_files_spec(ranking: Seq<Seq<char>>, files: Seq<RelevantFileDataForPrompt>) -> Seq<(Seq<char>, usize)>
    decreases ranking.len(),
{
    if ranking.len() == 0 {
        Seq::empty()
    } else {
        match tokens_of(files, ranking.last()) {
            Some(t) => ranked_files_spec(ranking.drop_last(), files).push((ranking.last(), t)),
            None => ranked_files_spec(ranking.drop_last(), files),
        }
    }
}

/// The views of ranked files.
pub open spec fn ranked_views(v: Seq<RankedCodebaseFile>) -> Seq<(Seq<char>, usize)> {
    v.map_values(|f: RankedCodebaseFile| (f.path@, f.tokens))
}

fn lookup_tokens(files: &Vec<RelevantFileDataForPrompt>, path: &String) -> (r: Option<usize>)
    ensures
        r == tokens_of(files@, path@),
{
    let mut i: usize = files.len();
    proof {
        assert(files@.take(files@.len() as int) =~= files@);
    }
    while i > 0
        invariant
            0 <= i <= files@.len(),
            tokens_of(files@, path@) == tokens_of(files@.take(i as int), path@),
        decreases i,
    {
        proof {
            assert(files@.take(i as int).drop_last() =~= files@.take(i - 1));
            assert(files@.take(i as int).last() == files@[i - 1]);
        }
        if files[i - 1].path.eq(path) {
            return Some(files[i - 1].token_count);
        }
        i = i - 1;
    }
    None
}

/// Converts a ranking into ranked files with token counts.
pub fn ranked_files(ranking: &Vec<String>, relevant: &Vec<RelevantFileDataForPrompt>) -> (r: Vec<
    RankedCodebaseFile,
>)
    ensures
        ranked_views(r@) == ranked_files_spec(texts(ranking@), relevant@),
{
    let ghost rs = texts(ranking@);
    let mut r: Vec<RankedCodebaseFile> = Vec::new();
    let mut i: usize = 0;
    while i < ranking.len()
        invariant
            0 <= i <= ranking@.len(),
            rs == texts(ranking@),
            ranked_views(r@) == ranked_files_spec(rs.take(i as int), relevant@),
        decreases ranking.len() - i,
    {
        proof {
            assert(rs.take(i + 1).drop_last() =~= rs.take(i as int));
            assert(rs.take(i + 1).last() == ranking@[i as int]@);
        }
        match lookup_tokens(relevant, &ranking[i]) {
            Some(t) => {
                let f = RankedCodebaseFile { path: ranking[i].clone(), tokens: t };
                proof {
                    assert(ranked_views(r@.push(f)) =~= ranked_views(r@).push((f.path@, f.tokens)));
                }
                r.push(f);
            },
            None => {},
        }
        i = i + 1;
    }
    proof {
        assert(rs.take(ranking@.len() as int) =~= rs);
    }
    r
}

/// Every ranked file is a relevant file, listed with that file's token
/// count, and appears in the ranking.
pub proof fn law_ranked_files_are_relevant(
    ranking: Seq<Seq<char>>,
    files: Seq<RelevantFileDataForPrompt>,
    i: int,
)
    requires
        0 <= i < ranked_files_spec(ranking, files).len(),
    ensures
        relevant_paths(files).contains(ranked_files_spec(ranking, files)[i].0),
        ranking.contains(ranked_files_spec(ranking, files)[i].0),
        tokens_of(files, ranked_files_spec(ranking, files)[i].0) == Some(
            ranked_files_spec(ranking, files)[i].1,
        ),
    decreases ranking.len(),
{
    let out = ranked_files_spec(ranking, files);
    if ranking.len() > 0 {
        let rest = ranked_files_spec(ranking.drop_last(), files);
        if i < rest.len() {
            law_ranked_files_are_relevant(ranking.drop_last(), files, i);
            assert(out[i] == rest[i]);
            let j = choose|j: int| 0 <= j < ranking.drop_last().len() && ranking.drop_last()[j] == rest[i].0;
            assert(ranking[j] == ranking.drop_last()[j]);
        } else {
            assert(out[i].0 == ranking.last());
            assert(ranking[ranking.len() - 1] == ranking.last());
            lemma_tokens_of_member(files, ranking.last());
        }
    }
}

proof fn lemma_tokens_of_member(files: Seq<RelevantFileDataForPrompt>, path: Seq<char>)
    requires
        tokens_of(files, path) is Some,
    ensures
        relevant_paths(files).contains(path),
    decreases files.len(),
{
    if files.last().path@ == path {
        assert(relevant_paths(files)[files.len() - 1] == path);
    } else {
        lemma_tokens_of_member(files.drop_last(), path);
        let j = choose|j: int| 0 <= j < relevant_paths(files.drop_last()).len() && relevant_paths(files.drop_last())[j] == path;
        assert(relevant_paths(files)[j] == relevant_paths(files.drop_last())[j]);
    }
}

/// Why the ranking step cannot run yet.
#[derive(Debug, Clone, PartialEq, Eq, Structural)]
pub enum RankingInputError {
    /// The file selection step has not run.
    FileSelectionMissing,
    /// The relevance step has not run.
    RelevanceMissing,
}

impl RankingInputError {
    /// The error message.
    pub fn message(&self) -> (r: String)
        ensures
            r@ == match *self {
                RankingInputError::FileSelectionMissing => "File selection step not run. Run 'cargo run --release -- file_selection' first."@,
                RankingInputError::RelevanceMissing => "Relevance step not run. Run 'cargo run --release -- relevance' first."@,
            },
    {
        match self {
            RankingInputError::FileSelectionMissing => "File selection step not run. Run 'cargo run --release -- file_selection' first.".to_string(),
            RankingInputError::RelevanceMissing => "Relevance step not run. Run 'cargo run --release -- relevance' first.".to_string(),
        }
    }
}

/// The ranking step runs only after file selection and relevance: an error
/// naming the first missing step, in that order.
pub fn check_ranking_inputs(patterns_saved: bool, decisions_saved: bool) -> (r: Result<
    (),
    RankingInputError,
>)
    ensures
        !patterns_saved ==> r == Err::<(), _>(RankingInputError::FileSelectionMissing),
        patterns_saved && !decisions_saved ==> r == Err::<(), _>(RankingInputError::RelevanceMissing),
        patterns_saved && decisions_saved ==> r is Ok,
{
    if !patterns_saved {
        Err(RankingInputError::FileSelectionMissing)
    } else if !decisions_saved {
        Err(RankingInputError::RelevanceMissing)
    } else {
        Ok(())
    }
}

/// A reply whose lists cannot be read as JSON but which holds quoted
/// paths is ranked by exactly those quoted paths, in the order they occur;
/// a list read as JSON is taken as it stands.
pub proof fn law_quoted_paths_before_lines(content: Seq<char>)
    ensures
        extract_last_json_spec(content) is Err && all_caps(QUOTED_PATH_PATTERN@, content, 1).len()
            > 0 ==> ranking_from_response_spec(content) == Some(all_caps(QUOTED_PATH_PATTERN@, content, 1)),
        extract_last_json_spec(content) matches Ok(v) ==> ranking_from_response_spec(content) == Some(v),
{
}

} // verus!
