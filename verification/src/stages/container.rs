//! Running the lint and test containers: the result of a run, and how a
//! failed test run is diagnosed and repaired.

use vstd::prelude::*;

use crate::bindings::json_calls::{json_field_bool, json_field_str, read_bool_field, read_str_field};
use crate::bindings::regex_calls::{find_match, find_re, first_captures, first_caps};
use crate::paths::vec_views;
use crate::text::{
    all_ascii, ascii_lower, chars_of, contains, contains_seq, eq_ignore_ascii_case_seq, lower_chars, lower_text,
};

verus! {

/// Container run result with exit code and success status
#[derive(Debug, Clone)]
pub struct ContainerResult {
    pub name: String,
    pub exit_code: i32,
    pub success: bool,
    pub logs: Vec<String>,
}

/// Signs in the logs that the image lacks something.
pub open spec fn dockerfile_indicators() -> Seq<Seq<char>> {
    seq![
        "command not found"@,
        "no such file or directory"@,
        "missing dependency"@,
        "not installed"@,
        "cannot find"@,
        "permission denied"@,
        "access denied"@,
        "executable file not found"@,
        "no such program"@,
        "segmentation fault"@,
        "killed"@,
        "out of memory"@,
        "resource temporarily unavailable"@,
    ]
}

/// Signs in the logs that the test script is wrong.
pub open spec fn test_script_indicators() -> Seq<Seq<char>> {
    seq![
        "syntax error"@,
        "unexpected end of file"@,
        "unexpected token"@,
        "unbound variable"@,
        "undefined reference"@,
        "unrecognized option"@,
        "invalid option"@,
        "too few arguments"@,
        "too many arguments"@,
        "unknown command"@,
        "invalid syntax"@,
        "incorrect usage"@,
        "cannot execute"@,
    ]
}

/// Whether some line holds `p`.
pub open spec fn in_some_line(lines: Seq<Seq<char>>, p: Seq<char>) -> bool {
    exists|i: int| 0 <= i < lines.len() && contains_seq(#[trigger] lines[i], p)
}

/// How many of the indicators (each lowered) occur in some line.
pub open spec fn count_found(indicators: Seq<Seq<char>>, lines: Seq<Seq<char>>) -> nat
    decreases indicators.len(),
{
    if indicators.len() == 0 {
        0
    } else {
        count_found(indicators.drop_last(), lines) + if in_some_line(
            lines,
            lower_text(indicators.last()),
        ) {
            1nat
        } else {
            0nat
        }
    }
}

/// What to fix given the counts of each kind of sign: both when there is
/// none, the kind with more signs otherwise, and the test script on a tie.
pub open spec fn fallback_decision(d: nat, t: nat) -> (bool, bool) {
    if d == 0 && t == 0 {
        (true, true)
    } else if d > t {
        (true, false)
    } else {
        (false, true)
    }
}

/// The lines of the logs, each lowered as `str::to_lowercase` lowers it.
pub open spec fn lowered_lines(logs: Seq<String>) -> Seq<Seq<char>> {
    logs.map_values(|l: String| lower_text(l@))
}

/// The heuristic verdict on the logs: (fix the Dockerfile, fix the test
/// script), from how many signs of each kind occur in the lowered logs. No
/// sign holds a line break, so looking in each lowered line finds what
/// looking in the lowered text of all lines joined by line breaks finds.
pub open spec fn fallback_spec(logs: Seq<String>) -> (bool, bool) {
    fallback_decision(
        count_found(dockerfile_indicators(), lowered_lines(logs)),
        count_found(test_script_indicators(), lowered_lines(logs)),
    )
}

proof fn lemma_count_found_same_lines(inds: Seq<Seq<char>>, la: Seq<Seq<char>>, lb: Seq<Seq<char>>)
    requires
        forall|p: Seq<char>| in_some_line(la, p) == in_some_line(lb, p),
    ensures
        count_found(inds, la) == count_found(inds, lb),
    decreases inds.len(),
{
    if inds.len() > 0 {
        lemma_count_found_same_lines(inds.drop_last(), la, lb);
        assert(in_some_line(la, lower_text(inds.last())) == in_some_line(lb, lower_text(inds.last())));
    }
}

/// The heuristic verdict depends only on which lowered lines the logs hold:
/// when every line of `a` has a line of `b` with the same lower case and
/// the other way round, the verdicts agree. So reordering the lines,
/// repeating them, or changing their case changes nothing.
pub proof fn law_fallback_depends_on_lowered_lines(a: Seq<String>, b: Seq<String>)
    requires
        forall|i: int|
            #![trigger a[i]]
            0 <= i < a.len() ==> exists|j: int|
                0 <= j < b.len() && lower_text(#[trigger] b[j]@) == lower_text(a[i]@),
        forall|j: int|
            #![trigger b[j]]
            0 <= j < b.len() ==> exists|i: int|
                0 <= i < a.len() && lower_text(#[trigger] a[i]@) == lower_text(b[j]@),
    ensures
        fallback_spec(a) == fallback_spec(b),
{
    let la = lowered_lines(a);
    let lb = lowered_lines(b);
    assert forall|p: Seq<char>| in_some_line(la, p) == in_some_line(lb, p) by {
        if in_some_line(la, p) {
            let i = choose|i: int| 0 <= i < la.len() && contains_seq(#[trigger] la[i], p);
            let j = choose|j: int| 0 <= j < b.len() && lower_text(#[trigger] b[j]@) == lower_text(a[i]@);
            assert(la[i] == lower_text(a[i]@));
            assert(lb[j] == lower_text(b[j]@));
            assert(contains_seq(lb[j], p));
        }
        if in_some_line(lb, p) {
            let j = choose|j: int| 0 <= j < lb.len() && contains_seq(#[trigger] lb[j], p);
            let i = choose|i: int| 0 <= i < a.len() && lower_text(#[trigger] a[i]@) == lower_text(b[j]@);
            assert(la[i] == lower_text(a[i]@));
            assert(lb[j] == lower_text(b[j]@));
            assert(contains_seq(la[i], p));
        }
    }
    lemma_count_found_same_lines(dockerfile_indicators(), la, lb);
    lemma_count_found_same_lines(test_script_indicators(), la, lb);
}

/// ASCII logs that differ only in the case of their letters get the same
/// heuristic verdict.
pub proof fn law_fallback_ignores_ascii_case(a: Seq<String>, b: Seq<String>)
    requires
        a.len() == b.len(),
        forall|i: int|
            #![trigger a[i]]
            0 <= i < a.len() ==> all_ascii(a[i]@) && all_ascii(b[i]@) && eq_ignore_ascii_case_seq(
                a[i]@,
                b[i]@,
            ),
    ensures
        fallback_spec(a) == fallback_spec(b),
{
    assert forall|i: int| #![trigger a[i]] 0 <= i < a.len() implies lower_text(a[i]@) == lower_text(b[i]@) by {
        let x = a[i];
        assert(all_ascii(a[i]@) && all_ascii(b[i]@));
        assert(eq_ignore_ascii_case_seq(a[i]@, b[i]@));
        assert(a[i]@.map_values(|c: char| ascii_lower(c)) =~= b[i]@.map_values(|c: char| ascii_lower(c)));
    }
    assert(lowered_lines(a) =~= lowered_lines(b));
}

fn dockerfile_indicator_list() -> (r: Vec<&'static str>)
    ensures
        r@.map_values(|s: &str| s@) == dockerfile_indicators(),
        r@.len() == 13,
{
    let r = vec![
        "command not found",
        "no such file or directory",
        "missing dependency",
        "not installed",
        "cannot find",
        "permission denied",
        "access denied",
        "executable file not found",
        "no such program",
        "segmentation fault",
        "killed",
        "out of memory",
        "resource temporarily unavailable",
    ];
    proof {
        assert(r@.map_values(|s: &str| s@) =~= dockerfile_indicators());
    }
    r
}

fn test_script_indicator_list() -> (r: Vec<&'static str>)
    ensures
        r@.map_values(|s: &str| s@) == test_script_indicators(),
        r@.len() == 13,
{
    let r = vec![
        "syntax error",
        "unexpected end of file",
        "unexpected token",
        "unbound variable",
        "undefined reference",
        "unrecognized option",
        "invalid option",
        "too few arguments",
        "too many arguments",
        "unknown command",
        "invalid syntax",
        "incorrect usage",
        "cannot execute",
    ];
    proof {
        assert(r@.map_values(|s: &str| s@) =~= test_script_indicators());
    }
    r
}

fn in_any_line(lines: &Vec<Vec<char>>, p: &[char]) -> (r: bool)
    ensures
        r == in_some_line(vec_views(lines@), p@),
{
    let ghost lv = vec_views(lines@);
    let mut i: usize = 0;
    while i < lines.len()
        invariant
            0 <= i <= lines@.len(),
            lv == vec_views(lines@),
            forall|k: int| 0 <= k < i ==> !contains_seq(#[trigger] lv[k], p@),
        decreases lines.len() - i,
    {
        if contains(&lines[i], p) {
            proof {
                assert(lv[i as int] == lines@[i as int]@);
            }
            return true;
        }
        proof {
            assert(lv[i as int] == lines@[i as int]@);
        }
        i = i + 1;
    }
    false
}

fn count_indicators(list: &Vec<&'static str>, lines: &Vec<Vec<char>>) -> (n: usize)
    requires
        list@.len() < usize::MAX,
    ensures
        n == count_found(list@.map_values(|s: &str| s@), vec_views(lines@)),
{
    let ghost all = list@.map_values(|s: &str| s@);
    let mut n: usize = 0;
    let mut i: usize = 0;
    while i < list.len()
        invariant
            0 <= i <= list@.len(),
            list@.len() < usize::MAX,
            all == list@.map_values(|s: &str| s@),
            n == count_found(all.take(i as int), vec_views(lines@)),
            n <= i,
        decreases list.len() - i,
    {
        let low = lower_chars(list[i]);
        let found = in_any_line(lines, &low);
        proof {
            assert(all.take(i + 1).drop_last() =~= all.take(i as int));
            assert(all.take(i + 1).last() == list@[i as int]@);
        }
        if found {
            n = n + 1;
        }
        i = i + 1;
    }
    proof {
        assert(all.take(list@.len() as int) =~= all);
    }
    n
}

/// Fallback function that uses heuristics to analyze test failures
/// This is used when the LLM analysis fails
pub fn analyze_test_failure_fallback(logs: &[String]) -> (r: (bool, bool))
    ensures
        r == fallback_spec(logs@),
{
    let mut lines: Vec<Vec<char>> = Vec::new();
    let mut i: usize = 0;
    while i < logs.len()
        invariant
            0 <= i <= logs@.len(),
            vec_views(lines@) == lowered_lines(logs@.take(i as int)),
        decreases logs.len() - i,
    {
        let l = lower_chars(logs[i].as_str());
        proof {
            assert(lowered_lines(logs@.take(i + 1)) =~= lowered_lines(logs@.take(i as int)).push(l@));
            assert(vec_views(lines@.push(l)) =~= vec_views(lines@).push(l@));
        }
        lines.push(l);
        i = i + 1;
    }
    proof {
        assert(logs@.take(logs@.len() as int) =~= logs@);
    }
    let dl = dockerfile_indicator_list();
    let tl = test_script_indicator_list();
    let d = count_indicators(&dl, &lines);
    let t = count_indicators(&tl, &lines);
    if d == 0 && t == 0 {
        (true, true)
    } else if d > t {
        (true, false)
    } else {
        (false, true)
    }
}

/// The JSON verdict in a reply: an object naming both fields.
pub const VERDICT_PATTERN: &'static str = r#"\{[\s\S]*"fix_dockerfile"[\s\S]*"fix_test_script"[\s\S]*\}"#;

/// What the model's diagnosis says: the JSON verdict when the reply holds
/// one that parses (a field that is missing or not a boolean counts as
/// `true`), the heuristic verdict on the logs otherwise.
pub open spec fn diagnosis_spec(response: Seq<char>, logs: Seq<String>) -> (bool, bool) {
    match find_re(VERDICT_PATTERN@, response) {
        None => fallback_spec(logs),
        Some(j) => match json_field_bool(j, "fix_dockerfile"@) {
            None => fallback_spec(logs),
            Some(fd) => match json_field_bool(j, "fix_test_script"@) {
                None => fallback_spec(logs),
                Some(ft) => (
                    match fd {
                        Some(b) => b,
                        None => true,
                    },
                    match ft {
                        Some(b) => b,
                        None => true,
                    },
                ),
            },
        },
    }
}

/// Reads the model's diagnosis of a failed test run (the decision part of
/// `analyze_test_failure_with_llm`).
pub fn interpret_failure_analysis(response: &str, logs: &[String]) -> (r: (bool, bool))
    ensures
        r == diagnosis_spec(response@, logs@),
{
    let json = match find_match(VERDICT_PATTERN, response) {
        Some(j) => j,
        None => {
            return analyze_test_failure_fallback(logs);
        },
    };
    let fd = match read_bool_field(json.as_str(), "fix_dockerfile") {
        Some(v) => v,
        None => {
            return analyze_test_failure_fallback(logs);
        },
    };
    let ft = match read_bool_field(json.as_str(), "fix_test_script") {
        Some(v) => v,
        None => {
            return analyze_test_failure_fallback(logs);
        },
    };
    let a = match fd {
        Some(b) => b,
        None => true,
    };
    let b = match ft {
        Some(b) => b,
        None => true,
    };
    (a, b)
}

/// The explanation in a diagnosis.
pub const REASONING_PATTERN: &'static str = r#""reasoning":\s*"([^"]*)"#;

/// The reasoning shown with a diagnosis: the `reasoning` string of the reply
/// when the reply is JSON (empty when it has none), otherwise the quoted
/// text after `"reasoning":`, otherwise a note that there is none.
pub open spec fn diagnosis_reasoning_spec(response: Seq<char>) -> Seq<char> {
    match json_field_str(response, "reasoning"@) {
        Some(Some(s)) => s,
        Some(None) => Seq::empty(),
        None => match first_caps(REASONING_PATTERN@, response, 1) {
            Some(Some(s)) => s,
            _ => "No reasoning available"@,
        },
    }
}

/// The reasoning of a diagnosis, for display.
pub fn diagnosis_reasoning(response: &str) -> (r: String)
    ensures
        r@ == diagnosis_reasoning_spec(response@),
{
    match read_str_field(response, "reasoning") {
        Some(Some(s)) => s,
        Some(None) => String::new(),
        None => match first_captures(REASONING_PATTERN, response, 1) {
            Some(Some(s)) => s,
            _ => "No reasoning available".to_string(),
        },
    }
}

/// How a verdict is announced.
pub open spec fn decision_text_spec(fix_dockerfile: bool, fix_test_script: bool) -> Seq<char> {
    if fix_dockerfile && fix_test_script {
        "Will update both Dockerfile and test script"@
    } else if fix_dockerfile {
        "Will update Dockerfile only"@
    } else if fix_test_script {
        "Will update test script only"@
    } else {
        "No updates needed (unusual state, will still proceed)"@
    }
}

/// The announcement of a verdict.
pub fn decision_text(fix_dockerfile: bool, fix_test_script: bool) -> (r: String)
    ensures
        r@ == decision_text_spec(fix_dockerfile, fix_test_script),
{
    if fix_dockerfile && fix_test_script {
        "Will update both Dockerfile and test script".to_string()
    } else if fix_dockerfile {
        "Will update Dockerfile only".to_string()
    } else if fix_test_script {
        "Will update test script only".to_string()
    } else {
        "No updates needed (unusual state, will still proceed)".to_string()
    }
}

/// The repairs after a failed test run, in the order they are made.
#[derive(Debug, Clone, Copy, PartialEq, Eq, Structural)]
pub struct RepairPlan {
    /// Rewrite the Dockerfile, then rebuild the image.
    pub update_dockerfile: bool,
    /// Rewrite the test script.
    pub update_test_script: bool,
    /// Rebuild the image after the test script (only when the Dockerfile
    /// was not already rebuilt).
    pub rebuild_after_script: bool,
}

/// The repairs a verdict asks for.
pub fn plan_repair(fix_dockerfile: bool, fix_test_script: bool) -> (p: RepairPlan)
    ensures
        p.update_dockerfile == fix_dockerfile,
        p.update_test_script == fix_test_script,
        p.rebuild_after_script == (fix_test_script && !fix_dockerfile),
{
    RepairPlan {
        update_dockerfile: fix_dockerfile,
        update_test_script: fix_test_script,
        rebuild_after_script: fix_test_script && !fix_dockerfile,
    }
}

/// The name of the container for a script and a problem: `lint-{id}` or
/// `test-{id}`.
pub fn container_name(kind: &str, problem_id: &str) -> (r: String)
    ensures
        r@ == kind@ + "-"@ + problem_id@,
{
    let mut r = kind.to_string();
    r.append("-");
    r.append(problem_id);
    r
}

/// The command run in a container: the setup script when present, then the
/// given script.
pub fn container_command(script: &str) -> (r: String)
    ensures
        r@ == "if [ -f /usr/local/bin/setup-script.sh ]; then /usr/local/bin/setup-script.sh; fi && /usr/local/bin/"@
            + script@,
{
    let mut r = "if [ -f /usr/local/bin/setup-script.sh ]; then /usr/local/bin/setup-script.sh; fi && /usr/local/bin/".to_string();
    r.append(script);
    r
}

} // verus!
