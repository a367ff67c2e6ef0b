//! Writing the test-focused Dockerfile: reading it out of a model reply,
//! adding the scripts to it, and the rules of the build and its retries.

use vstd::prelude::*;

use crate::bindings::regex_calls::{first_captures, first_caps};
use crate::models::ranking::RankedCodebaseFile;
use crate::paths::{lines_seq, text_lines, vec_views};
use crate::text::{chars_of, contains, contains_seq, decimal, decimal_seq, starts_with_seq, string_of};

verus! {

/// A fenced block tagged `dockerfile`, in any case.
pub const DOCKERFILE_BLOCK_PATTERN: &'static str = r"(?i)```\s*dockerfile\s*\n([\s\S]*?)\n\s*```";

/// A fenced block without a tag.
pub const PLAIN_BLOCK_PATTERN: &'static str = r"```\s*\n([\s\S]*?)\n\s*```";

/// The Dockerfile in a reply: the first `dockerfile` block, or else the
/// first untagged block when it holds a `FROM ` instruction.
pub open spec fn extract_dockerfile_spec(response: Seq<char>) -> Option<Seq<char>> {
    match first_caps(DOCKERFILE_BLOCK_PATTERN@, response, 1) {
        Some(g) => g,
        None => match first_caps(PLAIN_BLOCK_PATTERN@, response, 1) {
            Some(Some(c)) => if contains_seq(c, "FROM "@) {
                Some(c)
            } else {
                None
            },
            _ => None,
        },
    }
}

/// Extract Dockerfile content from LLM response, looking for a markdown code block
pub fn extract_dockerfile_from_response(response: &str) -> (r: Option<String>)
    ensures
        crate::text::opt_view(r) == extract_dockerfile_spec(response@),
{
    match first_captures(DOCKERFILE_BLOCK_PATTERN, response, 1) {
        Some(g) => {
            return g;
        },
        None => {},
    }
    match first_captures(PLAIN_BLOCK_PATTERN, response, 1) {
        Some(Some(c)) => {
            let cc = chars_of(c.as_str());
            let from = chars_of("FROM ");
            if contains(&cc, &from) {
                Some(c)
            } else {
                None
            }
        },
        _ => None,
    }
}

/// The Dockerfile a reply gives: the extracted block, or the whole reply.
pub fn dockerfile_content_from_response(response: &str) -> (r: String)
    ensures
        r@ == match extract_dockerfile_spec(response@) {
            Some(c) => c,
            None => response@,
        },
{
    match extract_dockerfile_from_response(response) {
        Some(c) => c,
        None => response.to_string(),
    }
}

/// The scripts the scripts stage may have written.
#[derive(Debug, Clone, Copy)]
pub struct ScriptsPresent {
    pub setup: bool,
    pub lint: bool,
    pub test: bool,
    pub single_test: bool,
}

/// `COPY` of one script when present.
pub open spec fn copy_line(present: bool, name: Seq<char>) -> Seq<char> {
    if present {
        "COPY "@ + name + " /usr/local/bin/"@ + name + "\n"@
    } else {
        Seq::empty()
    }
}

/// The installed paths of the present scripts, in order.
pub open spec fn executables(p: ScriptsPresent) -> Seq<Seq<char>> {
    (if p.setup { seq!["/usr/local/bin/setup-script.sh"@] } else { Seq::empty() })
        + (if p.lint { seq!["/usr/local/bin/lint-script.sh"@] } else { Seq::empty() })
        + (if p.test { seq!["/usr/local/bin/test-script.sh"@] } else { Seq::empty() })
        + (if p.single_test { seq!["/usr/local/bin/single-test-script.sh"@] } else { Seq::empty() })
}

/// Whether any script is present.
pub open spec fn any_script(p: ScriptsPresent) -> bool {
    p.setup || p.lint || p.test || p.single_test
}

/// The instructions that copy the present scripts into the image and make
/// them executable.
pub open spec fn script_commands_spec(p: ScriptsPresent) -> Seq<char> {
    "\n# Copy scripts\n"@ + copy_line(p.setup, "setup-script.sh"@) + copy_line(
        p.lint,
        "lint-script.sh"@,
    ) + copy_line(p.test, "test-script.sh"@) + copy_line(p.single_test, "single-test-script.sh"@)
        + "RUN chmod +x "@ + crate::text::join_seq(executables(p), " "@) + "\n"@
}

/// The Dockerfile with the scripts added: unchanged when there are none.
pub open spec fn with_scripts_spec(content: Seq<char>, p: ScriptsPresent) -> Seq<char> {
    if any_script(p) {
        content + script_commands_spec(p)
    } else {
        content
    }
}

fn push_copy(s: &mut String, present: bool, name: &str)
    ensures
        final(s)@ == old(s)@ + copy_line(present, name@),
{
    if present {
        s.append("COPY ");
        s.append(name);
        s.append(" /usr/local/bin/");
        s.append(name);
        s.append("\n");
    }
}

/// The instructions for the scripts that are present.
fn script_commands(p: ScriptsPresent) -> (r: String)
    ensures
        r@ == script_commands_spec(p),
{
    let mut r = "\n# Copy scripts\n".to_string();
    let ghost s0 = r@;
    push_copy(&mut r, p.setup, "setup-script.sh");
    push_copy(&mut r, p.lint, "lint-script.sh");
    push_copy(&mut r, p.test, "test-script.sh");
    push_copy(&mut r, p.single_test, "single-test-script.sh");
    let ghost s1 = r@;
    r.append("RUN chmod +x ");
    let ex = executable_list(p);
    let joined = crate::text::join(&ex, " ");
    r.append(joined.as_str());
    r.append("\n");
    proof {
        assert(s1 == "\n# Copy scripts\n"@ + copy_line(p.setup, "setup-script.sh"@) + copy_line(
            p.lint,
            "lint-script.sh"@,
        ) + copy_line(p.test, "test-script.sh"@) + copy_line(p.single_test, "single-test-script.sh"@));
        assert(r@ =~= script_commands_spec(p));
    }
    r
}

/// Adds to a Dockerfile the instructions for the scripts that are present.
pub fn add_scripts_to_dockerfile(content: &str, p: ScriptsPresent) -> (r: String)
    ensures
        r@ == with_scripts_spec(content@, p),
{
    let mut r = content.to_string();
    if !(p.setup || p.lint || p.test || p.single_test) {
        return r;
    }
    let cmds = script_commands(p);
    r.append(cmds.as_str());
    r
}

fn executable_list(p: ScriptsPresent) -> (ex: Vec<String>)
    ensures
        crate::text::texts(ex@) == executables(p),
{
    let mut ex: Vec<String> = Vec::new();
    let ghost e0 = crate::text::texts(ex@);
    if p.setup {
        ex.push("/usr/local/bin/setup-script.sh".to_string());
    }
    let ghost e1 = crate::text::texts(ex@);
    proof {
        assert(e1 =~= (if p.setup { seq!["/usr/local/bin/setup-script.sh"@] } else { Seq::empty() }));
    }
    if p.lint {
        ex.push("/usr/local/bin/lint-script.sh".to_string());
    }
    let ghost e2 = crate::text::texts(ex@);
    proof {
        assert(e2 =~= e1 + (if p.lint { seq!["/usr/local/bin/lint-script.sh"@] } else { Seq::empty() }));
    }
    if p.test {
        ex.push("/usr/local/bin/test-script.sh".to_string());
    }
    let ghost e3 = crate::text::texts(ex@);
    proof {
        assert(e3 =~= e2 + (if p.test { seq!["/usr/local/bin/test-script.sh"@] } else { Seq::empty() }));
    }
    if p.single_test {
        ex.push("/usr/local/bin/single-test-script.sh".to_string());
    }
    proof {
        assert(crate::text::texts(ex@) =~= e3 + (if p.single_test {
            seq!["/usr/local/bin/single-test-script.sh"@]
        } else {
            Seq::empty()
        }));
        assert(crate::text::texts(ex@) =~= executables(p));
    }
    ex
}

/// Whether a line looks like a Dockerfile instruction.
pub open spec fn instruction_line(line: Seq<char>) -> bool {
    contains_seq(line, "FROM "@) || contains_seq(line, "RUN "@) || contains_seq(line, "COPY "@)
        || contains_seq(line, "WORKDIR "@) || contains_seq(line, "ENV "@) || contains_seq(
        line,
        "EXPOSE "@,
    ) || contains_seq(line, "CMD "@) || contains_seq(line, "ENTRYPOINT "@)
}

/// The instruction lines of a text, in order.
pub open spec fn instruction_lines(lines: Seq<Seq<char>>) -> Seq<Seq<char>>
    decreases lines.len(),
{
    if lines.len() == 0 {
        Seq::empty()
    } else if instruction_line(lines.last()) {
        instruction_lines(lines.drop_last()).push(lines.last())
    } else {
        instruction_lines(lines.drop_last())
    }
}

/// The Dockerfile a repair reply gives: the extracted block; else the lines
/// of the reply that look like instructions, joined; else the current file.
pub open spec fn repaired_dockerfile_spec(response: Seq<char>, current: Seq<char>) -> Seq<char> {
    match extract_dockerfile_spec(response) {
        Some(c) => c,
        None => if instruction_lines(lines_seq(response)).len() > 0 {
            crate::text::join_seq(instruction_lines(lines_seq(response)), "\n"@)
        } else {
            current
        },
    }
}

fn is_instruction_line(line: &[char]) -> (r: bool)
    ensures
        r == instruction_line(line@),
{
    contains(line, &chars_of("FROM ")) || contains(line, &chars_of("RUN ")) || contains(
        line,
        &chars_of("COPY "),
    ) || contains(line, &chars_of("WORKDIR ")) || contains(line, &chars_of("ENV "))
        || contains(line, &chars_of("EXPOSE ")) || contains(line, &chars_of("CMD "))
        || contains(line, &chars_of("ENTRYPOINT "))
}

/// The Dockerfile read from a reply to a failed build (the reading part of
/// `update_dockerfile_from_error`).
pub fn repaired_dockerfile(response: &str, current: &str) -> (r: String)
    ensures
        r@ == repaired_dockerfile_spec(response@, current@),
{
    match extract_dockerfile_from_response(response) {
        Some(c) => {
            return c;
        },
        None => {},
    }
    let lines = text_lines(&chars_of(response));
    let ghost ls = vec_views(lines@);
    let mut kept: Vec<String> = Vec::new();
    let mut i: usize = 0;
    while i < lines.len()
        invariant
            0 <= i <= lines@.len(),
            ls == vec_views(lines@),
            crate::text::texts(kept@) == instruction_lines(ls.take(i as int)),
        decreases lines.len() - i,
    {
        proof {
            assert(ls.take(i + 1).drop_last() =~= ls.take(i as int));
            assert(ls.take(i + 1).last() == lines@[i as int]@);
        }
        if is_instruction_line(&lines[i]) {
            let line = string_of(&lines[i]);
            proof {
                assert(crate::text::texts(kept@.push(line)) =~= crate::text::texts(kept@).push(line@));
            }
            kept.push(line);
        }
        i = i + 1;
    }
    proof {
        assert(ls.take(lines@.len() as int) =~= ls);
    }
    if kept.len() > 0 {
        crate::text::join(&kept, "\n")
    } else {
        current.to_string()
    }
}

/// At most this many ranked files are shown to the model.
pub const MAX_DOCKERFILE_FILES: usize = 5;

/// Why the Dockerfile cannot be generated yet.
#[derive(Debug, Clone, PartialEq, Eq, Structural)]
pub enum DockerfileInputError {
    /// The ranking step has not run.
    RankingMissing,
    /// The ranking holds no files.
    NoRankedFiles,
}

/// The message of each error, for the given problem.
pub open spec fn input_error_message(e: DockerfileInputError, problem_id: Seq<char>) -> Seq<char> {
    match e {
        DockerfileInputError::RankingMissing => "Ranking not found for problem: "@ + problem_id
            + ". Run ranking step first."@,
        DockerfileInputError::NoRankedFiles => "No ranked files found for problem: "@ + problem_id,
    }
}

impl DockerfileInputError {
    /// The error message for a problem.
    pub fn message(&self, problem_id: &str) -> (r: String)
        ensures
            r@ == input_error_message(*self, problem_id@),
    {
        match self {
            DockerfileInputError::RankingMissing => {
                let mut m = "Ranking not found for problem: ".to_string();
                m.append(problem_id);
                m.append(". Run ranking step first.");
                m
            },
            DockerfileInputError::NoRankedFiles => {
                let mut m = "No ranked files found for problem: ".to_string();
                m.append(problem_id);
                m
            },
        }
    }
}

/// `v` is the first `limit` files of `files` (all of them when there are fewer).
pub open spec fn selected_prefix(
    v: Seq<RankedCodebaseFile>,
    files: Seq<RankedCodebaseFile>,
    limit: nat,
) -> bool {
    &&& v.len() == (if files.len() < limit {
        files.len()
    } else {
        limit
    })
    &&& forall|i: int|
        0 <= i < v.len() ==> #[trigger] v[i].path@ == files[i].path@ && v[i].tokens
            == files[i].tokens
}

/// The ranked files a stage works from: an error when there is no ranking
/// or it is empty; otherwise the first `limit` files (all of them when
/// there are fewer).
pub fn select_ranked_files(
    ranking: Option<&Vec<RankedCodebaseFile>>,
    limit: usize,
) -> (r: Result<Vec<RankedCodebaseFile>, DockerfileInputError>)
    ensures
        ranking is None ==> r == Err::<Vec<RankedCodebaseFile>, _>(
            DockerfileInputError::RankingMissing,
        ),
        ranking is Some && ranking.unwrap()@.len() == 0 ==> r == Err::<
            Vec<RankedCodebaseFile>,
            _,
        >(DockerfileInputError::NoRankedFiles),
        ranking is Some && ranking.unwrap()@.len() > 0 ==> (r matches Ok(v) && selected_prefix(
            v@,
            ranking.unwrap()@,
            limit as nat,
        )),
{
    let files = match ranking {
        None => {
            return Err(DockerfileInputError::RankingMissing);
        },
        Some(f) => f,
    };
    if files.len() == 0 {
        return Err(DockerfileInputError::NoRankedFiles);
    }
    let n = if files.len() < limit { files.len() } else { limit };
    let mut v: Vec<RankedCodebaseFile> = Vec::new();
    let mut i: usize = 0;
    while i < n
        invariant
            0 <= i <= n,
            n <= files@.len(),
            v@.len() == i,
            forall|k: int| 0 <= k < i ==> #[trigger] v@[k].path@ == files@[k].path@ && v@[k].tokens
                == files@[k].tokens,
        decreases n - i,
    {
        let f = RankedCodebaseFile { path: files[i].path.clone(), tokens: files[i].tokens };
        v.push(f);
        i = i + 1;
    }
    proof {
        assert(v@.len() == n);
        assert(ranking.unwrap()@ == files@);
        assert(selected_prefix(v@, files@, limit as nat));
    }
    Ok(v)
}

/// The message when every build attempt failed.
pub fn build_failure_message(max_retries: usize) -> (r: String)
    requires
        max_retries < usize::MAX,
    ensures
        r@ == "Docker build failed after "@ + decimal_seq(max_retries as nat + 1) + " attempts"@,
{
    let mut r = "Docker build failed after ".to_string();
    let n = decimal((max_retries as u64) + 1);
    r.append(n.as_str());
    r.append(" attempts");
    r
}

/// The files copied into the build context, removed again after the build.
pub open spec fn context_files() -> Seq<Seq<char>> {
    seq![
        "Dockerfile"@,
        "setup-script.sh"@,
        "lint-script.sh"@,
        "test-script.sh"@,
        "single-test-script.sh"@,
    ]
}

/// The files copied into the build context.
pub fn context_file_names() -> (r: Vec<String>)
    ensures
        crate::text::texts(r@) == context_files(),
{
    let r = vec![
        "Dockerfile".to_string(),
        "setup-script.sh".to_string(),
        "lint-script.sh".to_string(),
        "test-script.sh".to_string(),
        "single-test-script.sh".to_string(),
    ];
    proof {
        assert(crate::text::texts(r@) =~= context_files());
    }
    r
}

/// How a system prompt and a request are sent together.
pub fn combine_prompts(system: &str, user: &str) -> (r: String)
    ensures
        r@ == "System instructions:\n"@ + system@ + "\n\nUser request:\n"@ + user@,
{
    let mut r = "System instructions:\n".to_string();
    r.append(system);
    r.append("\n\nUser request:\n");
    r.append(user);
    r
}

proof fn lemma_contains_middle(a: Seq<char>, m: Seq<char>, b: Seq<char>)
    ensures
        contains_seq(a + m + b, m),
{
    assert((a + m + b).subrange(a.len() as int, a.len() + m.len() as int) =~= m);
    assert(crate::text::occurs_at(a + m + b, m, a.len() as int));
}

/// The instruction that copies a script into the image under its own name.
pub open spec fn copy_instruction(name: Seq<char>) -> Seq<char> {
    "COPY "@ + name + " /usr/local/bin/"@ + name + "\n"@
}

/// Adding the scripts keeps the Dockerfile as it was at the start, leaves
/// it unchanged when no script is present, and copies every present script
/// to `/usr/local/bin` under its own name (so each path made executable has
/// been copied).
pub proof fn law_present_scripts_are_copied(content: Seq<char>, p: ScriptsPresent)
    ensures
        starts_with_seq(with_scripts_spec(content, p), content),
        !(p.setup || p.lint || p.test || p.single_test) ==> with_scripts_spec(content, p) == content,
        p.setup ==> contains_seq(with_scripts_spec(content, p), copy_instruction("setup-script.sh"@)),
        p.lint ==> contains_seq(with_scripts_spec(content, p), copy_instruction("lint-script.sh"@)),
        p.test ==> contains_seq(with_scripts_spec(content, p), copy_instruction("test-script.sh"@)),
        p.single_test ==> contains_seq(
            with_scripts_spec(content, p),
            copy_instruction("single-test-script.sh"@),
        ),
{
    let r = with_scripts_spec(content, p);
    assert(r.subrange(0, content.len() as int) =~= content);
    if any_script(p) {
        lemma_script_pieces(content, p);
    }
}

/// The Dockerfile with scripts, cut into its pieces.
proof fn lemma_script_pieces(content: Seq<char>, p: ScriptsPresent)
    requires
        any_script(p),
    ensures
        p.setup ==> contains_seq(with_scripts_spec(content, p), copy_instruction("setup-script.sh"@)),
        p.lint ==> contains_seq(with_scripts_spec(content, p), copy_instruction("lint-script.sh"@)),
        p.test ==> contains_seq(with_scripts_spec(content, p), copy_instruction("test-script.sh"@)),
        p.single_test ==> contains_seq(
            with_scripts_spec(content, p),
            copy_instruction("single-test-script.sh"@),
        ),
{
    let h = "\n# Copy scripts\n"@;
    let c1 = copy_line(p.setup, "setup-script.sh"@);
    let c2 = copy_line(p.lint, "lint-script.sh"@);
    let c3 = copy_line(p.test, "test-script.sh"@);
    let c4 = copy_line(p.single_test, "single-test-script.sh"@);
    let t = "RUN chmod +x "@ + crate::text::join_seq(executables(p), " "@) + "\n"@;
    let r = with_scripts_spec(content, p);
    assert(script_commands_spec(p) == h + c1 + c2 + c3 + c4 + t);
    assert(r == content + (h + c1 + c2 + c3 + c4 + t));
    if p.setup {
        assert(h + c1 + c2 + c3 + c4 + t =~= h + c1 + (c2 + c3 + c4 + t));
        lemma_split5(content, h, c1, c2 + c3 + c4 + t, r);
        lemma_contains_middle(content + h, c1, c2 + c3 + c4 + t);
    }
    if p.lint {
        assert(h + c1 + c2 + c3 + c4 + t =~= (h + c1) + c2 + (c3 + c4 + t));
        lemma_split5(content, h + c1, c2, c3 + c4 + t, r);
        lemma_contains_middle(content + (h + c1), c2, c3 + c4 + t);
    }
    if p.test {
        assert(h + c1 + c2 + c3 + c4 + t =~= (h + c1 + c2) + c3 + (c4 + t));
        lemma_split5(content, h + c1 + c2, c3, c4 + t, r);
        lemma_contains_middle(content + (h + c1 + c2), c3, c4 + t);
    }
    if p.single_test {
        assert(h + c1 + c2 + c3 + c4 + t =~= (h + c1 + c2 + c3) + c4 + t);
        lemma_split5(content, h + c1 + c2 + c3, c4, t, r);
        lemma_contains_middle(content + (h + c1 + c2 + c3), c4, t);
    }
}

proof fn lemma_split5(a: Seq<char>, b: Seq<char>, c: Seq<char>, d: Seq<char>, r: Seq<char>)
    requires
        r == a + (b + c + d),
    ensures
        r == (a + b) + c + d,
{
    assert(a + (b + c + d) =~= (a + b) + c + d);
}

} // verus!
