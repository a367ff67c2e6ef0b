//! The tools the chat assistant can call, and reading a tool call out of a
//! model reply.

use vstd::prelude::*;

use crate::collections::{map_of, OrderedMap};
use crate::paths::{split_chars, split_seq, vec_views};
use crate::text::{
    chars_of, copy_range, find, find_seq, lemma_find_contains, occurs_at, signed_decimal,
    signed_decimal_seq, str_is, string_of, to_lowercase, trim, trim_seq,
};

verus! {

/// Structure to represent a parameter for a tool
#[derive(Debug, Clone)]
pub struct ToolParameter {
    pub name: String,
    pub description: String,
    pub parameter_type: String,
    pub default: Option<String>,
}

/// Structure to represent a tool that can be called by the LLM
#[derive(Debug, Clone)]
pub struct Tool {
    pub name: String,
    pub description: String,
    pub parameters: OrderedMap<ToolParameter>,
    pub required_parameters: Vec<String>,
}

/// Result of a tool execution
#[derive(Debug, Clone)]
pub struct ToolResult {
    pub success: bool,
    pub output: String,
}

/// What a parameter is, as plain text.
pub struct ParamModel {
    pub key: Seq<char>,
    pub name: Seq<char>,
    pub description: Seq<char>,
    pub parameter_type: Seq<char>,
    pub default: Option<Seq<char>>,
}

/// What a tool is, as plain text.
pub struct ToolModel {
    pub name: Seq<char>,
    pub description: Seq<char>,
    pub params: Seq<ParamModel>,
    pub required: Seq<Seq<char>>,
}

impl ToolParameter {
    /// This parameter listed under `key`.
    pub open spec fn model(&self, key: Seq<char>) -> ParamModel {
        ParamModel {
            key,
            name: self.name@,
            description: self.description@,
            parameter_type: self.parameter_type@,
            default: crate::text::opt_view(self.default),
        }
    }
}

impl Tool {
    /// The parameters of the tool, in order.
    pub open spec fn param_models(&self) -> Seq<ParamModel> {
        self.parameters.entries@.map_values(|e: (String, ToolParameter)| e.1.model(e.0@))
    }

    /// This tool as plain text.
    pub open spec fn model(&self) -> ToolModel {
        ToolModel {
            name: self.name@,
            description: self.description@,
            params: self.param_models(),
            required: self.required_parameters@.map_values(|s: String| s@),
        }
    }
}

/// The image tag parameter.
pub open spec fn tag_param_model() -> ParamModel {
    ParamModel {
        key: "tag"@,
        name: "tag"@,
        description: "Tag name for the Docker image"@,
        parameter_type: "string"@,
        default: Some("engine-builder-test"@),
    }
}

/// The parallel-run parameter.
pub open spec fn parallel_param_model() -> ParamModel {
    ParamModel {
        key: "parallel"@,
        name: "parallel"@,
        description: "Run in parallel mode (both containers at once)"@,
        parameter_type: "boolean"@,
        default: Some("false"@),
    }
}

/// Every tool the assistant offers, in order.
pub open spec fn tool_catalog() -> Seq<ToolModel> {
    seq![
        ToolModel {
            name: "relevance"@,
            description: "Run file relevance assessment"@,
            params: Seq::empty(),
            required: Seq::empty(),
        },
        ToolModel {
            name: "ranking"@,
            description: "Run file ranking"@,
            params: Seq::empty(),
            required: Seq::empty(),
        },
        ToolModel {
            name: "pipeline"@,
            description: "Run full pipeline (relevance and dockerfile generation)"@,
            params: Seq::empty(),
            required: Seq::empty(),
        },
        ToolModel {
            name: "file_selection"@,
            description: "Run only the file selection step"@,
            params: Seq::empty(),
            required: Seq::empty(),
        },
        ToolModel {
            name: "dockerfile"@,
            description: "Generate a test-focused Dockerfile for running tests based on relevant files"@,
            params: Seq::empty(),
            required: Seq::empty(),
        },
        ToolModel {
            name: "build_image"@,
            description: "Build a Docker image from the generated Dockerfile"@,
            params: seq![tag_param_model()],
            required: Seq::empty(),
        },
        ToolModel {
            name: "generate_scripts"@,
            description: "Generate lint and test scripts based on relevant files"@,
            params: Seq::empty(),
            required: Seq::empty(),
        },
        ToolModel {
            name: "run_lint"@,
            description: "Run lint script in a Docker container"@,
            params: seq![tag_param_model()],
            required: Seq::empty(),
        },
        ToolModel {
            name: "run_test"@,
            description: "Run test script in a Docker container"@,
            params: seq![tag_param_model()],
            required: Seq::empty(),
        },
        ToolModel {
            name: "run_all"@,
            description: "Run both lint and test scripts in Docker containers"@,
            params: seq![tag_param_model(), parallel_param_model()],
            required: Seq::empty(),
        },
    ]
}

fn tag_param() -> (r: ToolParameter)
    ensures
        r.model("tag"@) == tag_param_model(),
{
    ToolParameter {
        name: "tag".to_string(),
        description: "Tag name for the Docker image".to_string(),
        parameter_type: "string".to_string(),
        default: Some("engine-builder-test".to_string()),
    }
}

fn parallel_param() -> (r: ToolParameter)
    ensures
        r.model("parallel"@) == parallel_param_model(),
{
    ToolParameter {
        name: "parallel".to_string(),
        description: "Run in parallel mode (both containers at once)".to_string(),
        parameter_type: "boolean".to_string(),
        default: Some("false".to_string()),
    }
}

fn simple_tool(name: &str, description: &str) -> (t: Tool)
    ensures
        t.model() == (ToolModel {
            name: name@,
            description: description@,
            params: Seq::empty(),
            required: Seq::empty(),
        }),
{
    let t = Tool {
        name: name.to_string(),
        description: description.to_string(),
        parameters: OrderedMap::new(),
        required_parameters: Vec::new(),
    };
    proof {
        assert(t.model().params =~= Seq::<ParamModel>::empty());
        assert(t.model().required =~= Seq::<Seq<char>>::empty());
    }
    t
}

fn tag_tool(name: &str, description: &str) -> (t: Tool)
    ensures
        t.model() == (ToolModel {
            name: name@,
            description: description@,
            params: seq![tag_param_model()],
            required: Seq::empty(),
        }),
{
    let mut params = OrderedMap::new();
    params.insert("tag".to_string(), tag_param());
    let t = Tool {
        name: name.to_string(),
        description: description.to_string(),
        parameters: params,
        required_parameters: Vec::new(),
    };
    proof {
        assert(t.model().params =~= seq![tag_param_model()]);
        assert(t.model().required =~= Seq::<Seq<char>>::empty());
    }
    t
}

fn all_tool(name: &str, description: &str) -> (t: Tool)
    ensures
        t.model() == (ToolModel {
            name: name@,
            description: description@,
            params: seq![tag_param_model(), parallel_param_model()],
            required: Seq::empty(),
        }),
{
    let mut params = OrderedMap::new();
    params.insert("tag".to_string(), tag_param());
    proof {
        reveal_strlit("tag");
        reveal_strlit("parallel");
        assert("tag"@ != "parallel"@) by {
            assert("tag"@.len() != "parallel"@.len());
        }
        assert(params.entries@.len() == 1);
        assert(params.entries@[0].0@ == "tag"@);
        assert(params.entries@.drop_first().len() == 0);
        assert(crate::collections::first_key_index(params.entries@.drop_first(), "parallel"@) is None);
        assert(crate::collections::first_key_index(params.entries@, "parallel"@) is None);
    }
    params.insert("parallel".to_string(), parallel_param());
    let t = Tool {
        name: name.to_string(),
        description: description.to_string(),
        parameters: params,
        required_parameters: Vec::new(),
    };
    proof {
        assert(t.model().params =~= seq![tag_param_model(), parallel_param_model()]);
        assert(t.model().required =~= Seq::<Seq<char>>::empty());
    }
    t
}

/// Get a list of all available tools
pub fn get_tools() -> (r: Vec<Tool>)
    ensures
        r@.map_values(|t: Tool| t.model()) == tool_catalog(),
{
    let mut tools: Vec<Tool> = Vec::new();
    tools.push(simple_tool("relevance", "Run file relevance assessment"));
    tools.push(simple_tool("ranking", "Run file ranking"));
    tools.push(simple_tool("pipeline", "Run full pipeline (relevance and dockerfile generation)"));
    tools.push(simple_tool("file_selection", "Run only the file selection step"));
    tools.push(simple_tool("dockerfile", "Generate a test-focused Dockerfile for running tests based on relevant files"));
    tools.push(tag_tool("build_image", "Build a Docker image from the generated Dockerfile"));
    tools.push(simple_tool("generate_scripts", "Generate lint and test scripts based on relevant files"));
    tools.push(tag_tool("run_lint", "Run lint script in a Docker container"));
    tools.push(tag_tool("run_test", "Run test script in a Docker container"));
    tools.push(all_tool("run_all", "Run both lint and test scripts in Docker containers"));
    let r = tools;
    proof {
        assert(r@[0].model() =~= tool_catalog()[0]);
        assert(r@[1].model() =~= tool_catalog()[1]);
        assert(r@[2].model() =~= tool_catalog()[2]);
        assert(r@[3].model() =~= tool_catalog()[3]);
        assert(r@[4].model() =~= tool_catalog()[4]);
        assert(r@[5].model() =~= tool_catalog()[5]);
        assert(r@[6].model() =~= tool_catalog()[6]);
        assert(r@[7].model() =~= tool_catalog()[7]);
        assert(r@[8].model() =~= tool_catalog()[8]);
        assert(r@[9].model() =~= tool_catalog()[9]);
        assert(r@.map_values(|t: Tool| t.model()) =~= tool_catalog());
    }
    r
}

/// The marker that opens a tool call.
pub open spec fn tool_marker() -> Seq<char> {
    seq!['T', 'O', 'O', 'L', ':']
}

/// The text between the first `TOOL:` and the next line break, trimmed.
pub open spec fn tool_call_segment(s: Seq<char>) -> Option<Seq<char>> {
    match find_seq(s, tool_marker()) {
        Some(st) => match find_seq(s.skip(st), seq!['\n']) {
            Some(e) => Some(trim_seq(s.subrange(st + 5, st + e))),
            None => None,
        },
        None => None,
    }
}

/// The first `(` and the first `)` of a call.
pub open spec fn call_bounds(t: Seq<char>) -> Option<(int, int)> {
    match find_seq(t, seq!['(']) {
        Some(o) => match find_seq(t, seq![')']) {
            Some(c) => Some((o, c)),
            None => None,
        },
        None => None,
    }
}

/// A value without one pair of surrounding double quotes.
pub open spec fn unquote(v: Seq<char>) -> Seq<char> {
    if v.len() >= 2 && v[0] == '"' && v.last() == '"' {
        v.subrange(1, v.len() - 1)
    } else {
        v
    }
}

/// The key and value of a `key=value` piece, both trimmed.
pub open spec fn param_entry(piece: Seq<char>) -> Option<(Seq<char>, Seq<char>)> {
    match find_seq(piece, seq!['=']) {
        Some(e) => Some((trim_seq(piece.take(e)), unquote(trim_seq(piece.skip(e + 1))))),
        None => None,
    }
}

/// A piece whose value is a lone double quote.
pub open spec fn lone_quote_value(piece: Seq<char>) -> bool {
    match find_seq(piece, seq!['=']) {
        Some(e) => trim_seq(piece.skip(e + 1)) == seq!['"'],
        None => false,
    }
}

/// The parameters of the pieces, where a later piece overrides an earlier
/// one with the same key and pieces without `=` are skipped.
pub open spec fn params_map(pieces: Seq<Seq<char>>) -> Map<Seq<char>, Seq<char>>
    decreases pieces.len(),
{
    if pieces.len() == 0 {
        Map::empty()
    } else {
        match param_entry(pieces.last()) {
            Some(kv) => params_map(pieces.drop_last()).insert(kv.0, kv.1),
            None => params_map(pieces.drop_last()),
        }
    }
}

/// The call read from a reply: the tool name before `(`, trimmed, and the
/// comma-separated `key=value` parameters between `(` and `)`.
pub open spec fn parse_tool_call_spec(s: Seq<char>) -> Option<(Seq<char>, Map<Seq<char>, Seq<char>>)> {
    match tool_call_segment(s) {
        Some(t) => match call_bounds(t) {
            Some(b) => Some(
                (trim_seq(t.take(b.0)), params_map(split_seq(t.subrange(b.0 + 1, b.1), ','))),
            ),
            None => None,
        },
        None => None,
    }
}

/// The replies on which reading the call fails: `)` before `(`, or a
/// parameter whose value is a lone double quote.
pub open spec fn parse_tool_call_panics(s: Seq<char>) -> bool {
    match tool_call_segment(s) {
        Some(t) => match call_bounds(t) {
            Some(b) => b.1 < b.0 + 1 || exists|i: int|
                0 <= i < split_seq(t.subrange(b.0 + 1, b.1), ',').len() && lone_quote_value(
                    #[trigger] split_seq(t.subrange(b.0 + 1, b.1), ',')[i],
                ),
            None => false,
        },
        None => false,
    }
}

/// Where the call text lies in the reply: after the marker and up to the
/// next line break.
fn tool_call_span(r: &Vec<char>) -> (res: Option<(usize, usize)>)
    ensures
        match res {
            Some((a, b)) => a <= b <= r@.len() && tool_call_segment(r@) == Some(
                trim_seq(r@.subrange(a as int, b as int)),
            ),
            None => tool_call_segment(r@) is None,
        },
{
    let marker = vec!['T', 'O', 'O', 'L', ':'];
    proof {
        assert(marker@ =~= tool_marker());
    }
    let st = match find(r, &marker) {
        Some(st) => st,
        None => {
            return None;
        },
    };
    proof {
        lemma_find_contains(r@, tool_marker());
    }
    let rest = copy_range(r, st, r.len());
    let nl = vec!['\n'];
    proof {
        assert(nl@ =~= seq!['\n']);
        assert(rest@ =~= r@.skip(st as int));
    }
    let e = match find(&rest, &nl) {
        Some(e) => e,
        None => {
            return None;
        },
    };
    proof {
        lemma_find_contains(rest@, seq!['\n']);
        assert forall|j: int| 0 <= j < 5 implies !occurs_at(rest@, seq!['\n'], j) by {
            assert(rest@[j] == r@.subrange(st as int, st + 5)[j]);
            if occurs_at(rest@, seq!['\n'], j) {
                assert(rest@.subrange(j, j + 1)[0] == rest@[j]);
            }
        }
    }
    Some((st + 5, st + e))
}

/// Pieces of the parameter list, and the map they give.
fn read_params(pieces: &Vec<Vec<char>>) -> (m: OrderedMap<String>)
    requires
        forall|i: int| 0 <= i < pieces@.len() ==> !lone_quote_value(#[trigger] pieces@[i]@),
    ensures
        m.text_map() == params_map(vec_views(pieces@)),
{
    let ghost pv = vec_views(pieces@);
    let mut m: OrderedMap<String> = OrderedMap::new();
    let mut i: usize = 0;
    while i < pieces.len()
        invariant
            0 <= i <= pieces@.len(),
            pv == vec_views(pieces@),
            forall|k: int| 0 <= k < pieces@.len() ==> !lone_quote_value(#[trigger] pieces@[k]@),
            m.text_map() == params_map(pv.take(i as int)),
        decreases pieces.len() - i,
    {
        proof {
            assert(pv.take(i + 1).drop_last() =~= pv.take(i as int));
            assert(pv.take(i + 1).last() == pieces@[i as int]@);
        }
        let piece = &pieces[i];
        let eqv = vec!['='];
        proof {
            assert(eqv@ =~= seq!['=']);
            lemma_find_contains(piece@, seq!['=']);
        }
        match find(piece, &eqv) {
            Some(e) => {
                let key = trim(&copy_range(piece, 0, e));
                let plen = piece.len();
                let value = trim(&copy_range(piece, e + 1, plen));
                proof {
                    assert(piece@.take(e as int) =~= piece@.subrange(0, e as int));
                    assert(piece@.skip(e + 1) =~= piece@.subrange(e + 1, piece@.len() as int));
                    assert(!lone_quote_value(pieces@[i as int]@));
                }
                let n = value.len();
                let unq = if n >= 2 && value[0] == '"' && value[n - 1] == '"' {
                    copy_range(&value, 1, n - 1)
                } else {
                    value
                };
                let ks = string_of(&key);
                let vs = string_of(&unq);
                proof {
                    crate::collections::lemma_text_values_insert(m.view_map(), ks@, vs);
                }
                m.insert(ks, vs);
            },
            None => {},
        }
        i = i + 1;
    }
    proof {
        assert(pv.take(pv.len() as int) =~= pv);
    }
    m
}

/// Parse tool call from the LLM response
pub fn parse_tool_call(response: &str) -> (res: Option<(String, OrderedMap<String>)>)
    requires
        !parse_tool_call_panics(response@),
    ensures
        match res {
            Some((name, params)) => parse_tool_call_spec(response@) == Some(
                (name@, params.text_map()),
            ),
            None => parse_tool_call_spec(response@) is None,
        },
{
    let r = chars_of(response);
    let (a, b) = match tool_call_span(&r) {
        Some(span) => span,
        None => {
            return None;
        },
    };
    let call = trim(&copy_range(&r, a, b));
    let open = vec!['('];
    let close = vec![')'];
    proof {
        assert(open@ =~= seq!['(']);
        assert(close@ =~= seq![')']);
        lemma_find_contains(call@, seq!['(']);
        lemma_find_contains(call@, seq![')']);
    }
    let o = match find(&call, &open) {
        Some(o) => o,
        None => {
            return None;
        },
    };
    let c = match find(&call, &close) {
        Some(c) => c,
        None => {
            return None;
        },
    };
    let name = trim(&copy_range(&call, 0, o));
    let inner = copy_range(&call, o + 1, c);
    let pieces = split_chars(&inner, ',');
    proof {
        assert(call@.take(o as int) =~= call@.subrange(0, o as int));
        assert forall|i: int| 0 <= i < pieces@.len() implies !lone_quote_value(
            #[trigger] pieces@[i]@,
        ) by {
            assert(vec_views(pieces@)[i] == pieces@[i]@);
        }
    }
    let params = read_params(&pieces);
    Some((string_of(&name), params))
}

/// Whether reading the call from `response` would fail (see
/// `parse_tool_call_panics`); callers test this before `parse_tool_call`.
pub fn parse_tool_call_would_panic(response: &str) -> (r: bool)
    ensures
        r == parse_tool_call_panics(response@),
{
    let r = chars_of(response);
    let (a, b) = match tool_call_span(&r) {
        Some(span) => span,
        None => {
            return false;
        },
    };
    let call = trim(&copy_range(&r, a, b));
    let open = vec!['('];
    let close = vec![')'];
    proof {
        assert(open@ =~= seq!['(']);
        assert(close@ =~= seq![')']);
        lemma_find_contains(call@, seq!['(']);
        lemma_find_contains(call@, seq![')']);
    }
    let o = match find(&call, &open) {
        Some(o) => o,
        None => {
            return false;
        },
    };
    let c = match find(&call, &close) {
        Some(c) => c,
        None => {
            return false;
        },
    };
    if c <= o {
        proof {
            let t = tool_call_segment(response@)->0;
            assert(t == call@);
            assert(call_bounds(t) == Some((o as int, c as int)));
        }
        return true;
    }
    let inner = copy_range(&call, o + 1, c);
    let pieces = split_chars(&inner, ',');
    let ghost pv = vec_views(pieces@);
    proof {
        assert(tool_call_segment(response@) == Some(call@));
        assert(call_bounds(call@) == Some((o as int, c as int)));
    }
    let eqv = vec!['='];
    let mut i: usize = 0;
    while i < pieces.len()
        invariant
            0 <= i <= pieces@.len(),
            pv == vec_views(pieces@),
            pv == split_seq(call@.subrange(o + 1, c as int), ','),
            tool_call_segment(response@) == Some(call@),
            call_bounds(call@) == Some((o as int, c as int)),
            o < c,
            eqv@ == seq!['='],
            forall|k: int| 0 <= k < i ==> !lone_quote_value(#[trigger] pv[k]),
        decreases pieces.len() - i,
    {
        let piece = &pieces[i];
        proof {
            assert(pv[i as int] == piece@);
        }
        match find(piece, &eqv) {
            Some(e) => {
                proof {
                    lemma_find_contains(piece@, seq!['=']);
                }
                let plen = piece.len();
                let value = trim(&copy_range(piece, e + 1, plen));
                proof {
                    assert(piece@.skip(e + 1) =~= piece@.subrange(e + 1, piece@.len() as int));
                }
                if value.len() == 1 && value[0] == '"' {
                    proof {
                        assert(value@ =~= seq!['"']);
                        assert(lone_quote_value(pv[i as int]));
                        let t = tool_call_segment(response@)->0;
                        assert(t == call@);
                    }
                    return true;
                }
                proof {
                    if value@ == seq!['"'] {
                        assert(value@[0] == '"');
                    }
                }
            },
            None => {},
        }
        i = i + 1;
    }
    false
}


/// The image tag used when a call names none.
pub open spec fn default_tag() -> Seq<char> {
    "engine-builder-test"@
}

/// What a tool call asks the program to run.
#[derive(Debug, Clone)]
pub enum ToolAction {
    Relevance,
    Ranking,
    Pipeline,
    FileSelection,
    Dockerfile,
    BuildImage { tag: String },
    GenerateScripts,
    RunLint { tag: String },
    RunTest { tag: String },
    RunAll { tag: String, parallel: bool },
    Unknown { name: String },
}

/// The tag a call gives, or the default tag.
pub open spec fn tag_of(params: Map<Seq<char>, Seq<char>>) -> Seq<char> {
    if params.contains_key("tag"@) {
        params["tag"@]
    } else {
        default_tag()
    }
}

/// Whether a call asks for parallel runs: its `parallel` value is `true`
/// in any case.
pub open spec fn parallel_of(params: Map<Seq<char>, Seq<char>>) -> bool {
    params.contains_key("parallel"@) && crate::text::unicode_lowercase(params["parallel"@])
        == "true"@
}

/// The action a tool name and its parameters ask for.
pub open spec fn action_matches(
    a: ToolAction,
    name: Seq<char>,
    params: Map<Seq<char>, Seq<char>>,
) -> bool {
    if name == "relevance"@ {
        a is Relevance
    } else if name == "ranking"@ {
        a is Ranking
    } else if name == "pipeline"@ {
        a is Pipeline
    } else if name == "file_selection"@ {
        a is FileSelection
    } else if name == "dockerfile"@ {
        a is Dockerfile
    } else if name == "build_image"@ {
        a matches ToolAction::BuildImage { tag } && tag@ == tag_of(params)
    } else if name == "generate_scripts"@ {
        a is GenerateScripts
    } else if name == "run_lint"@ {
        a matches ToolAction::RunLint { tag } && tag@ == tag_of(params)
    } else if name == "run_test"@ {
        a matches ToolAction::RunTest { tag } && tag@ == tag_of(params)
    } else if name == "run_all"@ {
        a matches ToolAction::RunAll { tag, parallel } && tag@ == tag_of(params) && parallel
            == parallel_of(params)
    } else {
        a matches ToolAction::Unknown { name: n } && n@ == name
    }
}

fn tag_param_value(params: &OrderedMap<String>) -> (t: String)
    ensures
        t@ == tag_of(params.text_map()),
{
    match params.get("tag") {
        Some(v) => v.clone(),
        None => "engine-builder-test".to_string(),
    }
}

/// Reads which action a tool call asks for (the dispatch of `execute_tool`).
pub fn plan_tool(tool_name: &str, params: &OrderedMap<String>) -> (a: ToolAction)
    ensures
        action_matches(a, tool_name@, params.text_map()),
{
    let name = tool_name.to_string();
    if str_is(&name, "relevance") {
        ToolAction::Relevance
    } else if str_is(&name, "ranking") {
        ToolAction::Ranking
    } else if str_is(&name, "pipeline") {
        ToolAction::Pipeline
    } else if str_is(&name, "file_selection") {
        ToolAction::FileSelection
    } else if str_is(&name, "dockerfile") {
        ToolAction::Dockerfile
    } else if str_is(&name, "build_image") {
        ToolAction::BuildImage { tag: tag_param_value(params) }
    } else if str_is(&name, "generate_scripts") {
        ToolAction::GenerateScripts
    } else if str_is(&name, "run_lint") {
        ToolAction::RunLint { tag: tag_param_value(params) }
    } else if str_is(&name, "run_test") {
        ToolAction::RunTest { tag: tag_param_value(params) }
    } else if str_is(&name, "run_all") {
        let tag = tag_param_value(params);
        let parallel = match params.get("parallel") {
            Some(v) => {
                let low = to_lowercase(v.as_str());
                str_is(&low, "true")
            },
            None => false,
        };
        ToolAction::RunAll { tag, parallel }
    } else {
        ToolAction::Unknown { name }
    }
}

/// The stages a tool runs by itself, each reported the same way.
#[derive(Debug, Clone, Copy, PartialEq, Eq, Structural)]
pub enum StageTool {
    Relevance,
    Ranking,
    FileSelection,
    Dockerfile,
    GenerateScripts,
}

/// What a successful run of a stage tool reports.
pub open spec fn stage_success_text(t: StageTool) -> Seq<char> {
    match t {
        StageTool::Relevance => "Successfully ran relevance assessment"@,
        StageTool::Ranking => "Successfully ran file ranking"@,
        StageTool::FileSelection => "Successfully ran file selection"@,
        StageTool::Dockerfile => "Successfully generated Dockerfile"@,
        StageTool::GenerateScripts => "Successfully generated lint and test scripts"@,
    }
}

/// What a failed run of a stage tool reports before the error.
pub open spec fn stage_failure_lead(t: StageTool) -> Seq<char> {
    match t {
        StageTool::Relevance => "Failed to run relevance assessment: "@,
        StageTool::Ranking => "Failed to run file ranking: "@,
        StageTool::FileSelection => "Failed to run file selection: "@,
        StageTool::Dockerfile => "Failed to generate Dockerfile: "@,
        StageTool::GenerateScripts => "Failed to generate scripts: "@,
    }
}

fn stage_success_string(t: StageTool) -> (s: String)
    ensures
        s@ == stage_success_text(t),
{
    match t {
        StageTool::Relevance => "Successfully ran relevance assessment".to_string(),
        StageTool::Ranking => "Successfully ran file ranking".to_string(),
        StageTool::FileSelection => "Successfully ran file selection".to_string(),
        StageTool::Dockerfile => "Successfully generated Dockerfile".to_string(),
        StageTool::GenerateScripts => "Successfully generated lint and test scripts".to_string(),
    }
}

fn stage_failure_string(t: StageTool) -> (s: String)
    ensures
        s@ == stage_failure_lead(t),
{
    match t {
        StageTool::Relevance => "Failed to run relevance assessment: ".to_string(),
        StageTool::Ranking => "Failed to run file ranking: ".to_string(),
        StageTool::FileSelection => "Failed to run file selection: ".to_string(),
        StageTool::Dockerfile => "Failed to generate Dockerfile: ".to_string(),
        StageTool::GenerateScripts => "Failed to generate scripts: ".to_string(),
    }
}

/// The report of a stage tool: success, or the failure with the error text.
pub fn stage_outcome(t: StageTool, error: Option<&str>) -> (r: ToolResult)
    ensures
        r.success == error is None,
        match error {
            None => r.output@ == stage_success_text(t),
            Some(e) => r.output@ == stage_failure_lead(t) + e@,
        },
{
    match error {
        None => ToolResult { success: true, output: stage_success_string(t) },
        Some(e) => {
            let mut o = stage_failure_string(t);
            o.append(e);
            ToolResult { success: false, output: o }
        },
    }
}

/// The steps of the full pipeline, in the order they run.
#[derive(Debug, Clone, Copy, PartialEq, Eq, Structural)]
pub enum PipelineStep {
    FileSelection,
    Relevance,
    Ranking,
    Scripts,
    Dockerfile,
}

/// The step after `s`, if any.
pub open spec fn next_step(s: PipelineStep) -> Option<PipelineStep> {
    match s {
        PipelineStep::FileSelection => Some(PipelineStep::Relevance),
        PipelineStep::Relevance => Some(PipelineStep::Ranking),
        PipelineStep::Ranking => Some(PipelineStep::Scripts),
        PipelineStep::Scripts => Some(PipelineStep::Dockerfile),
        PipelineStep::Dockerfile => None,
    }
}

/// What a failure of a step reports before the error.
pub open spec fn step_failure_lead(s: PipelineStep) -> Seq<char> {
    match s {
        PipelineStep::FileSelection => "Failed during file selection: "@,
        PipelineStep::Relevance => "Failed during relevance assessment: "@,
        PipelineStep::Ranking => "Failed during file ranking: "@,
        PipelineStep::Scripts => "Failed during script generation: "@,
        PipelineStep::Dockerfile => "Failed during Dockerfile generation: "@,
    }
}

/// What the pipeline does after a step: run the next one, or stop with a
/// report.
#[derive(Debug, Clone)]
pub enum PipelineNext {
    Run(PipelineStep),
    Finish(ToolResult),
}

/// The first step of the pipeline.
pub fn pipeline_start() -> (s: PipelineStep)
    ensures
        s == PipelineStep::FileSelection,
{
    PipelineStep::FileSelection
}

/// What the pipeline does once `step` has run, given its error if it failed:
/// a failure stops it with that step's report; success moves on, and after
/// the last step the pipeline reports success.
pub fn pipeline_after(step: PipelineStep, error: Option<&str>) -> (n: PipelineNext)
    ensures
        match error {
            Some(e) => n matches PipelineNext::Finish(r) && !r.success && r.output@
                == step_failure_lead(step) + e@,
            None => match next_step(step) {
                Some(s) => n == PipelineNext::Run(s),
                None => n matches PipelineNext::Finish(r) && r.success && r.output@
                    == "Successfully ran the full pipeline"@,
            },
        },
{
    match error {
        Some(e) => {
            let mut o = match step {
                PipelineStep::FileSelection => "Failed during file selection: ".to_string(),
                PipelineStep::Relevance => "Failed during relevance assessment: ".to_string(),
                PipelineStep::Ranking => "Failed during file ranking: ".to_string(),
                PipelineStep::Scripts => "Failed during script generation: ".to_string(),
                PipelineStep::Dockerfile => "Failed during Dockerfile generation: ".to_string(),
            };
            o.append(e);
            PipelineNext::Finish(ToolResult { success: false, output: o })
        },
        None => match step {
            PipelineStep::FileSelection => PipelineNext::Run(PipelineStep::Relevance),
            PipelineStep::Relevance => PipelineNext::Run(PipelineStep::Ranking),
            PipelineStep::Ranking => PipelineNext::Run(PipelineStep::Scripts),
            PipelineStep::Scripts => PipelineNext::Run(PipelineStep::Dockerfile),
            PipelineStep::Dockerfile => PipelineNext::Finish(
                ToolResult { success: true, output: "Successfully ran the full pipeline".to_string() },
            ),
        },
    }
}

/// The report of an image build.
pub fn build_image_outcome(tag: &str, error: Option<&str>) -> (r: ToolResult)
    ensures
        r.success == error is None,
        match error {
            None => r.output@ == "Successfully built Docker image with tag: "@ + tag@,
            Some(e) => r.output@ == "Failed to build Docker image: "@ + e@,
        },
{
    match error {
        None => {
            let mut o = "Successfully built Docker image with tag: ".to_string();
            o.append(tag);
            ToolResult { success: true, output: o }
        },
        Some(e) => {
            let mut o = "Failed to build Docker image: ".to_string();
            o.append(e);
            ToolResult { success: false, output: o }
        },
    }
}

/// The word for a container's status.
pub open spec fn status_word(success: bool) -> Seq<char> {
    if success { "SUCCESS"@ } else { "FAILED"@ }
}

fn status_string(success: bool) -> (s: String)
    ensures
        s@ == status_word(success),
{
    if success { "SUCCESS".to_string() } else { "FAILED".to_string() }
}

/// The report of one container run, labelled `Lint` or `Test`.
pub fn container_outcome(label: &str, success: bool, exit_code: i32) -> (r: ToolResult)
    ensures
        r.success == success,
        r.output@ == label@ + " container completed with status: "@ + status_word(success)
            + " (exit code: "@ + signed_decimal_seq(exit_code as int) + ")"@,
{
    let mut o = label.to_string();
    o.append(" container completed with status: ");
    let st = status_string(success);
    o.append(st.as_str());
    o.append(" (exit code: ");
    let code = signed_decimal(exit_code as i64);
    o.append(code.as_str());
    o.append(")");
    ToolResult { success, output: o }
}

/// The report of a lint and a test run together.
pub fn run_all_outcome(
    lint_success: bool,
    lint_exit_code: i32,
    test_success: bool,
    test_exit_code: i32,
) -> (r: ToolResult)
    ensures
        r.success == (lint_success && test_success),
        r.output@ == "Container execution summary:\nLint container: "@ + status_word(lint_success)
            + " (exit code: "@ + signed_decimal_seq(lint_exit_code as int) + ")\nTest container: "@
            + status_word(test_success) + " (exit code: "@ + signed_decimal_seq(
            test_exit_code as int,
        ) + ")"@,
{
    let mut o = "Container execution summary:\nLint container: ".to_string();
    let ls = status_string(lint_success);
    o.append(ls.as_str());
    o.append(" (exit code: ");
    let lc = signed_decimal(lint_exit_code as i64);
    o.append(lc.as_str());
    o.append(")\nTest container: ");
    let ts = status_string(test_success);
    o.append(ts.as_str());
    o.append(" (exit code: ");
    let tc = signed_decimal(test_exit_code as i64);
    o.append(tc.as_str());
    o.append(")");
    ToolResult { success: lint_success && test_success, output: o }
}

/// The report of a failed container run, after the given lead-in.
pub fn failure_outcome(lead: &str, error: &str) -> (r: ToolResult)
    ensures
        !r.success,
        r.output@ == lead@ + error@,
{
    let mut o = lead.to_string();
    o.append(error);
    ToolResult { success: false, output: o }
}

/// The report of a call to a tool that does not exist.
pub fn unknown_tool_outcome(tool_name: &str) -> (r: ToolResult)
    ensures
        !r.success,
        r.output@ == "Unknown tool: "@ + tool_name@,
{
    failure_outcome("Unknown tool: ", tool_name)
}

} // verus!
