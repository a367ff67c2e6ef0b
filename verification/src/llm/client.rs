//! The language-model clients: token usage, the choice of provider, the
//! requests they send and how their replies are read.

use vstd::prelude::*;

use crate::text::{contains, contains_seq, chars_of, decimal, decimal_seq, str_is};

verus! {

/// Common structure for token usage tracking across different LLMs
#[derive(Debug, Clone, Copy, PartialEq, Eq, Structural)]
pub struct TokenUsage {
    pub prompt_tokens: usize,
    pub completion_tokens: usize,
    pub total_tokens: usize,
}

impl TokenUsage {
    /// No tokens used.
    pub fn zero() -> (u: TokenUsage)
        ensures
            u.prompt_tokens == 0 && u.completion_tokens == 0 && u.total_tokens == 0,
    {
        TokenUsage { prompt_tokens: 0, completion_tokens: 0, total_tokens: 0 }
    }

    /// The usage as text: `Prompt tokens: P, Completion tokens: C, Total tokens: T`.
    pub fn describe(&self) -> (s: String)
        ensures
            s@ == "Prompt tokens: "@ + decimal_seq(self.prompt_tokens as nat) + ", Completion tokens: "@
                + decimal_seq(self.completion_tokens as nat) + ", Total tokens: "@ + decimal_seq(
                self.total_tokens as nat,
            ),
    {
        let mut s = "Prompt tokens: ".to_string();
        let p = decimal(self.prompt_tokens as u64);
        s.append(p.as_str());
        s.append(", Completion tokens: ");
        let c = decimal(self.completion_tokens as u64);
        s.append(c.as_str());
        s.append(", Total tokens: ");
        let t = decimal(self.total_tokens as u64);
        s.append(t.as_str());
        s
    }

    /// The usage of two requests together, field by field.
    pub fn plus(&self, other: &TokenUsage) -> (u: TokenUsage)
        requires
            self.prompt_tokens + other.prompt_tokens <= usize::MAX,
            self.completion_tokens + other.completion_tokens <= usize::MAX,
            self.total_tokens + other.total_tokens <= usize::MAX,
        ensures
            u.prompt_tokens == self.prompt_tokens + other.prompt_tokens,
            u.completion_tokens == self.completion_tokens + other.completion_tokens,
            u.total_tokens == self.total_tokens + other.total_tokens,
    {
        TokenUsage {
            prompt_tokens: self.prompt_tokens + other.prompt_tokens,
            completion_tokens: self.completion_tokens + other.completion_tokens,
            total_tokens: self.total_tokens + other.total_tokens,
        }
    }

    /// The usage an API reports as input and output counts: the total is
    /// their sum.
    pub fn from_counts(input_tokens: usize, output_tokens: usize) -> (u: TokenUsage)
        requires
            input_tokens + output_tokens <= usize::MAX,
        ensures
            u.prompt_tokens == input_tokens,
            u.completion_tokens == output_tokens,
            u.total_tokens == input_tokens + output_tokens,
    {
        TokenUsage {
            prompt_tokens: input_tokens,
            completion_tokens: output_tokens,
            total_tokens: input_tokens + output_tokens,
        }
    }
}

/// Response from an LLM request
#[derive(Debug, Clone)]
pub struct LLMResponse {
    pub content: String,
    pub usage: TokenUsage,
}

/// The model providers a client can be made for.
#[derive(Debug, Clone, Copy, PartialEq, Eq, Structural)]
pub enum Provider {
    OpenAI,
    Anthropic,
}

/// The provider named by a model type: `openai` or `anthropic`; any other
/// type is refused with a message naming it.
pub fn select_provider(model_type: &str) -> (r: Result<Provider, String>)
    ensures
        model_type@ == "openai"@ ==> r == Ok::<Provider, String>(Provider::OpenAI),
        model_type@ == "anthropic"@ ==> r == Ok::<Provider, String>(Provider::Anthropic),
        model_type@ != "openai"@ && model_type@ != "anthropic"@ ==> (r matches Err(m) && m@
            == "Unsupported LLM type: "@ + model_type@),
{
    let t = model_type.to_string();
    proof {
        reveal_strlit("openai");
        reveal_strlit("anthropic");
        assert("openai"@.len() != "anthropic"@.len());
    }
    if str_is(&t, "openai") {
        Ok(Provider::OpenAI)
    } else if str_is(&t, "anthropic") {
        Ok(Provider::Anthropic)
    } else {
        let mut m = "Unsupported LLM type: ".to_string();
        m.append(model_type);
        Err(m)
    }
}

/// The name a client reports.
pub fn provider_name(p: Provider) -> (r: &'static str)
    ensures
        p == Provider::OpenAI ==> r@ == "openai"@,
        p == Provider::Anthropic ==> r@ == "anthropic"@,
{
    match p {
        Provider::OpenAI => "openai",
        Provider::Anthropic => "anthropic",
    }
}

/// The address requests go to: the configured base URL (or the provider's
/// own) followed by the provider's completion path.
pub fn completion_url(p: Provider, base_url: &Option<String>) -> (r: String)
    ensures
        p == Provider::Anthropic ==> r@ == match base_url {
            Some(b) => b@,
            None => "https://api.anthropic.com"@,
        } + "/v1/messages"@,
        p == Provider::OpenAI ==> r@ == match base_url {
            Some(b) => b@,
            None => "https://api.openai.com/v1"@,
        } + "/chat/completions"@,
{
    let mut r = match base_url {
        Some(b) => b.clone(),
        None => match p {
            Provider::Anthropic => "https://api.anthropic.com".to_string(),
            Provider::OpenAI => "https://api.openai.com/v1".to_string(),
        },
    };
    match p {
        Provider::Anthropic => r.append("/v1/messages"),
        Provider::OpenAI => r.append("/chat/completions"),
    }
    r
}

/// The text of an Anthropic reply, given its content items as (type, text):
/// the first `text` item, else the first item; an error when there is none.
pub open spec fn reply_text_spec(items: Seq<(Seq<char>, Seq<char>)>) -> Option<Seq<char>> {
    if items.len() == 0 {
        None
    } else if exists|i: int| 0 <= i < items.len() && #[trigger] items[i].0 == "text"@ {
        Some(items[choose_first_text(items)].1)
    } else {
        Some(items[0].1)
    }
}

/// The index of the first item of type `text`.
pub open spec fn choose_first_text(items: Seq<(Seq<char>, Seq<char>)>) -> int {
    choose|i: int|
        0 <= i < items.len() && items[i].0 == "text"@ && forall|j: int|
            0 <= j < i ==> #[trigger] items[j].0 != "text"@
}

/// Reads the text of an Anthropic reply from its content items.
pub fn reply_text(items: &Vec<(String, String)>) -> (r: Result<String, String>)
    ensures
        match r {
            Ok(t) => reply_text_spec(items@.map_values(|p: (String, String)| (p.0@, p.1@))) == Some(
                t@,
            ),
            Err(m) => reply_text_spec(items@.map_values(|p: (String, String)| (p.0@, p.1@))) is None
                && m@ == "Anthropic API returned no content"@,
        },
{
    let ghost iv = items@.map_values(|p: (String, String)| (p.0@, p.1@));
    if items.len() == 0 {
        return Err("Anthropic API returned no content".to_string());
    }
    let mut i: usize = 0;
    while i < items.len()
        invariant
            0 <= i <= items@.len(),
            iv == items@.map_values(|p: (String, String)| (p.0@, p.1@)),
            forall|j: int| 0 <= j < i ==> #[trigger] iv[j].0 != "text"@,
        decreases items.len() - i,
    {
        if str_is(&items[i].0, "text") {
            proof {
                assert(iv[i as int].0 == "text"@);
                let k = choose_first_text(iv);
                assert(0 <= k < iv.len() && iv[k].0 == "text"@ && forall|j: int|
                    0 <= j < k ==> #[trigger] iv[j].0 != "text"@);
                if k < i {
                } else if k > i {
                    assert(iv[i as int].0 != "text"@);
                }
                assert(k == i);
            }
            return Ok(items[i].1.clone());
        }
        proof {
            assert(iv[i as int].0 != "text"@);
        }
        i = i + 1;
    }
    Ok(items[0].1.clone())
}

/// The price table an OpenAI model is charged by, chosen by its exact name.
#[derive(Debug, Clone, Copy, PartialEq, Eq, Structural)]
pub enum OpenAIPricing {
    Gpt4,
    Gpt4_32k,
    Gpt4Turbo,
    Gpt4o,
    Gpt35Turbo,
    /// Not a known model: charged as GPT-4.
    Unknown,
}

/// The price table of an OpenAI model.
pub open spec fn openai_pricing_spec(model: Seq<char>) -> OpenAIPricing {
    if model == "gpt-4"@ {
        OpenAIPricing::Gpt4
    } else if model == "gpt-4-32k"@ {
        OpenAIPricing::Gpt4_32k
    } else if model == "gpt-4-turbo"@ || model == "gpt-4-1106-preview"@ || model
        == "gpt-4-0125-preview"@ {
        OpenAIPricing::Gpt4Turbo
    } else if model == "gpt-4o"@ || model == "gpt-4o-2024-05-13"@ {
        OpenAIPricing::Gpt4o
    } else if model == "gpt-3.5-turbo"@ || model == "gpt-3.5-turbo-1106"@ {
        OpenAIPricing::Gpt35Turbo
    } else {
        OpenAIPricing::Unknown
    }
}

/// The price table of an OpenAI model.
pub fn openai_pricing(model: &str) -> (r: OpenAIPricing)
    ensures
        r == openai_pricing_spec(model@),
{
    let m = model.to_string();
    if str_is(&m, "gpt-4") {
        OpenAIPricing::Gpt4
    } else if str_is(&m, "gpt-4-32k") {
        OpenAIPricing::Gpt4_32k
    } else if str_is(&m, "gpt-4-turbo") || str_is(&m, "gpt-4-1106-preview") || str_is(
        &m,
        "gpt-4-0125-preview",
    ) {
        OpenAIPricing::Gpt4Turbo
    } else if str_is(&m, "gpt-4o") || str_is(&m, "gpt-4o-2024-05-13") {
        OpenAIPricing::Gpt4o
    } else if str_is(&m, "gpt-3.5-turbo") || str_is(&m, "gpt-3.5-turbo-1106") {
        OpenAIPricing::Gpt35Turbo
    } else {
        OpenAIPricing::Unknown
    }
}

/// Where the trace of a completion comes from.
#[derive(Debug, Clone, PartialEq, Eq)]
pub enum TracePlan {
    /// Log under this trace.
    Use(String),
    /// Create a new trace, named as given, and log under it.
    Create(String),
    /// Do not log.
    NoTrace,
}

/// How a traced completion finds its trace: the trace it was given; else,
/// when tracing is available, the trace id configured for tracing, or the
/// problem id from its metadata, or a new trace named after the generation
/// (`llm_completion` when unnamed); else no trace.
pub fn plan_trace(
    trace_id: Option<&str>,
    configured_trace_id: Option<&str>,
    problem_id: Option<&str>,
    generation_name: Option<&str>,
    tracer_available: bool,
) -> (r: TracePlan)
    ensures
        trace_id is Some ==> (r matches TracePlan::Use(s) && s@ == trace_id.unwrap()@),
        trace_id is None && !tracer_available ==> r == TracePlan::NoTrace,
        trace_id is None && tracer_available && configured_trace_id is Some ==> (r matches TracePlan::Use(
            s,
        ) && s@ == configured_trace_id.unwrap()@),
        trace_id is None && tracer_available && configured_trace_id is None && problem_id is Some ==> (r matches TracePlan::Use(s)
            && s@ == problem_id.unwrap()@),
        trace_id is None && tracer_available && configured_trace_id is None && problem_id is None ==> (r matches TracePlan::Create(
            n,
        ) && n@ == match generation_name {
            Some(g) => g@,
            None => "llm_completion"@,
        }),
{
    match trace_id {
        Some(t) => TracePlan::Use(t.to_string()),
        None => {
            if !tracer_available {
                TracePlan::NoTrace
            } else {
                match configured_trace_id {
                    Some(c) => TracePlan::Use(c.to_string()),
                    None => match problem_id {
                        Some(p) => TracePlan::Use(p.to_string()),
                        None => TracePlan::Create(
                            match generation_name {
                                Some(g) => g.to_string(),
                                None => "llm_completion".to_string(),
                            },
                        ),
                    },
                }
            }
        },
    }
}

/// A client that answers every prompt with the same list of files, for
/// exercising the pipeline without a model.
#[derive(Debug, Clone, Copy)]
pub struct MockLLMClient;

/// The reply of the mock client.
pub open spec fn mock_reply() -> Seq<char> {
    "Based on the problem statement and codebase structure, here are the files that are likely relevant:\n\n```json\n[\"src/main.rs\", \"src/config.rs\", \"src/models/file.rs\"]\n```\n\nThese files appear to be the core components related to the issue."@
}

impl MockLLMClient {
    /// The fixed reply, with fixed usage.
    pub fn completion(&self, _prompt: &str, _max_tokens: usize) -> (r: LLMResponse)
        ensures
            r.content@ == mock_reply(),
            r.usage == (TokenUsage { prompt_tokens: 100, completion_tokens: 50, total_tokens: 150 }),
    {
        LLMResponse {
            content: "Based on the problem statement and codebase structure, here are the files that are likely relevant:\n\n```json\n[\"src/main.rs\", \"src/config.rs\", \"src/models/file.rs\"]\n```\n\nThese files appear to be the core components related to the issue.".to_string(),
            usage: TokenUsage { prompt_tokens: 100, completion_tokens: 50, total_tokens: 150 },
        }
    }

    /// The client's name.
    pub fn name(&self) -> (r: &'static str)
        ensures
            r@ == "mock_llm"@,
    {
        "mock_llm"
    }
}

} // verus!
