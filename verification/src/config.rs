//! Configuration of the pipeline: the model, the stages, the codebase, the
//! containers and tracing. Sampling temperatures and time limits in seconds
//! with fractions are read and applied by the program around the library.

use vstd::prelude::*;

verus! {

/// Settings handed to a language-model client
#[derive(Debug, Clone)]
pub struct LLMConfig {
    pub model_type: String,
    pub model: String,
    pub api_key: String,
    pub base_url: Option<String>,
    /// in seconds
    pub timeout: u64,
    pub max_retries: u32,
}

/// The codebase under analysis
#[derive(Debug, Clone)]
pub struct CodebaseConfig {
    /// Path to the codebase root directory
    pub path: String,
    /// ID for the problem (used for trajectory storage)
    pub problem_id: String,
    /// Custom problem statement/prompt
    pub problem_statement: String,
    /// Path to the exclusions config file
    pub exclusions_path: String,
}

/// The codebase root used when none is configured.
pub fn default_codebase_path() -> (r: String)
    ensures
        r@ == "."@,
{
    ".".to_string()
}

/// The exclusions file used when none is configured.
pub fn default_exclusions_path() -> (r: String)
    ensures
        r@ == "exclusions.json"@,
{
    "exclusions.json".to_string()
}

/// Default number of concurrent relevance requests.
pub fn default_max_workers() -> (r: usize)
    ensures
        r == 8,
{
    8
}

/// Default completion length.
pub fn default_max_tokens() -> (r: usize)
    ensures
        r == 4096,
{
    4096
}

/// Default limit on the size of a file sent for relevance assessment.
pub fn default_max_file_tokens() -> (r: usize)
    ensures
        r == 100_000,
{
    100_000
}

/// Default number of concurrent ranking requests.
pub fn default_ranking_max_workers() -> (r: usize)
    ensures
        r == 4,
{
    4
}

/// Default number of repair attempts.
pub fn default_max_retries() -> (r: usize)
    ensures
        r == 3,
{
    3
}

/// Relevance stage settings
#[derive(Debug, Clone)]
pub struct RelevanceConfig {
    pub model: Option<String>,
    pub max_workers: usize,
    pub max_tokens: usize,
    pub max_file_tokens: usize,
}

impl Default for RelevanceConfig {
    fn default() -> (r: Self)
        ensures
            r.model is None,
            r.max_workers == 8,
            r.max_tokens == 4096,
            r.max_file_tokens == 100_000,
    {
        Self {
            model: None,
            max_workers: default_max_workers(),
            max_tokens: default_max_tokens(),
            max_file_tokens: default_max_file_tokens(),
        }
    }
}

/// Ranking stage settings
#[derive(Debug, Clone)]
pub struct RankingConfig {
    pub model: Option<String>,
    pub max_workers: usize,
    pub max_tokens: usize,
}

impl Default for RankingConfig {
    fn default() -> (r: Self)
        ensures
            r.model is None,
            r.max_workers == 4,
            r.max_tokens == 4096,
    {
        Self { model: None, max_workers: default_ranking_max_workers(), max_tokens: default_max_tokens() }
    }
}

/// Dockerfile stage settings
#[derive(Debug, Clone)]
pub struct DockerfileConfig {
    pub model: Option<String>,
    pub max_tokens: usize,
    pub max_retries: usize,
}

impl Default for DockerfileConfig {
    fn default() -> (r: Self)
        ensures
            r.model is None,
            r.max_tokens == 4096,
            r.max_retries == 3,
    {
        Self { model: None, max_tokens: default_max_tokens(), max_retries: default_max_retries() }
    }
}

/// Script stage settings
#[derive(Debug, Clone)]
pub struct ScriptConfig {
    pub model: Option<String>,
    pub max_tokens: usize,
    pub max_retries: usize,
}

impl Default for ScriptConfig {
    fn default() -> (r: Self)
        ensures
            r.model is None,
            r.max_tokens == 4096,
            r.max_retries == 3,
    {
        Self { model: None, max_tokens: default_max_tokens(), max_retries: default_max_retries() }
    }
}

/// Chat interface settings
#[derive(Debug, Clone)]
pub struct ChatConfig {
    pub model: Option<String>,
    pub max_tokens: usize,
}

impl ChatConfig {
    /// The chat settings used when none are given, chatting with `model`.
    pub fn with_model(model: String) -> (r: Self)
        ensures
            r.model == Some(model),
            r.max_tokens == 4096,
    {
        Self { model: Some(model), max_tokens: default_max_tokens() }
    }
}

/// Container configuration for running lint and test containers
#[derive(Debug, Clone)]
pub struct ContainerConfig {
    /// Timeout for container execution in seconds
    pub timeout: u64,
    /// Whether to run lint and test containers in parallel
    pub parallel: bool,
    /// Whether to remove containers after execution
    pub remove: bool,
    /// Whether a failed test run is analysed and repaired, then run again
    pub retry_tests: bool,
    /// How many repair rounds a failed test run gets
    pub max_retries: usize,
}

impl Default for ContainerConfig {
    fn default() -> (r: Self)
        ensures
            r.timeout == 300,
            !r.parallel,
            r.remove,
            !r.retry_tests,
            r.max_retries == 3,
    {
        Self { timeout: 300, parallel: false, remove: true, retry_tests: false, max_retries: 3 }
    }
}

/// Configuration for Langfuse tracing
#[derive(Debug, Clone)]
pub struct LangfuseConfig {
    pub enabled: bool,
    pub host: String,
    pub project_id: String,
    pub secret_key: String,
    pub public_key: String,
    pub trace_id: Option<String>,
}

impl Default for LangfuseConfig {
    fn default() -> (r: Self)
        ensures
            !r.enabled,
            r.host@ == "https://us.cloud.langfuse.com"@,
            r.project_id@ == "engines-builder"@,
            r.secret_key@.len() == 0,
            r.public_key@.len() == 0,
            r.trace_id is None,
    {
        let r = Self {
            enabled: false,
            host: "https://us.cloud.langfuse.com".to_string(),
            project_id: "engines-builder".to_string(),
            secret_key: "".to_string(),
            public_key: "".to_string(),
            trace_id: None,
        };
        proof {
            reveal_strlit("");
        }
        r
    }
}

/// Configuration for observability and tracing
#[derive(Debug, Clone)]
pub struct ObservabilityConfig {
    pub langfuse: LangfuseConfig,
}

impl Default for ObservabilityConfig {
    fn default() -> (r: Self)
        ensures
            !r.langfuse.enabled,
            r.langfuse.host@ == "https://us.cloud.langfuse.com"@,
            r.langfuse.project_id@ == "engines-builder"@,
            r.langfuse.secret_key@.len() == 0,
            r.langfuse.public_key@.len() == 0,
            r.langfuse.trace_id is None,
    {
        Self { langfuse: LangfuseConfig::default() }
    }
}

/// The whole configuration
#[derive(Debug, Clone)]
pub struct Config {
    pub anthropic_api_key: String,
    pub model: String,
    pub relevance: RelevanceConfig,
    pub ranking: RankingConfig,
    pub codebase: CodebaseConfig,
    pub dockerfile: DockerfileConfig,
    pub scripts: ScriptConfig,
    pub chat: ChatConfig,
    pub container: ContainerConfig,
    pub observability: ObservabilityConfig,
    pub output_path: Option<String>,
}

/// The output directory used when none is configured.
pub open spec fn default_output_dir() -> Seq<char> {
    ".engines"@
}

impl Config {
    /// The model a stage uses: its own when it names one, otherwise the
    /// configured model.
    pub open spec fn model_for(&self, stage_model: Option<String>) -> Seq<char> {
        match stage_model {
            Some(m) => m@,
            None => self.model@,
        }
    }

    /// The output directory.
    pub open spec fn output_dir(&self) -> Seq<char> {
        match self.output_path {
            Some(p) => p@,
            None => default_output_dir(),
        }
    }

    /// The configuration used when none is given, with `model` as the
    /// model of every stage that names none and of the chat.
    pub fn default_with_model(model: String) -> (r: Self)
        ensures
            r.anthropic_api_key@.len() == 0,
            r.model == model,
            r.codebase.path@ == "."@,
            r.codebase.problem_id@ == "custom_problem"@,
            r.codebase.problem_statement@ == "Please analyze this codebase"@,
            r.codebase.exclusions_path@ == "exclusions.json"@,
            r.relevance.model is None && r.relevance.max_workers == 8 && r.relevance.max_tokens
                == 4096 && r.relevance.max_file_tokens == 100_000,
            r.ranking.model is None && r.ranking.max_workers == 4 && r.ranking.max_tokens == 4096,
            r.dockerfile.model is None && r.dockerfile.max_tokens == 4096
                && r.dockerfile.max_retries == 3,
            r.scripts.model is None && r.scripts.max_tokens == 4096 && r.scripts.max_retries == 3,
            r.chat.model == Some(model),
            r.chat.max_tokens == 4096,
            r.container.timeout == 300 && !r.container.parallel && r.container.remove,
            !r.observability.langfuse.enabled,
            r.output_path matches Some(p) && p@ == default_output_dir(),
    {
        let r = Self {
            anthropic_api_key: "".to_string(),
            model: model.clone(),
            relevance: RelevanceConfig::default(),
            ranking: RankingConfig::default(),
            codebase: CodebaseConfig {
                path: ".".to_string(),
                problem_id: "custom_problem".to_string(),
                problem_statement: "Please analyze this codebase".to_string(),
                exclusions_path: "exclusions.json".to_string(),
            },
            dockerfile: DockerfileConfig::default(),
            scripts: ScriptConfig::default(),
            chat: ChatConfig::with_model(model),
            container: ContainerConfig::default(),
            observability: ObservabilityConfig::default(),
            output_path: Some(".engines".to_string()),
        };
        proof {
            reveal_strlit("");
        }
        r
    }

    /// Get the effective model name for a stage
    pub fn get_model_for_stage(&self, stage_model: &Option<String>) -> (r: String)
        ensures
            r@ == self.model_for(*stage_model),
    {
        match stage_model {
            Some(model) => model.clone(),
            None => self.model.clone(),
        }
    }

    /// Convert to the LLMConfig format needed by LLM clients
    pub fn to_llm_config(&self, stage_model: &Option<String>) -> (r: LLMConfig)
        ensures
            r.model_type@ == "anthropic"@,
            r.model@ == self.model_for(*stage_model),
            r.api_key@ == self.anthropic_api_key@,
            r.base_url is None,
            r.timeout == 60,
            r.max_retries == 3,
    {
        let model = self.get_model_for_stage(stage_model);
        LLMConfig {
            model_type: "anthropic".to_string(),
            model,
            api_key: self.anthropic_api_key.clone(),
            base_url: None,
            timeout: 60,
            max_retries: 3,
        }
    }

    /// Get the output directory path
    pub fn get_output_dir(&self) -> (r: String)
        ensures
            r@ == self.output_dir(),
    {
        match &self.output_path {
            Some(p) => p.clone(),
            None => ".engines".to_string(),
        }
    }

    /// The trajectory directory of a problem: `<output>/trajectories/<id>`.
    pub fn get_trajectory_dir(&self, problem_id: &str) -> (r: String)
        ensures
            r@ == self.output_dir() + "/trajectories/"@ + problem_id@,
    {
        let mut r = self.get_output_dir();
        r.append("/trajectories/");
        r.append(problem_id);
        r
    }

    /// The Dockerfile of a problem: `<output>/dockerfiles/<id>/Dockerfile`.
    pub fn get_dockerfile_path(&self, problem_id: &str) -> (r: String)
        ensures
            r@ == self.output_dir() + "/dockerfiles/"@ + problem_id@ + "/Dockerfile"@,
    {
        let mut r = self.get_output_dir();
        r.append("/dockerfiles/");
        r.append(problem_id);
        r.append("/Dockerfile");
        r
    }

    /// The scripts directory of a problem: `<output>/scripts/<id>`.
    pub fn get_scripts_dir(&self, problem_id: &str) -> (r: String)
        ensures
            r@ == self.output_dir() + "/scripts/"@ + problem_id@,
    {
        let mut r = self.get_output_dir();
        r.append("/scripts/");
        r.append(problem_id);
        r
    }
}

/// The stage whose model the chat falls back to, by name (any case).
#[derive(Debug, Clone, Copy, PartialEq, Eq, Structural)]
pub enum ChatFallback {
    Relevance,
    Ranking,
    Dockerfile,
    Scripts,
    /// Not a stage name: the default chat model is used.
    Invalid,
}

/// Which stage a chat configuration name refers to, after lowering it.
pub open spec fn chat_fallback_spec(lowered: Seq<char>) -> ChatFallback {
    if lowered == "relevance"@ {
        ChatFallback::Relevance
    } else if lowered == "ranking"@ {
        ChatFallback::Ranking
    } else if lowered == "dockerfile"@ {
        ChatFallback::Dockerfile
    } else if lowered == "scripts"@ {
        ChatFallback::Scripts
    } else {
        ChatFallback::Invalid
    }
}

impl Config {
    /// The model settings of the chat: the chat's own model when one is
    /// configured; otherwise the model of the stage named by `config_type`
    /// (in any case), or `fallback_model` when that names no stage. The
    /// second part tells whether `config_type` was used and was invalid.
    pub fn chat_llm_config(&self, config_type: &str, fallback_model: &str) -> (r: (LLMConfig, bool))
        ensures
            self.chat.model is Some ==> r.0.model@ == self.chat.model->0@ && !r.1,
            self.chat.model is None ==> match chat_fallback_spec(
                crate::text::unicode_lowercase(config_type@),
            ) {
                ChatFallback::Relevance => r.0.model@ == self.model_for(self.relevance.model) && !r.1,
                ChatFallback::Ranking => r.0.model@ == self.model_for(self.ranking.model) && !r.1,
                ChatFallback::Dockerfile => r.0.model@ == self.model_for(self.dockerfile.model) && !r.1,
                ChatFallback::Scripts => r.0.model@ == self.model_for(self.scripts.model) && !r.1,
                ChatFallback::Invalid => r.0.model@ == fallback_model@ && r.1,
            },
            r.0.model_type@ == "anthropic"@,
            r.0.api_key@ == self.anthropic_api_key@,
    {
        if self.chat.model.is_some() {
            return (self.to_llm_config(&self.chat.model), false);
        }
        let low = crate::text::to_lowercase(config_type);
        if crate::text::str_is(&low, "relevance") {
            (self.to_llm_config(&self.relevance.model), false)
        } else if crate::text::str_is(&low, "ranking") {
            (self.to_llm_config(&self.ranking.model), false)
        } else if crate::text::str_is(&low, "dockerfile") {
            (self.to_llm_config(&self.dockerfile.model), false)
        } else if crate::text::str_is(&low, "scripts") {
            (self.to_llm_config(&self.scripts.model), false)
        } else {
            (self.to_llm_config(&Some(fallback_model.to_string())), true)
        }
    }

    /// The problem worked on: the given id and statement, or the
    /// configured ones.
    pub fn problem_identity(
        &self,
        problem_id: Option<String>,
        problem_statement: Option<String>,
    ) -> (r: (String, String))
        ensures
            r.0@ == match problem_id {
                Some(p) => p@,
                None => self.codebase.problem_id@,
            },
            r.1@ == match problem_statement {
                Some(s) => s@,
                None => self.codebase.problem_statement@,
            },
    {
        let id = match problem_id {
            Some(p) => p,
            None => self.codebase.problem_id.clone(),
        };
        let statement = match problem_statement {
            Some(s) => s,
            None => self.codebase.problem_statement.clone(),
        };
        (id, statement)
    }
}

} // verus!
