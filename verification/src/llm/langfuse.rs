//! Tracing through Langfuse: which settings a client ends up with, whether
//! it sends anything, and the identifiers and addresses it uses.

use vstd::prelude::*;

use crate::text::decimal;

verus! {

/// Where traces go when no host is configured.
pub open spec fn default_api_url() -> Seq<char> {
    "https://us.cloud.langfuse.com"@
}

/// The project traces are filed under when none is configured.
pub open spec fn default_project() -> Seq<char> {
    "engines-builder"@
}

/// What a trace is about.
#[derive(Debug, Clone)]
pub struct TraceMetadata {
    pub problem_id: Option<String>,
    pub file_path: Option<String>,
    pub stage: Option<String>,
}

/// The settings found in the environment, each when set.
#[derive(Debug, Clone)]
pub struct LangfuseEnv {
    pub secret_key: Option<String>,
    pub public_key: Option<String>,
    pub host: Option<String>,
    pub project_id: Option<String>,
}

/// The state of a tracing client: where it sends, with which keys, and
/// whether it sends at all.
#[derive(Debug, Clone)]
pub struct LangfuseClient {
    pub base_url: String,
    pub secret_key: String,
    pub public_key: String,
    pub project_name: String,
    pub enabled: bool,
    pub trace_id: Option<String>,
}

/// The environment's setting, else the given one: the environment takes
/// precedence.
pub open spec fn env_or_given(env: Option<String>, given: Option<String>) -> Option<Seq<char>> {
    match env {
        Some(e) => Some(e@),
        None => match given {
            Some(g) => Some(g@),
            None => None,
        },
    }
}

/// The environment's setting when it is set, else `v`.
pub open spec fn env_or(env: Option<String>, v: Seq<char>) -> Seq<char> {
    match env {
        Some(e) => e@,
        None => v,
    }
}

/// The text of an optional setting, or a default.
pub open spec fn or_default(o: Option<Seq<char>>, d: Seq<char>) -> Seq<char> {
    match o {
        Some(s) => s,
        None => d,
    }
}

fn pick(given: Option<String>, env: &Option<String>, default: &str) -> (r: String)
    ensures
        r@ == or_default(env_or_given(*env, given), default@),
{
    match env {
        Some(e) => e.clone(),
        None => match given {
            Some(g) => g,
            None => default.to_string(),
        },
    }
}

impl LangfuseClient {
    /// The client's settings: each setting from the environment when it is
    /// set there (the environment takes precedence), else the given one,
    /// else the default. Tracing is on only with both keys, and only when
    /// asked for (by default it is asked for exactly when both keys are
    /// present).
    pub fn new(
        base_url: Option<String>,
        secret_key: Option<String>,
        public_key: Option<String>,
        project_id: Option<String>,
        enabled: Option<bool>,
        trace_id: Option<String>,
        env: &LangfuseEnv,
    ) -> (c: LangfuseClient)
        ensures
            c.secret_key@ == or_default(env_or_given(env.secret_key, secret_key), Seq::empty()),
            c.public_key@ == or_default(env_or_given(env.public_key, public_key), Seq::empty()),
            c.base_url@ == or_default(env_or_given(env.host, base_url), default_api_url()),
            c.project_name@ == or_default(env_or_given(env.project_id, project_id), default_project()),
            c.enabled == ((match enabled {
                Some(e) => e,
                None => c.secret_key@.len() > 0 && c.public_key@.len() > 0,
            }) && c.secret_key@.len() > 0 && c.public_key@.len() > 0),
            c.trace_id == trace_id,
    {
        let secret = pick(secret_key, &env.secret_key, "");
        let public = pick(public_key, &env.public_key, "");
        let base = pick(base_url, &env.host, "https://us.cloud.langfuse.com");
        let project = pick(project_id, &env.project_id, "engines-builder");
        proof {
            reveal_strlit("");
        }
        let has_credentials = !secret.as_str().is_empty() && !public.as_str().is_empty();
        let is_enabled = match enabled {
            Some(e) => e,
            None => has_credentials,
        };
        LangfuseClient {
            base_url: base,
            secret_key: secret,
            public_key: public,
            project_name: project,
            enabled: is_enabled && has_credentials,
            trace_id,
        }
    }

    /// A client with the given keys, project and host, each overridden by
    /// the environment when it is set there.
    pub fn with_credentials(
        secret_key: &str,
        public_key: &str,
        project_id: &str,
        base_url: Option<&str>,
        enabled: Option<bool>,
        trace_id: Option<&str>,
        env: &LangfuseEnv,
    ) -> (c: LangfuseClient)
        ensures
            c.secret_key@ == env_or(env.secret_key, secret_key@),
            c.public_key@ == env_or(env.public_key, public_key@),
            c.project_name@ == env_or(env.project_id, project_id@),
            c.base_url@ == env_or(
                env.host,
                match base_url {
                    Some(b) => b@,
                    None => default_api_url(),
                },
            ),
            c.enabled == ((match enabled {
                Some(e) => e,
                None => c.secret_key@.len() > 0 && c.public_key@.len() > 0,
            }) && c.secret_key@.len() > 0 && c.public_key@.len() > 0),
            crate::text::opt_view(c.trace_id) == match trace_id {
                Some(t) => Some(t@),
                None => None::<Seq<char>>,
            },
    {
        let b = match base_url {
            Some(b) => Some(b.to_string()),
            None => None,
        };
        let t = match trace_id {
            Some(t) => Some(t.to_string()),
            None => None,
        };
        LangfuseClient::new(
            b,
            Some(secret_key.to_string()),
            Some(public_key.to_string()),
            Some(project_id.to_string()),
            enabled,
            t,
            env,
        )
    }

    /// A client that sends nothing.
    pub fn disabled() -> (c: LangfuseClient)
        ensures
            !c.enabled,
            c.base_url@ == default_api_url(),
            c.secret_key@.len() == 0,
            c.public_key@.len() == 0,
            c.trace_id is None,
    {
        let c = LangfuseClient {
            base_url: "https://us.cloud.langfuse.com".to_string(),
            secret_key: String::new(),
            public_key: String::new(),
            project_name: "engines-builder".to_string(),
            enabled: false,
            trace_id: None,
        };
        c
    }

    /// The address events are sent to.
    pub fn ingestion_url(&self) -> (r: String)
        ensures
            r@ == self.base_url@ + "/api/public/ingestion"@,
    {
        let mut r = self.base_url.clone();
        r.append("/api/public");
        r.append("/ingestion");
        proof {
            reveal_strlit("/api/public");
            reveal_strlit("/ingestion");
            reveal_strlit("/api/public/ingestion");
            assert(r@ =~= self.base_url@ + "/api/public/ingestion"@);
        }
        r
    }

    /// The identifier of a new trace: the client's own trace id when it has
    /// one, otherwise a fresh one.
    pub fn trace_id_or_new(&self) -> (r: String)
        ensures
            self.trace_id matches Some(t) ==> r@ == t@,
            self.trace_id is None ==> uuid_v4_text(r@),
    {
        match &self.trace_id {
            Some(t) => t.clone(),
            None => new_uuid(),
        }
    }
}

/// Tracing sends events only when both keys are present.
pub proof fn law_enabled_needs_credentials(c: LangfuseClient, base_url: Option<String>, secret_key: Option<String>, public_key: Option<String>, project_id: Option<String>, enabled: Option<bool>, trace_id: Option<String>, env: LangfuseEnv)
    requires
        c.secret_key@ == or_default(env_or_given(env.secret_key, secret_key), Seq::empty()),
        c.public_key@ == or_default(env_or_given(env.public_key, public_key), Seq::empty()),
        c.enabled == ((match enabled {
            Some(e) => e,
            None => c.secret_key@.len() > 0 && c.public_key@.len() > 0,
        }) && c.secret_key@.len() > 0 && c.public_key@.len() > 0),
    ensures
        c.enabled ==> c.secret_key@.len() > 0 && c.public_key@.len() > 0,
        c.secret_key@.len() > 0 && c.public_key@.len() > 0 && enabled != Some(false) ==> c.enabled,
{
}

/// A lowercase hexadecimal digit.
pub open spec fn is_lower_hex(c: char) -> bool {
    (48 <= (c as u32) <= 57) || (97 <= (c as u32) <= 102)
}

/// The text of a random (version 4) UUID in hyphenated lowercase form:
/// 36 characters, hyphens at 8, 13, 18 and 23, lowercase hexadecimal digits
/// elsewhere, the version digit `4` at 14 and a variant digit of `8`, `9`,
/// `a` or `b` at 19.
pub open spec fn uuid_v4_text(s: Seq<char>) -> bool {
    &&& s.len() == 36
    &&& forall|i: int|
        0 <= i < 36 ==> if i == 8 || i == 13 || i == 18 || i == 23 {
            #[trigger] s[i] == '-'
        } else {
            is_lower_hex(s[i])
        }
    &&& s[14] == '4'
    &&& (s[19] == '8' || s[19] == '9' || s[19] == 'a' || s[19] == 'b')
}

/// A fresh random identifier: `uuid::Uuid::new_v4().to_string()`. Its value
/// is random; what is claimed is the shape the crate gives every such text
/// (`new_v4` fixes the version and variant bits, and `Display` writes the
/// hyphenated lowercase form).
#[verifier::external_body]
fn new_uuid() -> (r: String)
    ensures
        uuid_v4_text(r@),
{
    uuid::Uuid::new_v4().to_string()
}

/// A fresh identifier for an event or an observation.
pub fn new_event_id() -> (r: String)
    ensures
        uuid_v4_text(r@),
{
    new_uuid()
}

/// The time span logged for a generation: the given ends, with a start one
/// second before now and an end of now when they are not given.
pub fn generation_window(start_time: Option<u64>, end_time: Option<u64>, now: u64) -> (r: (
    u64,
    u64,
))
    requires
        now >= 1000,
    ensures
        r.0 == match start_time {
            Some(s) => s,
            None => (now - 1000) as u64,
        },
        r.1 == match end_time {
            Some(e) => e,
            None => now,
        },
{
    let default_start = now - 1000;
    (
        match start_time {
            Some(s) => s,
            None => default_start,
        },
        match end_time {
            Some(e) => e,
            None => now,
        },
    )
}

/// Starts tracing with explicit keys: the settings of the client that the
/// program keeps for the rest of the run.
pub fn init_langfuse(
    secret_key: &str,
    public_key: &str,
    project_id: &str,
    base_url: Option<&str>,
    enabled: Option<bool>,
    trace_id: Option<&str>,
    env: &LangfuseEnv,
) -> (c: LangfuseClient)
    ensures
        c.secret_key@ == env_or(env.secret_key, secret_key@),
        c.public_key@ == env_or(env.public_key, public_key@),
        c.enabled == ((match enabled {
            Some(e) => e,
            None => c.secret_key@.len() > 0 && c.public_key@.len() > 0,
        }) && c.secret_key@.len() > 0 && c.public_key@.len() > 0),
{
    LangfuseClient::with_credentials(secret_key, public_key, project_id, base_url, enabled, trace_id, env)
}

/// The environment's setting when it is set (the environment takes
/// precedence), else the configured one unless it is empty, else the
/// default.
pub open spec fn env_or_config(env: Option<String>, configured: Seq<char>, default: Seq<char>) -> Seq<char> {
    match env {
        Some(e) => e@,
        None => if configured.len() > 0 {
            configured
        } else {
            default
        },
    }
}

fn setting(configured: &String, env: &Option<String>, default: &str) -> (r: String)
    ensures
        r@ == env_or_config(*env, configured@, default@),
{
    match env {
        Some(e) => e.clone(),
        None => if !configured.as_str().is_empty() {
            configured.clone()
        } else {
            default.to_string()
        },
    }
}

/// The tracing settings the program starts with: secret key, public key,
/// project and host, each from the environment when it is set there, else
/// from the configuration unless it is empty, else the default (none for
/// the keys).
pub fn settings_from_config(
    config: &crate::config::LangfuseConfig,
    env: &LangfuseEnv,
) -> (r: (String, String, String, String))
    ensures
        r.0@ == env_or_config(env.secret_key, config.secret_key@, Seq::empty()),
        r.1@ == env_or_config(env.public_key, config.public_key@, Seq::empty()),
        r.2@ == env_or_config(env.project_id, config.project_id@, default_project()),
        r.3@ == env_or_config(env.host, config.host@, default_api_url()),
{
    proof {
        reveal_strlit("");
    }
    (
        setting(&config.secret_key, &env.secret_key, ""),
        setting(&config.public_key, &env.public_key, ""),
        setting(&config.project_id, &env.project_id, "engines-builder"),
        setting(&config.host, &env.host, "https://us.cloud.langfuse.com"),
    )
}

} // verus!
