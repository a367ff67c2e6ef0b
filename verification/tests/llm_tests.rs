use engine_builder::llm::client::{
    completion_url, openai_pricing, plan_trace, provider_name, reply_text, select_provider, LLMResponse,
    MockLLMClient, OpenAIPricing, Provider, TokenUsage, TracePlan,
};
use engine_builder::llm::langfuse::{
    generation_window, init_langfuse, new_event_id, settings_from_config, LangfuseClient, LangfuseEnv, TraceMetadata,
};

fn no_env() -> LangfuseEnv {
    LangfuseEnv { secret_key: None, public_key: None, host: None, project_id: None }
}

#[test]
fn usage_is_described_and_added() {
    let a = TokenUsage { prompt_tokens: 100, completion_tokens: 50, total_tokens: 150 };
    assert_eq!(a.describe(), "Prompt tokens: 100, Completion tokens: 50, Total tokens: 150");
    let b = TokenUsage::from_counts(7, 3);
    assert_eq!(b.total_tokens, 10);
    let c = a.plus(&b);
    assert_eq!(c, TokenUsage { prompt_tokens: 107, completion_tokens: 53, total_tokens: 160 });
    assert_eq!(TokenUsage::zero().plus(&a), a);
}

#[test]
fn providers_are_chosen_by_type() {
    assert_eq!(select_provider("openai"), Ok(Provider::OpenAI));
    assert_eq!(select_provider("anthropic"), Ok(Provider::Anthropic));
    assert_eq!(select_provider("other"), Err("Unsupported LLM type: other".to_string()));
    assert_eq!(completion_url(Provider::Anthropic, &None), "https://api.anthropic.com/v1/messages");
    assert_eq!(
        completion_url(Provider::OpenAI, &Some("http://h".to_string())),
        "http://h/chat/completions"
    );
    assert_eq!(openai_pricing("gpt-4o"), OpenAIPricing::Gpt4o);
    assert_eq!(openai_pricing("gpt-5"), OpenAIPricing::Unknown);
}

#[test]
fn reply_text_prefers_text_items() {
    let items = vec![
        ("tool_use".to_string(), "x".to_string()),
        ("text".to_string(), "hello".to_string()),
        ("text".to_string(), "later".to_string()),
    ];
    assert_eq!(reply_text(&items), Ok("hello".to_string()));
    let other = vec![("image".to_string(), "first".to_string())];
    assert_eq!(reply_text(&other), Ok("first".to_string()));
    assert_eq!(reply_text(&Vec::new()), Err("Anthropic API returned no content".to_string()));
}

#[test]
fn traces_are_planned() {
    assert_eq!(plan_trace(Some("t1"), Some("cfg"), Some("p"), None, true), TracePlan::Use("t1".to_string()));
    assert_eq!(plan_trace(None, Some("cfg"), Some("p"), None, true), TracePlan::Use("cfg".to_string()));
    assert_eq!(plan_trace(None, None, Some("p"), None, true), TracePlan::Use("p".to_string()));
    assert_eq!(plan_trace(None, None, None, Some("gen"), true), TracePlan::Create("gen".to_string()));
    assert_eq!(plan_trace(None, None, None, None, true), TracePlan::Create("llm_completion".to_string()));
    assert_eq!(plan_trace(None, Some("cfg"), Some("p"), None, false), TracePlan::NoTrace);
}

#[test]
fn tracing_needs_both_keys() {
    let c = LangfuseClient::new(None, Some("s".to_string()), None, None, None, None, &no_env());
    assert!(!c.enabled);
    let env = LangfuseEnv {
        secret_key: None,
        public_key: Some("pk".to_string()),
        host: Some("http://host".to_string()),
        project_id: None,
    };
    let d = LangfuseClient::new(None, Some("s".to_string()), None, None, None, None, &env);
    assert!(d.enabled);
    assert_eq!(d.base_url, "http://host");
    assert_eq!(d.project_name, "engines-builder");
    assert_eq!(d.ingestion_url(), "http://host/api/public/ingestion");
    let off = LangfuseClient::new(None, Some("s".to_string()), None, None, Some(false), None, &env);
    assert!(!off.enabled);
    let forced = LangfuseClient::new(None, None, None, None, Some(true), None, &no_env());
    assert!(!forced.enabled);
    let t = init_langfuse("s", "p", "proj", None, None, Some("trace-1"), &no_env());
    assert!(t.enabled);
    assert_eq!(t.base_url, "https://us.cloud.langfuse.com");
    assert_eq!(t.trace_id_or_new(), "trace-1");
    assert!(!LangfuseClient::disabled().enabled);
}

#[test]
fn environment_keys_take_precedence() {
    let env = LangfuseEnv {
        secret_key: Some("envS".to_string()),
        public_key: Some("envP".to_string()),
        host: None,
        project_id: None,
    };
    let c = LangfuseClient::new(
        None,
        Some("cfgS".to_string()),
        Some("cfgP".to_string()),
        None,
        Some(true),
        None,
        &env,
    );
    assert!(c.enabled);
    assert_eq!(c.secret_key, "envS");
    assert_eq!(c.public_key, "envP");
    let t = init_langfuse("cfgS", "cfgP", "proj", Some("http://h"), None, None, &env);
    assert_eq!(t.secret_key, "envS");
    assert_eq!(t.base_url, "http://h");
    assert_eq!(t.project_name, "proj");
    let mut cfg = engine_builder::config::LangfuseConfig::default();
    cfg.secret_key = "cfgS".to_string();
    cfg.public_key = "cfgP".to_string();
    cfg.project_id = String::new();
    let (sk, pk, project, host) = settings_from_config(&cfg, &env);
    assert_eq!(sk, "envS");
    assert_eq!(pk, "envP");
    assert_eq!(project, "engines-builder");
    assert_eq!(host, cfg.host);
    let (sk2, _, _, _) = settings_from_config(&cfg, &no_env());
    assert_eq!(sk2, "cfgS");
}

#[test]
fn generation_windows() {
    assert_eq!(generation_window(None, None, 5000), (4000, 5000));
    assert_eq!(generation_window(Some(1), Some(2), 5000), (1, 2));
}

#[test]
fn mock_client_reply() {
    let r: LLMResponse = MockLLMClient.completion("anything", 10);
    assert!(r.content.contains("[\"src/main.rs\", \"src/config.rs\", \"src/models/file.rs\"]"));
    assert_eq!(r.usage.total_tokens, 150);
    assert_eq!(MockLLMClient.name(), "mock_llm");
    let m = TraceMetadata { problem_id: Some("p".to_string()), file_path: None, stage: None };
    assert_eq!(m.problem_id, Some("p".to_string()));
}

#[test]
fn providers_report_their_names() {
    assert_eq!(provider_name(Provider::Anthropic), "anthropic");
    assert_eq!(provider_name(Provider::OpenAI), "openai");
}

fn looks_like_uuid_v4(s: &str) -> bool {
    let c: Vec<char> = s.chars().collect();
    c.len() == 36
        && c.iter().enumerate().all(|(i, ch)| {
            if i == 8 || i == 13 || i == 18 || i == 23 {
                *ch == '-'
            } else {
                ch.is_ascii_digit() || ('a'..='f').contains(ch)
            }
        })
        && c[14] == '4'
        && matches!(c[19], '8' | '9' | 'a' | 'b')
}

#[test]
fn event_ids_are_fresh_uuid_v4_texts() {
    let a = new_event_id();
    let b = new_event_id();
    assert!(looks_like_uuid_v4(&a));
    assert!(looks_like_uuid_v4(&b));
    assert_ne!(a, b);
    let c = LangfuseClient::disabled();
    assert!(looks_like_uuid_v4(&c.trace_id_or_new()));
}
