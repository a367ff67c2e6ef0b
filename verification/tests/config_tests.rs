use engine_builder::config::{Config, ContainerConfig, LLMConfig};

#[test]
fn test_llm_config_fields() {
    let llm_config = LLMConfig {
        model_type: "openai".to_string(),
        model: "gpt-4".to_string(),
        api_key: "test-key".to_string(),
        base_url: Some("https://api.test.com".to_string()),
        timeout: 60,
        max_retries: 5,
    };

    assert_eq!(llm_config.model_type, "openai");
    assert_eq!(llm_config.model, "gpt-4");
    assert_eq!(llm_config.api_key, "test-key");
    assert_eq!(llm_config.base_url, Some("https://api.test.com".to_string()));
    assert_eq!(llm_config.timeout, 60);
    assert_eq!(llm_config.max_retries, 5);
}

#[test]
fn test_container_config_default() {
    let container_config = ContainerConfig::default();

    assert_eq!(container_config.timeout, 300);
    assert_eq!(container_config.parallel, false);
    assert_eq!(container_config.remove, true);
}

// The default configuration takes its model from the caller; the program
// supplies it from its own settings.
#[test]
fn test_config_default() {
    let config = Config::default_with_model("some-model".to_string());
    assert_eq!(config.codebase.path, ".");
    assert_eq!(config.codebase.problem_id, "custom_problem");
    assert_eq!(config.codebase.exclusions_path, "exclusions.json");
    let relevance_llm = config.to_llm_config(&config.relevance.model);
    assert_eq!(relevance_llm.model_type, "anthropic");
    assert_eq!(relevance_llm.model, "some-model");
    assert_eq!(config.model, "some-model");
    assert_eq!(config.chat.model, Some("some-model".to_string()));
    assert_eq!(config.container.timeout, 300);
    assert!(!config.container.parallel);
    assert!(config.container.remove);
    assert_eq!(config.relevance.max_file_tokens, 100_000);
    assert_eq!(config.get_output_dir(), ".engines");
    assert_eq!(config.get_dockerfile_path("p"), ".engines/dockerfiles/p/Dockerfile");
    assert_eq!(config.get_trajectory_dir("p"), ".engines/trajectories/p");
    assert_eq!(config.get_scripts_dir("p"), ".engines/scripts/p");
}

#[test]
fn stage_model_overrides_the_default() {
    let config = Config::default_with_model("base-model".to_string());
    assert_eq!(config.get_model_for_stage(&Some("stage-model".to_string())), "stage-model");
    assert_eq!(config.get_model_for_stage(&None), "base-model");
    let llm = config.to_llm_config(&None);
    assert_eq!(llm.model_type, "anthropic");
    assert_eq!(llm.model, "base-model");
    assert_eq!(llm.timeout, 60);
    assert_eq!(llm.max_retries, 3);
}

#[test]
fn output_path_moves_every_stage_directory() {
    let mut config = Config::default_with_model("m".to_string());
    config.output_path = Some("out".to_string());
    assert_eq!(config.get_trajectory_dir("p"), "out/trajectories/p");
    assert_eq!(config.get_scripts_dir("p"), "out/scripts/p");
    assert_eq!(config.get_dockerfile_path("p"), "out/dockerfiles/p/Dockerfile");
    config.output_path = None;
    assert_eq!(config.get_output_dir(), ".engines");
}
