use engine_builder::collections::OrderedMap;
use engine_builder::models::ranking::{
    FileRanking, ProblemContext, RankedCodebaseFile, RelevantFileDataForPrompt,
};

#[test]
fn test_ranked_codebase_file() {
    let file = RankedCodebaseFile { path: "src/main.rs".to_string(), tokens: 1024 };

    assert_eq!(file.path, "src/main.rs");
    assert_eq!(file.tokens, 1024);
}

#[test]
fn test_relevant_file_data_for_prompt() {
    let file_data = RelevantFileDataForPrompt {
        path: "src/config.rs".to_string(),
        summary: "Configuration handling for the application".to_string(),
        token_count: 256,
    };

    assert_eq!(file_data.path, "src/config.rs");
    assert_eq!(file_data.summary, "Configuration handling for the application");
    assert_eq!(file_data.token_count, 256);

    let copy = file_data.clone();
    assert_eq!(copy.path, file_data.path);
    assert_eq!(copy.summary, file_data.summary);
    assert_eq!(copy.token_count, file_data.token_count);
}

#[test]
fn test_problem_context() {
    let ranking1 = FileRanking {
        message: "Ranking 1".to_string(),
        ranking: vec!["file1.rs".to_string(), "file2.rs".to_string()],
    };

    let ranking2 = FileRanking {
        message: "Ranking 2".to_string(),
        ranking: vec!["file2.rs".to_string(), "file3.rs".to_string()],
    };

    let ranked_files = vec![
        RankedCodebaseFile { path: "file1.rs".to_string(), tokens: 100 },
        RankedCodebaseFile { path: "file2.rs".to_string(), tokens: 200 },
        RankedCodebaseFile { path: "file3.rs".to_string(), tokens: 300 },
    ];

    let mut usage1 = OrderedMap::new();
    usage1.insert("prompt_tokens".to_string(), serde_json::Value::from(1000));

    let mut usage2 = OrderedMap::new();
    usage2.insert("completion_tokens".to_string(), serde_json::Value::from(500));

    let context = ProblemContext {
        model_rankings: vec![ranking1, ranking2],
        ranked_files,
        prompt_caching_usages: vec![usage1, usage2],
    };

    assert_eq!(context.model_rankings.len(), 2);
    assert_eq!(context.model_rankings[0].message, "Ranking 1");
    assert_eq!(context.model_rankings[1].message, "Ranking 2");

    assert_eq!(context.ranked_files.len(), 3);
    assert_eq!(context.ranked_files[0].path, "file1.rs");
    assert_eq!(context.ranked_files[0].tokens, 100);

    assert_eq!(context.prompt_caching_usages.len(), 2);
}
