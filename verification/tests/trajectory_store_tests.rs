use engine_builder::collections::OrderedMap;
use engine_builder::models::problem::SWEBenchProblem;
use engine_builder::models::relevance::RelevanceDecision;
use engine_builder::utils::trajectory_store::{join_path_str, record_decision, TrajectoryStore};

fn create_test_problem() -> SWEBenchProblem {
    SWEBenchProblem::new("test_problem".to_string(), "Test problem description".to_string())
}

#[test]
fn test_trajectory_store_new() {
    let temp_dir = tempfile::tempdir().unwrap();
    let problem = create_test_problem();
    let base = temp_dir.path().to_str().unwrap().to_string();

    let store = TrajectoryStore::new(&base, &problem);

    assert!(temp_dir.path().exists());
    assert!(temp_dir.path().is_dir());
    assert_eq!(store.base_dir, base);
    assert_eq!(store.problem_id, "test_problem");

    // Record something, as saving a decision does.
    let decision = RelevanceDecision::relevant("Message".to_string(), "Summary".to_string());
    let mut decisions = OrderedMap::new();
    record_decision(&mut decisions, "test.rs", decision);
    assert!(store.relevance_decision_exists(Some(&decisions), "test.rs"));

    temp_dir.close().unwrap();
}

#[test]
fn test_trajectory_store_paths() {
    let temp_dir = tempfile::tempdir().unwrap();
    let problem = create_test_problem();
    let base = temp_dir.path().to_str().unwrap().to_string();

    let store = TrajectoryStore::new(&base, &problem);

    let expected_problem_dir = temp_dir.path();
    assert_eq!(std::path::PathBuf::from(store.problem_dir()), expected_problem_dir);

    let expected_relevance_path = expected_problem_dir.join("relevance_decisions.json");
    assert_eq!(std::path::PathBuf::from(store.relevance_decisions_path()), expected_relevance_path);

    temp_dir.close().unwrap();
}

#[test]
fn store_paths_follow_the_layout() {
    let problem = create_test_problem();
    let store = TrajectoryStore::new(".engines", &problem);
    assert_eq!(store.overview_data_path(), ".engines/overview_data.json");
    assert_eq!(store.overview_md_path(), ".engines/overview.md");
    assert_eq!(store.reasoning_dir(), ".engines/reasoning");
    assert_eq!(store.reasoning_path("ranking", ""), ".engines/reasoning/ranking_test_problem.json");
    assert_eq!(
        store.reasoning_path("dockerfile_error", "_2"),
        ".engines/reasoning/dockerfile_error_test_problem_2.json"
    );
    assert_eq!(store.ranking_path(), ".engines/ranking.json");
    assert_eq!(store.file_patterns_path(), ".engines/file_patterns.json");
}

#[test]
fn joining_paths_like_the_standard_library() {
    assert_eq!(join_path_str("a/", "b"), "a/b");
    assert_eq!(join_path_str("", "b"), "b");
    assert_eq!(join_path_str("a", "/b"), "/b");
    assert_eq!(join_path_str("a", "b"), "a/b");
}

#[test]
fn recorded_decisions_are_read_back() {
    let problem = create_test_problem();
    let store = TrajectoryStore::new(".engines", &problem);
    let mut decisions = OrderedMap::new();
    assert!(!store.relevance_decision_exists(Some(&decisions), "src/main.rs"));
    record_decision(&mut decisions, "src/main.rs", RelevanceDecision::not_relevant("m".to_string()));
    record_decision(&mut decisions, "src/lib.rs", RelevanceDecision::not_relevant("n".to_string()));
    record_decision(
        &mut decisions,
        "src/main.rs",
        RelevanceDecision::relevant("x".to_string(), "y".to_string()),
    );
    assert!(store.relevance_decision_exists(Some(&decisions), "src/main.rs"));
    assert!(!store.relevance_decision_exists(None, "src/main.rs"));
    assert!(decisions.get("src/main.rs").unwrap().is_relevant());
    assert_eq!(decisions.get("src/lib.rs").unwrap().message, "n");
    assert_eq!(decisions.len(), 2);
}
