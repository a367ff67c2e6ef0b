use engine_builder::models::overview::{parse_usize, OverviewData};
use engine_builder::stages::overview::{
    classify_reasoning_file, record_reasoning, summary_prompt, ReasoningKind,
};

#[test]
fn markdown_has_only_the_sections_with_reasoning() {
    let o = OverviewData::new("p1", "Fix the bug");
    let md = o.to_markdown();
    assert_eq!(md, "# Project Overview for p1\n\n## Problem Statement\n\nFix the bug\n\n## Scripts Generation\n\n");
    assert!(o.metadata.get("created_at").is_some());
}

#[test]
fn attempts_are_listed_in_numeric_order() {
    let mut o = OverviewData::new("p1", "S");
    o.dockerfile_error_reasoning.insert("10".to_string(), "ten".to_string());
    o.dockerfile_error_reasoning.insert("2".to_string(), "two".to_string());
    o.dockerfile_error_reasoning.insert("x".to_string(), "bad".to_string());
    o.ranking_reasoning = Some("R".to_string());
    o.relevance_reasoning.insert("a.rs".to_string(), "because".to_string());
    let md = o.to_markdown();
    let expected = "# Project Overview for p1\n\n## Problem Statement\n\nS\n\n## File Relevance Analysis\n\n### a.rs\n\nbecause\n\n## File Ranking Strategy\n\nR\n\n## Scripts Generation\n\n## Dockerfile Error Fixes\n\n### Attempt x\n\nbad\n\n### Attempt 2\n\ntwo\n\n### Attempt 10\n\nten\n\n";
    assert_eq!(md, expected);
}

#[test]
fn numbers_parse_like_the_standard_library() {
    assert_eq!(parse_usize("42"), Some(42));
    assert_eq!(parse_usize("+7"), Some(7));
    assert_eq!(parse_usize("007"), Some(7));
    assert_eq!(parse_usize(""), None);
    assert_eq!(parse_usize("+"), None);
    assert_eq!(parse_usize("-1"), None);
    assert_eq!(parse_usize("1a"), None);
    assert_eq!(parse_usize("99999999999999999999999"), None);
    assert_eq!(parse_usize(&usize::MAX.to_string()), Some(usize::MAX));
}

#[test]
fn reasoning_files_are_classified() {
    assert_eq!(classify_reasoning_file("file_selection_p1.json"), ReasoningKind::FileSelection);
    assert_eq!(
        classify_reasoning_file("relevance_p1_src_main.json"),
        ReasoningKind::Relevance("main".to_string())
    );
    assert_eq!(classify_reasoning_file("ranking_p1.json"), ReasoningKind::Ranking);
    assert_eq!(classify_reasoning_file("test_script_p1.json"), ReasoningKind::TestScript);
    assert_eq!(classify_reasoning_file("single_test_script_p1.json"), ReasoningKind::SingleTestScript);
    assert_eq!(classify_reasoning_file("dockerfile_p1.json"), ReasoningKind::Dockerfile);
    assert_eq!(
        classify_reasoning_file("dockerfile_error_p1_3.json"),
        ReasoningKind::DockerfileError("3".to_string())
    );
    assert_eq!(
        classify_reasoning_file("test_script_error_p1_1.json"),
        ReasoningKind::TestScriptError("1".to_string())
    );
    assert_eq!(classify_reasoning_file("notes.txt"), ReasoningKind::Other);
}

#[test]
fn reasoning_goes_to_its_section() {
    let mut o = OverviewData::new("p", "s");
    record_reasoning(&mut o, ReasoningKind::Ranking, "r".to_string());
    record_reasoning(&mut o, ReasoningKind::TestScriptError("1".to_string()), "t1".to_string());
    record_reasoning(&mut o, ReasoningKind::Other, "ignored".to_string());
    assert_eq!(o.ranking_reasoning, Some("r".to_string()));
    assert_eq!(o.test_script_error_reasoning.get("1").unwrap(), "t1");
    assert_eq!(o.dockerfile_reasoning, None);
    assert_eq!(
        ReasoningKind::DockerfileError("2".to_string()).load_key(),
        Some(("dockerfile_error".to_string(), "_2".to_string()))
    );
    assert_eq!(ReasoningKind::Other.load_key(), None);
    assert!(summary_prompt("DOC").contains("```markdown\n            DOC\n            ```"));
}

#[test]
fn repair_reasoning_files_as_written_are_recognised() {
    use_store_names();
}

fn use_store_names() {
    let problem = engine_builder::models::problem::SWEBenchProblem::new("p".to_string(), "s".to_string());
    let store = engine_builder::utils::trajectory_store::TrajectoryStore::new("out", &problem);
    let path = store.reasoning_path("test_script_error", "_1");
    let name = path.rsplit('/').next().unwrap().to_string();
    assert_eq!(name, "test_script_error_p_1.json");
    let kind = classify_reasoning_file(&name);
    assert_eq!(kind, ReasoningKind::TestScriptError("1".to_string()));
    assert_eq!(kind.load_key(), Some(("test_script_error".to_string(), "_1".to_string())));
    let path = store.reasoning_path("dockerfile_error", "_12");
    let name = path.rsplit('/').next().unwrap().to_string();
    assert_eq!(classify_reasoning_file(&name), ReasoningKind::DockerfileError("12".to_string()));
    let mut o = OverviewData::new("p", "s");
    record_reasoning(&mut o, kind, "R".to_string());
    let md = o.to_markdown();
    assert!(md.contains("## Test Script Error Fixes"));
    assert!(md.contains("### Attempt 1"));
}
