use engine_builder::collections::OrderedMap;
use engine_builder::models::ranking::RelevantFileDataForPrompt;
use engine_builder::models::relevance::{RelevanceDecision, RelevanceStatus};
use engine_builder::stages::file_selection::{choose_api_key, parse_file_patterns};
use engine_builder::stages::ranking::{
    check_ranking_inputs, choose_ranking, entries_within_budget, ranked_files, ranking_candidates,
    ranking_from_response,
    RankingInputError,
};
use engine_builder::stages::relevance::{parse_response, should_assess, should_include_file};
use engine_builder::stages::scripts::{
    extract_script, first_test_line, format_file_entry, relevant_file_summaries, script_inputs,
    setup_context, single_test_prompt, ScriptInputError,
};

#[test]
fn relevance_not_relevant_reply() {
    let d = parse_response("RELEVANCE: Not Relevant\nThe file only formats logs.");
    assert_eq!(d.status, RelevanceStatus::NotRelevant);
    assert_eq!(d.summary, None);
    assert_eq!(d.message, "RELEVANCE: Not Relevant\nThe file only formats logs.");
}

#[test]
fn relevance_relevant_reply_with_summary() {
    let d = parse_response("RELEVANCE: Relevant\nSUMMARY:  Defines the parser. \nMore text");
    assert_eq!(d.status, RelevanceStatus::Relevant);
    assert_eq!(d.summary, Some("Defines the parser.".to_string()));
}

#[test]
fn relevance_relevant_reply_without_summary_line() {
    let d = parse_response("This file is relevant.\nSummary: handles config\n\nOther");
    assert_eq!(d.status, RelevanceStatus::Relevant);
    assert_eq!(d.summary, Some("handles config".to_string()));
    let e = parse_response("this is highly relevant");
    assert_eq!(
        e.summary,
        Some("Summary not explicitly provided, but file was marked as relevant".to_string())
    );
}

#[test]
fn relevance_unreadable_reply() {
    let d = parse_response("I cannot tell.");
    assert_eq!(d.status, RelevanceStatus::ParseError);
    assert_eq!(d.summary, None);
}

#[test]
fn files_to_assess() {
    let none: Vec<String> = Vec::new();
    assert!(should_include_file("src/main.rs", &none));
    assert!(!should_include_file("tests/it.rs", &none));
    assert!(!should_include_file("test/it.rs", &none));
    assert!(should_include_file("./tests/it.rs", &none));
    let py = vec!["py".to_string()];
    assert!(should_include_file("pkg/mod.py", &py));
    assert!(!should_include_file("pkg/mod.rs", &py));
    assert!(!should_include_file("Makefile", &py));
    assert!(should_assess(false, false, 10, 10));
    assert!(!should_assess(false, false, 11, 10));
    assert!(!should_assess(true, false, 1, 10));
    assert!(!should_assess(false, true, 1, 10));
}

#[test]
fn file_patterns_from_a_json_block() {
    let reply = "Here:\n```json\n[\"src/*.rs\", \"README.md\"]```\n";
    let sel = parse_file_patterns(reply).unwrap();
    assert_eq!(sel.patterns, vec!["src/*.rs".to_string(), "README.md".to_string()]);
    assert!(sel.matches("./src/main.rs"));
    assert!(sel.matches("README.md"));
    assert!(!sel.matches("docs/x.md"));
}

#[test]
fn file_patterns_from_a_loose_list() {
    let reply = "Files: [ \"a.rs\", 'b.rs' , , \"\"c.rs\"\" ]";
    let sel = parse_file_patterns(reply).unwrap();
    assert_eq!(sel.patterns, vec!["a.rs".to_string(), "b.rs".to_string(), "c.rs".to_string()]);
    assert!(parse_file_patterns("no list here").is_err());
    assert!(parse_file_patterns("empty [ , ]").is_err());
    assert_eq!(
        parse_file_patterns("x").unwrap_err().message(),
        "Failed to parse file patterns from LLM response"
    );
}

#[test]
fn api_key_choice() {
    assert_eq!(choose_api_key("abc", Some("env".to_string())), "abc");
    assert_eq!(choose_api_key("  ", Some("env".to_string())), "env");
    assert_eq!(choose_api_key("", None), "");
}

fn decisions() -> OrderedMap<RelevanceDecision> {
    let mut d = OrderedMap::new();
    d.insert("a.rs".to_string(), RelevanceDecision::relevant("m".to_string(), "sa".to_string()));
    d.insert("b.rs".to_string(), RelevanceDecision::not_relevant("m".to_string()));
    d.insert(
        "c.rs".to_string(),
        RelevanceDecision { message: "m".to_string(), status: RelevanceStatus::Relevant, summary: None },
    );
    d
}

#[test]
fn ranking_candidates_are_the_relevant_files() {
    let c = ranking_candidates(&decisions());
    assert_eq!(
        c,
        vec![
            ("a.rs".to_string(), "sa".to_string()),
            ("c.rs".to_string(), "This file was marked as relevant to the issue.".to_string())
        ]
    );
    let s = relevant_file_summaries(&decisions());
    assert_eq!(s, vec![("a.rs".to_string(), "sa".to_string()), ("c.rs".to_string(), String::new())]);
}

#[test]
fn ranking_is_read_from_replies() {
    assert_eq!(
        ranking_from_response("```json\n[\"b.rs\", \"a.rs\"]\n```"),
        Some(vec!["b.rs".to_string(), "a.rs".to_string()])
    );
    assert_eq!(
        ranking_from_response("first src/x.rs\n```\n- skip/me\n  docs/y.md  \n"),
        Some(vec!["first src/x.rs".to_string(), "docs/y.md".to_string()])
    );
    assert_eq!(ranking_from_response("nothing"), None);
}

#[test]
fn ranked_files_keep_ranking_order_and_relevant_files_only() {
    let relevant = vec![
        RelevantFileDataForPrompt { path: "a.rs".to_string(), summary: "s".to_string(), token_count: 10 },
        RelevantFileDataForPrompt { path: "b.rs".to_string(), summary: "s".to_string(), token_count: 20 },
        RelevantFileDataForPrompt { path: "a.rs".to_string(), summary: "s".to_string(), token_count: 30 },
    ];
    let ranking = vec!["b.rs".to_string(), "zzz.rs".to_string(), "a.rs".to_string()];
    let r = ranked_files(&ranking, &relevant);
    assert_eq!(r.len(), 2);
    assert_eq!((r[0].path.as_str(), r[0].tokens), ("b.rs", 20));
    assert_eq!((r[1].path.as_str(), r[1].tokens), ("a.rs", 30));
    let fallback = choose_ranking(None, &relevant);
    assert_eq!(fallback.message, "Fallback ranking - all files in alphabetical order");
    assert_eq!(fallback.ranking, vec!["a.rs".to_string(), "a.rs".to_string(), "b.rs".to_string()]);
    let unordered = vec![
        RelevantFileDataForPrompt { path: "src/z.rs".to_string(), summary: "s".to_string(), token_count: 1 },
        RelevantFileDataForPrompt { path: "Cargo.toml".to_string(), summary: "s".to_string(), token_count: 1 },
        RelevantFileDataForPrompt { path: "src/a.rs".to_string(), summary: "s".to_string(), token_count: 1 },
    ];
    assert_eq!(
        choose_ranking(None, &unordered).ranking,
        vec!["Cargo.toml".to_string(), "src/a.rs".to_string(), "src/z.rs".to_string()]
    );
    let kept = choose_ranking(Some(("msg".to_string(), vec!["x".to_string()])), &relevant);
    assert_eq!(kept.message, "msg");
    assert_eq!(check_ranking_inputs(false, true), Err(RankingInputError::FileSelectionMissing));
    assert_eq!(check_ranking_inputs(true, false), Err(RankingInputError::RelevanceMissing));
    assert_eq!(check_ranking_inputs(true, true), Ok(()));
}

#[test]
fn scripts_are_read_from_replies() {
    assert_eq!(extract_script("```sh\n#!/bin/sh\necho hi\n```"), "#!/bin/sh\necho hi");
    assert_eq!(extract_script("```bash\necho hi\n```"), "bash\necho hi");
    assert_eq!(extract_script("just text"), "just text");
}

#[test]
fn first_test_and_prompts() {
    assert_eq!(first_test_line("#!/bin/sh\nset -e\ndef test_one():\n"), "def test_one():");
    assert_eq!(first_test_line("echo only"), "# First test");
    assert_eq!(first_test_line("testing {\n"), "testing {");
    assert_eq!(format_file_entry("a.rs", "sum"), "a.rs:\nsum");
    assert!(setup_context("S").contains("<setup_script>\nS\n</setup_script>"));
    let p = single_test_prompt("T", "F");
    assert!(p.contains("```sh\nT\n```"));
    assert!(p.contains("And here's what looks like a test function: F\n"));
    assert!(p.starts_with("Based on the test script, please create a script to run a single test. The script should:\n        \n1."));
}

#[test]
fn scripts_need_relevant_files() {
    assert_eq!(script_inputs(None).unwrap_err(), ScriptInputError::NoDecisions);
    let mut d = OrderedMap::new();
    d.insert("b.rs".to_string(), RelevanceDecision::not_relevant("m".to_string()));
    assert_eq!(script_inputs(Some(&d)).unwrap_err(), ScriptInputError::NoRelevantFiles);
    assert_eq!(script_inputs(Some(&decisions())).unwrap().len(), 2);
    assert_eq!(
        ScriptInputError::NoRelevantFiles.message("p"),
        "No relevant files found for problem: p"
    );
}

#[test]
fn listing_stops_at_the_token_budget() {
    assert_eq!(entries_within_budget(&vec![3, 4, 5], 7), 2);
    assert_eq!(entries_within_budget(&vec![3, 4, 5], 12), 3);
    assert_eq!(entries_within_budget(&vec![8, 1], 7), 0);
    assert_eq!(entries_within_budget(&vec![], 0), 0);
}
