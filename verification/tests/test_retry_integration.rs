use engine_builder::stages::container::{
    analyze_test_failure_fallback, container_command, container_name, decision_text,
    diagnosis_reasoning, interpret_failure_analysis, plan_repair,
};
use engine_builder::stages::retry::{RetryState, RetryStep};

#[test]
fn test_analyze_test_failure_integration() {
    // Test with Dockerfile-specific errors
    let dockerfile_logs = vec![
        "Starting container".to_string(),
        "Error: command not found: python3".to_string(),
        "Error: no such file or directory: /usr/bin/gcc".to_string(),
        "Error: missing dependency libssl".to_string(),
    ];
    let (fix_dockerfile, fix_test_script) = analyze_test_failure_fallback(&dockerfile_logs);
    assert!(fix_dockerfile, "Should fix Dockerfile when Dockerfile errors are detected");
    assert!(!fix_test_script, "Should not fix test script when only Dockerfile errors are detected");

    // Test with test script-specific errors
    let test_script_logs = vec![
        "Starting container".to_string(),
        "Error: syntax error near unexpected token `('".to_string(),
        "Error: test.sh: line 10: unexpected end of file".to_string(),
        "Error: unbound variable: TEST_DIR".to_string(),
    ];
    let (fix_dockerfile, fix_test_script) = analyze_test_failure_fallback(&test_script_logs);
    assert!(!fix_dockerfile, "Should not fix Dockerfile when only test script errors are detected");
    assert!(fix_test_script, "Should fix test script when test script errors are detected");
}

#[test]
fn model_verdict_is_read_from_its_json() {
    let logs = vec!["command not found".to_string()];
    let reply = "Analysis:\n```json\n{\"fix_dockerfile\": false, \"fix_test_script\": true, \"reasoning\": \"bad script\"}\n```";
    assert_eq!(interpret_failure_analysis(reply, &logs), (false, true));
    let missing = "{\"fix_dockerfile\": \"maybe\", \"fix_test_script\": false}";
    assert_eq!(interpret_failure_analysis(missing, &logs), (true, false));
}

#[test]
fn model_verdict_falls_back_to_the_logs() {
    let logs = vec!["command not found".to_string()];
    assert_eq!(interpret_failure_analysis("no json here", &logs), (true, false));
    let broken = "{ \"fix_dockerfile\": false, \"fix_test_script\": tru }";
    assert_eq!(interpret_failure_analysis(broken, &logs), (true, false));
}

#[test]
fn reasoning_is_shown() {
    assert_eq!(diagnosis_reasoning("{\"reasoning\": \"because\"}"), "because");
    assert_eq!(diagnosis_reasoning("{\"other\": 1}"), "");
    assert_eq!(diagnosis_reasoning("text \"reasoning\": \"partial"), "partial");
    assert_eq!(diagnosis_reasoning("plain words"), "No reasoning available");
    assert_eq!(diagnosis_reasoning("x \"reasoning\": \"found it\" y"), "found it");
}

#[test]
fn verdicts_are_announced_and_planned() {
    assert_eq!(decision_text(true, true), "Will update both Dockerfile and test script");
    assert_eq!(decision_text(true, false), "Will update Dockerfile only");
    assert_eq!(decision_text(false, true), "Will update test script only");
    assert_eq!(decision_text(false, false), "No updates needed (unusual state, will still proceed)");
    let p = plan_repair(true, true);
    assert!(p.update_dockerfile && p.update_test_script && !p.rebuild_after_script);
    let q = plan_repair(false, true);
    assert!(!q.update_dockerfile && q.update_test_script && q.rebuild_after_script);
}

#[test]
fn retries_stop_after_the_allowed_number() {
    let mut state = RetryState::new(2);
    let mut runs = 0;
    loop {
        runs += 1;
        match state.step(false) {
            RetryStep::Repair => state.advance(),
            RetryStep::GiveUp => break,
            RetryStep::Done => unreachable!(),
        }
    }
    assert_eq!(runs, 3);
    let state = RetryState::new(0);
    assert_eq!(state.step(true), RetryStep::Done);
    assert_eq!(state.step(false), RetryStep::GiveUp);
}

#[test]
fn container_names_and_commands() {
    assert_eq!(container_name("lint", "p7"), "lint-p7");
    assert_eq!(
        container_command("test-script.sh"),
        "if [ -f /usr/local/bin/setup-script.sh ]; then /usr/local/bin/setup-script.sh; fi && /usr/local/bin/test-script.sh"
    );
}
