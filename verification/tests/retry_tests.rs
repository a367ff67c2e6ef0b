use engine_builder::stages::container::analyze_test_failure_fallback;

#[test]
fn test_analyze_test_failure() {
    // Test with Dockerfile-specific errors
    let dockerfile_logs = vec![
        "Starting container".to_string(),
        "Error: command not found: python3".to_string(),
        "Error: no such file or directory: /usr/bin/gcc".to_string(),
        "Error: missing dependency libssl".to_string(),
    ];
    let (fix_dockerfile, fix_test_script) = analyze_test_failure_fallback(&dockerfile_logs);
    assert!(fix_dockerfile, "Should fix Dockerfile when Dockerfile errors are detected");
    assert!(!fix_test_script, "Should not fix test script when only Dockerfile errors are detected");

    // Test with test script-specific errors
    let test_script_logs = vec![
        "Starting container".to_string(),
        "Error: syntax error near unexpected token `('".to_string(),
        "Error: test.sh: line 10: unexpected end of file".to_string(),
        "Error: unbound variable: TEST_DIR".to_string(),
    ];
    let (fix_dockerfile, fix_test_script) = analyze_test_failure_fallback(&test_script_logs);
    assert!(!fix_dockerfile, "Should not fix Dockerfile when only test script errors are detected");
    assert!(fix_test_script, "Should fix test script when test script errors are detected");

    // Test with mixed errors (more Dockerfile errors)
    let mixed_logs_more_dockerfile = vec![
        "Starting container".to_string(),
        "Error: command not found: python3".to_string(),
        "Error: no such file or directory: /usr/bin/gcc".to_string(),
        "Error: missing dependency libssl".to_string(),
        "Error: syntax error near unexpected token `('".to_string(),
    ];
    let (fix_dockerfile, fix_test_script) = analyze_test_failure_fallback(&mixed_logs_more_dockerfile);
    assert!(fix_dockerfile, "Should fix Dockerfile when more Dockerfile errors are detected");
    assert!(!fix_test_script, "Should not fix test script when more Dockerfile errors are detected");

    // Test with mixed errors (more test script errors)
    let mixed_logs_more_test_script = vec![
        "Starting container".to_string(),
        "Error: command not found: python3".to_string(),
        "Error: syntax error near unexpected token `('".to_string(),
        "Error: test.sh: line 10: unexpected end of file".to_string(),
        "Error: unbound variable: TEST_DIR".to_string(),
    ];
    let (fix_dockerfile, fix_test_script) = analyze_test_failure_fallback(&mixed_logs_more_test_script);
    assert!(!fix_dockerfile, "Should not fix Dockerfile when more test script errors are detected");
    assert!(fix_test_script, "Should fix test script when more test script errors are detected");

    // Test with no clear errors
    let no_clear_logs = vec![
        "Starting container".to_string(),
        "Tests running...".to_string(),
        "Test failed with exit code 1".to_string(),
    ];
    let (fix_dockerfile, fix_test_script) = analyze_test_failure_fallback(&no_clear_logs);
    assert!(fix_dockerfile, "Should try fixing Dockerfile when no clear errors are detected");
    assert!(fix_test_script, "Should try fixing test script when no clear errors are detected");

    // Test with equal number of errors
    let equal_logs = vec![
        "Starting container".to_string(),
        "Error: command not found: python3".to_string(),
        "Error: syntax error near unexpected token `('".to_string(),
    ];
    println!("Testing equal error logs: {:?}", equal_logs);
    let (fix_dockerfile, fix_test_script) = analyze_test_failure_fallback(&equal_logs);
    println!("Result: fix_dockerfile={}, fix_test_script={}", fix_dockerfile, fix_test_script);

    assert!(!fix_dockerfile, "Should not fix Dockerfile when equal number of test script and dockerfile errors are detected");
    assert!(fix_test_script, "Should fix test script when equal number of test script and dockerfile errors are detected");
}

#[test]
fn upper_case_logs_are_recognised() {
    let logs = vec!["ERROR: PERMISSION DENIED".to_string()];
    assert_eq!(analyze_test_failure_fallback(&logs), (true, false));
}

#[test]
fn tie_with_signs_goes_to_the_test_script() {
    let logs = vec!["killed".to_string(), "invalid option".to_string()];
    assert_eq!(analyze_test_failure_fallback(&logs), (false, true));
}

#[test]
fn fallback_verdict_ignores_line_order_repetition_and_case() {
    let a = vec!["Step 1".to_string(), "bash: foo: Command Not Found".to_string(), "SYNTAX ERROR near x".to_string(), "Killed".to_string()];
    let b = vec!["killed".to_string(), "syntax error near x".to_string(), "step 1".to_string(), "bash: foo: command not found".to_string(), "Killed".to_string()];
    assert_eq!(analyze_test_failure_fallback(&a), analyze_test_failure_fallback(&b));
    assert_eq!(analyze_test_failure_fallback(&a), (true, false));
    let none: Vec<String> = vec![];
    assert_eq!(analyze_test_failure_fallback(&none), (true, true));
    let tie = vec!["Permission denied".to_string(), "Invalid option -z".to_string()];
    assert_eq!(analyze_test_failure_fallback(&tie), (false, true));
}
