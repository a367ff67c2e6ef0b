use engine_builder::chat::tools::{
    build_image_outcome, container_outcome, get_tools, parse_tool_call, parse_tool_call_would_panic,
    pipeline_after, pipeline_start, plan_tool, run_all_outcome, stage_outcome, unknown_tool_outcome,
    PipelineNext, PipelineStep, StageTool, ToolAction,
};
use engine_builder::chat::{
    classify_input, create_prompt, create_system_prompt, error_message, help_text,
    tool_call_message, tool_result_message, welcome_message, ChatInput, ChatMessage,
};
use engine_builder::collections::OrderedMap;
use engine_builder::stages::chat::{tool_progress, welcome_message as app_welcome, ChatMessage as AppMessage};

#[test]
fn every_tool_is_offered() {
    let tools = get_tools();
    let names: Vec<&str> = tools.iter().map(|t| t.name.as_str()).collect();
    assert_eq!(
        names,
        vec![
            "relevance", "ranking", "pipeline", "file_selection", "dockerfile", "build_image",
            "generate_scripts", "run_lint", "run_test", "run_all"
        ]
    );
    let run_all = &tools[9];
    assert_eq!(run_all.parameters.len(), 2);
    assert_eq!(run_all.parameters.get("parallel").unwrap().default, Some("false".to_string()));
    assert_eq!(
        tools[5].parameters.get("tag").unwrap().default,
        Some("engine-builder-test".to_string())
    );
}

#[test]
fn system_prompt_describes_the_tools_and_the_call_format() {
    let prompt = create_system_prompt();
    assert!(prompt.starts_with(
        "You are a helpful assistant with access to all command-line tools from engine-builder.\n"
    ));
    assert!(prompt.contains("- relevance: Run file relevance assessment\n\n"));
    assert!(prompt.contains(
        "- build_image: Build a Docker image from the generated Dockerfile\n  Parameters:\n  - tag: Tag name for the Docker image (default: engine-builder-test)\n\n"
    ));
    assert!(prompt.contains("  - parallel: Run in parallel mode (both containers at once) (default: false)\n"));
    assert!(prompt.ends_with(
        "You should always provide a brief explanation before using a tool, and explain the results after.\n\n"
    ));
}

#[test]
fn prompt_lists_the_conversation_by_speaker() {
    let history = vec![
        ChatMessage { role: "system".to_string(), content: "S".to_string() },
        ChatMessage { role: "user".to_string(), content: "U".to_string() },
        ChatMessage { role: "tool".to_string(), content: "ignored".to_string() },
        ChatMessage { role: "assistant".to_string(), content: "A".to_string() },
    ];
    assert_eq!(create_prompt(&history), "System: S\n\nHuman: U\n\nAssistant: A\n\nAssistant: ");
    assert_eq!(create_prompt(&[]), "Assistant: ");
}

#[test]
fn typed_commands_are_recognised() {
    assert_eq!(classify_input("  EXIT \n"), ChatInput::Exit);
    assert_eq!(classify_input("Help"), ChatInput::Help);
    assert_eq!(classify_input("help me"), ChatInput::Message);
    assert!(help_text().starts_with("Available Tools:\n- relevance - Run file relevance assessment\n"));
    assert!(help_text().ends_with("- run_all - Run both lint and test scripts in Docker containers"));
}

#[test]
fn tool_calls_are_read_from_replies() {
    let reply = "I'll build it.\nTOOL: build_image(tag=\"my-image\", parallel = true , junk)\nDone";
    let (name, params) = parse_tool_call(reply).unwrap();
    assert_eq!(name, "build_image");
    assert_eq!(params.get("tag").unwrap(), "my-image");
    assert_eq!(params.get("parallel").unwrap(), "true");
    assert_eq!(params.len(), 2);
    assert!(parse_tool_call("TOOL: run_lint()").is_none());
    assert!(parse_tool_call("no call here\n").is_none());
    let (name, params) = parse_tool_call("TOOL: run_lint()\n").unwrap();
    assert_eq!(name, "run_lint");
    assert!(params.is_empty());
}

#[test]
fn malformed_tool_calls_are_detected() {
    assert!(parse_tool_call_would_panic("TOOL: x)(\n"));
    assert!(parse_tool_call_would_panic("TOOL: x(a=\")\n"));
    assert!(!parse_tool_call_would_panic("TOOL: x(a=\"\")\n"));
}

#[test]
fn tool_actions_and_defaults() {
    let mut params = OrderedMap::new();
    match plan_tool("build_image", &params) {
        ToolAction::BuildImage { tag } => assert_eq!(tag, "engine-builder-test"),
        _ => panic!("wrong action"),
    }
    params.insert("parallel".to_string(), "TRUE".to_string());
    params.insert("tag".to_string(), "t1".to_string());
    match plan_tool("run_all", &params) {
        ToolAction::RunAll { tag, parallel } => {
            assert_eq!(tag, "t1");
            assert!(parallel);
        }
        _ => panic!("wrong action"),
    }
    match plan_tool("frobnicate", &params) {
        ToolAction::Unknown { name } => assert_eq!(name, "frobnicate"),
        _ => panic!("wrong action"),
    }
    assert_eq!(unknown_tool_outcome("frobnicate").output, "Unknown tool: frobnicate");
}

#[test]
fn tool_reports() {
    let ok = stage_outcome(StageTool::Ranking, None);
    assert!(ok.success);
    assert_eq!(ok.output, "Successfully ran file ranking");
    let bad = stage_outcome(StageTool::Dockerfile, Some("boom"));
    assert!(!bad.success);
    assert_eq!(bad.output, "Failed to generate Dockerfile: boom");
    assert_eq!(build_image_outcome("t", None).output, "Successfully built Docker image with tag: t");
    let c = container_outcome("Lint", false, -1);
    assert!(!c.success);
    assert_eq!(c.output, "Lint container completed with status: FAILED (exit code: -1)");
    let all = run_all_outcome(true, 0, false, 2);
    assert!(!all.success);
    assert_eq!(
        all.output,
        "Container execution summary:\nLint container: SUCCESS (exit code: 0)\nTest container: FAILED (exit code: 2)"
    );
}

#[test]
fn pipeline_runs_every_step_in_order() {
    let mut step = pipeline_start();
    let mut seen = Vec::new();
    loop {
        seen.push(step);
        match pipeline_after(step, None) {
            PipelineNext::Run(next) => step = next,
            PipelineNext::Finish(r) => {
                assert!(r.success);
                assert_eq!(r.output, "Successfully ran the full pipeline");
                break;
            }
        }
    }
    assert_eq!(
        seen,
        vec![
            PipelineStep::FileSelection,
            PipelineStep::Relevance,
            PipelineStep::Ranking,
            PipelineStep::Scripts,
            PipelineStep::Dockerfile
        ]
    );
    match pipeline_after(PipelineStep::Ranking, Some("no ranking")) {
        PipelineNext::Finish(r) => {
            assert!(!r.success);
            assert_eq!(r.output, "Failed during file ranking: no ranking");
        }
        _ => panic!("a failed step must stop the pipeline"),
    }
}

#[test]
fn chat_messages() {
    let w = welcome_message("m1");
    assert_eq!(w.role, "assistant");
    assert_eq!(
        w.content,
        "Welcome to the Engine Builder Chat Interface!\n\nI'm using the m1 model.\n\nHow can I help you today? Type 'help' for available commands."
    );
    assert_eq!(tool_call_message("ranking").content, "I'll run the 'ranking' command for you...");
    assert_eq!(tool_result_message(true, "ok").content, "Result: SUCCESS - ok");
    assert_eq!(error_message("Error getting response: ", "timeout").content, "Error getting response: timeout");
}

#[test]
fn full_screen_chat_reports() {
    match app_welcome() {
        AppMessage::System(t) => {
            assert_eq!(t, "Welcome to the chat interface. Type your message and press Enter to send.")
        }
        _ => panic!("welcome must be a system message"),
    }
    let (note, result) = tool_progress("ranking");
    assert_eq!(note, Some("Running file ranking...".to_string()));
    assert_eq!(result, "File ranking completed.");
    assert_eq!(tool_progress("x"), (None, "Unknown tool: x".to_string()));
}
