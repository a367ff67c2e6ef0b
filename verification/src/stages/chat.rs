//! The full-screen chat: its messages and what a tool request reports.

use vstd::prelude::*;

use crate::text::str_is;

verus! {

/// A message shown in the full-screen chat.
#[derive(Debug, Clone)]
pub enum ChatMessage {
    User(String),
    Assistant(String),
    System(String),
}

/// The first message of the full-screen chat.
pub fn welcome_message() -> (m: ChatMessage)
    ensures
        m matches ChatMessage::System(t) && t@
            == "Welcome to the chat interface. Type your message and press Enter to send."@,
{
    ChatMessage::System(
        "Welcome to the chat interface. Type your message and press Enter to send.".to_string(),
    )
}

/// What a tool request in the full-screen chat reports: the note shown
/// while it runs (for a known tool), and its result.
pub open spec fn tool_progress_spec(name: Seq<char>) -> (Option<Seq<char>>, Seq<char>) {
    if name == "file_selection"@ {
        (Some("Running file selection..."@), "File selection completed."@)
    } else if name == "relevance"@ {
        (Some("Running relevance assessment..."@), "Relevance assessment completed."@)
    } else if name == "ranking"@ {
        (Some("Running file ranking..."@), "File ranking completed."@)
    } else if name == "dockerfile"@ {
        (Some("Generating Dockerfile..."@), "Dockerfile generation completed."@)
    } else if name == "build_image"@ {
        (Some("Building Docker image..."@), "Docker image build completed."@)
    } else if name == "run_lint"@ {
        (Some("Running lint container..."@), "Lint container execution completed."@)
    } else if name == "run_test"@ {
        (Some("Running test container..."@), "Test container execution completed."@)
    } else {
        (None, "Unknown tool: "@ + name)
    }
}

fn both(a: &str, b: &str) -> (r: (Option<String>, String))
    ensures
        crate::text::opt_view(r.0) == Some(a@),
        r.1@ == b@,
{
    (Some(a.to_string()), b.to_string())
}

/// What a tool request reports.
pub fn tool_progress(tool_name: &str) -> (r: (Option<String>, String))
    ensures
        (crate::text::opt_view(r.0), r.1@) == tool_progress_spec(tool_name@),
{
    let n = tool_name.to_string();
    if str_is(&n, "file_selection") {
        both("Running file selection...", "File selection completed.")
    } else if str_is(&n, "relevance") {
        both("Running relevance assessment...", "Relevance assessment completed.")
    } else if str_is(&n, "ranking") {
        both("Running file ranking...", "File ranking completed.")
    } else if str_is(&n, "dockerfile") {
        both("Generating Dockerfile...", "Dockerfile generation completed.")
    } else if str_is(&n, "build_image") {
        both("Building Docker image...", "Docker image build completed.")
    } else if str_is(&n, "run_lint") {
        both("Running lint container...", "Lint container execution completed.")
    } else if str_is(&n, "run_test") {
        both("Running test container...", "Test container execution completed.")
    } else {
        let mut m = "Unknown tool: ".to_string();
        m.append(tool_name);
        (None, m)
    }
}

} // verus!
