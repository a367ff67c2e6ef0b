//! The chat session: the prompts sent to the model, the replies shown to the
//! user, and how a line typed by the user is read.

pub mod input;
pub mod tools;

use vstd::prelude::*;

use crate::chat::tools::{get_tools, tool_catalog, ParamModel, Tool, ToolModel};
use crate::text::{chars_of, eq_ignore_ascii_case, eq_ignore_ascii_case_seq, str_is, trim, trim_seq};

verus! {

/// Structure for chat messages
#[derive(Debug, Clone)]
pub struct ChatMessage {
    pub role: String,
    pub content: String,
}

impl ChatMessage {
    /// A message with the given role and text.
    pub fn new(role: &str, content: String) -> (m: ChatMessage)
        ensures
            m.role@ == role@,
            m.content@ == content@,
    {
        ChatMessage { role: role.to_string(), content }
    }
}

/// The line that lists one parameter of a tool.
pub open spec fn param_line(p: ParamModel) -> Seq<char> {
    "  - "@ + p.key + ": "@ + p.description + match p.default {
        Some(d) => " (default: "@ + d + ")"@,
        None => Seq::empty(),
    } + "\n"@
}

/// The lines that list the parameters, in order.
pub open spec fn params_text(ps: Seq<ParamModel>) -> Seq<char>
    decreases ps.len(),
{
    if ps.len() == 0 {
        Seq::empty()
    } else {
        params_text(ps.drop_last()) + param_line(ps.last())
    }
}

/// The block that describes one tool.
pub open spec fn tool_text(t: ToolModel) -> Seq<char> {
    "- "@ + t.name + ": "@ + t.description + "\n"@ + (if t.params.len() > 0 {
        "  Parameters:\n"@ + params_text(t.params)
    } else {
        Seq::empty()
    }) + "\n"@
}

/// The blocks of all the tools, in order.
pub open spec fn tools_text(ts: Seq<ToolModel>) -> Seq<char>
    decreases ts.len(),
{
    if ts.len() == 0 {
        Seq::empty()
    } else {
        tools_text(ts.drop_last()) + tool_text(ts.last())
    }
}

/// The opening of the system prompt.
pub open spec fn system_prompt_head() -> Seq<char> {
    "You are a helpful assistant with access to all command-line tools from engine-builder.\n"@
        + "You can use the following tools to help the user with their tasks:\n\n"@
}

/// The closing of the system prompt: how to call a tool.
pub open spec fn system_prompt_tail() -> Seq<char> {
    "\nTo use a tool, use the format: TOOL: tool_name(param1=value1, param2=value2)\n"@
        + "For example: TOOL: build_image(tag=\"my-image\")\n\n"@
        + "You should always provide a brief explanation before using a tool, and explain the results after.\n\n"@
}

/// The system prompt: the head, every tool of the catalog, and the tail.
pub open spec fn system_prompt_spec() -> Seq<char> {
    system_prompt_head() + tools_text(tool_catalog()) + system_prompt_tail()
}

fn tool_block(tool: &Tool) -> (s: String)
    ensures
        s@ == tool_text(tool.model()),
{
    let mut s = "- ".to_string();
    s.append(tool.name.as_str());
    s.append(": ");
    s.append(tool.description.as_str());
    s.append("\n");
    let n = tool.parameters.len();
    if n > 0 {
        s.append("  Parameters:\n");
        let ghost ps = tool.param_models();
        let mut i: usize = 0;
        let ghost start = s@;
        while i < n
            invariant
                0 <= i <= n,
                n == tool.parameters.entries@.len(),
                ps == tool.param_models(),
                ps.len() == n,
                s@ == start + params_text(ps.take(i as int)),
            decreases n - i,
        {
            let entry = &tool.parameters.entries[i];
            let mut line = "  - ".to_string();
            line.append(entry.0.as_str());
            line.append(": ");
            line.append(entry.1.description.as_str());
            match &entry.1.default {
                Some(d) => {
                    line.append(" (default: ");
                    line.append(d.as_str());
                    line.append(")");
                },
                None => {},
            }
            line.append("\n");
            proof {
                assert(ps[i as int] == entry.1.model(entry.0@));
                assert(line@ == param_line(ps[i as int]));
                assert(ps.take(i + 1).drop_last() =~= ps.take(i as int));
                assert(ps.take(i + 1).last() == ps[i as int]);
            }
            s.append(line.as_str());
            proof {
                assert(s@ =~= start + params_text(ps.take(i + 1)));
            }
            i = i + 1;
        }
        proof {
            assert(ps.take(n as int) =~= ps);
        }
    }
    s.append("\n");
    s
}

/// Create the system prompt with tool descriptions
pub fn create_system_prompt() -> (prompt: String)
    ensures
        prompt@ == system_prompt_spec(),
{
    let mut prompt = "You are a helpful assistant with access to all command-line tools from engine-builder.\n".to_string();
    prompt.append("You can use the following tools to help the user with their tasks:\n\n");
    let tools = get_tools();
    let ghost cat = tools@.map_values(|t: Tool| t.model());
    let ghost start = prompt@;
    let mut i: usize = 0;
    while i < tools.len()
        invariant
            0 <= i <= tools@.len(),
            cat == tools@.map_values(|t: Tool| t.model()),
            prompt@ == start + tools_text(cat.take(i as int)),
        decreases tools.len() - i,
    {
        let block = tool_block(&tools[i]);
        proof {
            assert(cat.take(i + 1).drop_last() =~= cat.take(i as int));
            assert(cat.take(i + 1).last() == tools@[i as int].model());
        }
        prompt.append(block.as_str());
        proof {
            assert(prompt@ =~= start + tools_text(cat.take(i + 1)));
        }
        i = i + 1;
    }
    proof {
        assert(cat.take(tools@.len() as int) =~= cat);
    }
    prompt.append("\nTo use a tool, use the format: TOOL: tool_name(param1=value1, param2=value2)\n");
    prompt.append("For example: TOOL: build_image(tag=\"my-image\")\n\n");
    prompt.append("You should always provide a brief explanation before using a tool, and explain the results after.\n\n");
    proof {
        assert(prompt@ =~= system_prompt_spec());
    }
    prompt
}

/// How one message of the history is written into the prompt: system,
/// user and assistant messages get their speaker's label, others are left
/// out.
pub open spec fn message_text(role: Seq<char>, content: Seq<char>) -> Seq<char> {
    if role == "system"@ {
        "System: "@ + content + "\n\n"@
    } else if role == "user"@ {
        "Human: "@ + content + "\n\n"@
    } else if role == "assistant"@ {
        "Assistant: "@ + content + "\n\n"@
    } else {
        Seq::empty()
    }
}

/// The whole history, written message by message.
pub open spec fn history_text(h: Seq<ChatMessage>) -> Seq<char>
    decreases h.len(),
{
    if h.len() == 0 {
        Seq::empty()
    } else {
        history_text(h.drop_last()) + message_text(h.last().role@, h.last().content@)
    }
}

/// Create a prompt from the conversation history
pub fn create_prompt(history: &[ChatMessage]) -> (prompt: String)
    ensures
        prompt@ == history_text(history@) + "Assistant: "@,
{
    let mut prompt = String::new();
    let mut i: usize = 0;
    while i < history.len()
        invariant
            0 <= i <= history@.len(),
            prompt@ == history_text(history@.take(i as int)),
        decreases history.len() - i,
    {
        let message = &history[i];
        let ghost before = prompt@;
        if str_is(&message.role, "system") {
            prompt.append("System: ");
            prompt.append(message.content.as_str());
            prompt.append("\n\n");
        } else if str_is(&message.role, "user") {
            prompt.append("Human: ");
            prompt.append(message.content.as_str());
            prompt.append("\n\n");
        } else if str_is(&message.role, "assistant") {
            prompt.append("Assistant: ");
            prompt.append(message.content.as_str());
            prompt.append("\n\n");
        }
        proof {
            assert(history@.take(i + 1).drop_last() =~= history@.take(i as int));
            assert(history@.take(i + 1).last() == history@[i as int]);
            assert(prompt@ =~= before + message_text(message.role@, message.content@));
        }
        i = i + 1;
    }
    proof {
        assert(history@.take(history@.len() as int) =~= history@);
    }
    prompt.append("Assistant: ");
    prompt
}

/// The lines of the help text, one per tool.
pub open spec fn help_lines(ts: Seq<ToolModel>) -> Seq<char>
    decreases ts.len(),
{
    if ts.len() == 0 {
        Seq::empty()
    } else if ts.len() == 1 {
        "- "@ + ts[0].name + " - "@ + ts[0].description
    } else {
        help_lines(ts.drop_last()) + "\n"@ + "- "@ + ts.last().name + " - "@ + ts.last().description
    }
}

/// The reply to `help`: every tool with its description, one per line.
pub open spec fn help_text_spec() -> Seq<char> {
    "Available Tools:\n"@ + help_lines(tool_catalog())
}

/// The reply to `help`.
pub fn help_text() -> (s: String)
    ensures
        s@ == help_text_spec(),
{
    let tools = get_tools();
    let ghost cat = tools@.map_values(|t: Tool| t.model());
    let mut lines = String::new();
    let mut i: usize = 0;
    while i < tools.len()
        invariant
            0 <= i <= tools@.len(),
            cat == tools@.map_values(|t: Tool| t.model()),
            lines@ == help_lines(cat.take(i as int)),
        decreases tools.len() - i,
    {
        let ghost before = lines@;
        if i > 0 {
            lines.append("\n");
        }
        lines.append("- ");
        lines.append(tools[i].name.as_str());
        lines.append(" - ");
        lines.append(tools[i].description.as_str());
        proof {
            assert(cat.take(i + 1).drop_last() =~= cat.take(i as int));
            assert(cat.take(i + 1).last() == tools@[i as int].model());
            if i == 0 {
                assert(cat.take(1)[0] == tools@[0].model());
                assert(lines@ =~= help_lines(cat.take(1)));
            } else {
                assert(lines@ =~= help_lines(cat.take(i + 1)));
            }
        }
        i = i + 1;
    }
    proof {
        assert(cat.take(tools@.len() as int) =~= cat);
    }
    let mut s = "Available Tools:\n".to_string();
    s.append(lines.as_str());
    s
}

/// What a line typed by the user asks for.
#[derive(Debug, Clone, Copy, PartialEq, Eq, Structural)]
pub enum ChatInput {
    /// `exit`, in any ASCII case and with surrounding whitespace: end the session.
    Exit,
    /// `help`, likewise: list the tools.
    Help,
    /// Anything else: a message for the model.
    Message,
}

/// How a typed line is read: `exit` and `help` are recognised after
/// trimming, without regard to ASCII case.
pub open spec fn classify_input_spec(input: Seq<char>) -> ChatInput {
    if eq_ignore_ascii_case_seq(trim_seq(input), "exit"@) {
        ChatInput::Exit
    } else if eq_ignore_ascii_case_seq(trim_seq(input), "help"@) {
        ChatInput::Help
    } else {
        ChatInput::Message
    }
}

/// Reads a line typed by the user.
pub fn classify_input(input: &str) -> (r: ChatInput)
    ensures
        r == classify_input_spec(input@),
{
    let t = trim(&chars_of(input));
    let exit = chars_of("exit");
    let help = chars_of("help");
    if eq_ignore_ascii_case(&t, &exit) {
        ChatInput::Exit
    } else if eq_ignore_ascii_case(&t, &help) {
        ChatInput::Help
    } else {
        ChatInput::Message
    }
}

/// The greeting shown when the session opens.
pub fn welcome_message(model: &str) -> (m: ChatMessage)
    ensures
        m.role@ == "assistant"@,
        m.content@ == "Welcome to the Engine Builder Chat Interface!\n\nI'm using the "@ + model@
            + " model.\n\nHow can I help you today? Type 'help' for available commands."@,
{
    let mut c = "Welcome to the Engine Builder Chat Interface!\n\nI'm using the ".to_string();
    c.append(model);
    c.append(" model.\n\nHow can I help you today? Type 'help' for available commands.");
    ChatMessage::new("assistant", c)
}

/// The message that announces a tool run.
pub fn tool_call_message(tool_name: &str) -> (m: ChatMessage)
    ensures
        m.role@ == "assistant"@,
        m.content@ == "I'll run the '"@ + tool_name@ + "' command for you..."@,
{
    let mut c = "I'll run the '".to_string();
    c.append(tool_name);
    c.append("' command for you...");
    ChatMessage::new("assistant", c)
}

/// The message that reports what a tool run gave.
pub fn tool_result_message(success: bool, output: &str) -> (m: ChatMessage)
    ensures
        m.role@ == "assistant"@,
        m.content@ == "Result: "@ + (if success { "SUCCESS"@ } else { "FAILED"@ }) + " - "@
            + output@,
{
    let mut c = "Result: ".to_string();
    if success {
        c.append("SUCCESS");
    } else {
        c.append("FAILED");
    }
    c.append(" - ");
    c.append(output);
    ChatMessage::new("assistant", c)
}

/// The message that reports an error, after the given lead-in.
pub fn error_message(lead: &str, error: &str) -> (m: ChatMessage)
    ensures
        m.role@ == "assistant"@,
        m.content@ == lead@ + error@,
{
    let mut c = lead.to_string();
    c.append(error);
    ChatMessage::new("assistant", c)
}

} // verus!
