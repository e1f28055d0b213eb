//! Events that flow between the agent, the tools and the display.

use vstd::prelude::*;
use vstd::string::StringExecFns;
use crate::agent::{AgentError, AgentResponse};
use crate::json::Json;
use crate::text::str_eq;

verus! {

/// Requests sent to the core.
#[derive(Debug)]
pub enum Request {
    ChatSubmit { text: String },
    ToolInvoke { id: String, tool: ToolName, args: Json },
}

/// Events that flow through the application.
#[derive(Debug)]
#[allow(inconsistent_fields)]
pub enum AppEvent {
    /// User submitted input.
    UserInput(String),
    /// Agent provided a response.
    AgentResponse(AgentResponse),
    /// Agent encountered an error.
    AgentError(AgentError),
    /// Agent thinking step.
    AgentThinking(String),
    /// Application should quit.
    Quit,
    /// Clear the conversation history.
    Clear,
    /// Show agent information.
    ShowAgentInfo,
    ChatCreated,
    ChatDelta { text: String },
    ChatCompleted { token_usage: Option<TokenUsage> },
    ToolBegin { id: String, tool: ToolName, summary: String, args: Option<Json> },
    ToolProgress { id: String, message: String },
    ToolStdout { id: String, chunk: String },
    ToolStderr { id: String, chunk: String },
    ToolResult { id: String, payload: Json },
    ToolEnd { id: String, ok: bool, duration_ms: u64 },
    ApprovalRequest { id: String, tool: ToolName, summary: String },
    ApprovalDecision { id: String, approved: bool },
    Error { id: Option<String>, message: String },
    TokenCount(TokenUsage),
    Background(String),
}

impl AppEvent {
    /// The tool call that a lifecycle event belongs to; `None` for every
    /// other event.
    pub open spec fn tool_id(self) -> Option<Seq<char>> {
        match self {
            AppEvent::ToolBegin { id, .. } => Some(id@),
            AppEvent::ToolProgress { id, .. } => Some(id@),
            AppEvent::ToolStdout { id, .. } => Some(id@),
            AppEvent::ToolStderr { id, .. } => Some(id@),
            AppEvent::ToolResult { id, .. } => Some(id@),
            AppEvent::ToolEnd { id, .. } => Some(id@),
            _ => None,
        }
    }

    /// Whether the event reports progress or a chunk of output.
    pub open spec fn is_stream(self) -> bool {
        self is ToolProgress || self is ToolStdout || self is ToolStderr
    }
}

/// Available tools.
#[derive(Debug, Clone, Copy, PartialEq, Eq, Hash, Structural)]
pub enum ToolName {
    FsRead,
    FsSearch,
    FsWrite,
    FsApplyPatch,
    FsFind,
    ShellExec,
    CodeSymbols,
    LargeContextFetch,
}

impl ToolName {
    /// The name of the tool in the function-calling protocol.
    pub open spec fn wire_name_spec(self) -> Seq<char> {
        match self {
            ToolName::FsRead => "fs.read"@,
            ToolName::FsSearch => "fs.search"@,
            ToolName::FsWrite => "fs.write"@,
            ToolName::FsApplyPatch => "fs.apply_patch"@,
            ToolName::FsFind => "fs.find"@,
            ToolName::ShellExec => "shell.exec"@,
            ToolName::CodeSymbols => "code.symbols"@,
            ToolName::LargeContextFetch => "large_context_fetch"@,
        }
    }

    /// The name of the variant, as it is written in the source.
    pub open spec fn variant_name_spec(self) -> Seq<char> {
        match self {
            ToolName::FsRead => "FsRead"@,
            ToolName::FsSearch => "FsSearch"@,
            ToolName::FsWrite => "FsWrite"@,
            ToolName::FsApplyPatch => "FsApplyPatch"@,
            ToolName::FsFind => "FsFind"@,
            ToolName::ShellExec => "ShellExec"@,
            ToolName::CodeSymbols => "CodeSymbols"@,
            ToolName::LargeContextFetch => "LargeContextFetch"@,
        }
    }

    /// The name of the tool in the function-calling protocol.
    pub fn wire_name(&self) -> (s: &'static str)
        ensures
            s@ == self.wire_name_spec(),
    {
        match self {
            ToolName::FsRead => "fs.read",
            ToolName::FsSearch => "fs.search",
            ToolName::FsWrite => "fs.write",
            ToolName::FsApplyPatch => "fs.apply_patch",
            ToolName::FsFind => "fs.find",
            ToolName::ShellExec => "shell.exec",
            ToolName::CodeSymbols => "code.symbols",
            ToolName::LargeContextFetch => "large_context_fetch",
        }
    }

    /// The name of the variant, as it is written in the source.
    pub fn variant_name(&self) -> (s: &'static str)
        ensures
            s@ == self.variant_name_spec(),
    {
        match self {
            ToolName::FsRead => "FsRead",
            ToolName::FsSearch => "FsSearch",
            ToolName::FsWrite => "FsWrite",
            ToolName::FsApplyPatch => "FsApplyPatch",
            ToolName::FsFind => "FsFind",
            ToolName::ShellExec => "ShellExec",
            ToolName::CodeSymbols => "CodeSymbols",
            ToolName::LargeContextFetch => "LargeContextFetch",
        }
    }

    /// The tool with the given variant name.
    pub open spec fn of_variant_name(name: Seq<char>) -> Option<ToolName> {
        if name == "FsRead"@ {
            Some(ToolName::FsRead)
        } else if name == "FsSearch"@ {
            Some(ToolName::FsSearch)
        } else if name == "FsWrite"@ {
            Some(ToolName::FsWrite)
        } else if name == "FsApplyPatch"@ {
            Some(ToolName::FsApplyPatch)
        } else if name == "FsFind"@ {
            Some(ToolName::FsFind)
        } else if name == "ShellExec"@ {
            Some(ToolName::ShellExec)
        } else if name == "CodeSymbols"@ {
            Some(ToolName::CodeSymbols)
        } else if name == "LargeContextFetch"@ {
            Some(ToolName::LargeContextFetch)
        } else {
            None
        }
    }

    /// The tool with the given name in the function-calling protocol.
    pub open spec fn of_wire_name(name: Seq<char>) -> Option<ToolName> {
        if name == "fs.read"@ {
            Some(ToolName::FsRead)
        } else if name == "fs.search"@ {
            Some(ToolName::FsSearch)
        } else if name == "fs.write"@ {
            Some(ToolName::FsWrite)
        } else if name == "fs.apply_patch"@ {
            Some(ToolName::FsApplyPatch)
        } else if name == "fs.find"@ {
            Some(ToolName::FsFind)
        } else if name == "shell.exec"@ {
            Some(ToolName::ShellExec)
        } else if name == "code.symbols"@ {
            Some(ToolName::CodeSymbols)
        } else if name == "large_context_fetch"@ {
            Some(ToolName::LargeContextFetch)
        } else {
            None
        }
    }

    /// The tool with the given variant name.
    pub fn from_variant_name(name: &str) -> (r: Option<ToolName>)
        ensures
            r == Self::of_variant_name(name@),
    {
        if str_eq(name, "FsRead") {
            Some(ToolName::FsRead)
        } else if str_eq(name, "FsSearch") {
            Some(ToolName::FsSearch)
        } else if str_eq(name, "FsWrite") {
            Some(ToolName::FsWrite)
        } else if str_eq(name, "FsApplyPatch") {
            Some(ToolName::FsApplyPatch)
        } else if str_eq(name, "FsFind") {
            Some(ToolName::FsFind)
        } else if str_eq(name, "ShellExec") {
            Some(ToolName::ShellExec)
        } else if str_eq(name, "CodeSymbols") {
            Some(ToolName::CodeSymbols)
        } else if str_eq(name, "LargeContextFetch") {
            Some(ToolName::LargeContextFetch)
        } else {
            None
        }
    }

    /// The tool with the given name in the function-calling protocol.
    pub fn from_wire_name(name: &str) -> (r: Option<ToolName>)
        ensures
            r == Self::of_wire_name(name@),
    {
        if str_eq(name, "fs.read") {
            Some(ToolName::FsRead)
        } else if str_eq(name, "fs.search") {
            Some(ToolName::FsSearch)
        } else if str_eq(name, "fs.write") {
            Some(ToolName::FsWrite)
        } else if str_eq(name, "fs.apply_patch") {
            Some(ToolName::FsApplyPatch)
        } else if str_eq(name, "fs.find") {
            Some(ToolName::FsFind)
        } else if str_eq(name, "shell.exec") {
            Some(ToolName::ShellExec)
        } else if str_eq(name, "code.symbols") {
            Some(ToolName::CodeSymbols)
        } else if str_eq(name, "large_context_fetch") {
            Some(ToolName::LargeContextFetch)
        } else {
            None
        }
    }

    /// The position of the tool in the catalog.
    pub open spec fn index_spec(self) -> int {
        match self {
            ToolName::FsRead => 0,
            ToolName::FsSearch => 1,
            ToolName::FsWrite => 2,
            ToolName::FsApplyPatch => 3,
            ToolName::FsFind => 4,
            ToolName::ShellExec => 5,
            ToolName::CodeSymbols => 6,
            ToolName::LargeContextFetch => 7,
        }
    }

    /// The position of the tool in the catalog.
    pub fn index(&self) -> (i: usize)
        ensures
            i == self.index_spec(),
            i < 8,
    {
        match self {
            ToolName::FsRead => 0,
            ToolName::FsSearch => 1,
            ToolName::FsWrite => 2,
            ToolName::FsApplyPatch => 3,
            ToolName::FsFind => 4,
            ToolName::ShellExec => 5,
            ToolName::CodeSymbols => 6,
            ToolName::LargeContextFetch => 7,
        }
    }
}

/// The variant name of a tool names that tool.
pub proof fn law_variant_name_round_trip(x: ToolName)
    ensures
        ToolName::of_variant_name(x.variant_name_spec()) == Some(x),
{
    reveal_strlit("FsRead");
    reveal_strlit("FsSearch");
    reveal_strlit("FsWrite");
    reveal_strlit("FsApplyPatch");
    reveal_strlit("FsFind");
    reveal_strlit("ShellExec");
    reveal_strlit("CodeSymbols");
    reveal_strlit("LargeContextFetch");
    assert("FsRead"@.len() != "FsSearch"@.len());
    assert("FsRead"@.len() != "FsWrite"@.len());
    assert("FsRead"@.len() != "FsApplyPatch"@.len());
    assert("FsRead"@[2] != "FsFind"@[2]);
    assert("FsRead"@.len() != "ShellExec"@.len());
    assert("FsRead"@.len() != "CodeSymbols"@.len());
    assert("FsRead"@.len() != "LargeContextFetch"@.len());
    assert("FsSearch"@.len() != "FsWrite"@.len());
    assert("FsSearch"@.len() != "FsApplyPatch"@.len());
    assert("FsSearch"@.len() != "FsFind"@.len());
    assert("FsSearch"@.len() != "ShellExec"@.len());
    assert("FsSearch"@.len() != "CodeSymbols"@.len());
    assert("FsSearch"@.len() != "LargeContextFetch"@.len());
    assert("FsWrite"@.len() != "FsApplyPatch"@.len());
    assert("FsWrite"@.len() != "FsFind"@.len());
    assert("FsWrite"@.len() != "ShellExec"@.len());
    assert("FsWrite"@.len() != "CodeSymbols"@.len());
    assert("FsWrite"@.len() != "LargeContextFetch"@.len());
    assert("FsApplyPatch"@.len() != "FsFind"@.len());
    assert("FsApplyPatch"@.len() != "ShellExec"@.len());
    assert("FsApplyPatch"@.len() != "CodeSymbols"@.len());
    assert("FsApplyPatch"@.len() != "LargeContextFetch"@.len());
    assert("FsFind"@.len() != "ShellExec"@.len());
    assert("FsFind"@.len() != "CodeSymbols"@.len());
    assert("FsFind"@.len() != "LargeContextFetch"@.len());
    assert("ShellExec"@.len() != "CodeSymbols"@.len());
    assert("ShellExec"@.len() != "LargeContextFetch"@.len());
    assert("CodeSymbols"@.len() != "LargeContextFetch"@.len());
}

/// The protocol name of a tool names that tool.
pub proof fn law_wire_name_round_trip(x: ToolName)
    ensures
        ToolName::of_wire_name(x.wire_name_spec()) == Some(x),
{
    reveal_strlit("fs.read");
    reveal_strlit("fs.search");
    reveal_strlit("fs.write");
    reveal_strlit("fs.apply_patch");
    reveal_strlit("fs.find");
    reveal_strlit("shell.exec");
    reveal_strlit("code.symbols");
    reveal_strlit("large_context_fetch");
    assert("fs.read"@.len() != "fs.search"@.len());
    assert("fs.read"@.len() != "fs.write"@.len());
    assert("fs.read"@.len() != "fs.apply_patch"@.len());
    assert("fs.read"@[3] != "fs.find"@[3]);
    assert("fs.read"@.len() != "shell.exec"@.len());
    assert("fs.read"@.len() != "code.symbols"@.len());
    assert("fs.read"@.len() != "large_context_fetch"@.len());
    assert("fs.search"@.len() != "fs.write"@.len());
    assert("fs.search"@.len() != "fs.apply_patch"@.len());
    assert("fs.search"@.len() != "fs.find"@.len());
    assert("fs.search"@.len() != "shell.exec"@.len());
    assert("fs.search"@.len() != "code.symbols"@.len());
    assert("fs.search"@.len() != "large_context_fetch"@.len());
    assert("fs.write"@.len() != "fs.apply_patch"@.len());
    assert("fs.write"@.len() != "fs.find"@.len());
    assert("fs.write"@.len() != "shell.exec"@.len());
    assert("fs.write"@.len() != "code.symbols"@.len());
    assert("fs.write"@.len() != "large_context_fetch"@.len());
    assert("fs.apply_patch"@.len() != "fs.find"@.len());
    assert("fs.apply_patch"@.len() != "shell.exec"@.len());
    assert("fs.apply_patch"@.len() != "code.symbols"@.len());
    assert("fs.apply_patch"@.len() != "large_context_fetch"@.len());
    assert("fs.find"@.len() != "shell.exec"@.len());
    assert("fs.find"@.len() != "code.symbols"@.len());
    assert("fs.find"@.len() != "large_context_fetch"@.len());
    assert("shell.exec"@.len() != "code.symbols"@.len());
    assert("shell.exec"@.len() != "large_context_fetch"@.len());
    assert("code.symbols"@.len() != "large_context_fetch"@.len());
}

/// Token usage information.
#[derive(Debug, Clone, Copy, PartialEq, Eq, Structural)]
pub struct TokenUsage {
    pub input_tokens: u32,
    pub output_tokens: u32,
    pub total_tokens: u32,
}

/// Tool specification for discovery.
#[derive(Debug)]
pub struct ToolSpec {
    pub name: ToolName,
    /// JSON Schema of the arguments.
    pub input_schema: Json,
    /// JSON Schema of the result.
    pub output_schema: Json,
    /// Supports stdout, stderr and progress events.
    pub streaming: bool,
    /// Mutates the filesystem or the environment.
    pub side_effects: bool,
    /// May trigger an approval request.
    pub needs_approval: bool,
    pub timeout_ms: Option<u64>,
}

/// Errors that can occur when sending events.
#[derive(Debug, Clone, Copy, PartialEq, Eq, Structural)]
pub enum EventSendError {
    ChannelClosed,
}

impl EventSendError {
    /// The text shown for the error.
    pub fn message(&self) -> (s: String)
        ensures
            s@ == "Event channel is closed"@,
    {
        String::from_str("Event channel is closed")
    }
}

/// The sending end of an unbounded channel of `tokio`, carried through
/// without looking inside.
#[verifier::external_type_specification]
#[verifier::external_body]
#[verifier::reject_recursive_types(T)]
pub struct ExUnboundedSender<T>(tokio::sync::mpsc::UnboundedSender<T>);

/// The receiving end of an unbounded channel of `tokio`, carried through
/// without looking inside.
#[verifier::external_type_specification]
#[verifier::external_body]
#[verifier::reject_recursive_types(T)]
pub struct ExUnboundedReceiver<T>(tokio::sync::mpsc::UnboundedReceiver<T>);

/// `tokio::sync::mpsc::unbounded_channel`: a fresh channel, by its two ends.
#[verifier::external_body]
fn open_channel() -> (tokio::sync::mpsc::UnboundedSender<AppEvent>, tokio::sync::mpsc::UnboundedReceiver<AppEvent>) {
    tokio::sync::mpsc::unbounded_channel()
}

/// `UnboundedSender::clone`: another handle on the same channel.
#[verifier::external_body]
fn clone_sender(s: &tokio::sync::mpsc::UnboundedSender<AppEvent>) -> tokio::sync::mpsc::UnboundedSender<AppEvent> {
    s.clone()
}

/// `UnboundedSender::send`: queues the event without blocking; whether the
/// receiving end still exists decides the answer.
#[verifier::external_body]
fn channel_send(s: &tokio::sync::mpsc::UnboundedSender<AppEvent>, event: AppEvent) -> (delivered: bool) {
    s.send(event).is_ok()
}

/// Event bus for communication between components.
pub struct EventBus {
    sender: tokio::sync::mpsc::UnboundedSender<AppEvent>,
    receiver: tokio::sync::mpsc::UnboundedReceiver<AppEvent>,
}

impl EventBus {
    /// Create a new event bus.
    pub fn new() -> Self {
        let (sender, receiver) = open_channel();
        Self { sender, receiver }
    }

    /// Get a sender handle for the event bus.
    pub fn sender(&self) -> EventSender {
        EventSender { inner: clone_sender(&self.sender) }
    }

    /// Get the receiver, for the one consumer of the bus.
    pub fn into_receiver(self) -> tokio::sync::mpsc::UnboundedReceiver<AppEvent> {
        self.receiver
    }
}

impl Default for EventBus {
    /// A new event bus.
    fn default() -> Self {
        Self::new()
    }
}

/// Handle for sending events to the event bus.
pub struct EventSender {
    inner: tokio::sync::mpsc::UnboundedSender<AppEvent>,
}

impl EventSender {
    /// Another handle on the same bus.
    pub fn duplicate(&self) -> EventSender {
        EventSender { inner: clone_sender(&self.inner) }
    }

    /// Send an event to the bus. The only failure is a closed channel.
    pub fn send(&self, event: AppEvent) -> (r: Result<(), EventSendError>)
        ensures
            r is Err ==> r == Err::<(), EventSendError>(EventSendError::ChannelClosed),
    {
        if channel_send(&self.inner, event) {
            Ok(())
        } else {
            Err(EventSendError::ChannelClosed)
        }
    }

    /// Send user input.
    pub fn send_user_input(&self, message: String) -> Result<(), EventSendError> {
        self.send(AppEvent::UserInput(message))
    }

    /// Send agent response.
    pub fn send_agent_response(&self, response: AgentResponse) -> Result<(), EventSendError> {
        self.send(AppEvent::AgentResponse(response))
    }

    /// Send agent error.
    pub fn send_agent_error(&self, error: AgentError) -> Result<(), EventSendError> {
        self.send(AppEvent::AgentError(error))
    }

    /// Send agent thinking step.
    pub fn send_agent_thinking(&self, thinking: String) -> Result<(), EventSendError> {
        self.send(AppEvent::AgentThinking(thinking))
    }

    /// Send quit signal.
    pub fn send_quit(&self) -> Result<(), EventSendError> {
        self.send(AppEvent::Quit)
    }
}

} // verus!
