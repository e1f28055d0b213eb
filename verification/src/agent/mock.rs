//! A deterministic agent for trying out the display: what it answers and
//! which tools it calls follow from the words of the message alone.

use vstd::prelude::*;
use vstd::string::StringExecFns;
use crate::agent::{AgentError, AgentInfo, AgentResponse, ResponseMetadata};
use crate::events::{AppEvent, EventSender, TokenUsage, ToolName};
use crate::json::{no_fields, no_items, push_field, push_item, Json, JsonView};
use crate::text::{
    byte_len, byte_length, concat2, concat3, contains, contains_sub, str_chars, to_lowercase, trim,
    trim_spec, unicode_lowercase,
};

verus! {

/// The lower-case form of an ASCII letter; any other character as it is.
pub open spec fn ascii_lower(c: char) -> char {
    if 'A' <= c && c <= 'Z' {
        ((c as u8) + 32) as char
    } else {
        c
    }
}

/// Whether two texts are equal up to the case of ASCII letters.
pub open spec fn same_ignoring_ascii_case(a: Seq<char>, b: Seq<char>) -> bool {
    a.len() == b.len() && forall|i: int| 0 <= i < a.len() ==> ascii_lower(a[i]) == ascii_lower(b[i])
}

fn lower(c: char) -> (r: char)
    ensures
        r == ascii_lower(c),
{
    if 'A' <= c && c <= 'Z' {
        ((c as u8) + 32) as char
    } else {
        c
    }
}

fn eq_ignoring_case(a: &[char], b: &[char]) -> (r: bool)
    ensures
        r == same_ignoring_ascii_case(a@, b@),
{
    if a.len() != b.len() {
        return false;
    }
    let mut i: usize = 0;
    while i < a.len()
        invariant
            i <= a.len(),
            a.len() == b.len(),
            forall|k: int| 0 <= k < i ==> ascii_lower(a@[k]) == ascii_lower(b@[k]),
        decreases a.len() - i,
    {
        if lower(a[i]) != lower(b[i]) {
            return false;
        }
        i += 1;
    }
    true
}

/// What the agent answers to a message: the content of its response, or
/// the error that the message asks for.
pub enum Reply {
    Content(Seq<char>),
    ProcessingError,
    NetworkError,
}

/// The answer to a message. The words `error` and `network error` ask for
/// errors; any other message is answered in a way that tells whether tools
/// were used.
pub open spec fn reply_to(message: Seq<char>, with_tools: bool) -> Reply {
    if same_ignoring_ascii_case(trim_spec(message), "error"@) {
        Reply::ProcessingError
    } else if same_ignoring_ascii_case(trim_spec(message), "network error"@) {
        Reply::NetworkError
    } else if with_tools {
        Reply::Content(
            "I've processed your request: \""@ + message
                + "\" using various tools. Check the tool outputs above for details."@,
        )
    } else {
        Reply::Content("I'm going to help you with: "@ + message)
    }
}

/// What is said while a tool is used.
pub open spec fn tool_description(tool: ToolName) -> Seq<char> {
    match tool {
        ToolName::FsRead => "reading file"@,
        ToolName::FsSearch => "searching files"@,
        ToolName::FsWrite => "writing file"@,
        ToolName::FsApplyPatch => "applying patch"@,
        ToolName::FsFind => "finding files"@,
        ToolName::ShellExec => "executing command"@,
        ToolName::CodeSymbols => "analyzing code"@,
        ToolName::LargeContextFetch => "fetching context"@,
    }
}

/// Whether the message, in lower case, holds one of up to four words.
pub open spec fn mentions(lower: Seq<char>, a: Seq<char>, b: Seq<char>, c: Seq<char>, d: Seq<char>)
    -> bool {
    contains_sub(lower, a) || contains_sub(lower, b) || contains_sub(lower, c) || contains_sub(
        lower,
        d,
    )
}

/// The tools that a message calls for, in the order in which they are
/// called: reading, searching, writing, editing and running where the
/// message speaks of them, and a demonstration of three tools where it
/// speaks of none.
pub open spec fn tools_for(message: Seq<char>) -> Seq<ToolName> {
    let lower = unicode_lowercase(message);
    let t0 = Seq::<ToolName>::empty();
    let t1 = if mentions(lower, "read"@, "show"@, "cat"@, "cat"@) {
        t0.push(ToolName::FsRead)
    } else {
        t0
    };
    let t2 = if mentions(lower, "search"@, "find"@, "grep"@, "grep"@) {
        t1.push(ToolName::FsSearch)
    } else {
        t1
    };
    let t3 = if mentions(lower, "write"@, "create"@, "save"@, "save"@) {
        t2.push(ToolName::FsWrite)
    } else {
        t2
    };
    let t4 = if mentions(lower, "patch"@, "diff"@, "apply"@, "apply"@) {
        t3.push(ToolName::FsApplyPatch)
    } else {
        t3
    };
    let t5 = if mentions(lower, "run"@, "execute"@, "command"@, "build"@) {
        t4.push(ToolName::ShellExec)
    } else {
        t4
    };
    if t5.len() == 0 {
        Seq::empty().push(ToolName::FsRead).push(ToolName::FsSearch).push(ToolName::ShellExec)
    } else {
        t5
    }
}

/// The document of a text member.
pub open spec fn text_member(key: Seq<char>, value: Seq<char>) -> (Seq<char>, JsonView) {
    (key, JsonView::Str(value))
}

/// The query that a message asks to search for.
pub open spec fn search_query(lower: Seq<char>) -> Seq<char> {
    if contains_sub(lower, "function"@) {
        "function"@
    } else if contains_sub(lower, "struct"@) {
        "struct"@
    } else if contains_sub(lower, "impl"@) {
        "impl"@
    } else {
        "TODO"@
    }
}

/// The command that a message asks to run.
pub open spec fn shell_command(lower: Seq<char>) -> Seq<JsonView> {
    if contains_sub(lower, "build"@) {
        Seq::empty().push(JsonView::Str("cargo"@)).push(JsonView::Str("build"@))
    } else if contains_sub(lower, "test"@) {
        Seq::empty().push(JsonView::Str("cargo"@)).push(JsonView::Str("test"@))
    } else {
        Seq::empty().push(JsonView::Str("echo"@)).push(JsonView::Str("Hello from shell"@))
    }
}

/// The arguments of a search.
pub open spec fn search_args(query: Seq<char>) -> JsonView {
    JsonView::Object(
        Seq::empty().push(text_member("query"@, query)).push(("regex"@, JsonView::Bool(false))).push(
            ("case_insensitive"@, JsonView::Bool(true)),
        ).push(("multiline"@, JsonView::Bool(false))),
    )
}

/// The arguments of a read.
pub open spec fn read_args(path: Seq<char>) -> JsonView {
    JsonView::Object(
        Seq::empty().push(text_member("path"@, path)).push(text_member("encoding"@, "utf-8"@)),
    )
}

/// The arguments of a command.
pub open spec fn shell_args(command: Seq<JsonView>, timeout_ms: i64) -> JsonView {
    JsonView::Object(
        Seq::empty().push(("command"@, JsonView::Array(command))).push(
            text_member("cwd"@, "."@),
        ).push(("timeout_ms"@, JsonView::Int(timeout_ms))),
    )
}

/// The arguments with which a tool is called for a message. Where the
/// message speaks of no tool the three tools of the demonstration get
/// arguments of their own.
pub open spec fn arguments_for(tool: ToolName, message: Seq<char>, demo: bool) -> JsonView {
    let lower = unicode_lowercase(message);
    match tool {
        ToolName::FsRead => read_args(
            if demo {
                "README.md"@
            } else {
                "src/main.rs"@
            },
        ),
        ToolName::FsSearch => search_args(
            if demo {
                "grok"@
            } else {
                search_query(lower)
            },
        ),
        ToolName::FsWrite => JsonView::Object(
            Seq::empty().push(text_member("path"@, "output.txt"@)).push(
                text_member("contents"@, "Generated content based on: "@ + message),
            ).push(("create_if_missing"@, JsonView::Bool(true))).push(
                ("overwrite"@, JsonView::Bool(false)),
            ),
        ),
        ToolName::FsApplyPatch => JsonView::Object(
            Seq::empty().push(("dry_run"@, JsonView::Bool(contains_sub(lower, "dry"@)))).push(
                (
                    "ops"@,
                    JsonView::Array(
                        Seq::empty().push(
                            JsonView::Object(
                                Seq::empty().push(text_member("op"@, "set_file"@)).push(
                                    text_member("path"@, "file.txt"@),
                                ).push(text_member("contents"@, "line1\nnew line\nline3\n"@)),
                            ),
                        ),
                    ),
                ),
            ),
        ),
        ToolName::ShellExec => if demo {
            shell_args(
                Seq::empty().push(JsonView::Str("echo"@)).push(
                    JsonView::Str("Demo completed successfully!"@),
                ),
                5000,
            )
        } else {
            shell_args(shell_command(lower), 10000)
        },
        _ => JsonView::Null,
    }
}

/// Whether a message speaks of no tool.
pub open spec fn is_demo(message: Seq<char>) -> bool {
    let lower = unicode_lowercase(message);
    !mentions(lower, "read"@, "show"@, "cat"@, "cat"@) && !mentions(
        lower,
        "search"@,
        "find"@,
        "grep"@,
        "grep"@,
    ) && !mentions(lower, "write"@, "create"@, "save"@, "save"@) && !mentions(
        lower,
        "patch"@,
        "diff"@,
        "apply"@,
        "apply"@,
    ) && !mentions(lower, "run"@, "execute"@, "command"@, "build"@)
}

/// The tools of a list of calls.
pub open spec fn called_tools(calls: Seq<(ToolName, Json)>) -> Seq<ToolName> {
    Seq::new(calls.len(), |i: int| calls[i].0)
}

/// Mock agent that answers without a provider.
pub struct MockAgent {
    info: AgentInfo,
    delay: std::time::Duration,
    event_sender: Option<EventSender>,
}

/// `Duration::from_millis`: the duration of a number of milliseconds.
#[verifier::external_body]
fn millis(n: u64) -> std::time::Duration {
    std::time::Duration::from_millis(n)
}

fn text_args(key: &str, value: &str) -> (f: Vec<(String, Json)>)
    ensures
        crate::json::fields_view(f@) == Seq::empty().push((key@, JsonView::Str(value@))),
{
    let mut f = no_fields();
    push_field(&mut f, key, Json::string(value));
    f
}

impl MockAgent {
    /// A mock agent that takes 300 milliseconds to answer and has no bus.
    pub fn new() -> (r: Self)
        ensures
            !r.has_sender(),
            r.info_spec().name@ == "Mock Agent"@,
    {
        Self {
            info: AgentInfo {
                name: String::from_str("Mock Agent"),
                description: String::from_str("A tool-calling agent for testing UI"),
                version: String::from_str("0.1.0"),
            },
            delay: millis(300),
            event_sender: None,
        }
    }

    /// Whether the agent has a bus, and with it tools.
    pub closed spec fn has_sender(&self) -> bool {
        self.event_sender is Some
    }

    /// Information about the agent.
    pub closed spec fn info_spec(&self) -> AgentInfo {
        self.info
    }

    /// The time that the agent takes to answer.
    pub closed spec fn delay_spec(&self) -> std::time::Duration {
        self.delay
    }

    /// The same agent with another time to answer.
    pub fn with_delay(self, delay: std::time::Duration) -> (r: Self)
        ensures
            r.delay_spec() == delay,
            r.has_sender() == self.has_sender(),
            r.info_spec() == self.info_spec(),
    {
        Self { info: self.info, delay, event_sender: self.event_sender }
    }

    /// The same agent with a bus: it then calls tools.
    pub fn with_event_sender(self, event_sender: EventSender) -> (r: Self)
        ensures
            r.has_sender(),
            r.delay_spec() == self.delay_spec(),
            r.info_spec() == self.info_spec(),
    {
        Self { info: self.info, delay: self.delay, event_sender: Some(event_sender) }
    }

    /// The time that the agent takes to answer.
    pub fn delay(&self) -> (d: std::time::Duration)
        ensures
            d == self.delay_spec(),
    {
        self.delay
    }

    /// Whether the agent has a bus, and with it tools.
    pub fn uses_tools(&self) -> (b: bool)
        ensures
            b == self.has_sender(),
    {
        self.event_sender.is_some()
    }

    /// Information about the agent.
    pub fn info(&self) -> (r: AgentInfo)
        ensures
            r.name@ == self.info_spec().name@,
            r.description@ == self.info_spec().description@,
            r.version@ == self.info_spec().version@,
    {
        self.info.duplicate()
    }

    /// The answer of the agent to a message, after the given time.
    pub fn respond(&self, message: &str, elapsed: std::time::Duration) -> (r: Result<
        AgentResponse,
        AgentError,
    >)
        ensures
            match reply_to(message@, self.has_sender()) {
                Reply::ProcessingError => r matches Err(AgentError::Processing(text)) && text@
                    == "Simulated error"@,
                Reply::NetworkError => r matches Err(AgentError::Network(text)) && text@
                    == "Simulated network failure"@,
                Reply::Content(c) => r matches Ok(resp) && resp.content@ == c
                    && resp.metadata.processing_time == Some(elapsed),
            },
    {
        let chars = str_chars(message);
        let trimmed = trim(chars.as_slice());
        let word = str_chars("error");
        if eq_ignoring_case(trimmed.as_slice(), word.as_slice()) {
            return Err(AgentError::Processing(String::from_str("Simulated error")));
        }
        let words = str_chars("network error");
        if eq_ignoring_case(trimmed.as_slice(), words.as_slice()) {
            return Err(AgentError::Network(String::from_str("Simulated network failure")));
        }
        let content = if self.event_sender.is_some() {
            concat3(
                "I've processed your request: \"",
                message,
                "\" using various tools. Check the tool outputs above for details.",
            )
        } else {
            concat2("I'm going to help you with: ", message)
        };
        Ok(AgentResponse { content, metadata: ResponseMetadata::new().with_processing_time(elapsed) })
    }

    /// What is said while a tool is used.
    pub fn describe_tool(tool: ToolName) -> (s: &'static str)
        ensures
            s@ == tool_description(tool),
    {
        match tool {
            ToolName::FsRead => "reading file",
            ToolName::FsSearch => "searching files",
            ToolName::FsWrite => "writing file",
            ToolName::FsApplyPatch => "applying patch",
            ToolName::FsFind => "finding files",
            ToolName::ShellExec => "executing command",
            ToolName::CodeSymbols => "analyzing code",
            ToolName::LargeContextFetch => "fetching context",
        }
    }

    /// The usage that the agent reports for a message: its length in bytes
    /// as input, 150 tokens as output.
    pub fn usage_for(message: &str) -> (u: TokenUsage)
        requires
            byte_len(message@) + 150 <= u32::MAX,
        ensures
            u.input_tokens == byte_len(message@),
            u.output_tokens == 150,
            u.total_tokens == byte_len(message@) + 150,
    {
        let n = byte_length(message) as u32;
        TokenUsage { input_tokens: n, output_tokens: 150, total_tokens: n + 150 }
    }

    /// The tools that a message calls for, with their arguments.
    #[verifier::rlimit(50)]
    pub fn determine_tools_for_message(&self, message: &str) -> (tools: Vec<(ToolName, Json)>)
        ensures
            called_tools(tools@) == tools_for(message@),
            forall|i: int|
                0 <= i < tools@.len() ==> (#[trigger] tools@[i]).1@ == arguments_for(
                    tools@[i].0,
                    message@,
                    is_demo(message@),
                ),
    {
        let lowered = to_lowercase(message);
        let lower_chars = str_chars(lowered.as_str());
        let lower = lower_chars.as_slice();
        let mut tools: Vec<(ToolName, Json)> = Vec::new();
        let ghost msg = message@;
        assert(called_tools(tools@) =~= Seq::empty());
        if said(lower, "read") || said(lower, "show") || said(lower, "cat") {
            let mut f = text_args("path", "src/main.rs");
            push_field(&mut f, "encoding", Json::string("utf-8"));
            let ghost before = called_tools(tools@);
            tools.push((ToolName::FsRead, Json::object(f)));
            assert(called_tools(tools@) =~= before.push(ToolName::FsRead));
            assert(tools@[tools@.len() - 1].1@ == arguments_for(ToolName::FsRead, msg, false));
        }
        if said(lower, "search") || said(lower, "find") || said(lower, "grep") {
            let query = if said(lower, "function") {
                "function"
            } else if said(lower, "struct") {
                "struct"
            } else if said(lower, "impl") {
                "impl"
            } else {
                "TODO"
            };
            let mut f = text_args("query", query);
            push_field(&mut f, "regex", Json::Bool(false));
            push_field(&mut f, "case_insensitive", Json::Bool(true));
            push_field(&mut f, "multiline", Json::Bool(false));
            let ghost before = called_tools(tools@);
            tools.push((ToolName::FsSearch, Json::object(f)));
            assert(called_tools(tools@) =~= before.push(ToolName::FsSearch));
            assert(tools@[tools@.len() - 1].1@ == arguments_for(ToolName::FsSearch, msg, false));
        }
        if said(lower, "write") || said(lower, "create") || said(lower, "save") {
            let mut f = text_args("path", "output.txt");
            push_field(
                &mut f,
                "contents",
                Json::Str(concat2("Generated content based on: ", message)),
            );
            push_field(&mut f, "create_if_missing", Json::Bool(true));
            push_field(&mut f, "overwrite", Json::Bool(false));
            let ghost before = called_tools(tools@);
            tools.push((ToolName::FsWrite, Json::object(f)));
            assert(called_tools(tools@) =~= before.push(ToolName::FsWrite));
            assert(tools@[tools@.len() - 1].1@ == arguments_for(ToolName::FsWrite, msg, false));
        }
        if said(lower, "patch") || said(lower, "diff") || said(lower, "apply") {
            let mut op = text_args("op", "set_file");
            push_field(&mut op, "path", Json::string("file.txt"));
            push_field(&mut op, "contents", Json::string("line1\nnew line\nline3\n"));
            let mut ops = no_items();
            push_item(&mut ops, Json::object(op));
            let mut f = no_fields();
            push_field(&mut f, "dry_run", Json::Bool(said(lower, "dry")));
            push_field(&mut f, "ops", Json::array(ops));
            let ghost before = called_tools(tools@);
            tools.push((ToolName::FsApplyPatch, Json::object(f)));
            assert(called_tools(tools@) =~= before.push(ToolName::FsApplyPatch));
            assert(tools@[tools@.len() - 1].1@ == arguments_for(ToolName::FsApplyPatch, msg, false));
        }
        if said(lower, "run") || said(lower, "execute") || said(lower, "command") || said(
            lower,
            "build",
        ) {
            let mut command = no_items();
            if said(lower, "build") {
                push_item(&mut command, Json::string("cargo"));
                push_item(&mut command, Json::string("build"));
            } else if said(lower, "test") {
                push_item(&mut command, Json::string("cargo"));
                push_item(&mut command, Json::string("test"));
            } else {
                push_item(&mut command, Json::string("echo"));
                push_item(&mut command, Json::string("Hello from shell"));
            }
            let mut f = no_fields();
            push_field(&mut f, "command", Json::array(command));
            push_field(&mut f, "cwd", Json::string("."));
            push_field(&mut f, "timeout_ms", Json::Int(10000));
            let ghost before = called_tools(tools@);
            tools.push((ToolName::ShellExec, Json::object(f)));
            assert(called_tools(tools@) =~= before.push(ToolName::ShellExec));
            assert(tools@[tools@.len() - 1].1@ == arguments_for(ToolName::ShellExec, msg, false));
        }
        if tools.len() == 0 {
            let mut read = text_args("path", "README.md");
            push_field(&mut read, "encoding", Json::string("utf-8"));
            tools.push((ToolName::FsRead, Json::object(read)));
            let mut search = text_args("query", "grok");
            push_field(&mut search, "regex", Json::Bool(false));
            push_field(&mut search, "case_insensitive", Json::Bool(true));
            push_field(&mut search, "multiline", Json::Bool(false));
            tools.push((ToolName::FsSearch, Json::object(search)));
            let mut command = no_items();
            push_item(&mut command, Json::string("echo"));
            push_item(&mut command, Json::string("Demo completed successfully!"));
            let mut shell = no_fields();
            push_field(&mut shell, "command", Json::array(command));
            push_field(&mut shell, "cwd", Json::string("."));
            push_field(&mut shell, "timeout_ms", Json::Int(5000));
            tools.push((ToolName::ShellExec, Json::object(shell)));
            assert(called_tools(tools@) =~= Seq::empty().push(ToolName::FsRead).push(
                ToolName::FsSearch,
            ).push(ToolName::ShellExec));
            assert(tools@[0].1@ == arguments_for(ToolName::FsRead, msg, true));
            assert(tools@[1].1@ == arguments_for(ToolName::FsSearch, msg, true));
            assert(tools@[2].1@ == arguments_for(ToolName::ShellExec, msg, true));
        }
        tools
    }
}

/// A step of the tool run that the agent plays: an event for the bus, a
/// pause of so many milliseconds, or a tool to execute.
#[derive(Debug)]
pub enum MockStep {
    Emit(AppEvent),
    Wait(u64),
    RunTool { tool: ToolName, args: Json },
}

/// What the agent says first.
pub open spec fn opening_text() -> Seq<char> {
    "I'll help you with that. Let me use some tools to analyze your request.\n\n"@
}

/// What the agent says last.
pub open spec fn closing_text() -> Seq<char> {
    "\nAll tools have completed successfully! I've processed your request using the appropriate tools."@
}

/// What the agent says before it uses a tool.
pub open spec fn tool_notice(tool: ToolName) -> Seq<char> {
    "Now I'm "@ + tool_description(tool) + " to help with your request...\n"@
}

/// The usage that the agent reports for a message: its length in bytes
/// as input and 150 tokens as output; nothing where the numbers do not fit.
pub open spec fn reported_usage(message: Seq<char>) -> Option<TokenUsage> {
    if byte_len(message) + 150 <= u32::MAX {
        Some(
            TokenUsage {
                input_tokens: byte_len(message) as u32,
                output_tokens: 150,
                total_tokens: (byte_len(message) + 150) as u32,
            },
        )
    } else {
        None
    }
}

/// The step is an event that streams the text.
pub open spec fn streams(step: MockStep, text: Seq<char>) -> bool {
    step matches MockStep::Emit(AppEvent::ChatDelta { text: t }) && t@ == text
}

/// The three steps of the `i`-th tool are in their places: the notice,
/// the tool with its arguments, and a pause of 300 milliseconds.
pub open spec fn plays_tool(steps: Seq<MockStep>, i: int, message: Seq<char>) -> bool {
    let tool = tools_for(message)[i];
    &&& streams(steps[3 + 3 * i], tool_notice(tool))
    &&& steps[4 + 3 * i] matches MockStep::RunTool { tool: t, args } && t == tool && args@
        == arguments_for(tool, message, is_demo(message))
    &&& steps[5 + 3 * i] == MockStep::Wait(300)
}

/// The steps are the tool run that the agent plays for a message: the
/// chat is created, the agent says that it will use tools and pauses for
/// 200 milliseconds, plays each tool that the message calls for, says
/// that it is done, and completes the chat with the usage.
pub open spec fn plays(steps: Seq<MockStep>, message: Seq<char>) -> bool {
    let n = tools_for(message).len() as int;
    &&& steps.len() == 3 * n + 5
    &&& steps[0] == MockStep::Emit(AppEvent::ChatCreated)
    &&& streams(steps[1], opening_text())
    &&& steps[2] == MockStep::Wait(200)
    &&& forall|i: int| 0 <= i < n ==> #[trigger] plays_tool(steps, i, message)
    &&& streams(steps[3 * n + 3], closing_text())
    &&& steps[3 * n + 4] matches MockStep::Emit(AppEvent::ChatCompleted { token_usage })
        && token_usage == reported_usage(message)
}

impl MockAgent {
    /// The usage that the agent reports for a message.
    pub fn report_usage(message: &str) -> (u: Option<TokenUsage>)
        ensures
            u == reported_usage(message@),
    {
        let n = byte_length(message);
        if n <= (u32::MAX - 150) as usize {
            Some(Self::usage_for(message))
        } else {
            None
        }
    }

    /// Simulate a tool-calling response to a message: the steps to play,
    /// in order.
    pub fn simulate_tool_calling_response(&self, message: &str) -> (steps: Vec<MockStep>)
        ensures
            plays(steps@, message@),
    {
        let tools = self.determine_tools_for_message(message);
        let mut steps: Vec<MockStep> = Vec::new();
        steps.push(MockStep::Emit(AppEvent::ChatCreated));
        steps.push(
            MockStep::Emit(
                AppEvent::ChatDelta {
                    text: String::from_str(
                        "I'll help you with that. Let me use some tools to analyze your request.\n\n",
                    ),
                },
            ),
        );
        steps.push(MockStep::Wait(200));
        let mut i: usize = 0;
        while i < tools.len()
            invariant
                i <= tools.len(),
                called_tools(tools@) == tools_for(message@),
                forall|k: int|
                    0 <= k < tools@.len() ==> (#[trigger] tools@[k]).1@ == arguments_for(
                        tools@[k].0,
                        message@,
                        is_demo(message@),
                    ),
                steps@.len() == 3 * i + 3,
                steps@[0] == MockStep::Emit(AppEvent::ChatCreated),
                streams(steps@[1], opening_text()),
                steps@[2] == MockStep::Wait(200),
                forall|k: int| 0 <= k < i ==> #[trigger] plays_tool(steps@, k, message@),
            decreases tools.len() - i,
        {
            let ghost before = steps@;
            let tool = tools[i].0;
            assert(called_tools(tools@)[i as int] == tool);
            let notice = concat3("Now I'm ", Self::describe_tool(tool), " to help with your request...\n");
            steps.push(MockStep::Emit(AppEvent::ChatDelta { text: notice }));
            steps.push(MockStep::RunTool { tool, args: tools[i].1.deep_clone() });
            steps.push(MockStep::Wait(300));
            proof {
                assert forall|k: int| 0 <= k < i implies #[trigger] plays_tool(
                    steps@,
                    k,
                    message@,
                ) by {
                    assert(plays_tool(before, k, message@));
                    assert(steps@[3 + 3 * k] == before[3 + 3 * k]);
                    assert(steps@[4 + 3 * k] == before[4 + 3 * k]);
                    assert(steps@[5 + 3 * k] == before[5 + 3 * k]);
                }
                assert(plays_tool(steps@, i as int, message@));
            }
            i += 1;
        }
        let ghost before = steps@;
        steps.push(
            MockStep::Emit(
                AppEvent::ChatDelta {
                    text: String::from_str(
                        "\nAll tools have completed successfully! I've processed your request using the appropriate tools.",
                    ),
                },
            ),
        );
        steps.push(MockStep::Emit(AppEvent::ChatCompleted { token_usage: Self::report_usage(message) }));
        proof {
            let n = tools_for(message@).len() as int;
            assert(n == tools@.len());
            assert forall|k: int| 0 <= k < n implies #[trigger] plays_tool(steps@, k, message@) by {
                assert(plays_tool(before, k, message@));
                assert(steps@[3 + 3 * k] == before[3 + 3 * k]);
                assert(steps@[4 + 3 * k] == before[4 + 3 * k]);
                assert(steps@[5 + 3 * k] == before[5 + 3 * k]);
            }
        }
        steps
    }
}

impl Default for MockAgent {
    /// A mock agent that takes 300 milliseconds to answer and has no bus.
    fn default() -> (r: Self)
        ensures
            !r.has_sender(),
    {
        Self::new()
    }
}

fn said(lower: &[char], word: &str) -> (b: bool)
    ensures
        b == contains_sub(lower@, word@),
{
    let w = str_chars(word);
    contains(lower, w.as_slice())
}

} // verus!
