//! The session: the log of a conversation and the live state of the tool
//! calls in it.

use vstd::prelude::*;
use vstd::string::StringExecFns;
use crate::agent::AgentInfo;
use crate::events::{EventSender, ToolName};
use crate::json::{
    items_view, json_parse, json_text, lemma_lookup_push, no_fields, no_items, opt_json_view,
    or_null, push_field, push_item, uint_view, Json, JsonView,
};
use crate::text::{concat2, str_eq};

verus! {

/// Status of a tool execution.
#[derive(Debug, Clone, Copy, PartialEq, Eq, Structural)]
pub enum ToolStatus {
    Running,
    Completed,
    Failed,
}

/// Who sent the message.
#[derive(Debug, Clone, Copy, PartialEq, Eq, Structural)]
pub enum MessageRole {
    User,
    Agent,
    System,
    Error,
    Tool,
}

/// A point in time: seconds and nanoseconds since the Unix epoch.
#[derive(Debug, Clone, Copy, PartialEq, Eq, Structural)]
pub struct Timestamp {
    pub secs: u64,
    pub nanos: u32,
}

/// `SystemTime::duration_since` the Unix epoch: the seconds and
/// nanoseconds of a point in time; zero for one before the epoch.
#[verifier::external_body]
fn since_epoch(t: &std::time::SystemTime) -> (r: Timestamp) {
    let d = t.duration_since(std::time::UNIX_EPOCH).unwrap_or_default();
    Timestamp { secs: d.as_secs(), nanos: d.subsec_nanos() }
}

impl Timestamp {
    /// The present time.
    pub fn now() -> Timestamp {
        since_epoch(&crate::agent::system_now())
    }
}

/// Information about a tool execution for tool messages.
#[derive(Debug)]
pub struct ToolMessageInfo {
    pub id: String,
    pub tool: ToolName,
    pub summary: String,
    pub args: Option<Json>,
    pub start_time: Timestamp,
    pub status: ToolStatus,
    pub stdout: String,
    pub stderr: String,
    pub result: Option<Json>,
}

/// The value of a `ToolMessageInfo`.
pub struct ToolInfoView {
    pub id: Seq<char>,
    pub tool: ToolName,
    pub summary: Seq<char>,
    pub args: Option<JsonView>,
    pub start_time: Timestamp,
    pub status: ToolStatus,
    pub stdout: Seq<char>,
    pub stderr: Seq<char>,
    pub result: Option<JsonView>,
}

impl View for ToolMessageInfo {
    type V = ToolInfoView;

    open spec fn view(&self) -> ToolInfoView {
        ToolInfoView {
            id: self.id@,
            tool: self.tool,
            summary: self.summary@,
            args: opt_json_view(self.args),
            start_time: self.start_time,
            status: self.status,
            stdout: self.stdout@,
            stderr: self.stderr@,
            result: opt_json_view(self.result),
        }
    }
}

/// A single message in the conversation.
#[derive(Debug)]
pub struct ChatMessage {
    pub role: MessageRole,
    pub content: String,
    /// Unix timestamp in seconds.
    pub timestamp_secs: u64,
    pub tool_info: Option<ToolMessageInfo>,
}

/// The value of a `ChatMessage`.
pub struct MessageView {
    pub role: MessageRole,
    pub content: Seq<char>,
    pub timestamp_secs: u64,
    pub tool_info: Option<ToolInfoView>,
}

impl View for ChatMessage {
    type V = MessageView;

    open spec fn view(&self) -> MessageView {
        MessageView {
            role: self.role,
            content: self.content@,
            timestamp_secs: self.timestamp_secs,
            tool_info: match self.tool_info {
                Some(info) => Some(info@),
                None => None,
            },
        }
    }
}

/// The values of a list of messages.
pub open spec fn messages_view(messages: Seq<ChatMessage>) -> Seq<MessageView> {
    Seq::new(messages.len(), |i: int| messages[i]@)
}

impl ToolMessageInfo {
    /// A copy with the same value.
    pub fn duplicate(&self) -> (r: ToolMessageInfo)
        ensures
            r@ == self@,
    {
        ToolMessageInfo {
            id: self.id.clone(),
            tool: self.tool,
            summary: self.summary.clone(),
            args: match &self.args {
                Some(a) => Some(a.deep_clone()),
                None => None,
            },
            start_time: self.start_time,
            status: self.status,
            stdout: self.stdout.clone(),
            stderr: self.stderr.clone(),
            result: match &self.result {
                Some(r) => Some(r.deep_clone()),
                None => None,
            },
        }
    }
}

impl ChatMessage {
    /// A copy with the same value.
    pub fn duplicate(&self) -> (r: ChatMessage)
        ensures
            r@ == self@,
    {
        ChatMessage {
            role: self.role,
            content: self.content.clone(),
            timestamp_secs: self.timestamp_secs,
            tool_info: match &self.tool_info {
                Some(info) => Some(info.duplicate()),
                None => None,
            },
        }
    }

    /// The message as it is shown.
    pub open spec fn formatted_spec(self) -> Seq<char> {
        match self.role {
            MessageRole::User => "You: "@ + self.content@,
            MessageRole::Agent => "Agent: "@ + self.content@,
            MessageRole::System => "System: "@ + self.content@,
            MessageRole::Error => "Error: "@ + self.content@,
            MessageRole::Tool => self.content@,
        }
    }

    /// Format the message for display.
    pub fn formatted_content(&self) -> (s: String)
        ensures
            s@ == self.formatted_spec(),
    {
        match self.role {
            MessageRole::User => concat2("You: ", self.content.as_str()),
            MessageRole::Agent => concat2("Agent: ", self.content.as_str()),
            MessageRole::System => concat2("System: ", self.content.as_str()),
            MessageRole::Error => concat2("Error: ", self.content.as_str()),
            MessageRole::Tool => self.content.clone(),
        }
    }

    /// The display colour of the role.
    pub open spec fn role_color_spec(self) -> Seq<char> {
        match self.role {
            MessageRole::User => "blue"@,
            MessageRole::Agent => "green"@,
            MessageRole::System => "yellow"@,
            MessageRole::Error => "red"@,
            MessageRole::Tool => "magenta"@,
        }
    }

    /// Get the display colour for this message role.
    pub fn role_color(&self) -> (s: &'static str)
        ensures
            s@ == self.role_color_spec(),
    {
        match self.role {
            MessageRole::User => "blue",
            MessageRole::Agent => "green",
            MessageRole::System => "yellow",
            MessageRole::Error => "red",
            MessageRole::Tool => "magenta",
        }
    }
}

/// Whether a message is the tool message of the call `id`.
pub open spec fn is_tool_message(m: ChatMessage, id: Seq<char>) -> bool {
    m.role == MessageRole::Tool && (m.tool_info matches Some(info) && info.id@ == id)
}

/// The position of the most recent tool message of the call `id` among
/// the first `n` messages.
pub open spec fn last_tool_message(messages: Seq<ChatMessage>, id: Seq<char>, n: int) -> Option<
    int,
>
    decreases n,
{
    if n <= 0 || n > messages.len() {
        None
    } else if is_tool_message(messages[n - 1], id) {
        Some(n - 1)
    } else {
        last_tool_message(messages, id, n - 1)
    }
}

/// The position that is found lies among the first `n` and holds a tool
/// message of the call.
pub proof fn lemma_last_tool_message(messages: Seq<ChatMessage>, id: Seq<char>, n: int)
    requires
        0 <= n <= messages.len(),
    ensures
        match last_tool_message(messages, id, n) {
            Some(i) => 0 <= i < n && is_tool_message(messages[i], id),
            None => true,
        },
    decreases n,
{
    if n > 0 && !is_tool_message(messages[n - 1], id) {
        lemma_last_tool_message(messages, id, n - 1);
    }
}

/// The later log keeps every message of the earlier one at its place, with
/// its role, its content and its time: nothing was removed or reordered.
pub open spec fn extends(earlier: Seq<ChatMessage>, later: Seq<ChatMessage>) -> bool {
    &&& earlier.len() <= later.len()
    &&& forall|i: int|
        0 <= i < earlier.len() ==> {
            &&& (#[trigger] later[i]).role == earlier[i].role
            &&& later[i].content@ == earlier[i].content@
            &&& later[i].timestamp_secs == earlier[i].timestamp_secs
            &&& later[i].tool_info is Some <==> earlier[i].tool_info is Some
        }
}

/// What a tool event does to the live record of its call.
pub enum ToolUpdate {
    Stdout(Seq<char>),
    Stderr(Seq<char>),
    Result(JsonView),
    End(bool),
}

/// The live record after an event.
pub open spec fn updated_info(info: ToolInfoView, update: ToolUpdate) -> ToolInfoView {
    match update {
        ToolUpdate::Stdout(chunk) => ToolInfoView { stdout: info.stdout + chunk, ..info },
        ToolUpdate::Stderr(chunk) => ToolInfoView { stderr: info.stderr + chunk, ..info },
        ToolUpdate::Result(payload) => ToolInfoView { result: Some(payload), ..info },
        ToolUpdate::End(ok) => ToolInfoView {
            status: if ok {
                ToolStatus::Completed
            } else {
                ToolStatus::Failed
            },
            ..info
        },
    }
}

/// The log after an event of the call `id`: the most recent tool message
/// of the call carries the updated record, every other message is as it
/// was. Without such a message nothing changes.
pub open spec fn routed(
    before: Seq<ChatMessage>,
    after: Seq<ChatMessage>,
    id: Seq<char>,
    update: ToolUpdate,
) -> bool {
    match last_tool_message(before, id, before.len() as int) {
        None => after == before,
        Some(at) => {
            &&& after.len() == before.len()
            &&& forall|i: int| 0 <= i < before.len() && i != at ==> after[i] == before[i]
            &&& after[at].role == before[at].role
            &&& after[at].content == before[at].content
            &&& after[at].timestamp_secs == before[at].timestamp_secs
            &&& after[at].tool_info matches Some(info) && info@ == updated_info(
                before[at].tool_info->Some_0@,
                update,
            )
        },
    }
}

/// Represents a chat session with conversation history.
pub struct Session {
    messages: Vec<ChatMessage>,
    agent_info: AgentInfo,
    event_sender: EventSender,
}

/// The greeting of an empty history.
pub open spec fn welcome_text() -> Seq<char> {
    "Welcome to Grok Code! Type your message and press Enter."@
}

impl Session {
    /// The messages of the session, in the order of the conversation.
    pub closed spec fn log(&self) -> Seq<ChatMessage> {
        self.messages@
    }

    /// Create a new session for the agent that the information describes.
    pub fn new(agent_info: AgentInfo, event_sender: EventSender) -> (r: Self)
        ensures
            r.log().len() == 0,
    {
        Self { messages: Vec::new(), agent_info, event_sender }
    }

    /// Get all messages in the session.
    pub fn messages(&self) -> (r: &[ChatMessage])
        ensures
            r@ == self.log(),
    {
        self.messages.as_slice()
    }

    /// Get agent information.
    pub fn agent_info(&self) -> (r: AgentInfo)
        ensures
            r.name@ == self.agent_info_spec().name@,
            r.description@ == self.agent_info_spec().description@,
            r.version@ == self.agent_info_spec().version@,
    {
        self.agent_info.duplicate()
    }

    /// The information about the agent of the session.
    pub closed spec fn agent_info_spec(&self) -> AgentInfo {
        self.agent_info
    }

    /// Another handle on the bus of the session.
    pub fn sender(&self) -> EventSender {
        self.event_sender.duplicate()
    }

    /// Appends a message with the given time.
    pub fn push_message(
        &mut self,
        role: MessageRole,
        content: String,
        timestamp_secs: u64,
        tool_info: Option<ToolMessageInfo>,
    )
        ensures
            final(self).log() == old(self).log().push(
                ChatMessage { role, content, timestamp_secs, tool_info },
            ),
            final(self).agent_info_spec() == old(self).agent_info_spec(),
            extends(old(self).log(), final(self).log()),
    {
        self.messages.push(ChatMessage { role, content, timestamp_secs, tool_info });
    }

    /// Add a user message to the conversation, stamped with the present
    /// time.
    pub fn add_user_message(&mut self, content: String)
        ensures
            final(self).log().len() == old(self).log().len() + 1,
            final(self).log().drop_last() == old(self).log(),
            final(self).log().last().role == MessageRole::User,
            final(self).log().last().content == content,
            final(self).log().last().tool_info is None,
            extends(old(self).log(), final(self).log()),
    {
        let now = Timestamp::now();
        self.push_message(MessageRole::User, content, now.secs, None);
        assert(self.log().drop_last() == old(self).log());
    }

    /// Add an agent message to the conversation, stamped with the present
    /// time, and hand back the text of the history to save.
    pub fn add_agent_message(&mut self, content: String) -> (saved: String)
        ensures
            final(self).log().len() == old(self).log().len() + 1,
            final(self).log().drop_last() == old(self).log(),
            final(self).log().last().role == MessageRole::Agent,
            final(self).log().last().content == content,
            final(self).log().last().tool_info is None,
            extends(old(self).log(), final(self).log()),
            saved@ == json_text(messages_json(messages_view(final(self).log()))),
    {
        let now = Timestamp::now();
        self.push_message(MessageRole::Agent, content, now.secs, None);
        assert(self.log().drop_last() == old(self).log());
        self.save()
    }

    /// Add a system message to the conversation, stamped with the present
    /// time.
    pub fn add_system_message(&mut self, content: String)
        ensures
            final(self).log().len() == old(self).log().len() + 1,
            final(self).log().drop_last() == old(self).log(),
            final(self).log().last().role == MessageRole::System,
            final(self).log().last().content == content,
            final(self).log().last().tool_info is None,
            extends(old(self).log(), final(self).log()),
    {
        let now = Timestamp::now();
        self.push_message(MessageRole::System, content, now.secs, None);
        assert(self.log().drop_last() == old(self).log());
    }

    /// Add an error message to the conversation, stamped with the present
    /// time.
    pub fn add_error_message(&mut self, content: String)
        ensures
            final(self).log().len() == old(self).log().len() + 1,
            final(self).log().drop_last() == old(self).log(),
            final(self).log().last().role == MessageRole::Error,
            final(self).log().last().content == content,
            final(self).log().last().tool_info is None,
            extends(old(self).log(), final(self).log()),
    {
        let now = Timestamp::now();
        self.push_message(MessageRole::Error, content, now.secs, None);
        assert(self.log().drop_last() == old(self).log());
    }

    /// Add a tool message to the conversation: its content says what the
    /// agent ran.
    pub fn add_tool_message(&mut self, tool_info: ToolMessageInfo)
        ensures
            final(self).log().len() == old(self).log().len() + 1,
            final(self).log().drop_last() == old(self).log(),
            final(self).log().last().role == MessageRole::Tool,
            final(self).log().last().content@ == "Agent ran "@ + tool_info.summary@,
            final(self).log().last().tool_info == Some(tool_info),
            extends(old(self).log(), final(self).log()),
    {
        let now = Timestamp::now();
        let content = concat2("Agent ran ", tool_info.summary.as_str());
        self.push_message(MessageRole::Tool, content, now.secs, Some(tool_info));
        assert(self.log().drop_last() == old(self).log());
    }

    /// Clear all messages: the log then holds one system message that says
    /// so.
    pub fn clear(&mut self)
        ensures
            final(self).log().len() == 1,
            final(self).log()[0].role == MessageRole::System,
            final(self).log()[0].content@ == "Conversation and context cleared."@,
            final(self).log()[0].tool_info is None,
    {
        self.messages.clear();
        self.add_system_message(String::from_str("Conversation and context cleared."));
    }

    /// Replace all messages with new ones.
    pub fn replace_messages(&mut self, messages: Vec<ChatMessage>)
        ensures
            final(self).log() == messages@,
            final(self).agent_info_spec() == old(self).agent_info_spec(),
    {
        self.messages = messages;
    }

    /// Takes a user input into the log and hands back the history to
    /// submit to the agent with it: a copy of the log that ends with the
    /// new message.
    pub fn handle_user_input(&mut self, input: String) -> (history: Vec<ChatMessage>)
        ensures
            final(self).log().len() == old(self).log().len() + 1,
            final(self).log().drop_last() == old(self).log(),
            final(self).log().last().role == MessageRole::User,
            final(self).log().last().content == input,
            final(self).log().last().tool_info is None,
            extends(old(self).log(), final(self).log()),
            messages_view(history@) == messages_view(final(self).log()),
    {
        self.add_user_message(input);
        self.snapshot()
    }

    /// A copy of the log.
    pub fn snapshot(&self) -> (history: Vec<ChatMessage>)
        ensures
            messages_view(history@) == messages_view(self.log()),
    {
        let mut out: Vec<ChatMessage> = Vec::new();
        let mut i: usize = 0;
        while i < self.messages.len()
            invariant
                i <= self.messages@.len(),
                out@.len() == i,
                forall|k: int| 0 <= k < i ==> (#[trigger] out@[k])@ == self.messages@[k]@,
            decreases self.messages.len() - i,
        {
            out.push(self.messages[i].duplicate());
            i += 1;
        }
        assert(messages_view(out@) =~= messages_view(self.messages@));
        out
    }

    /// Get all tool messages from the conversation.
    pub fn tool_messages(&self) -> (r: Vec<&ChatMessage>)
        ensures
            r@.map_values(|m: &ChatMessage| *m) == self.log().filter(
                |m: ChatMessage| m.role == MessageRole::Tool,
            ),
    {
        self.select(true)
    }

    /// Get all non-tool messages from the conversation.
    pub fn non_tool_messages(&self) -> (r: Vec<&ChatMessage>)
        ensures
            r@.map_values(|m: &ChatMessage| *m) == self.log().filter(
                |m: ChatMessage| m.role != MessageRole::Tool,
            ),
    {
        self.select(false)
    }

    fn select(&self, tools: bool) -> (r: Vec<&ChatMessage>)
        ensures
            r@.map_values(|m: &ChatMessage| *m) == self.messages@.filter(
                |m: ChatMessage| (m.role == MessageRole::Tool) == tools,
            ),
            tools ==> r@.map_values(|m: &ChatMessage| *m) == self.messages@.filter(
                |m: ChatMessage| m.role == MessageRole::Tool,
            ),
            !tools ==> r@.map_values(|m: &ChatMessage| *m) == self.messages@.filter(
                |m: ChatMessage| m.role != MessageRole::Tool,
            ),
    {
        let ghost pred = |m: ChatMessage| (m.role == MessageRole::Tool) == tools;
        let mut out: Vec<&ChatMessage> = Vec::new();
        let mut i: usize = 0;
        proof {
            assert(self.messages@.take(0).filter(pred) =~= Seq::empty());
            assert(out@.map_values(|m: &ChatMessage| *m) =~= Seq::empty());
        }
        while i < self.messages.len()
            invariant
                i <= self.messages@.len(),
                pred == (|m: ChatMessage| (m.role == MessageRole::Tool) == tools),
                out@.map_values(|m: &ChatMessage| *m) == self.messages@.take(i as int).filter(pred),
            decreases self.messages.len() - i,
        {
            let ghost before = out@.map_values(|m: &ChatMessage| *m);
            proof {
                let head = self.messages@.take(i as int);
                assert(self.messages@.take(i + 1) == head.push(self.messages@[i as int]));
                assert(head.push(self.messages@[i as int]).drop_last() == head);
                reveal(Seq::filter);
            }
            let is_tool = match self.messages[i].role {
                MessageRole::Tool => true,
                _ => false,
            };
            if is_tool == tools {
                out.push(&self.messages[i]);
                assert(out@.map_values(|m: &ChatMessage| *m) =~= before.push(
                    self.messages@[i as int],
                ));
            }
            i += 1;
        }
        proof {
            assert(self.messages@.take(self.messages@.len() as int) == self.messages@);
            if tools {
                assert(self.messages@.filter(pred) =~= self.messages@.filter(
                    |m: ChatMessage| m.role == MessageRole::Tool,
                )) by {
                    lemma_filter_same(
                        self.messages@,
                        pred,
                        |m: ChatMessage| m.role == MessageRole::Tool,
                    );
                }
            } else {
                assert(self.messages@.filter(pred) =~= self.messages@.filter(
                    |m: ChatMessage| m.role != MessageRole::Tool,
                )) by {
                    lemma_filter_same(
                        self.messages@,
                        pred,
                        |m: ChatMessage| m.role != MessageRole::Tool,
                    );
                }
            }
        }
        out
    }

    /// The position of the most recent tool message of the call `id`.
    fn find_tool_message(&self, id: &str) -> (r: Option<usize>)
        ensures
            match r {
                Some(i) => last_tool_message(self.messages@, id@, self.messages@.len() as int)
                    == Some(i as int) && i < self.messages@.len(),
                None => last_tool_message(self.messages@, id@, self.messages@.len() as int)
                    is None,
            },
    {
        let mut n: usize = self.messages.len();
        while n > 0
            invariant
                n <= self.messages@.len(),
                last_tool_message(self.messages@, id@, self.messages@.len() as int)
                    == last_tool_message(self.messages@, id@, n as int),
            decreases n,
        {
            let m = &self.messages[n - 1];
            let hit = match m.role {
                MessageRole::Tool => match &m.tool_info {
                    Some(info) => str_eq(info.id.as_str(), id),
                    None => false,
                },
                _ => false,
            };
            if hit {
                return Some(n - 1);
            }
            n -= 1;
        }
        None
    }

    /// Handle tool begin event: a new tool message whose record is running
    /// and has neither output nor result.
    pub fn handle_tool_begin(&mut self, id: String, tool: ToolName, summary: String, args: Option<
        Json,
    >)
        ensures
            final(self).log().len() == old(self).log().len() + 1,
            final(self).log().drop_last() == old(self).log(),
            extends(old(self).log(), final(self).log()),
            final(self).log().last().role == MessageRole::Tool,
            final(self).log().last().content@ == "Agent ran "@ + summary@,
            final(self).log().last().tool_info matches Some(info) && info.id == id && info.tool
                == tool && info.summary == summary && info.args == args && info.status
                == ToolStatus::Running && info.stdout@ == Seq::<char>::empty() && info.stderr@
                == Seq::<char>::empty() && info.result is None,
    {
        let tool_info = ToolMessageInfo {
            id,
            tool,
            summary,
            args,
            start_time: Timestamp::now(),
            status: ToolStatus::Running,
            stdout: String::new(),
            stderr: String::new(),
            result: None,
        };
        self.add_tool_message(tool_info);
    }

    /// Handle tool progress event: the log stays as it is.
    pub fn handle_tool_progress(&mut self, id: String, _message: String)
        ensures
            final(self).log() == old(self).log(),
    {
        let _ = self.find_tool_message(id.as_str());
    }

    fn take_tool_message(&mut self, id: &str) -> (r: Option<(usize, ChatMessage, ToolMessageInfo)>)
        ensures
            match r {
                Some((at, m, info)) => {
                    &&& last_tool_message(old(self).messages@, id@, old(self).messages@.len() as int)
                        == Some(at as int)
                    &&& at < old(self).messages@.len()
                    &&& final(self).messages@ == old(self).messages@.remove(at as int)
                    &&& m.role == old(self).messages@[at as int].role
                    &&& m.content == old(self).messages@[at as int].content
                    &&& m.timestamp_secs == old(self).messages@[at as int].timestamp_secs
                    &&& m.tool_info is None
                    &&& old(self).messages@[at as int].tool_info == Some(info)
                },
                None => {
                    &&& last_tool_message(old(self).messages@, id@, old(self).messages@.len() as int)
                        is None
                    &&& final(self).messages@ == old(self).messages@
                },
            },
            final(self).agent_info == old(self).agent_info,
    {
        match self.find_tool_message(id) {
            None => None,
            Some(at) => {
                proof {
                    lemma_last_tool_message(self.messages@, id@, self.messages@.len() as int);
                }
                let m = self.messages.remove(at);
                let ChatMessage { role, content, timestamp_secs, tool_info } = m;
                match tool_info {
                    Some(info) => Some(
                        (at, ChatMessage { role, content, timestamp_secs, tool_info: None }, info),
                    ),
                    None => {
                        assert(false);
                        None
                    },
                }
            },
        }
    }

    fn put_tool_message(&mut self, at: usize, m: ChatMessage, info: ToolMessageInfo)
        requires
            at <= old(self).messages@.len(),
        ensures
            final(self).messages@ == old(self).messages@.insert(
                at as int,
                ChatMessage {
                    role: m.role,
                    content: m.content,
                    timestamp_secs: m.timestamp_secs,
                    tool_info: Some(info),
                },
            ),
            final(self).agent_info == old(self).agent_info,
    {
        let ChatMessage { role, content, timestamp_secs, tool_info: _ } = m;
        self.messages.insert(at, ChatMessage { role, content, timestamp_secs, tool_info: Some(info) });
    }

    /// Handle tool stdout event: the chunk is appended to the output of
    /// the most recent tool message of the call.
    pub fn handle_tool_stdout(&mut self, id: String, chunk: String)
        ensures
            routed(old(self).log(), final(self).log(), id@, ToolUpdate::Stdout(chunk@)),
            extends(old(self).log(), final(self).log()),
    {
        match self.take_tool_message(id.as_str()) {
            None => {},
            Some((at, m, info)) => {
                let mut info = info;
                info.stdout.append(chunk.as_str());
                self.put_tool_message(at, m, info);
            },
        }
    }

    /// Handle tool stderr event: the chunk is appended to the error output
    /// of the most recent tool message of the call.
    pub fn handle_tool_stderr(&mut self, id: String, chunk: String)
        ensures
            routed(old(self).log(), final(self).log(), id@, ToolUpdate::Stderr(chunk@)),
            extends(old(self).log(), final(self).log()),
    {
        match self.take_tool_message(id.as_str()) {
            None => {},
            Some((at, m, info)) => {
                let mut info = info;
                info.stderr.append(chunk.as_str());
                self.put_tool_message(at, m, info);
            },
        }
    }

    /// Handle tool result event: the payload becomes the result of the
    /// most recent tool message of the call.
    pub fn handle_tool_result(&mut self, id: String, payload: Json)
        ensures
            routed(old(self).log(), final(self).log(), id@, ToolUpdate::Result(payload@)),
            extends(old(self).log(), final(self).log()),
    {
        match self.take_tool_message(id.as_str()) {
            None => {},
            Some((at, m, info)) => {
                let mut info = info;
                info.result = Some(payload);
                self.put_tool_message(at, m, info);
            },
        }
    }

    /// Handle tool end event: the most recent tool message of the call is
    /// completed or failed.
    pub fn handle_tool_end(&mut self, id: String, ok: bool, _duration_ms: u64)
        ensures
            routed(old(self).log(), final(self).log(), id@, ToolUpdate::End(ok)),
            extends(old(self).log(), final(self).log()),
    {
        match self.take_tool_message(id.as_str()) {
            None => {},
            Some((at, m, info)) => {
                let mut info = info;
                info.status = if ok {
                    ToolStatus::Completed
                } else {
                    ToolStatus::Failed
                };
                self.put_tool_message(at, m, info);
            },
        }
    }
}

// ---------------------------------------------------------------------------
// The history as a document
// ---------------------------------------------------------------------------

/// The name of a role in a saved history.
pub open spec fn role_name(role: MessageRole) -> Seq<char> {
    match role {
        MessageRole::User => "User"@,
        MessageRole::Agent => "Agent"@,
        MessageRole::System => "System"@,
        MessageRole::Error => "Error"@,
        MessageRole::Tool => "Tool"@,
    }
}

/// The role with the given name.
pub open spec fn role_of(name: Seq<char>) -> Option<MessageRole> {
    if name == "User"@ {
        Some(MessageRole::User)
    } else if name == "Agent"@ {
        Some(MessageRole::Agent)
    } else if name == "System"@ {
        Some(MessageRole::System)
    } else if name == "Error"@ {
        Some(MessageRole::Error)
    } else if name == "Tool"@ {
        Some(MessageRole::Tool)
    } else {
        None
    }
}

/// The name of a status in a saved history.
pub open spec fn status_name(status: ToolStatus) -> Seq<char> {
    match status {
        ToolStatus::Running => "Running"@,
        ToolStatus::Completed => "Completed"@,
        ToolStatus::Failed => "Failed"@,
    }
}

/// The status with the given name.
pub open spec fn status_of(name: Seq<char>) -> Option<ToolStatus> {
    if name == "Running"@ {
        Some(ToolStatus::Running)
    } else if name == "Completed"@ {
        Some(ToolStatus::Completed)
    } else if name == "Failed"@ {
        Some(ToolStatus::Failed)
    } else {
        None
    }
}

/// The document of a point in time.
pub open spec fn time_json(t: Timestamp) -> JsonView {
    JsonView::Object(
        Seq::empty().push(("secs_since_epoch"@, uint_view(t.secs as nat))).push(
            ("nanos_since_epoch"@, uint_view(t.nanos as nat)),
        ),
    )
}

/// The document of the live record of a tool call.
pub open spec fn tool_info_json(info: ToolInfoView) -> JsonView {
    JsonView::Object(
        Seq::empty().push(("id"@, JsonView::Str(info.id))).push(
            ("tool"@, JsonView::Str(info.tool.variant_name_spec())),
        ).push(("summary"@, JsonView::Str(info.summary))).push(("args"@, or_null(info.args))).push(
            ("start_time"@, time_json(info.start_time)),
        ).push(("status"@, JsonView::Str(status_name(info.status)))).push(
            ("stdout"@, JsonView::Str(info.stdout)),
        ).push(("stderr"@, JsonView::Str(info.stderr))).push(("result"@, or_null(info.result))),
    )
}

/// The document of a message.
pub open spec fn message_json(m: MessageView) -> JsonView {
    JsonView::Object(
        Seq::empty().push(("role"@, JsonView::Str(role_name(m.role)))).push(
            ("content"@, JsonView::Str(m.content)),
        ).push(("timestamp_secs"@, uint_view(m.timestamp_secs as nat))).push(
            (
                "tool_info"@,
                match m.tool_info {
                    Some(info) => tool_info_json(info),
                    None => JsonView::Null,
                },
            ),
        ),
    )
}

/// The document of a history: the array of the documents of its messages.
pub open spec fn messages_json(messages: Seq<MessageView>) -> JsonView {
    JsonView::Array(Seq::new(messages.len(), |i: int| message_json(messages[i])))
}

/// A member that may be absent or `null`.
pub open spec fn optional(j: JsonView, key: Seq<char>) -> Option<JsonView> {
    match j.get(key) {
        Some(JsonView::Null) => None,
        other => other,
    }
}

/// The point in time that a document describes.
pub open spec fn parse_time(j: JsonView) -> Option<Timestamp> {
    match (j.get("secs_since_epoch"@), j.get("nanos_since_epoch"@)) {
        (Some(s), Some(n)) => match (s.as_u64(), n.as_u64()) {
            (Some(secs), Some(nanos)) => if nanos <= u32::MAX {
                Some(Timestamp { secs, nanos: nanos as u32 })
            } else {
                None
            },
            _ => None,
        },
        _ => None,
    }
}

/// The text of the string member `key`.
pub open spec fn text_member(j: JsonView, key: Seq<char>) -> Option<Seq<char>> {
    match j.get(key) {
        Some(JsonView::Str(s)) => Some(s),
        _ => None,
    }
}

/// The live record that a document describes.
pub open spec fn parse_tool_info(j: JsonView) -> Option<ToolInfoView> {
    match (
        text_member(j, "id"@),
        text_member(j, "tool"@),
        text_member(j, "summary"@),
        j.get("start_time"@),
        text_member(j, "status"@),
        text_member(j, "stdout"@),
        text_member(j, "stderr"@),
    ) {
        (Some(id), Some(tool), Some(summary), Some(start), Some(status), Some(stdout), Some(stderr)) => {
            match (ToolName::of_variant_name(tool), parse_time(start), status_of(status)) {
                (Some(tool), Some(start_time), Some(status)) => Some(
                    ToolInfoView {
                        id,
                        tool,
                        summary,
                        args: optional(j, "args"@),
                        start_time,
                        status,
                        stdout,
                        stderr,
                        result: optional(j, "result"@),
                    },
                ),
                _ => None,
            }
        },
        _ => None,
    }
}

/// The message that a document describes.
pub open spec fn parse_message(j: JsonView) -> Option<MessageView> {
    match (text_member(j, "role"@), text_member(j, "content"@), j.get("timestamp_secs"@)) {
        (Some(role), Some(content), Some(ts)) => match (role_of(role), ts.as_u64()) {
            (Some(role), Some(timestamp_secs)) => match optional(j, "tool_info"@) {
                None => Some(MessageView { role, content, timestamp_secs, tool_info: None }),
                Some(t) => match parse_tool_info(t) {
                    Some(info) => Some(
                        MessageView { role, content, timestamp_secs, tool_info: Some(info) },
                    ),
                    None => None,
                },
            },
            _ => None,
        },
        _ => None,
    }
}

/// The history that a document describes: an array of messages.
pub open spec fn parse_messages(j: JsonView) -> Option<Seq<MessageView>> {
    match j {
        JsonView::Array(items) => if forall|i: int|
            0 <= i < items.len() ==> parse_message(#[trigger] items[i]) is Some {
            Some(Seq::new(items.len(), |i: int| parse_message(items[i])->Some_0))
        } else {
            None
        },
        _ => None,
    }
}

fn opt_to_json(v: &Option<Json>) -> (j: Json)
    ensures
        j@ == or_null(opt_json_view(*v)),
{
    match v {
        Some(x) => x.deep_clone(),
        None => Json::Null,
    }
}

impl Timestamp {
    /// The document of the point in time.
    pub fn to_json(&self) -> (j: Json)
        ensures
            j@ == time_json(*self),
    {
        let mut f = no_fields();
        push_field(&mut f, "secs_since_epoch", Json::from_u64(self.secs));
        push_field(&mut f, "nanos_since_epoch", Json::from_u64(self.nanos as u64));
        Json::object(f)
    }

    /// Reads a point in time from its document.
    pub fn from_json(j: &Json) -> (r: Option<Timestamp>)
        ensures
            r == parse_time(j@),
    {
        let secs = match j.get("secs_since_epoch") {
            Some(s) => s.as_u64(),
            None => {
                return None;
            },
        };
        let nanos = match j.get("nanos_since_epoch") {
            Some(n) => n.as_u64(),
            None => {
                return None;
            },
        };
        match (secs, nanos) {
            (Some(secs), Some(nanos)) => if nanos <= 4294967295u64 {
                Some(Timestamp { secs, nanos: nanos as u32 })
            } else {
                None
            },
            _ => None,
        }
    }
}

impl MessageRole {
    /// The name of the role in a saved history.
    pub fn name(&self) -> (s: &'static str)
        ensures
            s@ == role_name(*self),
    {
        match self {
            MessageRole::User => "User",
            MessageRole::Agent => "Agent",
            MessageRole::System => "System",
            MessageRole::Error => "Error",
            MessageRole::Tool => "Tool",
        }
    }

    /// The role with the given name.
    pub fn from_name(name: &str) -> (r: Option<MessageRole>)
        ensures
            r == role_of(name@),
    {
        if str_eq(name, "User") {
            Some(MessageRole::User)
        } else if str_eq(name, "Agent") {
            Some(MessageRole::Agent)
        } else if str_eq(name, "System") {
            Some(MessageRole::System)
        } else if str_eq(name, "Error") {
            Some(MessageRole::Error)
        } else if str_eq(name, "Tool") {
            Some(MessageRole::Tool)
        } else {
            None
        }
    }
}

impl ToolStatus {
    /// The name of the status in a saved history.
    pub fn name(&self) -> (s: &'static str)
        ensures
            s@ == status_name(*self),
    {
        match self {
            ToolStatus::Running => "Running",
            ToolStatus::Completed => "Completed",
            ToolStatus::Failed => "Failed",
        }
    }

    /// The status with the given name.
    pub fn from_name(name: &str) -> (r: Option<ToolStatus>)
        ensures
            r == status_of(name@),
    {
        if str_eq(name, "Running") {
            Some(ToolStatus::Running)
        } else if str_eq(name, "Completed") {
            Some(ToolStatus::Completed)
        } else if str_eq(name, "Failed") {
            Some(ToolStatus::Failed)
        } else {
            None
        }
    }
}

fn read_text(j: &Json, key: &str) -> (r: Option<String>)
    ensures
        crate::text::opt_text(r) == text_member(j@, key@),
{
    match j.get(key) {
        Some(v) => match v.as_str() {
            Some(s) => Some(String::from_str(s)),
            None => None,
        },
        None => None,
    }
}

fn read_optional(j: &Json, key: &str) -> (r: Option<Json>)
    ensures
        opt_json_view(r) == optional(j@, key@),
{
    match j.get(key) {
        Some(v) => if v.is_null() {
            None
        } else {
            Some(v.deep_clone())
        },
        None => None,
    }
}

impl ToolMessageInfo {
    /// The document of the record.
    pub fn to_json(&self) -> (j: Json)
        ensures
            j@ == tool_info_json(self@),
    {
        let mut f = no_fields();
        push_field(&mut f, "id", Json::Str(self.id.clone()));
        push_field(&mut f, "tool", Json::string(self.tool.variant_name()));
        push_field(&mut f, "summary", Json::Str(self.summary.clone()));
        push_field(&mut f, "args", opt_to_json(&self.args));
        push_field(&mut f, "start_time", self.start_time.to_json());
        push_field(&mut f, "status", Json::string(self.status.name()));
        push_field(&mut f, "stdout", Json::Str(self.stdout.clone()));
        push_field(&mut f, "stderr", Json::Str(self.stderr.clone()));
        push_field(&mut f, "result", opt_to_json(&self.result));
        Json::object(f)
    }

    /// Reads a record from its document.
    pub fn from_json(j: &Json) -> (r: Option<ToolMessageInfo>)
        ensures
            match r {
                Some(info) => parse_tool_info(j@) == Some(info@),
                None => parse_tool_info(j@) is None,
            },
    {
        let id = read_text(j, "id");
        let tool = read_text(j, "tool");
        let summary = read_text(j, "summary");
        let start = j.get("start_time");
        let status = read_text(j, "status");
        let stdout = read_text(j, "stdout");
        let stderr = read_text(j, "stderr");
        match (id, tool, summary, start, status, stdout, stderr) {
            (
                Some(id),
                Some(tool),
                Some(summary),
                Some(start),
                Some(status),
                Some(stdout),
                Some(stderr),
            ) => {
                match (
                    ToolName::from_variant_name(tool.as_str()),
                    Timestamp::from_json(start),
                    ToolStatus::from_name(status.as_str()),
                ) {
                    (Some(tool), Some(start_time), Some(status)) => Some(
                        ToolMessageInfo {
                            id,
                            tool,
                            summary,
                            args: read_optional(j, "args"),
                            start_time,
                            status,
                            stdout,
                            stderr,
                            result: read_optional(j, "result"),
                        },
                    ),
                    _ => None,
                }
            },
            _ => None,
        }
    }
}

impl ChatMessage {
    /// The document of the message.
    pub fn to_json(&self) -> (j: Json)
        ensures
            j@ == message_json(self@),
    {
        let mut f = no_fields();
        push_field(&mut f, "role", Json::string(self.role.name()));
        push_field(&mut f, "content", Json::Str(self.content.clone()));
        push_field(&mut f, "timestamp_secs", Json::from_u64(self.timestamp_secs));
        let info = match &self.tool_info {
            Some(info) => info.to_json(),
            None => Json::Null,
        };
        push_field(&mut f, "tool_info", info);
        Json::object(f)
    }

    /// Reads a message from its document.
    pub fn from_json(j: &Json) -> (r: Option<ChatMessage>)
        ensures
            match r {
                Some(m) => parse_message(j@) == Some(m@),
                None => parse_message(j@) is None,
            },
    {
        let role = read_text(j, "role");
        let content = read_text(j, "content");
        let ts = j.get("timestamp_secs");
        match (role, content, ts) {
            (Some(role), Some(content), Some(ts)) => {
                match (MessageRole::from_name(role.as_str()), ts.as_u64()) {
                    (Some(role), Some(timestamp_secs)) => {
                        match j.get("tool_info") {
                            None => Some(
                                ChatMessage { role, content, timestamp_secs, tool_info: None },
                            ),
                            Some(t) => {
                                if t.is_null() {
                                    Some(
                                        ChatMessage {
                                            role,
                                            content,
                                            timestamp_secs,
                                            tool_info: None,
                                        },
                                    )
                                } else {
                                    match ToolMessageInfo::from_json(t) {
                                        Some(info) => Some(
                                            ChatMessage {
                                                role,
                                                content,
                                                timestamp_secs,
                                                tool_info: Some(info),
                                            },
                                        ),
                                        None => None,
                                    }
                                }
                            },
                        }
                    },
                    _ => None,
                }
            },
            _ => None,
        }
    }
}

/// The document of a history.
pub fn messages_to_json(messages: &[ChatMessage]) -> (j: Json)
    ensures
        j@ == messages_json(messages_view(messages@)),
{
    let mut items = no_items();
    let mut i: usize = 0;
    while i < messages.len()
        invariant
            i <= messages.len(),
            items_view(items@) == Seq::new(i as nat, |k: int| message_json(messages@[k]@)),
        decreases messages.len() - i,
    {
        let ghost before = items_view(items@);
        let m = messages[i].to_json();
        push_item(&mut items, m);
        assert(items_view(items@) =~= Seq::new((i + 1) as nat, |k: int| message_json(messages@[k]@)));
        i += 1;
    }
    assert(items_view(items@) =~= messages_json(messages_view(messages@))->Array_0);
    Json::array(items)
}

/// Reads a history from its document.
pub fn messages_from_json(j: &Json) -> (r: Option<Vec<ChatMessage>>)
    ensures
        match r {
            Some(ms) => parse_messages(j@) == Some(messages_view(ms@)),
            None => parse_messages(j@) is None,
        },
{
    let items = match j.as_array() {
        Some(items) => items,
        None => {
            return None;
        },
    };
    let ghost iv = items_view(items@);
    let mut out: Vec<ChatMessage> = Vec::new();
    let mut i: usize = 0;
    while i < items.len()
        invariant
            i <= items.len(),
            iv == items_view(items@),
            j@ == JsonView::Array(iv),
            out@.len() == i,
            forall|k: int| 0 <= k < i ==> parse_message(#[trigger] iv[k]) == Some(out@[k]@),
        decreases items.len() - i,
    {
        assert(iv[i as int] == items@[i as int]@);
        match ChatMessage::from_json(&items[i]) {
            Some(m) => {
                out.push(m);
            },
            None => {
                return None;
            },
        }
        i += 1;
    }
    proof {
        assert forall|k: int| 0 <= k < iv.len() implies parse_message(#[trigger] iv[k]) is Some by {}
        assert(messages_view(out@) =~= parse_messages(j@)->Some_0);
    }
    Some(out)
}

impl Session {
    /// The text of the history to save: the canonical text of its
    /// document.
    pub fn save(&self) -> (text: String)
        ensures
            text@ == json_text(messages_json(messages_view(self.log()))),
    {
        let j = messages_to_json(self.messages.as_slice());
        j.to_text()
    }

    /// Replaces the history by the one that a saved text holds. `None`
    /// stands for a history file that does not exist. An empty history is
    /// greeted with a welcome message.
    pub fn load_into(&mut self, contents: Option<&str>) -> (r: Result<(), String>)
        ensures
            match r {
                Ok(_) => {
                    &&& contents matches Some(text) && json_parse(text@) matches Some(doc)
                        && parse_messages(doc) matches Some(loaded) && if loaded.len() == 0 {
                        &&& final(self).log().len() == 1
                        &&& final(self).log()[0].role == MessageRole::System
                        &&& final(self).log()[0].content@ == welcome_text()
                    } else {
                        messages_view(final(self).log()) == loaded
                    }
                },
                Err(e) => {
                    &&& final(self).log() == old(self).log()
                    &&& match contents {
                        None => e@ == "No history file found"@,
                        Some(text) => match json_parse(text@) {
                            None => true,
                            Some(doc) => parse_messages(doc) is None && e@
                                == "Invalid chat history"@,
                        },
                    }
                },
            },
    {
        let text = match contents {
            Some(t) => t,
            None => {
                return Err(String::from_str("No history file found"));
            },
        };
        let doc = match Json::parse(text) {
            Ok(d) => d,
            Err(e) => {
                return Err(e);
            },
        };
        let messages = match messages_from_json(&doc) {
            Some(ms) => ms,
            None => {
                return Err(String::from_str("Invalid chat history"));
            },
        };
        self.messages = messages;
        if self.messages.len() == 0 {
            self.add_system_message(
                String::from_str("Welcome to Grok Code! Type your message and press Enter."),
            );
        }
        Ok(())
    }

    /// The default path of the history file below the home directory, or
    /// below `/tmp` where no home directory is known.
    pub fn default_history_path(home: Option<&str>) -> (path: String)
        ensures
            path@ == (match home {
                Some(h) => h@,
                None => "/tmp"@,
            }) + "/.grok_code/chat_history.json"@,
    {
        match home {
            Some(h) => concat2(h, "/.grok_code/chat_history.json"),
            None => concat2("/tmp", "/.grok_code/chat_history.json"),
        }
    }
}

// ---------------------------------------------------------------------------
// Saving and loading
// ---------------------------------------------------------------------------

/// Whether a message is saved without loss. A tool message whose arguments
/// or result are the document `null` is not: `null` is also what stands for
/// their absence.
pub open spec fn saved_faithfully(m: MessageView) -> bool {
    match m.tool_info {
        Some(info) => info.args != Some(JsonView::Null) && info.result != Some(JsonView::Null),
        None => true,
    }
}

/// The name of a role names that role.
pub proof fn lemma_role_round_trip(x: MessageRole)
    ensures
        role_of(role_name(x)) == Some(x),
{
    reveal_strlit("User");
    reveal_strlit("Agent");
    reveal_strlit("System");
    reveal_strlit("Error");
    reveal_strlit("Tool");
    assert("User"@.len() != "Agent"@.len());
    assert("User"@.len() != "System"@.len());
    assert("User"@.len() != "Error"@.len());
    assert("User"@[0] != "Tool"@[0]);
    assert("Agent"@.len() != "System"@.len());
    assert("Agent"@[0] != "Error"@[0]);
    assert("Agent"@.len() != "Tool"@.len());
    assert("System"@.len() != "Error"@.len());
    assert("System"@.len() != "Tool"@.len());
    assert("Error"@.len() != "Tool"@.len());
}

/// The name of a status names that status.
pub proof fn lemma_status_round_trip(x: ToolStatus)
    ensures
        status_of(status_name(x)) == Some(x),
{
    reveal_strlit("Running");
    reveal_strlit("Completed");
    reveal_strlit("Failed");
    assert("Running"@.len() != "Completed"@.len());
    assert("Running"@.len() != "Failed"@.len());
    assert("Completed"@.len() != "Failed"@.len());
}

/// A point in time is read back from its document.
pub proof fn lemma_time_round_trip(t: Timestamp)
    ensures
        parse_time(time_json(t)) == Some(t),
{
    reveal_strlit("secs_since_epoch");
    reveal_strlit("nanos_since_epoch");
    assert("secs_since_epoch"@.len() != "nanos_since_epoch"@.len());
    let f0 = Seq::<(Seq<char>, JsonView)>::empty();
    let f1 = f0.push(("secs_since_epoch"@, uint_view(t.secs as nat)));
    let f2 = f1.push(("nanos_since_epoch"@, uint_view(t.nanos as nat)));
    lemma_lookup_push(f1, "nanos_since_epoch"@, uint_view(t.nanos as nat), "secs_since_epoch"@);
    lemma_lookup_push(f0, "secs_since_epoch"@, uint_view(t.secs as nat), "secs_since_epoch"@);
    lemma_lookup_push(f1, "nanos_since_epoch"@, uint_view(t.nanos as nat), "nanos_since_epoch"@);
}

/// The live record of a tool call is read back from its document.
pub proof fn lemma_tool_info_round_trip(info: ToolInfoView)
    requires
        info.args != Some(JsonView::Null),
        info.result != Some(JsonView::Null),
    ensures
        parse_tool_info(tool_info_json(info)) == Some(info),
{
    reveal_strlit("id");
    reveal_strlit("tool");
    reveal_strlit("summary");
    reveal_strlit("args");
    reveal_strlit("start_time");
    reveal_strlit("status");
    reveal_strlit("stdout");
    reveal_strlit("stderr");
    reveal_strlit("result");
    assert("id"@.len() != "tool"@.len());
    assert("id"@.len() != "summary"@.len());
    assert("id"@.len() != "args"@.len());
    assert("id"@.len() != "start_time"@.len());
    assert("id"@.len() != "status"@.len());
    assert("id"@.len() != "stdout"@.len());
    assert("id"@.len() != "stderr"@.len());
    assert("id"@.len() != "result"@.len());
    assert("tool"@.len() != "summary"@.len());
    assert("tool"@[0] != "args"@[0]);
    assert("tool"@.len() != "start_time"@.len());
    assert("tool"@.len() != "status"@.len());
    assert("tool"@.len() != "stdout"@.len());
    assert("tool"@.len() != "stderr"@.len());
    assert("tool"@.len() != "result"@.len());
    assert("summary"@.len() != "args"@.len());
    assert("summary"@.len() != "start_time"@.len());
    assert("summary"@.len() != "status"@.len());
    assert("summary"@.len() != "stdout"@.len());
    assert("summary"@.len() != "stderr"@.len());
    assert("summary"@.len() != "result"@.len());
    assert("args"@.len() != "start_time"@.len());
    assert("args"@.len() != "status"@.len());
    assert("args"@.len() != "stdout"@.len());
    assert("args"@.len() != "stderr"@.len());
    assert("args"@.len() != "result"@.len());
    assert("start_time"@.len() != "status"@.len());
    assert("start_time"@.len() != "stdout"@.len());
    assert("start_time"@.len() != "stderr"@.len());
    assert("start_time"@.len() != "result"@.len());
    assert("status"@[2] != "stdout"@[2]);
    assert("status"@[2] != "stderr"@[2]);
    assert("status"@[0] != "result"@[0]);
    assert("stdout"@[3] != "stderr"@[3]);
    assert("stdout"@[0] != "result"@[0]);
    assert("stderr"@[0] != "result"@[0]);
    let f0 = Seq::<(Seq<char>, JsonView)>::empty();
    let f1 = f0.push(("id"@, JsonView::Str(info.id)));
    let f2 = f1.push(("tool"@, JsonView::Str(info.tool.variant_name_spec())));
    let f3 = f2.push(("summary"@, JsonView::Str(info.summary)));
    let f4 = f3.push(("args"@, or_null(info.args)));
    let f5 = f4.push(("start_time"@, time_json(info.start_time)));
    let f6 = f5.push(("status"@, JsonView::Str(status_name(info.status))));
    let f7 = f6.push(("stdout"@, JsonView::Str(info.stdout)));
    let f8 = f7.push(("stderr"@, JsonView::Str(info.stderr)));
    let f9 = f8.push(("result"@, or_null(info.result)));
    lemma_lookup_push(f8, "result"@, or_null(info.result), "id"@);
    lemma_lookup_push(f7, "stderr"@, JsonView::Str(info.stderr), "id"@);
    lemma_lookup_push(f6, "stdout"@, JsonView::Str(info.stdout), "id"@);
    lemma_lookup_push(f5, "status"@, JsonView::Str(status_name(info.status)), "id"@);
    lemma_lookup_push(f4, "start_time"@, time_json(info.start_time), "id"@);
    lemma_lookup_push(f3, "args"@, or_null(info.args), "id"@);
    lemma_lookup_push(f2, "summary"@, JsonView::Str(info.summary), "id"@);
    lemma_lookup_push(f1, "tool"@, JsonView::Str(info.tool.variant_name_spec()), "id"@);
    lemma_lookup_push(f0, "id"@, JsonView::Str(info.id), "id"@);
    lemma_lookup_push(f8, "result"@, or_null(info.result), "tool"@);
    lemma_lookup_push(f7, "stderr"@, JsonView::Str(info.stderr), "tool"@);
    lemma_lookup_push(f6, "stdout"@, JsonView::Str(info.stdout), "tool"@);
    lemma_lookup_push(f5, "status"@, JsonView::Str(status_name(info.status)), "tool"@);
    lemma_lookup_push(f4, "start_time"@, time_json(info.start_time), "tool"@);
    lemma_lookup_push(f3, "args"@, or_null(info.args), "tool"@);
    lemma_lookup_push(f2, "summary"@, JsonView::Str(info.summary), "tool"@);
    lemma_lookup_push(f1, "tool"@, JsonView::Str(info.tool.variant_name_spec()), "tool"@);
    lemma_lookup_push(f8, "result"@, or_null(info.result), "summary"@);
    lemma_lookup_push(f7, "stderr"@, JsonView::Str(info.stderr), "summary"@);
    lemma_lookup_push(f6, "stdout"@, JsonView::Str(info.stdout), "summary"@);
    lemma_lookup_push(f5, "status"@, JsonView::Str(status_name(info.status)), "summary"@);
    lemma_lookup_push(f4, "start_time"@, time_json(info.start_time), "summary"@);
    lemma_lookup_push(f3, "args"@, or_null(info.args), "summary"@);
    lemma_lookup_push(f2, "summary"@, JsonView::Str(info.summary), "summary"@);
    lemma_lookup_push(f8, "result"@, or_null(info.result), "args"@);
    lemma_lookup_push(f7, "stderr"@, JsonView::Str(info.stderr), "args"@);
    lemma_lookup_push(f6, "stdout"@, JsonView::Str(info.stdout), "args"@);
    lemma_lookup_push(f5, "status"@, JsonView::Str(status_name(info.status)), "args"@);
    lemma_lookup_push(f4, "start_time"@, time_json(info.start_time), "args"@);
    lemma_lookup_push(f3, "args"@, or_null(info.args), "args"@);
    lemma_lookup_push(f8, "result"@, or_null(info.result), "start_time"@);
    lemma_lookup_push(f7, "stderr"@, JsonView::Str(info.stderr), "start_time"@);
    lemma_lookup_push(f6, "stdout"@, JsonView::Str(info.stdout), "start_time"@);
    lemma_lookup_push(f5, "status"@, JsonView::Str(status_name(info.status)), "start_time"@);
    lemma_lookup_push(f4, "start_time"@, time_json(info.start_time), "start_time"@);
    lemma_lookup_push(f8, "result"@, or_null(info.result), "status"@);
    lemma_lookup_push(f7, "stderr"@, JsonView::Str(info.stderr), "status"@);
    lemma_lookup_push(f6, "stdout"@, JsonView::Str(info.stdout), "status"@);
    lemma_lookup_push(f5, "status"@, JsonView::Str(status_name(info.status)), "status"@);
    lemma_lookup_push(f8, "result"@, or_null(info.result), "stdout"@);
    lemma_lookup_push(f7, "stderr"@, JsonView::Str(info.stderr), "stdout"@);
    lemma_lookup_push(f6, "stdout"@, JsonView::Str(info.stdout), "stdout"@);
    lemma_lookup_push(f8, "result"@, or_null(info.result), "stderr"@);
    lemma_lookup_push(f7, "stderr"@, JsonView::Str(info.stderr), "stderr"@);
    lemma_lookup_push(f8, "result"@, or_null(info.result), "result"@);
    crate::events::law_variant_name_round_trip(info.tool);
    lemma_status_round_trip(info.status);
    lemma_time_round_trip(info.start_time);
}

/// A message is read back from its document.
pub proof fn lemma_message_round_trip(m: MessageView)
    requires
        saved_faithfully(m),
    ensures
        parse_message(message_json(m)) == Some(m),
{
    let info_doc = match m.tool_info {
        Some(info) => tool_info_json(info),
        None => JsonView::Null,
    };
    reveal_strlit("role");
    reveal_strlit("content");
    reveal_strlit("timestamp_secs");
    reveal_strlit("tool_info");
    assert("role"@.len() != "content"@.len());
    assert("role"@.len() != "timestamp_secs"@.len());
    assert("role"@.len() != "tool_info"@.len());
    assert("content"@.len() != "timestamp_secs"@.len());
    assert("content"@.len() != "tool_info"@.len());
    assert("timestamp_secs"@.len() != "tool_info"@.len());
    let f0 = Seq::<(Seq<char>, JsonView)>::empty();
    let f1 = f0.push(("role"@, JsonView::Str(role_name(m.role))));
    let f2 = f1.push(("content"@, JsonView::Str(m.content)));
    let f3 = f2.push(("timestamp_secs"@, uint_view(m.timestamp_secs as nat)));
    let f4 = f3.push(("tool_info"@, info_doc));
    lemma_lookup_push(f3, "tool_info"@, info_doc, "role"@);
    lemma_lookup_push(f2, "timestamp_secs"@, uint_view(m.timestamp_secs as nat), "role"@);
    lemma_lookup_push(f1, "content"@, JsonView::Str(m.content), "role"@);
    lemma_lookup_push(f0, "role"@, JsonView::Str(role_name(m.role)), "role"@);
    lemma_lookup_push(f3, "tool_info"@, info_doc, "content"@);
    lemma_lookup_push(f2, "timestamp_secs"@, uint_view(m.timestamp_secs as nat), "content"@);
    lemma_lookup_push(f1, "content"@, JsonView::Str(m.content), "content"@);
    lemma_lookup_push(f3, "tool_info"@, info_doc, "timestamp_secs"@);
    lemma_lookup_push(f2, "timestamp_secs"@, uint_view(m.timestamp_secs as nat), "timestamp_secs"@);
    lemma_lookup_push(f3, "tool_info"@, info_doc, "tool_info"@);
    lemma_role_round_trip(m.role);
    match m.tool_info {
        Some(info) => lemma_tool_info_round_trip(info),
        None => {},
    }
}

/// Round trip: the history that is read from the document of a history is
/// that history.
pub proof fn law_history_round_trip(messages: Seq<MessageView>)
    requires
        forall|i: int| 0 <= i < messages.len() ==> saved_faithfully(#[trigger] messages[i]),
    ensures
        parse_messages(messages_json(messages)) == Some(messages),
{
    let items = messages_json(messages)->Array_0;
    assert forall|i: int| 0 <= i < items.len() implies parse_message(#[trigger] items[i]) == Some(
        messages[i],
    ) by {
        assert(saved_faithfully(messages[i]));
        lemma_message_round_trip(messages[i]);
    }
    assert(parse_messages(messages_json(messages))->Some_0 =~= messages);
}

/// Two predicates that agree everywhere select the same items.
pub proof fn lemma_filter_same<A>(s: Seq<A>, p: spec_fn(A) -> bool, q: spec_fn(A) -> bool)
    requires
        forall|a: A| #[trigger] p(a) == q(a),
    ensures
        s.filter(p) == s.filter(q),
    decreases s.len(),
{
    reveal(Seq::filter);
    if s.len() > 0 {
        lemma_filter_same(s.drop_last(), p, q);
    }
}

} // verus!
