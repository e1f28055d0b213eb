//! The agent that talks to chat-completion providers: what it sends, how it
//! reads what comes back, how it falls back from one provider to the next,
//! and how it leads a conversation through its turns.

use vstd::prelude::*;
use vstd::string::StringExecFns;
use crate::agent::{AgentError, AgentInfo, AgentResponse, ResponseMetadata};
use crate::events::{AppEvent, EventSender, TokenUsage, ToolName, ToolSpec};
use crate::json::{
    items_view, json_parse, json_text, no_fields, no_items, present, push_field, push_item, Json,
    JsonView,
};
use crate::session::{ChatMessage, MessageRole, MessageView};
use crate::text::{concat2, concat3, u64_to_string, decimal};
use crate::tools::registry::{input_schema_view, catalog_tool, is_entry_of, validation_error, ToolRegistry};

verus! {

/// One provider of chat completions.
#[derive(Debug)]
pub struct ModelConfig {
    pub base_url: String,
    pub api_key: String,
    pub model: String,
    pub name: String,
}

/// The endpoint of the primary provider.
pub open spec fn openrouter_url() -> Seq<char> {
    "https://openrouter.ai/api/v1/chat/completions"@
}

/// The endpoint of the gateway that serves as fallback.
pub open spec fn gateway_url() -> Seq<char> {
    "https://ai-gateway.vercel.sh/v1/chat/completions"@
}

/// The providers of an agent for a key and a model of the primary
/// provider: the primary provider first, then the gateway where a key and
/// a model for it are given, else the primary provider a second time.
pub open spec fn is_configured(
    configs: Seq<ModelConfig>,
    api_key: Seq<char>,
    model: Seq<char>,
    fallback: Option<(String, String)>,
) -> bool {
    &&& configs.len() == 2
    &&& configs[0].base_url@ == openrouter_url()
    &&& configs[0].api_key@ == api_key
    &&& configs[0].model@ == model
    &&& configs[0].name@ == "OpenRouter"@
    &&& match fallback {
        Some((key, gateway_model)) => {
            &&& configs[1].base_url@ == gateway_url()
            &&& configs[1].api_key@ == key@
            &&& configs[1].model@ == gateway_model@
            &&& configs[1].name@ == "Vercel AI Gateway"@
        },
        None => {
            &&& configs[1].base_url@ == openrouter_url()
            &&& configs[1].api_key@ == api_key
            &&& configs[1].model@ == model
            &&& configs[1].name@ == "OpenRouter Fallback"@
        },
    }
}

/// The instructions that open every conversation.
pub open spec fn system_prompt_text() -> Seq<char> {
    "You are a coding agent running in Grok Code, a terminal-based coding assistant. You are expected to be precise, safe, and helpful.\n\nYour capabilities:\n- Receive user prompts and analyze codebases\n- Use tools to read files, search code, write files, apply structured edits, and execute shell commands\n- Communicate clearly and concisely with users\n- Help with debugging, code analysis, implementation, and development tasks\n\n# Personality\nYour default personality is concise, direct, and friendly. You communicate efficiently, keeping users clearly informed about ongoing actions without unnecessary detail. You prioritize actionable guidance, clearly stating assumptions and next steps.\n\n# Tool Usage Guidelines\n\n**File Operations:**\n- Use `fs.read` to read file contents with optional byte ranges\n- Use `fs.search` to find code patterns, functions, or text across the codebase\n- Use `fs.write` to create or modify files (respects overwrite settings)\n- Use `fs.apply_patch` to apply an ordered list of edit operations, each anchored by unique content\n- Use `fs.find` to locate files and directories by name with fuzzy matching\n- Use `large_context_fetch` to let the model pick the files that matter for a query\n\n**Code Analysis:**\n- Use `code.symbols` to extract symbols (functions, classes, structs, etc.) from source files\n\n**Shell Commands:**\n- Use `shell.exec` to run terminal commands, build projects, run tests, etc.\n- You receive the complete stdout and stderr output from commands, allowing you to analyze results and debug issues\n- Set appropriate working directories and timeouts\n- Always explain what commands do before running them\n\n# Best Practices\n\n- Read key files like README, main entry points, and configuration files first\n- Understand project structure before making changes\n- Be cautious with destructive operations\n- Prefer small, focused changes over large refactors\n\nYour goal is to be a helpful, efficient coding partner that understands codebases quickly and makes precise, well-reasoned changes."@
}

/// The provider role of a session role.
pub open spec fn provider_role(role: MessageRole) -> Seq<char> {
    match role {
        MessageRole::User => "user"@,
        MessageRole::Agent => "assistant"@,
        MessageRole::System => "system"@,
        MessageRole::Error => "system"@,
        MessageRole::Tool => "tool"@,
    }
}

/// The document with the two streams of a tool execution.
pub open spec fn streams_json(stdout: Seq<char>, stderr: Seq<char>) -> JsonView {
    JsonView::Object(
        Seq::empty().push(("stdout"@, JsonView::Str(stdout))).push(
            ("stderr"@, JsonView::Str(stderr)),
        ),
    )
}

/// The content that a message of the session has for the provider: an
/// error is marked as such, a tool message carries the text of its two
/// streams and not its result.
pub open spec fn provider_content(m: MessageView) -> Seq<char> {
    match m.role {
        MessageRole::Error => "[error] "@ + m.content,
        MessageRole::Tool => match m.tool_info {
            Some(info) => json_text(streams_json(info.stdout, info.stderr)),
            None => m.content,
        },
        _ => m.content,
    }
}

/// The entry of the provider's message array for a message of the session.
/// A tool message carries the id of its call.
pub open spec fn history_entry(m: MessageView) -> JsonView {
    if m.role == MessageRole::Tool && m.tool_info is Some {
        JsonView::Object(
            Seq::empty().push(("role"@, JsonView::Str(provider_role(m.role)))).push(
                ("tool_call_id"@, JsonView::Str(m.tool_info->Some_0.id)),
            ).push(("content"@, JsonView::Str(provider_content(m)))),
        )
    } else {
        plain_message(provider_role(m.role), provider_content(m))
    }
}

/// A message of the provider's array with a role and a content.
pub open spec fn plain_message(role: Seq<char>, content: Seq<char>) -> JsonView {
    JsonView::Object(
        Seq::empty().push(("role"@, JsonView::Str(role))).push(("content"@, JsonView::Str(content))),
    )
}

/// The entries for a history, in its order.
pub open spec fn history_entries(history: Seq<MessageView>) -> Seq<JsonView> {
    Seq::new(history.len(), |i: int| history_entry(history[i]))
}

/// The declaration of a tool for the provider.
pub open spec fn tool_declaration(tool: ToolName) -> JsonView {
    JsonView::Object(
        Seq::empty().push(("type"@, JsonView::Str("function"@))).push(
            (
                "function"@,
                JsonView::Object(
                    Seq::empty().push(("name"@, JsonView::Str(tool.wire_name_spec()))).push(
                        ("description"@, JsonView::Str("Tool: "@ + tool.variant_name_spec())),
                    ).push(("parameters"@, input_schema_view(tool))),
                ),
            ),
        ),
    )
}

/// The declarations of all tools, in the order of the catalog.
pub open spec fn tool_declarations() -> Seq<JsonView> {
    Seq::new(8, |i: int| tool_declaration(catalog_tool(i)))
}

/// The body of a request: the model, the messages, the tools, and the
/// choice of tool left to the model.
pub open spec fn request_body_view(model: Seq<char>, messages: Seq<JsonView>, tools: Seq<JsonView>)
    -> JsonView {
    JsonView::Object(
        Seq::empty().push(("model"@, JsonView::Str(model))).push(
            ("messages"@, JsonView::Array(messages)),
        ).push(("tools"@, JsonView::Array(tools))).push(("tool_choice"@, JsonView::Str("auto"@))),
    )
}

/// The messages that open a conversation: the system prompt, the history,
/// the message of the present turn.
pub open spec fn opening_messages(history: Seq<MessageView>, message: Seq<char>) -> Seq<JsonView> {
    (Seq::empty().push(plain_message("system"@, system_prompt_text())) + history_entries(
        history,
    )).push(plain_message("user"@, message))
}

fn message_json(role: &str, content: &str) -> (j: Json)
    ensures
        j@ == plain_message(role@, content@),
{
    let mut f = no_fields();
    push_field(&mut f, "role", Json::string(role));
    push_field(&mut f, "content", Json::string(content));
    Json::object(f)
}

fn copy_items(items: &Vec<Json>) -> (r: Vec<Json>)
    ensures
        items_view(r@) == items_view(items@),
{
    let mut out: Vec<Json> = Vec::new();
    let mut i: usize = 0;
    while i < items.len()
        invariant
            i <= items.len(),
            out@.len() == i,
            forall|k: int| 0 <= k < i ==> (#[trigger] out@[k])@ == items@[k]@,
        decreases items.len() - i,
    {
        out.push(items[i].deep_clone());
        i += 1;
    }
    assert(items_view(out@) =~= items_view(items@));
    out
}

/// The agent that talks to chat-completion providers, with fallback from
/// one provider to the next.
pub struct MultiModelAgent {
    info: AgentInfo,
    model_configs: Vec<ModelConfig>,
    event_sender: EventSender,
    tools: ToolRegistry,
}

impl MultiModelAgent {
    /// The providers of the agent, in the order in which they are tried.
    pub closed spec fn configs(&self) -> Seq<ModelConfig> {
        self.model_configs@
    }

    /// An agent whose primary provider is OpenRouter with the given key
    /// and model. `fallback` is the key and the model of the gateway where
    /// one is configured; without it the primary provider is tried a second
    /// time.
    pub fn new(
        api_key: String,
        model: String,
        fallback: Option<(String, String)>,
        event_sender: EventSender,
    ) -> (r: Self)
        ensures
            is_configured(r.configs(), api_key@, model@, fallback),
    {
        let mut model_configs: Vec<ModelConfig> = Vec::new();
        model_configs.push(
            ModelConfig {
                base_url: String::from_str("https://openrouter.ai/api/v1/chat/completions"),
                api_key: api_key.clone(),
                model: model.clone(),
                name: String::from_str("OpenRouter"),
            },
        );
        match fallback {
            Some((key, gateway_model)) => {
                model_configs.push(
                    ModelConfig {
                        base_url: String::from_str(
                            "https://ai-gateway.vercel.sh/v1/chat/completions",
                        ),
                        api_key: key,
                        model: gateway_model,
                        name: String::from_str("Vercel AI Gateway"),
                    },
                );
            },
            None => {
                model_configs.push(
                    ModelConfig {
                        base_url: String::from_str("https://openrouter.ai/api/v1/chat/completions"),
                        api_key,
                        model,
                        name: String::from_str("OpenRouter Fallback"),
                    },
                );
            },
        }
        Self {
            info: AgentInfo {
                name: String::from_str("Multi-Model Agent"),
                description: String::from_str(
                    "Agent with multiple model provider support and fallback",
                ),
                version: String::from_str("0.1.0"),
            },
            model_configs,
            event_sender,
            tools: ToolRegistry::new(),
        }
    }

    /// Information about the agent.
    pub fn info(&self) -> (r: AgentInfo)
        ensures
            r.name@ == self.info_spec().name@,
            r.description@ == self.info_spec().description@,
            r.version@ == self.info_spec().version@,
    {
        self.info.duplicate()
    }

    /// Information about the agent.
    pub closed spec fn info_spec(&self) -> AgentInfo {
        self.info
    }

    /// The providers of the agent, in the order in which they are tried.
    pub fn model_configs(&self) -> (r: &Vec<ModelConfig>)
        ensures
            r@ == self.configs(),
    {
        &self.model_configs
    }

    /// Another handle on the bus of the agent.
    pub fn sender(&self) -> EventSender {
        self.event_sender.duplicate()
    }

    /// The tool that the model names.
    pub fn tool_name_from_string(&self, name: &str) -> (r: Option<ToolName>)
        ensures
            r == ToolName::of_wire_name(name@),
    {
        ToolName::from_wire_name(name)
    }

    /// The declarations of the tools for the provider.
    pub fn tool_specs_for_openai(&self) -> (r: Vec<Json>)
        ensures
            items_view(r@) == tool_declarations(),
    {
        let specs = self.tools.get_all_specs();
        let mut out = no_items();
        let mut i: usize = 0;
        while i < specs.len()
            invariant
                i <= specs@.len(),
                specs@.len() == 8,
                forall|k: int| 0 <= k < 8 ==> is_entry_of(*#[trigger] specs@[k], catalog_tool(k)),
                items_view(out@) == Seq::new(i as nat, |k: int| tool_declaration(catalog_tool(k))),
            decreases specs.len() - i,
        {
            let spec: &ToolSpec = specs[i];
            assert(is_entry_of(*specs@[i as int], catalog_tool(i as int)));
            let mut function = no_fields();
            push_field(&mut function, "name", Json::string(spec.name.wire_name()));
            push_field(
                &mut function,
                "description",
                Json::Str(concat2("Tool: ", spec.name.variant_name())),
            );
            push_field(&mut function, "parameters", spec.input_schema.deep_clone());
            let mut decl = no_fields();
            push_field(&mut decl, "type", Json::string("function"));
            push_field(&mut decl, "function", Json::object(function));
            push_item(&mut out, Json::object(decl));
            assert(items_view(out@) =~= Seq::new(
                (i + 1) as nat,
                |k: int| tool_declaration(catalog_tool(k)),
            ));
            i += 1;
        }
        out
    }

    /// The instructions that open every conversation.
    pub fn get_system_prompt(&self) -> (s: String)
        ensures
            s@ == system_prompt_text(),
    {
        String::from_str(
            "You are a coding agent running in Grok Code, a terminal-based coding assistant. You are expected to be precise, safe, and helpful.\n\nYour capabilities:\n- Receive user prompts and analyze codebases\n- Use tools to read files, search code, write files, apply structured edits, and execute shell commands\n- Communicate clearly and concisely with users\n- Help with debugging, code analysis, implementation, and development tasks\n\n# Personality\nYour default personality is concise, direct, and friendly. You communicate efficiently, keeping users clearly informed about ongoing actions without unnecessary detail. You prioritize actionable guidance, clearly stating assumptions and next steps.\n\n# Tool Usage Guidelines\n\n**File Operations:**\n- Use `fs.read` to read file contents with optional byte ranges\n- Use `fs.search` to find code patterns, functions, or text across the codebase\n- Use `fs.write` to create or modify files (respects overwrite settings)\n- Use `fs.apply_patch` to apply an ordered list of edit operations, each anchored by unique content\n- Use `fs.find` to locate files and directories by name with fuzzy matching\n- Use `large_context_fetch` to let the model pick the files that matter for a query\n\n**Code Analysis:**\n- Use `code.symbols` to extract symbols (functions, classes, structs, etc.) from source files\n\n**Shell Commands:**\n- Use `shell.exec` to run terminal commands, build projects, run tests, etc.\n- You receive the complete stdout and stderr output from commands, allowing you to analyze results and debug issues\n- Set appropriate working directories and timeouts\n- Always explain what commands do before running them\n\n# Best Practices\n\n- Read key files like README, main entry points, and configuration files first\n- Understand project structure before making changes\n- Be cautious with destructive operations\n- Prefer small, focused changes over large refactors\n\nYour goal is to be a helpful, efficient coding partner that understands codebases quickly and makes precise, well-reasoned changes.",
        )
    }

    /// The entries of the provider's message array for a history.
    pub fn convert_history(&self, history: &[ChatMessage]) -> (r: Vec<Json>)
        ensures
            items_view(r@) == history_entries(crate::session::messages_view(history@)),
    {
        let mut out = no_items();
        let mut i: usize = 0;
        while i < history.len()
            invariant
                i <= history.len(),
                items_view(out@) == Seq::new(i as nat, |k: int| history_entry(history@[k]@)),
            decreases history.len() - i,
        {
            let m = &history[i];
            let role = match m.role {
                MessageRole::User => "user",
                MessageRole::Agent => "assistant",
                MessageRole::System => "system",
                MessageRole::Error => "system",
                MessageRole::Tool => "tool",
            };
            let entry = match m.role {
                MessageRole::Error => {
                    let content = concat2("[error] ", m.content.as_str());
                    message_json(role, content.as_str())
                },
                MessageRole::Tool => match &m.tool_info {
                    Some(info) => {
                        let mut streams = no_fields();
                        push_field(&mut streams, "stdout", Json::Str(info.stdout.clone()));
                        push_field(&mut streams, "stderr", Json::Str(info.stderr.clone()));
                        let content = Json::object(streams).to_text();
                        let mut f = no_fields();
                        push_field(&mut f, "role", Json::string(role));
                        push_field(&mut f, "tool_call_id", Json::Str(info.id.clone()));
                        push_field(&mut f, "content", Json::Str(content));
                        Json::object(f)
                    },
                    None => message_json(role, m.content.as_str()),
                },
                _ => message_json(role, m.content.as_str()),
            };
            push_item(&mut out, entry);
            assert(items_view(out@) =~= Seq::new((i + 1) as nat, |k: int| history_entry(history@[k]@)));
            i += 1;
        }
        assert(items_view(out@) =~= history_entries(crate::session::messages_view(history@)));
        out
    }
}

/// The body of a request.
pub fn request_body(model: &str, messages: &Vec<Json>, tools: &Vec<Json>) -> (body: Json)
    ensures
        body@ == request_body_view(model@, items_view(messages@), items_view(tools@)),
{
    let mut f = no_fields();
    push_field(&mut f, "model", Json::string(model));
    push_field(&mut f, "messages", Json::array(copy_items(messages)));
    push_field(&mut f, "tools", Json::array(copy_items(tools)));
    push_field(&mut f, "tool_choice", Json::string("auto"));
    Json::object(f)
}


// ---------------------------------------------------------------------------
// Reading a response
// ---------------------------------------------------------------------------

/// The text of the string member `key`.
pub open spec fn text_of(j: JsonView, key: Seq<char>) -> Option<Seq<char>> {
    match j.get(key) {
        Some(JsonView::Str(s)) => Some(s),
        _ => None,
    }
}

/// The member `key` is absent, `null` or a string.
pub open spec fn optional_text_ok(j: JsonView, key: Seq<char>) -> bool {
    match present(j, key) {
        None => true,
        Some(v) => v is Str,
    }
}

/// The document has the shape of a tool call: an id, a type, and a
/// function with a name and arguments, all strings.
pub open spec fn tool_call_ok(c: JsonView) -> bool {
    &&& text_of(c, "id"@) is Some
    &&& text_of(c, "type"@) is Some
    &&& c.get("function"@) matches Some(f) && text_of(f, "name"@) is Some && text_of(
        f,
        "arguments"@,
    ) is Some
}

/// The document has the shape of an assistant message.
pub open spec fn message_ok(m: JsonView) -> bool {
    &&& text_of(m, "role"@) is Some
    &&& optional_text_ok(m, "content"@)
    &&& match present(m, "tool_calls"@) {
        None => true,
        Some(JsonView::Array(calls)) => forall|i: int|
            0 <= i < calls.len() ==> tool_call_ok(#[trigger] calls[i]),
        Some(_) => false,
    }
}

/// The document has the shape of a choice.
pub open spec fn choice_ok(c: JsonView) -> bool {
    &&& optional_text_ok(c, "finish_reason"@)
    &&& match present(c, "message"@) {
        None => true,
        Some(m) => message_ok(m),
    }
}

/// The member `key` is an integer of 64 bits.
pub open spec fn int_of(j: JsonView, key: Seq<char>) -> Option<i64> {
    match j.get(key) {
        Some(v) => v.as_i64(),
        None => None,
    }
}

/// The usage of a response is absent or has its three counts.
pub open spec fn usage_ok(j: JsonView) -> bool {
    match present(j, "usage"@) {
        None => true,
        Some(u) => int_of(u, "prompt_tokens"@) is Some && int_of(u, "completion_tokens"@) is Some
            && int_of(u, "total_tokens"@) is Some,
    }
}

/// The document has the shape of a chat-completion response.
pub open spec fn response_ok(j: JsonView) -> bool {
    &&& text_of(j, "id"@) is Some
    &&& text_of(j, "model"@) is Some
    &&& usage_ok(j)
    &&& j.get("choices"@) matches Some(JsonView::Array(choices)) && forall|i: int|
        0 <= i < choices.len() ==> choice_ok(#[trigger] choices[i])
}

/// A count of 64 bits as one of 32 bits: the low 32 bits.
pub open spec fn low32(n: i64) -> u32 {
    ((n as int) % 0x1_0000_0000) as u32
}

/// The usage that a response reports.
pub open spec fn usage_of(j: JsonView) -> Option<TokenUsage> {
    match present(j, "usage"@) {
        None => None,
        Some(u) => match (
            int_of(u, "prompt_tokens"@),
            int_of(u, "completion_tokens"@),
            int_of(u, "total_tokens"@),
        ) {
            (Some(p), Some(c), Some(t)) => Some(
                TokenUsage {
                    input_tokens: low32(p),
                    output_tokens: low32(c),
                    total_tokens: low32(t),
                },
            ),
            _ => None,
        },
    }
}

/// The first choice of a response.
pub open spec fn first_choice(j: JsonView) -> Option<JsonView> {
    match j.get("choices"@) {
        Some(JsonView::Array(choices)) => if choices.len() > 0 {
            Some(choices[0])
        } else {
            None
        },
        _ => None,
    }
}

/// The tool calls of an assistant message, where it has the member.
pub open spec fn calls_of(m: JsonView) -> Option<Seq<JsonView>> {
    match present(m, "tool_calls"@) {
        Some(JsonView::Array(calls)) => Some(calls),
        _ => None,
    }
}

/// The content of an assistant message, where it has one.
pub open spec fn content_of(m: JsonView) -> Option<Seq<char>> {
    match present(m, "content"@) {
        Some(JsonView::Str(s)) => Some(s),
        _ => None,
    }
}

fn has_text(j: &Json, key: &str) -> (b: bool)
    ensures
        b == (text_of(j@, key@) is Some),
{
    match j.get(key) {
        Some(v) => v.is_string(),
        None => false,
    }
}

fn optional_text(j: &Json, key: &str) -> (b: bool)
    ensures
        b == optional_text_ok(j@, key@),
{
    match j.get_present(key) {
        None => true,
        Some(v) => v.is_string(),
    }
}

fn read_int(j: &Json, key: &str) -> (r: Option<i64>)
    ensures
        r == int_of(j@, key@),
{
    match j.get(key) {
        Some(v) => v.as_i64(),
        None => None,
    }
}

fn check_tool_call(c: &Json) -> (b: bool)
    ensures
        b == tool_call_ok(c@),
{
    if !has_text(c, "id") || !has_text(c, "type") {
        return false;
    }
    match c.get("function") {
        Some(f) => has_text(f, "name") && has_text(f, "arguments"),
        None => false,
    }
}

fn check_message(m: &Json) -> (b: bool)
    ensures
        b == message_ok(m@),
{
    if !has_text(m, "role") || !optional_text(m, "content") {
        return false;
    }
    match m.get_present("tool_calls") {
        None => true,
        Some(list) => match list.as_array() {
            None => false,
            Some(calls) => {
                let ghost cv = items_view(calls@);
                let mut i: usize = 0;
                while i < calls.len()
                    invariant
                        i <= calls.len(),
                        cv == items_view(calls@),
                        text_of(m@, "role"@) is Some,
                        optional_text_ok(m@, "content"@),
                        present(m@, "tool_calls"@) == Some(JsonView::Array(cv)),
                        forall|k: int| 0 <= k < i ==> tool_call_ok(#[trigger] cv[k]),
                    decreases calls.len() - i,
                {
                    assert(cv[i as int] == calls@[i as int]@);
                    if !check_tool_call(&calls[i]) {
                        proof {
                            let listed = present(m@, "tool_calls"@)->Some_0->Array_0;
                            assert(listed == cv);
                            assert(0 <= i < listed.len() && !tool_call_ok(listed[i as int]));
                            if message_ok(m@) {
                                assert(forall|k: int|
                                    0 <= k < listed.len() ==> tool_call_ok(#[trigger] listed[k]));
                                assert(false);
                            }
                        }
                        return false;
                    }
                    i += 1;
                }
                true
            },
        },
    }
}

fn check_choice(c: &Json) -> (b: bool)
    ensures
        b == choice_ok(c@),
{
    if !optional_text(c, "finish_reason") {
        return false;
    }
    match c.get_present("message") {
        None => true,
        Some(m) => check_message(m),
    }
}

/// Tests whether a document has the shape of a chat-completion response.
pub fn check_response(j: &Json) -> (b: bool)
    ensures
        b == response_ok(j@),
{
    if !has_text(j, "id") || !has_text(j, "model") {
        return false;
    }
    let usage_fine = match j.get_present("usage") {
        None => true,
        Some(u) => read_int(u, "prompt_tokens").is_some() && read_int(
            u,
            "completion_tokens",
        ).is_some() && read_int(u, "total_tokens").is_some(),
    };
    if !usage_fine {
        return false;
    }
    match j.get("choices") {
        None => false,
        Some(list) => match list.as_array() {
            None => false,
            Some(choices) => {
                let ghost cv = items_view(choices@);
                let mut i: usize = 0;
                while i < choices.len()
                    invariant
                        i <= choices.len(),
                        cv == items_view(choices@),
                        text_of(j@, "id"@) is Some,
                        text_of(j@, "model"@) is Some,
                        usage_ok(j@),
                        j@.get("choices"@) == Some(JsonView::Array(cv)),
                        forall|k: int| 0 <= k < i ==> choice_ok(#[trigger] cv[k]),
                    decreases choices.len() - i,
                {
                    assert(cv[i as int] == choices@[i as int]@);
                    if !check_choice(&choices[i]) {
                        proof {
                            let listed = j@.get("choices"@)->Some_0->Array_0;
                            assert(listed == cv);
                            assert(0 <= i < listed.len() && !choice_ok(listed[i as int]));
                            if response_ok(j@) {
                                assert(forall|k: int|
                                    0 <= k < listed.len() ==> choice_ok(#[trigger] listed[k]));
                                assert(false);
                            }
                        }
                        return false;
                    }
                    i += 1;
                }
                true
            },
        },
    }
}

fn to_low32(n: i64) -> (r: u32)
    ensures
        r == low32(n),
{
    if n >= 0 {
        (n % 4294967296) as u32
    } else {
        let m: i64 = -(n + 1);
        let r: i64 = m % 4294967296;
        (4294967295 - r) as u32
    }
}

/// Reads the usage that a response reports.
pub fn read_usage(j: &Json) -> (r: Option<TokenUsage>)
    ensures
        r == usage_of(j@),
{
    match j.get_present("usage") {
        None => None,
        Some(u) => match (
            read_int(u, "prompt_tokens"),
            read_int(u, "completion_tokens"),
            read_int(u, "total_tokens"),
        ) {
            (Some(p), Some(c), Some(t)) => Some(
                TokenUsage {
                    input_tokens: to_low32(p),
                    output_tokens: to_low32(c),
                    total_tokens: to_low32(t),
                },
            ),
            _ => None,
        },
    }
}

/// A tool call that the model asks for.
#[derive(Debug)]
pub struct ToolCall {
    pub id: String,
    pub name: String,
    /// The arguments as the text of a document.
    pub arguments: String,
}

/// The call that a document of the right shape describes.
pub open spec fn call_fields(c: JsonView) -> (Seq<char>, Seq<char>, Seq<char>) {
    (
        text_of(c, "id"@)->Some_0,
        text_of(c.get("function"@)->Some_0, "name"@)->Some_0,
        text_of(c.get("function"@)->Some_0, "arguments"@)->Some_0,
    )
}

/// The document of a call as it goes back to the provider.
pub open spec fn call_json(c: (Seq<char>, Seq<char>, Seq<char>)) -> JsonView {
    JsonView::Object(
        Seq::empty().push(("id"@, JsonView::Str(c.0))).push(("type"@, JsonView::Str("function"@))).push(
            (
                "function"@,
                JsonView::Object(
                    Seq::empty().push(("name"@, JsonView::Str(c.1))).push(
                        ("arguments"@, JsonView::Str(c.2)),
                    ),
                ),
            ),
        ),
    )
}

impl ToolCall {
    /// The id, the name and the arguments of the call.
    pub open spec fn fields(self) -> (Seq<char>, Seq<char>, Seq<char>) {
        (self.id@, self.name@, self.arguments@)
    }

    fn from_json(c: &Json) -> (r: ToolCall)
        requires
            tool_call_ok(c@),
        ensures
            r.fields() == call_fields(c@),
    {
        let id = match c.get("id") {
            Some(v) => match v.as_str() {
                Some(s) => String::from_str(s),
                None => String::new(),
            },
            None => String::new(),
        };
        let (name, arguments) = match c.get("function") {
            Some(f) => {
                let name = match f.get("name") {
                    Some(v) => match v.as_str() {
                        Some(s) => String::from_str(s),
                        None => String::new(),
                    },
                    None => String::new(),
                };
                let arguments = match f.get("arguments") {
                    Some(v) => match v.as_str() {
                        Some(s) => String::from_str(s),
                        None => String::new(),
                    },
                    None => String::new(),
                };
                (name, arguments)
            },
            None => (String::new(), String::new()),
        };
        ToolCall { id, name, arguments }
    }

    fn to_json(&self) -> (j: Json)
        ensures
            j@ == call_json(self.fields()),
    {
        let mut function = no_fields();
        push_field(&mut function, "name", Json::Str(self.name.clone()));
        push_field(&mut function, "arguments", Json::Str(self.arguments.clone()));
        let mut f = no_fields();
        push_field(&mut f, "id", Json::Str(self.id.clone()));
        push_field(&mut f, "type", Json::string("function"));
        push_field(&mut f, "function", Json::object(function));
        Json::object(f)
    }
}

/// The fields of a list of calls.
pub open spec fn calls_fields(calls: Seq<ToolCall>) -> Seq<(Seq<char>, Seq<char>, Seq<char>)> {
    Seq::new(calls.len(), |i: int| calls[i].fields())
}

// ---------------------------------------------------------------------------
// Provider fallback
// ---------------------------------------------------------------------------

/// How one request to a provider went.
#[derive(Debug)]
pub enum HttpOutcome {
    /// The request did not get through; the text says why.
    TransportError(String),
    /// The provider answered: whether the status is a success, the status
    /// as it is shown, and the body.
    Status { success: bool, status: String, body: String },
}

/// What follows from the outcome of one request.
#[derive(Debug)]
pub enum Settled {
    /// The provider gave a response.
    Response(Json),
    /// The provider failed; the next one is to be tried.
    TryNext,
}

/// What a request to a provider settles, as values: the response, or the
/// error to remember.
pub enum SettledView {
    Response(JsonView),
    TryNext(Seq<char>),
}

/// Whether the outcome is a response of the right shape with a success
/// status.
pub open spec fn outcome_response(outcome: HttpOutcome) -> Option<JsonView> {
    match outcome {
        HttpOutcome::Status { success, status, body } => if success {
            match json_parse(body@) {
                Some(doc) => if response_ok(doc) {
                    Some(doc)
                } else {
                    None
                },
                None => None,
            }
        } else {
            None
        },
        HttpOutcome::TransportError(_) => None,
    }
}

/// The event that tells of the failure of the provider `name`, where one
/// is emitted: for a transport error and for a status that is no success.
pub open spec fn failure_notice(name: Seq<char>, outcome: HttpOutcome) -> Option<Seq<char>> {
    match outcome {
        HttpOutcome::TransportError(_) => Some(
            "Failed to connect to "@ + name + ", trying next provider..."@,
        ),
        HttpOutcome::Status { success, status, body } => if success {
            None
        } else {
            Some(name + " returned "@ + status@ + ", trying next provider..."@)
        },
    }
}

/// The notice that a later provider succeeded after `failed` failures.
pub open spec fn success_notice(name: Seq<char>, failed: nat) -> Seq<char> {
    "Successfully using "@ + name + " after "@ + decimal(failed) + " failed attempts"@
}

/// The state of one request that falls back from provider to provider.
pub struct Fallback {
    index: usize,
    last_error: Option<String>,
}

/// One request to make: where to send it, with which key, and what.
#[derive(Debug)]
pub struct Attempt {
    pub base_url: String,
    pub api_key: String,
    pub body: Json,
}

/// The members with the value of the last member `key` replaced.
pub open spec fn with_member(fields: Seq<(Seq<char>, JsonView)>, key: Seq<char>, value: JsonView)
    -> Seq<(Seq<char>, JsonView)>
    decreases fields.len(),
{
    if fields.len() == 0 {
        fields
    } else if fields.last().0 == key {
        fields.drop_last().push((key, value))
    } else {
        with_member(fields.drop_last(), key, value).push(fields.last())
    }
}

/// The body with the model of the provider put in, where the body has a
/// member for it.
pub open spec fn with_model(body: JsonView, model: Seq<char>) -> JsonView {
    match body {
        JsonView::Object(fields) => JsonView::Object(
            with_member(fields, "model"@, JsonView::Str(model)),
        ),
        other => other,
    }
}

/// Puts the model of a provider into the body of a request.
pub fn substitute_model(body: &Json, model: &str) -> (r: Json)
    ensures
        r@ == with_model(body@, model@),
{
    match body {
        Json::Object(fields) => {
            proof {
                crate::json::lemma_object_view(*fields);
            }
            let ghost fv = crate::json::fields_view(fields@);
            let mut at: usize = fields.len();
            let mut found = false;
            while at > 0 && !found
                invariant
                    at <= fields.len(),
                    fv == crate::json::fields_view(fields@),
                    found ==> at < fields.len() && fv[at as int].0 == "model"@,
                    forall|k: int| (if found { at + 1 } else { at as int }) <= k < fields.len() ==> (#[trigger] fv[k]).0 != "model"@,
                decreases at,
            {
                at -= 1;
                if crate::text::str_eq(fields[at].0.as_str(), "model") {
                    found = true;
                }
            }
            let mut out = no_fields();
            let mut i: usize = 0;
            while i < fields.len()
                invariant
                    i <= fields.len(),
                    fv == crate::json::fields_view(fields@),
                    crate::json::fields_view(out@) == Seq::new(
                        i as nat,
                        |k: int|
                            if found && k == at {
                                ("model"@, JsonView::Str(model@))
                            } else {
                                fv[k]
                            },
                    ),
                decreases fields.len() - i,
            {
                if found && i == at {
                    push_field(&mut out, "model", Json::string(model));
                } else {
                    push_field(&mut out, fields[i].0.as_str(), fields[i].1.deep_clone());
                }
                assert(crate::json::fields_view(out@) =~= Seq::new(
                    (i + 1) as nat,
                    |k: int|
                        if found && k == at {
                            ("model"@, JsonView::Str(model@))
                        } else {
                            fv[k]
                        },
                ));
                i += 1;
            }
            proof {
                lemma_with_member(fv, "model"@, JsonView::Str(model@), found, at as int);
            }
            Json::object(out)
        },
        _ => body.deep_clone(),
    }
}

/// Replacing the last member `key` changes the members at that one place.
pub proof fn lemma_with_member(
    fields: Seq<(Seq<char>, JsonView)>,
    key: Seq<char>,
    value: JsonView,
    found: bool,
    at: int,
)
    requires
        found ==> 0 <= at < fields.len() && fields[at].0 == key,
        forall|k: int|
            (if found {
                at + 1
            } else {
                0
            }) <= k < fields.len() ==> (#[trigger] fields[k]).0 != key,
    ensures
        with_member(fields, key, value) == Seq::new(
            fields.len(),
            |k: int|
                if found && k == at {
                    (key, value)
                } else {
                    fields[k]
                },
        ),
    decreases fields.len(),
{
    let target = Seq::new(
        fields.len(),
        |k: int|
            if found && k == at {
                (key, value)
            } else {
                fields[k]
            },
    );
    if fields.len() == 0 {
        assert(with_member(fields, key, value) =~= target);
    } else if fields.last().0 == key {
        assert(found && at == fields.len() - 1);
        assert(with_member(fields, key, value) =~= target);
    } else {
        lemma_with_member(fields.drop_last(), key, value, found, at);
        assert(with_member(fields, key, value) =~= target);
    }
}

impl Fallback {
    /// The state before the first provider is tried.
    pub fn new() -> (r: Fallback)
        ensures
            r.index_spec() == 0,
            r.last_error_spec() is None,
    {
        Fallback { index: 0, last_error: None }
    }

    /// The number of providers that have failed.
    pub closed spec fn index_spec(&self) -> nat {
        self.index as nat
    }

    /// The error of the provider that failed last.
    pub closed spec fn last_error_spec(&self) -> Option<Seq<char>> {
        crate::text::opt_text(self.last_error)
    }

    /// The number of providers that have failed.
    pub fn failed(&self) -> (n: usize)
        ensures
            n == self.index_spec(),
    {
        self.index
    }
}

/// The error to remember for a provider that failed.
pub open spec fn failure_text(name: Seq<char>, outcome: HttpOutcome) -> Seq<char> {
    match outcome {
        HttpOutcome::TransportError(e) => name + " request error: "@ + e@,
        HttpOutcome::Status { success, status, body } => if success {
            name + " decode error: "@ + (match json_parse(body@) {
                Some(_) => "invalid chat completion response"@,
                None => "invalid JSON"@,
            })
        } else {
            name + " HTTP "@ + status@ + ": "@ + body@
        },
    }
}

impl MultiModelAgent {
    /// The next request to make: to the provider whose turn it is, with
    /// its model in the body. None once every provider has failed.
    pub fn next_attempt(&self, fallback: &Fallback, body: &Json) -> (r: Option<Attempt>)
        ensures
            match r {
                Some(a) => {
                    &&& fallback.index_spec() < self.configs().len()
                    &&& a.base_url@ == self.configs()[fallback.index_spec() as int].base_url@
                    &&& a.api_key@ == self.configs()[fallback.index_spec() as int].api_key@
                    &&& a.body@ == with_model(
                        body@,
                        self.configs()[fallback.index_spec() as int].model@,
                    )
                },
                None => fallback.index_spec() >= self.configs().len(),
            },
    {
        if fallback.index >= self.model_configs.len() {
            return None;
        }
        let config = &self.model_configs[fallback.index];
        Some(
            Attempt {
                base_url: config.base_url.clone(),
                api_key: config.api_key.clone(),
                body: substitute_model(body, config.model.as_str()),
            },
        )
    }

    /// Settles the outcome of the request to the provider whose turn it
    /// is. A response of the right shape ends the request; anything else
    /// is remembered as the last error and the next provider gets its turn.
    /// The events say which provider failed, and which one served after
    /// failures.
    pub fn settle(&self, fallback: &mut Fallback, outcome: HttpOutcome) -> (r: (
        Settled,
        Vec<AppEvent>,
    ))
        requires
            old(fallback).index_spec() < self.configs().len(),
        ensures
            match r.0 {
                Settled::Response(doc) => {
                    &&& outcome_response(outcome) == Some(doc@)
                    &&& final(fallback).index_spec() == old(fallback).index_spec()
                    &&& final(fallback).last_error_spec() == old(fallback).last_error_spec()
                    &&& if old(fallback).index_spec() > 0 {
                        r.1@.len() == 1 && is_notice(
                            r.1@[0],
                            success_notice(
                                self.configs()[old(fallback).index_spec() as int].name@,
                                old(fallback).index_spec(),
                            ),
                        )
                    } else {
                        r.1@.len() == 0
                    }
                },
                Settled::TryNext => {
                    &&& outcome_response(outcome) is None
                    &&& final(fallback).index_spec() == old(fallback).index_spec() + 1
                    &&& final(fallback).last_error_spec() == Some(
                        failure_text(
                            self.configs()[old(fallback).index_spec() as int].name@,
                            outcome,
                        ),
                    )
                    &&& match failure_notice(
                        self.configs()[old(fallback).index_spec() as int].name@,
                        outcome,
                    ) {
                        Some(text) => r.1@.len() == 1 && is_notice(r.1@[0], text),
                        None => r.1@.len() == 0,
                    }
                },
            },
    {
        let providers: usize = self.model_configs.len();
        assert(fallback.index < providers);
        let name = self.model_configs[fallback.index].name.as_str();
        let mut events: Vec<AppEvent> = Vec::new();
        match &outcome {
            HttpOutcome::TransportError(e) => {
                events.push(
                    AppEvent::Error {
                        id: None,
                        message: concat3("Failed to connect to ", name, ", trying next provider..."),
                    },
                );
                fallback.last_error = Some(concat3(name, " request error: ", e.as_str()));
                fallback.index = fallback.index + 1;
                (Settled::TryNext, events)
            },
            HttpOutcome::Status { success, status, body } => {
                if *success {
                    let reason = match Json::parse(body.as_str()) {
                        Ok(doc) => {
                            if check_response(&doc) {
                                if fallback.index > 0 {
                                    let count = u64_to_string(fallback.index as u64);
                                    let mut text = concat3("Successfully using ", name, " after ");
                                    text.append(count.as_str());
                                    text.append(" failed attempts");
                                    events.push(AppEvent::Error { id: None, message: text });
                                }
                                return (Settled::Response(doc), events);
                            }
                            "invalid chat completion response"
                        },
                        Err(_) => "invalid JSON",
                    };
                    fallback.last_error = Some(concat3(name, " decode error: ", reason));
                    fallback.index = fallback.index + 1;
                    (Settled::TryNext, events)
                } else {
                    let mut text = concat3(name, " returned ", status.as_str());
                    text.append(", trying next provider...");
                    events.push(AppEvent::Error { id: None, message: text });
                    let mut error = concat3(name, " HTTP ", status.as_str());
                    error.append(": ");
                    error.append(body.as_str());
                    fallback.last_error = Some(error);
                    fallback.index = fallback.index + 1;
                    (Settled::TryNext, events)
                }
            },
        }
    }

    /// The error of a request on which every provider has failed: the
    /// error of the last one.
    pub fn give_up(&self, fallback: Fallback) -> (e: AgentError)
        ensures
            e matches AgentError::Network(text) && text@ == (match fallback.last_error_spec() {
                Some(last) => last,
                None => "All model providers failed"@,
            }),
    {
        match fallback.last_error {
            Some(last) => AgentError::Network(last),
            None => AgentError::Network(String::from_str("All model providers failed")),
        }
    }
}

/// The event is an error notice without a call id and with the given text.
pub open spec fn is_notice(event: AppEvent, text: Seq<char>) -> bool {
    event matches AppEvent::Error { id, message } && id is None && message@ == text
}

/// Provider fallback: where the first provider fails in transport or with
/// a status that is no success, an error notice names it and the second
/// provider gets its turn; what the second provider answers with a
/// success status and the right shape is the response.
pub proof fn law_fallback(first: Seq<char>, failed: HttpOutcome, good: HttpOutcome)
    requires
        failed is TransportError || (failed matches HttpOutcome::Status { success, .. } && !success),
        good matches HttpOutcome::Status { success, body, .. } && success && (json_parse(body@)
            matches Some(doc) && response_ok(doc)),
    ensures
        outcome_response(failed) is None,
        failure_notice(first, failed) matches Some(text) && crate::text::contains_sub(text, first),
        outcome_response(good) == json_parse(good->Status_body@),
{
    match failed {
        HttpOutcome::TransportError(_) => {
            let text = "Failed to connect to "@ + first + ", trying next provider..."@;
            let at = "Failed to connect to "@.len() as int;
            assert(text.subrange(at, at + first.len()) =~= first);
            assert(crate::text::matches_at(text, first, at));
        },
        HttpOutcome::Status { success, status, body } => {
            let text = first + " returned "@ + status@ + ", trying next provider..."@;
            assert(text.subrange(0, first.len() as int) =~= first);
            assert(crate::text::matches_at(text, first, 0));
        },
    }
}


// ---------------------------------------------------------------------------
// The turns of a conversation
// ---------------------------------------------------------------------------

/// The document of an optional text: `null` for none.
pub open spec fn text_or_null(t: Option<Seq<char>>) -> JsonView {
    match t {
        Some(s) => JsonView::Str(s),
        None => JsonView::Null,
    }
}

/// The calls that the documents of the right shape describe, as they go
/// back to the provider.
pub open spec fn calls_json(calls: Seq<JsonView>) -> Seq<JsonView> {
    Seq::new(calls.len(), |i: int| call_json(call_fields(calls[i])))
}

/// The assistant message that asks for tool calls.
pub open spec fn assistant_with_calls(content: Option<Seq<char>>, calls: Seq<JsonView>)
    -> JsonView {
    JsonView::Object(
        Seq::empty().push(("role"@, JsonView::Str("assistant"@))).push(
            ("content"@, text_or_null(content)),
        ).push(("tool_calls"@, JsonView::Array(calls_json(calls)))),
    )
}

/// What a tool call failed with, as the model is told.
pub open spec fn tool_error_json(error: Seq<char>, tool: ToolName, args: JsonView) -> JsonView {
    JsonView::Object(
        Seq::empty().push(("error"@, JsonView::Str(error))).push(
            ("tool"@, JsonView::Str(tool.variant_name_spec())),
        ).push(("args"@, args)),
    )
}

/// The message that carries the outcome of a tool call back to the model.
pub open spec fn tool_result_message(call_id: Seq<char>, content: JsonView) -> JsonView {
    JsonView::Object(
        Seq::empty().push(("role"@, JsonView::Str("tool"@))).push(
            ("tool_call_id"@, JsonView::Str(call_id)),
        ).push(("content"@, JsonView::Str(json_text(content)))),
    )
}

/// What the model asks for with a response.
#[derive(Debug)]
pub enum TurnStep {
    /// The tools to call, in the order in which the model named them.
    CallTools(Vec<ToolCall>),
    /// The conversation has its final text.
    Finished,
}

/// What to do about one tool call.
#[derive(Debug)]
pub enum CallPlan {
    /// Dispatch the tool with the arguments.
    Run { tool: ToolName, args: Json },
    /// The arguments do not pass validation: emit the notice and skip the
    /// call.
    Skip(AppEvent),
}

/// The state of one conversation with the provider within a single user
/// submission.
pub struct Conversation {
    messages: Vec<Json>,
    tools: Vec<Json>,
    turns: usize,
    max_turns: Option<usize>,
    token_usage: Option<TokenUsage>,
    final_text: String,
    finished: bool,
}

/// What a response means for a conversation: the message to append, if
/// any, whether the conversation is finished, and its final text.
pub struct Reading {
    pub append: Option<JsonView>,
    pub calls: Option<Seq<JsonView>>,
    pub finished: bool,
    pub final_text: Option<Seq<char>>,
}

/// Reads the first choice of a response: tool calls keep the conversation
/// going, a content ends it with that text, anything else ends it as it
/// is.
pub open spec fn reading(choice: JsonView) -> Reading {
    match present(choice, "message"@) {
        None => Reading { append: None, calls: None, finished: true, final_text: None },
        Some(m) => match calls_of(m) {
            Some(calls) => Reading {
                append: Some(assistant_with_calls(content_of(m), calls)),
                calls: Some(calls),
                finished: false,
                final_text: None,
            },
            None => match content_of(m) {
                Some(c) => Reading {
                    append: Some(plain_message("assistant"@, c)),
                    calls: None,
                    finished: true,
                    final_text: Some(c),
                },
                None => Reading { append: None, calls: None, finished: true, final_text: None },
            },
        },
    }
}

impl Conversation {
    /// The messages of the request, in order.
    pub closed spec fn messages_spec(&self) -> Seq<JsonView> {
        items_view(self.messages@)
    }

    /// The declarations of the tools.
    pub closed spec fn tools_spec(&self) -> Seq<JsonView> {
        items_view(self.tools@)
    }

    /// The number of turns begun.
    pub closed spec fn turns_spec(&self) -> nat {
        self.turns as nat
    }

    /// The number of turns that may be begun, where it is bounded.
    pub closed spec fn turn_cap_spec(&self) -> Option<usize> {
        self.max_turns
    }

    /// Whether another turn may be begun.
    pub open spec fn may_begin(&self) -> bool {
        self.turns_spec() < usize::MAX && match self.turn_cap_spec() {
            Some(cap) => self.turns_spec() < cap,
            None => true,
        }
    }

    /// The same conversation with a bound on the number of its turns.
    pub fn with_turn_cap(self, max_turns: usize) -> (r: Conversation)
        ensures
            r.turn_cap_spec() == Some(max_turns),
            r.messages_spec() == self.messages_spec(),
            r.tools_spec() == self.tools_spec(),
            r.turns_spec() == self.turns_spec(),
            r.usage_spec() == self.usage_spec(),
            r.final_text_spec() == self.final_text_spec(),
            r.finished_spec() == self.finished_spec(),
    {
        Conversation {
            messages: self.messages,
            tools: self.tools,
            turns: self.turns,
            max_turns: Some(max_turns),
            token_usage: self.token_usage,
            final_text: self.final_text,
            finished: self.finished,
        }
    }

    /// The usage that the latest response reported.
    pub closed spec fn usage_spec(&self) -> Option<TokenUsage> {
        self.token_usage
    }

    /// The final text.
    pub closed spec fn final_text_spec(&self) -> Seq<char> {
        self.final_text@
    }

    /// Whether the conversation has ended.
    pub closed spec fn finished_spec(&self) -> bool {
        self.finished
    }

    /// Whether the conversation has ended.
    pub fn is_finished(&self) -> (b: bool)
        ensures
            b == self.finished_spec(),
    {
        self.finished
    }

    /// The number of turns begun.
    pub fn turns(&self) -> (n: usize)
        ensures
            n == self.turns_spec(),
    {
        self.turns
    }

    /// Begins a turn. The first turn of a conversation is announced. Where
    /// the conversation has had as many turns as it may, the turn is not
    /// begun and the conversation ends in error.
    pub fn begin_turn(&mut self) -> (r: Result<Option<AppEvent>, AgentError>)
        ensures
            final(self).messages_spec() == old(self).messages_spec(),
            final(self).tools_spec() == old(self).tools_spec(),
            final(self).usage_spec() == old(self).usage_spec(),
            final(self).final_text_spec() == old(self).final_text_spec(),
            final(self).finished_spec() == old(self).finished_spec(),
            final(self).turn_cap_spec() == old(self).turn_cap_spec(),
            match r {
                Ok(announced) => {
                    &&& old(self).may_begin()
                    &&& final(self).turns_spec() == old(self).turns_spec() + 1
                    &&& match announced {
                        Some(ev) => old(self).turns_spec() == 0 && ev is ChatCreated,
                        None => old(self).turns_spec() > 0,
                    }
                },
                Err(e) => {
                    &&& !old(self).may_begin()
                    &&& final(self).turns_spec() == old(self).turns_spec()
                    &&& e matches AgentError::Processing(text) && text@ == "Too many tool turns"@
                },
            },
    {
        let capped = match self.max_turns {
            Some(cap) => self.turns >= cap,
            None => false,
        };
        if capped || self.turns == usize::MAX {
            return Err(AgentError::Processing(String::from_str("Too many tool turns")));
        }
        self.turns = self.turns + 1;
        if self.turns == 1 {
            Ok(Some(AppEvent::ChatCreated))
        } else {
            Ok(None)
        }
    }

    /// The body of the request of the present turn.
    pub fn request(&self, model: &str) -> (body: Json)
        ensures
            body@ == request_body_view(model@, self.messages_spec(), self.tools_spec()),
    {
        request_body(model, &self.messages, &self.tools)
    }

    /// Takes the response of a turn into the conversation: its usage is
    /// recorded; tool calls are put on record in an assistant message
    /// before any tool runs, and handed out; a content ends the
    /// conversation with that text.
    pub fn take_response(&mut self, response: &Json) -> (r: Result<TurnStep, AgentError>)
        ensures
            final(self).tools_spec() == old(self).tools_spec(),
            final(self).turns_spec() == old(self).turns_spec(),
            final(self).turn_cap_spec() == old(self).turn_cap_spec(),
            !response_ok(response@) ==> {
                &&& r matches Err(AgentError::Processing(text)) && text@ == "invalid response"@
                &&& final(self).messages_spec() == old(self).messages_spec()
                &&& final(self).usage_spec() == old(self).usage_spec()
            },
            response_ok(response@) ==> {
                &&& final(self).usage_spec() == (match usage_of(response@) {
                    Some(u) => Some(u),
                    None => old(self).usage_spec(),
                })
                &&& match first_choice(response@) {
                    None => {
                        &&& r matches Err(AgentError::Processing(text)) && text@ == "no choices"@
                        &&& final(self).messages_spec() == old(self).messages_spec()
                    },
                    Some(choice) => {
                        let read = reading(choice);
                        &&& final(self).messages_spec() == (match read.append {
                            Some(m) => old(self).messages_spec().push(m),
                            None => old(self).messages_spec(),
                        })
                        &&& final(self).finished_spec() == read.finished
                        &&& final(self).final_text_spec() == (match read.final_text {
                            Some(t) => t,
                            None => old(self).final_text_spec(),
                        })
                        &&& match read.calls {
                            Some(calls) => r matches Ok(TurnStep::CallTools(list))
                                && calls_fields(list@) == Seq::new(
                                calls.len(),
                                |i: int| call_fields(calls[i]),
                            ),
                            None => r matches Ok(TurnStep::Finished),
                        }
                    },
                }
            },
    {
        if !check_response(response) {
            return Err(AgentError::Processing(String::from_str("invalid response")));
        }
        match read_usage(response) {
            Some(u) => {
                self.token_usage = Some(u);
            },
            None => {},
        }
        let choices = match response.get("choices") {
            Some(list) => match list.as_array() {
                Some(items) => items,
                None => {
                    return Err(AgentError::Processing(String::from_str("no choices")));
                },
            },
            None => {
                return Err(AgentError::Processing(String::from_str("no choices")));
            },
        };
        if choices.len() == 0 {
            return Err(AgentError::Processing(String::from_str("no choices")));
        }
        let choice = &choices[0];
        assert(items_view(choices@)[0] == choice@);
        assert(choice_ok(choice@));
        let message = match choice.get_present("message") {
            Some(m) => m,
            None => {
                self.finished = true;
                return Ok(TurnStep::Finished);
            },
        };
        let content: Option<&str> = match message.get_present("content") {
            Some(c) => c.as_str(),
            None => None,
        };
        let listed = match message.get_present("tool_calls") {
            Some(list) => list.as_array(),
            None => None,
        };
        match listed {
            Some(calls) => {
                let ghost cv = items_view(calls@);
                let mut out: Vec<ToolCall> = Vec::new();
                let mut shown = no_items();
                let mut i: usize = 0;
                while i < calls.len()
                    invariant
                        i <= calls.len(),
                        cv == items_view(calls@),
                        forall|k: int| 0 <= k < cv.len() ==> tool_call_ok(#[trigger] cv[k]),
                        out@.len() == i,
                        forall|k: int|
                            0 <= k < i ==> (#[trigger] out@[k]).fields() == call_fields(cv[k]),
                        items_view(shown@) == Seq::new(
                            i as nat,
                            |k: int| call_json(call_fields(cv[k])),
                        ),
                    decreases calls.len() - i,
                {
                    assert(cv[i as int] == calls@[i as int]@);
                    assert(tool_call_ok(cv[i as int]));
                    let call = ToolCall::from_json(&calls[i]);
                    push_item(&mut shown, call.to_json());
                    out.push(call);
                    assert(items_view(shown@) =~= Seq::new(
                        (i + 1) as nat,
                        |k: int| call_json(call_fields(cv[k])),
                    ));
                    i += 1;
                }
                let mut f = no_fields();
                push_field(&mut f, "role", Json::string("assistant"));
                push_field(
                    &mut f,
                    "content",
                    match content {
                        Some(c) => Json::string(c),
                        None => Json::Null,
                    },
                );
                push_field(&mut f, "tool_calls", Json::array(shown));
                push_item(&mut self.messages, Json::object(f));
                self.finished = false;
                proof {
                    assert(items_view(shown@) =~= calls_json(cv));
                    assert(calls_fields(out@) =~= Seq::new(
                        cv.len(),
                        |i: int| call_fields(cv[i]),
                    ));
                }
                Ok(TurnStep::CallTools(out))
            },
            None => {
                match content {
                    Some(c) => {
                        push_item(&mut self.messages, message_json("assistant", c));
                        self.final_text = String::from_str(c);
                    },
                    None => {},
                }
                self.finished = true;
                Ok(TurnStep::Finished)
            },
        }
    }

    /// Puts the outcome of a tool call on record for the model: the result,
    /// or, for a failed call, the error with the tool and the arguments.
    pub fn record_tool_outcome(
        &mut self,
        call_id: &str,
        tool: ToolName,
        args: &Json,
        outcome: &Result<Json, String>,
    )
        ensures
            final(self).messages_spec() == old(self).messages_spec().push(
                tool_result_message(
                    call_id@,
                    match *outcome {
                        Ok(j) => j@,
                        Err(e) => tool_error_json(e@, tool, args@),
                    },
                ),
            ),
            final(self).tools_spec() == old(self).tools_spec(),
            final(self).turns_spec() == old(self).turns_spec(),
            final(self).turn_cap_spec() == old(self).turn_cap_spec(),
            final(self).usage_spec() == old(self).usage_spec(),
            final(self).final_text_spec() == old(self).final_text_spec(),
            final(self).finished_spec() == old(self).finished_spec(),
    {
        let content = match outcome {
            Ok(j) => j.to_text(),
            Err(e) => {
                let mut f = no_fields();
                push_field(&mut f, "error", Json::Str(e.clone()));
                push_field(&mut f, "tool", Json::string(tool.variant_name()));
                push_field(&mut f, "args", args.deep_clone());
                Json::object(f).to_text()
            },
        };
        let mut m = no_fields();
        push_field(&mut m, "role", Json::string("tool"));
        push_field(&mut m, "tool_call_id", Json::string(call_id));
        push_field(&mut m, "content", Json::Str(content));
        push_item(&mut self.messages, Json::object(m));
    }

    /// Ends the conversation: the response carries the final text and the
    /// time it took; the events tell of the completion and, where a usage
    /// is known, of the token count.
    pub fn finish(self, elapsed: std::time::Duration) -> (r: (AgentResponse, Vec<AppEvent>))
        ensures
            r.0.content@ == self.final_text_spec(),
            r.0.metadata.processing_time == Some(elapsed),
            r.0.metadata.tokens_used is None,
            r.0.metadata.model is None,
            r.1@.len() == (if self.usage_spec() is Some {
                2nat
            } else {
                1nat
            }),
            r.1@[0] matches AppEvent::ChatCompleted { token_usage } && token_usage
                == self.usage_spec(),
            self.usage_spec() matches Some(u) ==> r.1@[1] == AppEvent::TokenCount(u),
    {
        let mut events: Vec<AppEvent> = Vec::new();
        events.push(AppEvent::ChatCompleted { token_usage: self.token_usage });
        match self.token_usage {
            Some(u) => {
                events.push(AppEvent::TokenCount(u));
            },
            None => {},
        }
        let metadata = ResponseMetadata::new().with_processing_time(elapsed);
        (AgentResponse { content: self.final_text, metadata }, events)
    }
}

impl MultiModelAgent {
    /// Opens a conversation: the system prompt, the history, and the
    /// message of the present turn, with the declarations of all tools.
    pub fn start(&self, message: &str, history: &[ChatMessage]) -> (c: Conversation)
        ensures
            c.messages_spec() == opening_messages(
                crate::session::messages_view(history@),
                message@,
            ),
            c.tools_spec() == tool_declarations(),
            c.turns_spec() == 0,
            c.turn_cap_spec() is None,
            c.usage_spec() is None,
            c.final_text_spec() == Seq::<char>::empty(),
            !c.finished_spec(),
    {
        let mut messages = no_items();
        let prompt = self.get_system_prompt();
        push_item(&mut messages, message_json("system", prompt.as_str()));
        let mut entries = self.convert_history(history);
        let ghost head = items_view(messages@);
        let ghost rest = items_view(entries@);
        let mut i: usize = 0;
        assert(head + rest.take(0) =~= head);
        while i < entries.len()
            invariant
                i <= entries.len(),
                rest == items_view(entries@),
                items_view(messages@) == head + rest.take(i as int),
            decreases entries.len() - i,
        {
            push_item(&mut messages, entries[i].deep_clone());
            assert(head + rest.take(i + 1) =~= (head + rest.take(i as int)).push(rest[i as int]));
            i += 1;
        }
        assert(rest.take(rest.len() as int) == rest);
        push_item(&mut messages, message_json("user", message));
        Conversation {
            messages,
            tools: self.tool_specs_for_openai(),
            turns: 0,
            max_turns: None,
            token_usage: None,
            final_text: String::new(),
            finished: false,
        }
    }

    /// Decides about one tool call of the model: a tool that the catalog
    /// does not know and arguments that are no document end the turn with
    /// a processing error; arguments that fail validation are skipped with
    /// a notice; anything else is to be dispatched.
    pub fn plan_call(&self, call: &ToolCall) -> (r: Result<CallPlan, AgentError>)
        ensures
            match ToolName::of_wire_name(call.name@) {
                None => r matches Err(AgentError::Processing(text)) && text@ == "unknown tool: "@
                    + call.name@,
                Some(tool) => match json_parse(call.arguments@) {
                    None => r matches Err(AgentError::Processing(text)) && crate::text::matches_at(
                        text@,
                        "invalid tool args: "@,
                        0,
                    ),
                    Some(args) => match validation_error(tool, args) {
                        Some(reason) => r matches Ok(CallPlan::Skip(ev)) && is_notice(
                            ev,
                            "tool args validation failed: "@ + reason,
                        ),
                        None => r matches Ok(CallPlan::Run { tool: t, args: a }) && t == tool
                            && a@ == args,
                    },
                },
            },
    {
        let tool = match self.tool_name_from_string(call.name.as_str()) {
            Some(t) => t,
            None => {
                return Err(
                    AgentError::Processing(concat2("unknown tool: ", call.name.as_str())),
                );
            },
        };
        let args = match Json::parse(call.arguments.as_str()) {
            Ok(a) => a,
            Err(e) => {
                let text = concat2("invalid tool args: ", e.as_str());
                proof {
                    assert(text@.subrange(0, "invalid tool args: "@.len() as int)
                        =~= "invalid tool args: "@);
                }
                return Err(AgentError::Processing(text));
            },
        };
        match self.tools.validate_args(&tool, &args) {
            Ok(_) => Ok(CallPlan::Run { tool, args }),
            Err(e) => Ok(
                CallPlan::Skip(
                    AppEvent::Error {
                        id: None,
                        message: concat2("tool args validation failed: ", e.as_str()),
                    },
                ),
            ),
        }
    }
}

} // verus!
