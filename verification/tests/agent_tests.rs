use grok_core::agent::agent_logic::{
    check_response, read_usage, request_body, substitute_model, CallPlan, Fallback, HttpOutcome,
    MultiModelAgent, Settled, ToolCall, TurnStep,
};
use grok_core::agent::mock::{MockAgent, MockStep};
use grok_core::agent::{AgentError, AgentFactory, ResponseMetadata};
use grok_core::events::{AppEvent, EventBus, TokenUsage, ToolName};
use grok_core::json::Json;
use grok_core::session::{ChatMessage, MessageRole, Timestamp, ToolMessageInfo, ToolStatus};

fn agent(fallback: Option<(&str, &str)>) -> MultiModelAgent {
    let bus = EventBus::new();
    MultiModelAgent::new(
        "key-a".to_string(),
        "model-a".to_string(),
        fallback.map(|(k, m)| (k.to_string(), m.to_string())),
        bus.sender(),
    )
}

fn message(role: MessageRole, content: &str) -> ChatMessage {
    ChatMessage { role, content: content.to_string(), timestamp_secs: 1, tool_info: None }
}

fn ok_response(body: &str) -> HttpOutcome {
    HttpOutcome::Status { success: true, status: "200 OK".to_string(), body: body.to_string() }
}

const FINAL: &str = "{\"id\": \"r2\", \"model\": \"m\", \"usage\": {\"prompt_tokens\": 10, \"completion_tokens\": 5, \"total_tokens\": 15}, \"choices\": [{\"finish_reason\": \"stop\", \"message\": {\"role\": \"assistant\", \"content\": \"done\"}}]}";
const WITH_TOOL: &str = "{\"id\": \"r1\", \"model\": \"m\", \"choices\": [{\"message\": {\"role\": \"assistant\", \"content\": null, \"tool_calls\": [{\"id\": \"call_1\", \"type\": \"function\", \"function\": {\"name\": \"fs.read\", \"arguments\": \"{\\\"path\\\":\\\"README.md\\\"}\"}}]}}]}";

#[test]
fn providers_are_the_primary_and_its_fallback() {
    let with_gateway = agent(Some(("key-b", "model-b")));
    let shown: Vec<(&str, &str, &str, &str)> = with_gateway
        .model_configs()
        .iter()
        .map(|c| (c.name.as_str(), c.base_url.as_str(), c.api_key.as_str(), c.model.as_str()))
        .collect();
    assert_eq!(
        shown,
        vec![
            ("OpenRouter", "https://openrouter.ai/api/v1/chat/completions", "key-a", "model-a"),
            ("Vercel AI Gateway", "https://ai-gateway.vercel.sh/v1/chat/completions", "key-b", "model-b"),
        ]
    );
    let alone = agent(None);
    assert_eq!(alone.model_configs()[1].name, "OpenRouter Fallback");
    assert_eq!(alone.model_configs()[1].api_key, "key-a");
    assert_eq!(alone.info().name, "Multi-Model Agent");
    assert_eq!(alone.tool_name_from_string("shell.exec"), Some(ToolName::ShellExec));
    assert_eq!(alone.tool_name_from_string("shell"), None);
}

#[test]
fn the_factory_needs_a_key() {
    let bus = EventBus::new();
    match AgentFactory::create_openrouter_from_env(None, None, None, bus.sender()) {
        Err(AgentError::Configuration(text)) => assert_eq!(text, "Missing OPENROUTER_API_KEY"),
        _ => panic!("expected a configuration error"),
    }
    let made = AgentFactory::create_openrouter_from_env(Some("k".to_string()), None, None, bus.sender());
    match made {
        Ok(agent) => assert_eq!(agent.model_configs()[0].model, "x-ai/grok-4-fast:free"),
        Err(_) => panic!("expected an agent"),
    }
    assert_eq!(
        AgentError::Network("down".to_string()).message(),
        "Network error: down"
    );
    assert_eq!(AgentError::Configuration("c".to_string()).message(), "Agent configuration error: c");
    assert_eq!(AgentError::Processing("p".to_string()).message(), "Processing error: p");
    assert_eq!(AgentError::Unavailable("u".to_string()).message(), "Agent unavailable: u");
    let stamped = ResponseMetadata::new().with_processing_time(std::time::Duration::from_millis(5));
    assert_eq!(stamped.processing_time, Some(std::time::Duration::from_millis(5)));
    assert!(stamped.tokens_used.is_none());
    assert!(stamped.model.is_none());
}

#[test]
fn tools_are_declared_as_functions() {
    let declared = agent(None).tool_specs_for_openai();
    assert_eq!(declared.len(), 8);
    let first = &declared[0];
    assert_eq!(first.get("type"), Some(&Json::string("function")));
    let function = first.get("function").unwrap();
    assert_eq!(function.get("name"), Some(&Json::string("fs.read")));
    assert_eq!(function.get("description"), Some(&Json::string("Tool: FsRead")));
    assert_eq!(
        function.get("parameters").unwrap().get("required"),
        Some(&Json::Array(vec![Json::string("path")]))
    );
    assert_eq!(
        declared[7].get("function").unwrap().get("name"),
        Some(&Json::string("large_context_fetch"))
    );
}

#[test]
fn history_is_converted_role_by_role() {
    let tool = ChatMessage {
        role: MessageRole::Tool,
        content: "Agent ran Reading file: a".to_string(),
        timestamp_secs: 2,
        tool_info: Some(ToolMessageInfo {
            id: "call_9".to_string(),
            tool: ToolName::FsRead,
            summary: "Reading file: a".to_string(),
            args: None,
            start_time: Timestamp { secs: 0, nanos: 0 },
            status: ToolStatus::Completed,
            stdout: "out".to_string(),
            stderr: "".to_string(),
            result: Some(Json::string("never sent")),
        }),
    };
    let history = vec![
        message(MessageRole::User, "hi"),
        message(MessageRole::Agent, "hello"),
        message(MessageRole::System, "note"),
        message(MessageRole::Error, "boom"),
        tool,
        message(MessageRole::Tool, "bare"),
    ];
    let converted: Vec<String> = agent(None).convert_history(&history).iter().map(|j| j.to_text()).collect();
    assert_eq!(
        converted,
        vec![
            "{\"content\":\"hi\",\"role\":\"user\"}",
            "{\"content\":\"hello\",\"role\":\"assistant\"}",
            "{\"content\":\"note\",\"role\":\"system\"}",
            "{\"content\":\"[error] boom\",\"role\":\"system\"}",
            "{\"content\":\"{\\\"stderr\\\":\\\"\\\",\\\"stdout\\\":\\\"out\\\"}\",\"role\":\"tool\",\"tool_call_id\":\"call_9\"}",
            "{\"content\":\"bare\",\"role\":\"tool\"}",
        ]
    );
}

#[test]
fn the_request_names_model_messages_tools_and_choice() {
    let body = request_body("m", &vec![Json::Int(1)], &vec![Json::Int(2)]);
    assert_eq!(body.to_text(), "{\"messages\":[1],\"model\":\"m\",\"tool_choice\":\"auto\",\"tools\":[2]}");
    let swapped = substitute_model(&body, "other");
    assert_eq!(swapped.get("model"), Some(&Json::string("other")));
    assert_eq!(swapped.get("messages"), Some(&Json::Array(vec![Json::Int(1)])));
    let without = Json::Object(vec![("x".to_string(), Json::Null)]);
    assert_eq!(substitute_model(&without, "other"), without);
    assert_eq!(substitute_model(&Json::Int(3), "other"), Json::Int(3));
}

#[test]
fn responses_are_checked_for_their_shape() {
    assert!(check_response(&Json::parse(FINAL).unwrap()));
    assert!(check_response(&Json::parse(WITH_TOOL).unwrap()));
    assert!(check_response(&Json::parse("{\"id\": \"a\", \"model\": \"b\", \"choices\": []}").unwrap()));
    assert!(!check_response(&Json::parse("{\"model\": \"b\", \"choices\": []}").unwrap()));
    assert!(!check_response(&Json::parse("{\"id\": \"a\", \"model\": \"b\"}").unwrap()));
    assert!(!check_response(&Json::parse("{\"id\": \"a\", \"model\": \"b\", \"choices\": [{\"message\": {\"content\": \"x\"}}]}").unwrap()));
    assert!(!check_response(&Json::parse("{\"id\": \"a\", \"model\": \"b\", \"choices\": [{\"message\": {\"role\": \"assistant\", \"tool_calls\": [{\"id\": \"c\"}]}}]}").unwrap()));
    assert!(!check_response(&Json::parse("{\"id\": \"a\", \"model\": \"b\", \"usage\": {\"prompt_tokens\": 1}, \"choices\": []}").unwrap()));
    assert_eq!(
        read_usage(&Json::parse(FINAL).unwrap()),
        Some(TokenUsage { input_tokens: 10, output_tokens: 5, total_tokens: 15 })
    );
    let wrapped = Json::parse("{\"usage\": {\"prompt_tokens\": -1, \"completion_tokens\": 4294967297, \"total_tokens\": 0}}").unwrap();
    assert_eq!(
        read_usage(&wrapped),
        Some(TokenUsage { input_tokens: 4294967295, output_tokens: 1, total_tokens: 0 })
    );
    assert_eq!(read_usage(&Json::parse("{}").unwrap()), None);
}

#[test]
fn fallback_serves_from_the_second_provider() {
    let agent = agent(Some(("key-b", "model-b")));
    let body = request_body("model-a", &vec![], &vec![]);
    let mut fallback = Fallback::new();

    let first = agent.next_attempt(&fallback, &body).unwrap();
    assert_eq!(first.base_url, "https://openrouter.ai/api/v1/chat/completions");
    assert_eq!(first.api_key, "key-a");
    assert_eq!(first.body.get("model"), Some(&Json::string("model-a")));
    let (settled, events) =
        agent.settle(&mut fallback, HttpOutcome::TransportError("connection refused".to_string()));
    assert!(matches!(settled, Settled::TryNext));
    assert_eq!(events.len(), 1);
    match &events[0] {
        AppEvent::Error { id, message } => {
            assert!(id.is_none());
            assert_eq!(message, "Failed to connect to OpenRouter, trying next provider...");
        }
        other => panic!("unexpected event {:?}", other),
    }
    assert_eq!(fallback.failed(), 1);

    let second = agent.next_attempt(&fallback, &body).unwrap();
    assert_eq!(second.base_url, "https://ai-gateway.vercel.sh/v1/chat/completions");
    assert_eq!(second.api_key, "key-b");
    assert_eq!(second.body.get("model"), Some(&Json::string("model-b")));
    let (settled, events) = agent.settle(&mut fallback, ok_response(FINAL));
    match settled {
        Settled::Response(doc) => assert_eq!(doc, Json::parse(FINAL).unwrap()),
        Settled::TryNext => panic!("expected a response"),
    }
    match &events[0] {
        AppEvent::Error { message, .. } => {
            assert_eq!(message, "Successfully using Vercel AI Gateway after 1 failed attempts");
        }
        other => panic!("unexpected event {:?}", other),
    }
}

#[test]
fn exhausted_providers_end_in_the_last_error() {
    let agent = agent(None);
    let body = request_body("model-a", &vec![], &vec![]);
    let mut fallback = Fallback::new();
    let (_, events) = agent.settle(
        &mut fallback,
        HttpOutcome::Status {
            success: false,
            status: "500 Internal Server Error".to_string(),
            body: "oops".to_string(),
        },
    );
    match &events[0] {
        AppEvent::Error { message, .. } => assert_eq!(
            message,
            "OpenRouter returned 500 Internal Server Error, trying next provider..."
        ),
        other => panic!("unexpected event {:?}", other),
    }
    let (settled, events) = agent.settle(&mut fallback, ok_response("{\"id\": 3}"));
    assert!(matches!(settled, Settled::TryNext));
    assert!(events.is_empty());
    assert!(agent.next_attempt(&fallback, &body).is_none());
    match agent.give_up(fallback) {
        AgentError::Network(text) => {
            assert_eq!(text, "OpenRouter Fallback decode error: invalid chat completion response")
        }
        other => panic!("unexpected error {:?}", other),
    }
    let mut other = Fallback::new();
    let (_, _) = agent.settle(&mut other, ok_response("not json"));
    match agent.give_up(other) {
        AgentError::Network(text) => assert_eq!(text, "OpenRouter decode error: invalid JSON"),
        other => panic!("unexpected error {:?}", other),
    }
    match agent.give_up(Fallback::new()) {
        AgentError::Network(text) => assert_eq!(text, "All model providers failed"),
        other => panic!("unexpected error {:?}", other),
    }
}

#[test]
fn a_conversation_with_a_tool_call_takes_two_turns() {
    let agent = agent(None);
    let history = vec![message(MessageRole::User, "read the readme")];
    let mut conversation = agent.start("read the readme", &history);
    assert!(!conversation.is_finished());

    assert!(matches!(conversation.begin_turn(), Ok(Some(AppEvent::ChatCreated))));
    let body = conversation.request("model-a");
    let messages = body.get("messages").unwrap().as_array().unwrap();
    assert_eq!(messages.len(), 3);
    assert_eq!(messages[0].get("role"), Some(&Json::string("system")));
    assert_eq!(messages[0].get("content"), Some(&Json::Str(agent.get_system_prompt())));
    assert_eq!(messages[2].to_text(), "{\"content\":\"read the readme\",\"role\":\"user\"}");
    assert_eq!(body.get("tools").unwrap().as_array().unwrap().len(), 8);
    assert_eq!(body.get("tool_choice"), Some(&Json::string("auto")));

    let step = conversation.take_response(&Json::parse(WITH_TOOL).unwrap()).unwrap();
    let calls = match step {
        TurnStep::CallTools(calls) => calls,
        TurnStep::Finished => panic!("expected tool calls"),
    };
    assert_eq!(calls.len(), 1);
    assert_eq!(calls[0].id, "call_1");
    assert_eq!(calls[0].name, "fs.read");
    assert!(!conversation.is_finished());

    let (tool, args) = match agent.plan_call(&calls[0]).unwrap() {
        CallPlan::Run { tool, args } => (tool, args),
        CallPlan::Skip(_) => panic!("expected a call to run"),
    };
    assert_eq!(tool, ToolName::FsRead);
    assert_eq!(args, Json::Object(vec![("path".to_string(), Json::string("README.md"))]));
    let result = Json::Object(vec![("contents".to_string(), Json::string("# Readme"))]);
    conversation.record_tool_outcome("call_1", tool, &args, &Ok(result));

    assert!(matches!(conversation.begin_turn(), Ok(None)));
    assert_eq!(conversation.turns(), 2);
    let body = conversation.request("model-a");
    let messages = body.get("messages").unwrap().as_array().unwrap();
    assert_eq!(messages.len(), 5);
    assert_eq!(
        messages[3].to_text(),
        "{\"content\":null,\"role\":\"assistant\",\"tool_calls\":[{\"function\":{\"arguments\":\"{\\\"path\\\":\\\"README.md\\\"}\",\"name\":\"fs.read\"},\"id\":\"call_1\",\"type\":\"function\"}]}"
    );
    assert_eq!(
        messages[4].to_text(),
        "{\"content\":\"{\\\"contents\\\":\\\"# Readme\\\"}\",\"role\":\"tool\",\"tool_call_id\":\"call_1\"}"
    );

    let step = conversation.take_response(&Json::parse(FINAL).unwrap()).unwrap();
    assert!(matches!(step, TurnStep::Finished));
    assert!(conversation.is_finished());
    let (response, events) = conversation.finish(std::time::Duration::from_millis(40));
    assert_eq!(response.content, "done");
    assert_eq!(response.metadata.processing_time, Some(std::time::Duration::from_millis(40)));
    assert_eq!(events.len(), 2);
    let usage = TokenUsage { input_tokens: 10, output_tokens: 5, total_tokens: 15 };
    match &events[0] {
        AppEvent::ChatCompleted { token_usage } => assert_eq!(*token_usage, Some(usage)),
        other => panic!("unexpected event {:?}", other),
    }
    match &events[1] {
        AppEvent::TokenCount(u) => assert_eq!(*u, usage),
        other => panic!("unexpected event {:?}", other),
    }
}

#[test]
fn tool_calls_are_planned_before_they_run() {
    let agent = agent(None);
    let call = |name: &str, arguments: &str| ToolCall {
        id: "c".to_string(),
        name: name.to_string(),
        arguments: arguments.to_string(),
    };
    match agent.plan_call(&call("fs.teleport", "{}")) {
        Err(AgentError::Processing(text)) => assert_eq!(text, "unknown tool: fs.teleport"),
        _ => panic!("expected a processing error"),
    }
    match agent.plan_call(&call("fs.read", "{not json")) {
        Err(AgentError::Processing(text)) => assert!(text.starts_with("invalid tool args: ")),
        _ => panic!("expected a processing error"),
    }
    match agent.plan_call(&call("fs.read", "{}")) {
        Ok(CallPlan::Skip(AppEvent::Error { id, message })) => {
            assert!(id.is_none());
            assert_eq!(message, "tool args validation failed: Missing required field: path");
        }
        _ => panic!("expected the call to be skipped"),
    }
}

#[test]
fn failed_tools_and_odd_responses() {
    let agent = agent(None);
    let mut conversation = agent.start("go", &[]);
    let args = Json::Object(vec![("path".to_string(), Json::string("x"))]);
    conversation.record_tool_outcome(
        "c1",
        ToolName::FsRead,
        &args,
        &Err("File not found: x".to_string()),
    );
    let body = conversation.request("m");
    let messages = body.get("messages").unwrap().as_array().unwrap();
    assert_eq!(
        messages[2].get("content"),
        Some(&Json::string(
            "{\"args\":{\"path\":\"x\"},\"error\":\"File not found: x\",\"tool\":\"FsRead\"}"
        ))
    );

    match conversation.take_response(&Json::parse("{\"id\": \"a\", \"model\": \"b\", \"choices\": []}").unwrap()) {
        Err(AgentError::Processing(text)) => assert_eq!(text, "no choices"),
        _ => panic!("expected a processing error"),
    }
    match conversation.take_response(&Json::Null) {
        Err(AgentError::Processing(text)) => assert_eq!(text, "invalid response"),
        _ => panic!("expected a processing error"),
    }
    let empty = Json::parse("{\"id\": \"a\", \"model\": \"b\", \"choices\": [{\"message\": {\"role\": \"assistant\"}}]}").unwrap();
    assert!(matches!(conversation.take_response(&empty), Ok(TurnStep::Finished)));
    let (response, events) = conversation.finish(std::time::Duration::from_millis(1));
    assert_eq!(response.content, "");
    assert_eq!(events.len(), 1);
}

#[test]
fn test_mock_agent_echo() {
    let agent = MockAgent::new().with_delay(std::time::Duration::from_millis(10));
    assert_eq!(agent.delay(), std::time::Duration::from_millis(10));
    let response = agent.respond("Hello, world!", std::time::Duration::from_millis(10)).unwrap();

    assert!(response.content.contains("I'm going to help you with:"));
    assert_eq!(response.content, "I'm going to help you with: Hello, world!");
    assert!(response.metadata.processing_time.is_some());
}

#[test]
fn test_mock_agent_error() {
    let agent = MockAgent::new().with_delay(std::time::Duration::from_millis(10));
    let result = agent.respond("error", std::time::Duration::from_millis(10));

    assert!(result.is_err());
    match result.unwrap_err() {
        AgentError::Processing(msg) => assert_eq!(msg, "Simulated error"),
        _ => panic!("Expected processing error"),
    }
    match agent.respond("  Network ERROR \n", std::time::Duration::from_millis(1)) {
        Err(AgentError::Network(msg)) => assert_eq!(msg, "Simulated network failure"),
        _ => panic!("Expected network error"),
    }
}

#[test]
fn the_mock_agent_picks_tools_by_the_words_of_the_message() {
    let bus = EventBus::new();
    let agent = MockAgent::default().with_event_sender(bus.sender());
    assert!(agent.uses_tools());
    assert_eq!(agent.info().name, "Mock Agent");
    let tools = |message: &str| -> Vec<ToolName> {
        agent.determine_tools_for_message(message).iter().map(|t| t.0).collect()
    };
    assert_eq!(tools("hello"), vec![ToolName::FsRead, ToolName::FsSearch, ToolName::ShellExec]);
    assert_eq!(tools("Please READ and then grep"), vec![ToolName::FsRead, ToolName::FsSearch]);
    assert_eq!(
        tools("write a patch, then build"),
        vec![ToolName::FsWrite, ToolName::FsApplyPatch, ToolName::ShellExec]
    );
    let calls = agent.determine_tools_for_message("run the test command");
    assert_eq!(
        calls[0].1.get("command"),
        Some(&Json::Array(vec![Json::string("cargo"), Json::string("test")]))
    );
    let search = agent.determine_tools_for_message("find the struct");
    assert_eq!(search[0].1.get("query"), Some(&Json::string("struct")));
    let response = agent.respond("do it", std::time::Duration::from_millis(1)).unwrap();
    assert_eq!(
        response.content,
        "I've processed your request: \"do it\" using various tools. Check the tool outputs above for details."
    );
    assert_eq!(MockAgent::describe_tool(ToolName::ShellExec), "executing command");
    assert_eq!(
        MockAgent::usage_for("abc"),
        TokenUsage { input_tokens: 3, output_tokens: 150, total_tokens: 153 }
    );
}

#[test]
fn a_bounded_conversation_ends_in_error_at_its_bound() {
    let agent = agent(None);
    let mut conversation = agent.start("go", &[]).with_turn_cap(2);
    assert!(conversation.begin_turn().is_ok());
    assert!(conversation.begin_turn().is_ok());
    match conversation.begin_turn() {
        Err(AgentError::Processing(text)) => assert_eq!(text, "Too many tool turns"),
        _ => panic!("expected a processing error"),
    }
    assert_eq!(conversation.turns(), 2);
}

#[test]
fn the_mock_agent_plays_its_tools_in_steps() {
    let bus = EventBus::new();
    let mock = MockAgent::new().with_event_sender(bus.sender());
    let message = "please read the file";
    let tools = mock.determine_tools_for_message(message);
    assert!(!tools.is_empty());
    let steps = mock.simulate_tool_calling_response(message);
    assert_eq!(steps.len(), 3 * tools.len() + 5);
    assert!(matches!(steps[0], MockStep::Emit(AppEvent::ChatCreated)));
    match &steps[1] {
        MockStep::Emit(AppEvent::ChatDelta { text }) => assert_eq!(
            text,
            "I'll help you with that. Let me use some tools to analyze your request.\n\n"
        ),
        other => panic!("unexpected step {:?}", other),
    }
    assert!(matches!(steps[2], MockStep::Wait(200)));
    for (i, (tool, args)) in tools.iter().enumerate() {
        match &steps[3 + 3 * i] {
            MockStep::Emit(AppEvent::ChatDelta { text }) => assert_eq!(
                text,
                &format!("Now I'm {} to help with your request...\n", MockAgent::describe_tool(*tool))
            ),
            other => panic!("unexpected step {:?}", other),
        }
        match &steps[4 + 3 * i] {
            MockStep::RunTool { tool: t, args: a } => {
                assert_eq!(t, tool);
                assert_eq!(a, args);
            }
            other => panic!("unexpected step {:?}", other),
        }
        assert!(matches!(steps[5 + 3 * i], MockStep::Wait(300)));
    }
    match &steps[steps.len() - 2] {
        MockStep::Emit(AppEvent::ChatDelta { text }) => assert_eq!(
            text,
            "\nAll tools have completed successfully! I've processed your request using the appropriate tools."
        ),
        other => panic!("unexpected step {:?}", other),
    }
    match &steps[steps.len() - 1] {
        MockStep::Emit(AppEvent::ChatCompleted { token_usage }) => assert_eq!(
            *token_usage,
            Some(TokenUsage { input_tokens: 20, output_tokens: 150, total_tokens: 170 })
        ),
        other => panic!("unexpected step {:?}", other),
    }
    assert_eq!(
        MockAgent::report_usage("héllo"),
        Some(TokenUsage { input_tokens: 6, output_tokens: 150, total_tokens: 156 })
    );
}
