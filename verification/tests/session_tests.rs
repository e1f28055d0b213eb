use grok_core::agent::AgentInfo;
use grok_core::events::{EventBus, ToolName};
use grok_core::json::Json;
use grok_core::session::{
    messages_from_json, messages_to_json, ChatMessage, MessageRole, Session, Timestamp,
    ToolMessageInfo, ToolStatus,
};

fn session() -> Session {
    let bus = EventBus::new();
    Session::new(
        AgentInfo {
            name: "Test Agent".to_string(),
            description: "for tests".to_string(),
            version: "1".to_string(),
        },
        bus.sender(),
    )
}

fn roles(s: &Session) -> Vec<MessageRole> {
    s.messages().iter().map(|m| m.role).collect()
}

#[test]
fn messages_are_appended_in_order() {
    let mut s = session();
    assert!(s.messages().is_empty());
    s.add_user_message("hi".to_string());
    s.add_system_message("note".to_string());
    s.add_error_message("oops".to_string());
    let saved = s.add_agent_message("hello".to_string());
    assert_eq!(
        roles(&s),
        vec![MessageRole::User, MessageRole::System, MessageRole::Error, MessageRole::Agent]
    );
    assert_eq!(s.messages()[3].content, "hello");
    assert!(s.messages().iter().all(|m| m.tool_info.is_none()));
    assert_eq!(saved, s.save());
    assert_eq!(s.agent_info().name, "Test Agent");
}

#[test]
fn formatted_content_and_colours_follow_the_role() {
    let make = |role: MessageRole| ChatMessage {
        role,
        content: "text".to_string(),
        timestamp_secs: 0,
        tool_info: None,
    };
    assert_eq!(make(MessageRole::User).formatted_content(), "You: text");
    assert_eq!(make(MessageRole::Agent).formatted_content(), "Agent: text");
    assert_eq!(make(MessageRole::System).formatted_content(), "System: text");
    assert_eq!(make(MessageRole::Error).formatted_content(), "Error: text");
    assert_eq!(make(MessageRole::Tool).formatted_content(), "text");
    assert_eq!(make(MessageRole::User).role_color(), "blue");
    assert_eq!(make(MessageRole::Agent).role_color(), "green");
    assert_eq!(make(MessageRole::System).role_color(), "yellow");
    assert_eq!(make(MessageRole::Error).role_color(), "red");
    assert_eq!(make(MessageRole::Tool).role_color(), "magenta");
}

#[test]
fn clear_leaves_one_system_message() {
    let mut s = session();
    s.add_user_message("a".to_string());
    s.add_user_message("b".to_string());
    s.clear();
    assert_eq!(s.messages().len(), 1);
    assert_eq!(s.messages()[0].role, MessageRole::System);
    assert_eq!(s.messages()[0].content, "Conversation and context cleared.");
}

#[test]
fn user_input_is_logged_and_handed_out_as_history() {
    let mut s = session();
    s.add_system_message("welcome".to_string());
    let history = s.handle_user_input("do it".to_string());
    assert_eq!(history.len(), 2);
    assert_eq!(history[1].role, MessageRole::User);
    assert_eq!(history[1].content, "do it");
    assert_eq!(s.messages().len(), 2);
    assert_eq!(s.messages()[1].content, "do it");
}

#[test]
fn tool_events_update_the_most_recent_message_of_the_call() {
    let mut s = session();
    s.add_user_message("run".to_string());
    s.handle_tool_begin(
        "t1".to_string(),
        ToolName::ShellExec,
        "Executing: echo hello".to_string(),
        Some(Json::Object(vec![])),
    );
    s.handle_tool_begin("t2".to_string(), ToolName::FsRead, "Reading file: a".to_string(), None);
    s.handle_tool_begin("t1".to_string(), ToolName::ShellExec, "Executing: again".to_string(), None);
    assert_eq!(s.messages()[1].content, "Agent ran Executing: echo hello");

    s.handle_tool_progress("t1".to_string(), "working".to_string());
    s.handle_tool_stdout("t1".to_string(), "hello\n".to_string());
    s.handle_tool_stdout("t1".to_string(), "world\n".to_string());
    s.handle_tool_stderr("t1".to_string(), "warn\n".to_string());
    s.handle_tool_result("t1".to_string(), Json::Int(7));
    s.handle_tool_end("t1".to_string(), true, 5);
    s.handle_tool_end("t2".to_string(), false, 5);
    s.handle_tool_stdout("nobody".to_string(), "lost".to_string());

    assert_eq!(s.messages().len(), 4);
    let first = s.messages()[1].tool_info.as_ref().unwrap();
    assert_eq!(first.status, ToolStatus::Running);
    assert_eq!(first.stdout, "");
    assert!(first.result.is_none());
    let second = s.messages()[2].tool_info.as_ref().unwrap();
    assert_eq!(second.status, ToolStatus::Failed);
    let third = s.messages()[3].tool_info.as_ref().unwrap();
    assert_eq!(third.id, "t1");
    assert_eq!(third.status, ToolStatus::Completed);
    assert_eq!(third.stdout, "hello\nworld\n");
    assert_eq!(third.stderr, "warn\n");
    assert_eq!(third.result, Some(Json::Int(7)));
    assert_eq!(third.summary, "Executing: again");

    assert_eq!(s.tool_messages().len(), 3);
    assert_eq!(s.non_tool_messages().len(), 1);
    assert_eq!(s.non_tool_messages()[0].content, "run");
}

#[test]
fn saving_and_loading_gives_the_same_messages() {
    let mut s = session();
    s.add_user_message("hi".to_string());
    s.handle_tool_begin(
        "t1".to_string(),
        ToolName::FsRead,
        "Reading file: README.md".to_string(),
        Some(Json::Object(vec![("path".to_string(), Json::string("README.md"))])),
    );
    s.handle_tool_stdout("t1".to_string(), "out".to_string());
    s.handle_tool_result("t1".to_string(), Json::Array(vec![Json::Bool(true)]));
    s.handle_tool_end("t1".to_string(), true, 1);
    s.add_agent_message("done".to_string());
    let text = s.save();

    let mut loaded = session();
    loaded.add_error_message("to be replaced".to_string());
    assert!(loaded.load_into(Some(&text)).is_ok());
    assert_eq!(loaded.messages().len(), 3);
    for (a, b) in s.messages().iter().zip(loaded.messages().iter()) {
        assert_eq!(a.role, b.role);
        assert_eq!(a.content, b.content);
        assert_eq!(a.timestamp_secs, b.timestamp_secs);
        match (&a.tool_info, &b.tool_info) {
            (None, None) => {}
            (Some(x), Some(y)) => {
                assert_eq!(x.id, y.id);
                assert_eq!(x.tool, y.tool);
                assert_eq!(x.summary, y.summary);
                assert_eq!(x.args, y.args);
                assert_eq!(x.start_time, y.start_time);
                assert_eq!(x.status, y.status);
                assert_eq!(x.stdout, y.stdout);
                assert_eq!(x.stderr, y.stderr);
                assert_eq!(x.result, y.result);
            }
            _ => panic!("tool information lost"),
        }
    }
    assert_eq!(loaded.save(), text);
}

#[test]
fn the_saved_form_of_a_message_has_its_members() {
    let message = ChatMessage {
        role: MessageRole::Tool,
        content: "Agent ran x".to_string(),
        timestamp_secs: 12,
        tool_info: Some(ToolMessageInfo {
            id: "t".to_string(),
            tool: ToolName::CodeSymbols,
            summary: "x".to_string(),
            args: None,
            start_time: Timestamp { secs: 3, nanos: 4 },
            status: ToolStatus::Completed,
            stdout: "o".to_string(),
            stderr: "e".to_string(),
            result: Some(Json::Int(1)),
        }),
    };
    assert_eq!(
        messages_to_json(&[message]).to_text(),
        "[{\"content\":\"Agent ran x\",\"role\":\"Tool\",\"timestamp_secs\":12,\"tool_info\":{\"args\":null,\"id\":\"t\",\"result\":1,\"start_time\":{\"nanos_since_epoch\":4,\"secs_since_epoch\":3},\"status\":\"Completed\",\"stderr\":\"e\",\"stdout\":\"o\",\"summary\":\"x\",\"tool\":\"CodeSymbols\"}}]"
    );
}

#[test]
fn loading_fails_on_what_is_no_history() {
    let mut s = session();
    s.add_user_message("kept".to_string());
    assert_eq!(s.load_into(None), Err("No history file found".to_string()));
    assert!(s.load_into(Some("{not json")).is_err());
    assert_eq!(s.load_into(Some("{\"a\": 1}")), Err("Invalid chat history".to_string()));
    assert_eq!(
        s.load_into(Some("[{\"role\": \"Nobody\", \"content\": \"x\", \"timestamp_secs\": 1}]")),
        Err("Invalid chat history".to_string())
    );
    assert_eq!(s.messages().len(), 1);
    assert_eq!(s.messages()[0].content, "kept");
    assert!(messages_from_json(&Json::Array(vec![Json::Null])).is_none());
}

#[test]
fn an_empty_history_is_greeted() {
    let mut s = session();
    assert!(s.load_into(Some("[]")).is_ok());
    assert_eq!(s.messages().len(), 1);
    assert_eq!(s.messages()[0].role, MessageRole::System);
    assert_eq!(s.messages()[0].content, "Welcome to Grok Code! Type your message and press Enter.");
}

#[test]
fn replacing_and_paths() {
    let mut s = session();
    s.replace_messages(vec![ChatMessage {
        role: MessageRole::Agent,
        content: "loaded".to_string(),
        timestamp_secs: 9,
        tool_info: None,
    }]);
    assert_eq!(s.messages().len(), 1);
    assert_eq!(s.snapshot()[0].content, "loaded");
    assert_eq!(
        Session::default_history_path(Some("/home/me")),
        "/home/me/.grok_code/chat_history.json"
    );
    assert_eq!(Session::default_history_path(None), "/tmp/.grok_code/chat_history.json");
    assert!(Timestamp::now().secs > 1_600_000_000);
}

#[test]
fn a_turn_with_a_tool_leaves_user_tool_and_agent_messages() {
    let mut s = session();
    let history = s.handle_user_input("read the readme".to_string());
    assert_eq!(history.len(), 1);
    s.handle_tool_begin(
        "call_1".to_string(),
        ToolName::FsRead,
        "Reading file: README.md".to_string(),
        Some(Json::Object(vec![("path".to_string(), Json::string("README.md"))])),
    );
    s.handle_tool_progress("call_1".to_string(), "Reading file: README.md".to_string());
    s.handle_tool_result(
        "call_1".to_string(),
        Json::Object(vec![("contents".to_string(), Json::string("# Readme"))]),
    );
    s.handle_tool_end("call_1".to_string(), true, 4);
    s.add_agent_message("done".to_string());

    assert_eq!(roles(&s), vec![MessageRole::User, MessageRole::Tool, MessageRole::Agent]);
    let tool = s.messages()[1].tool_info.as_ref().unwrap();
    assert_eq!(tool.status, ToolStatus::Completed);
    assert_eq!(tool.id, "call_1");
    assert_eq!(s.messages()[2].content, "done");
}
