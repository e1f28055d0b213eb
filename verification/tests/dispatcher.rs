use grok_core::events::{AppEvent, EventBus, ToolName};
use grok_core::json::Json;
use grok_core::tools::executor::{truncate_result, ToolExecutor, ToolRun, DEFAULT_MAX_OUTPUT_SIZE};

fn drain(receiver: &mut tokio::sync::mpsc::UnboundedReceiver<AppEvent>) -> Vec<AppEvent> {
    let mut events = Vec::new();
    while let Ok(ev) = receiver.try_recv() {
        events.push(ev);
    }
    events
}

fn kinds(events: &[AppEvent]) -> Vec<&'static str> {
    events
        .iter()
        .map(|e| match e {
            AppEvent::ToolBegin { .. } => "begin",
            AppEvent::ToolProgress { .. } => "progress",
            AppEvent::ToolStdout { .. } => "stdout",
            AppEvent::ToolStderr { .. } => "stderr",
            AppEvent::ToolResult { .. } => "result",
            AppEvent::ToolEnd { .. } => "end",
            _ => "other",
        })
        .collect()
}

#[test]
fn results_within_the_limit_come_back_unchanged() {
    let result = Json::Object(vec![("contents".to_string(), Json::string("abc"))]);
    let size = result.to_text().len();
    assert_eq!(size, 18);
    assert_eq!(truncate_result(result.deep_clone(), size), result);
    assert_eq!(truncate_result(result.deep_clone(), DEFAULT_MAX_OUTPUT_SIZE), result);
}

#[test]
fn results_above_the_limit_become_the_stub() {
    let result = Json::Object(vec![("contents".to_string(), Json::string("abc"))]);
    let stub = truncate_result(result, 17);
    assert_eq!(stub.get("truncated"), Some(&Json::Bool(true)));
    assert_eq!(stub.get("original_size_bytes"), Some(&Json::Int(18)));
    assert_eq!(stub.get("max_allowed_bytes"), Some(&Json::Int(17)));
    assert_eq!(
        stub.get("message"),
        Some(&Json::string(
            "The tool output was too large and has been truncated. The rest of the output was too long."
        ))
    );
    assert_eq!(
        stub.get("note"),
        Some(&Json::string(
            "Output exceeded the maximum size limit to prevent excessive token usage in the conversation."
        ))
    );
}

#[test]
fn size_is_counted_in_bytes_of_the_text() {
    let result = Json::string("é");
    assert_eq!(result.to_text().len(), 4);
    assert_eq!(truncate_result(result.deep_clone(), 4), result);
    assert_eq!(truncate_result(result, 3).get("original_size_bytes"), Some(&Json::Int(4)));
}

#[test]
fn summaries_follow_the_tool_and_its_arguments() {
    let bus = EventBus::new();
    let executor = ToolExecutor::new(bus.sender());
    let cases = vec![
        (ToolName::FsRead, "{\"path\": \"README.md\"}", "Reading file: README.md"),
        (ToolName::FsRead, "{}", "Reading file"),
        (
            ToolName::FsSearch,
            "{\"query\": \"fn \", \"regex\": false, \"case_insensitive\": false, \"multiline\": false}",
            "Searching for: fn ",
        ),
        (ToolName::FsSearch, "{\"query\": \"fn \"}", "Searching for: fn "),
        (ToolName::FsSearch, "{\"regex\": true}", "Searching files"),
        (ToolName::FsWrite, "{\"path\": \"a.txt\", \"contents\": \"x\"}", "Writing to file: a.txt"),
        (ToolName::FsWrite, "{\"path\": \"a.txt\"}", "Writing file"),
        (ToolName::FsApplyPatch, "{}", "Applying patch"),
        (ToolName::FsFind, "{\"pattern\": \"main\"}", "Finding files matching: main"),
        (ToolName::ShellExec, "{\"command\": [\"echo\", \"hello\"]}", "Executing: echo hello"),
        (ToolName::ShellExec, "{\"command\": \"echo\"}", "Executing command"),
        (ToolName::CodeSymbols, "{\"path\": \"src/lib.rs\"}", "Analyzing symbols in: src/lib.rs"),
        (ToolName::LargeContextFetch, "{\"user_query\": \"q\"}", "Fetching relevant context"),
    ];
    for (tool, args, expected) in cases {
        let args = Json::parse(args).unwrap();
        assert_eq!(executor.get_tool_summary(&tool, &args), expected);
    }
}

#[test]
fn a_call_has_one_begin_and_one_end_with_the_rest_between() {
    let bus = EventBus::new();
    let executor = ToolExecutor::new(bus.sender()).with_max_output_size(10);
    assert_eq!(executor.max_output_size(), 10);
    let mut receiver = bus.into_receiver();

    let args = Json::parse("{\"command\": [\"echo\", \"hello\"]}").unwrap();
    let mut run = executor.begin("call-1", ToolName::ShellExec, &args);
    executor.emit(run.progress("Executing: echo hello".to_string()));
    executor.emit(run.stdout("hello\n".to_string()));
    executor.emit(run.stderr("warn\n".to_string()));
    let payload = Json::Object(vec![("stdout".to_string(), Json::string("hello\n"))]);
    let outcome = executor.complete(&mut run, payload.deep_clone());
    assert_eq!(outcome.get("truncated"), Some(&Json::Bool(true)));
    let again = executor.complete(&mut run, Json::Null);
    assert_eq!(again, Json::Null);
    let returned = executor.finish(&mut run, Ok(outcome.deep_clone()), 12);
    assert_eq!(returned, Ok(outcome));
    assert!(run.is_ended());
    assert!(run.has_result());
    assert!(run.progress("late".to_string()).is_none());
    assert!(run.end(true, 1).is_none());

    let events = drain(&mut receiver);
    assert_eq!(kinds(&events), vec!["begin", "progress", "stdout", "stderr", "result", "end"]);
    match &events[0] {
        AppEvent::ToolBegin { id, tool, summary, args: shown } => {
            assert_eq!(id, "call-1");
            assert_eq!(*tool, ToolName::ShellExec);
            assert_eq!(summary, "Executing: echo hello");
            assert_eq!(shown.as_ref(), Some(&args));
        }
        other => panic!("unexpected event {:?}", other),
    }
    match &events[4] {
        AppEvent::ToolResult { id, payload: shown } => {
            assert_eq!(id, "call-1");
            assert_eq!(shown, &payload);
        }
        other => panic!("unexpected event {:?}", other),
    }
    match &events[5] {
        AppEvent::ToolEnd { id, ok, duration_ms } => {
            assert_eq!(id, "call-1");
            assert!(*ok);
            assert_eq!(*duration_ms, 12);
        }
        other => panic!("unexpected event {:?}", other),
    }
}

#[test]
fn a_failed_call_ends_without_a_result() {
    let bus = EventBus::new();
    let executor = ToolExecutor::new(bus.sender());
    let mut receiver = bus.into_receiver();
    let mut run = executor.begin("call-2", ToolName::FsRead, &Json::Object(vec![]));
    let returned = executor.finish(&mut run, Err("File not found: x".to_string()), 3);
    assert_eq!(returned, Err("File not found: x".to_string()));
    let events = drain(&mut receiver);
    assert_eq!(kinds(&events), vec!["begin", "end"]);
    match &events[1] {
        AppEvent::ToolEnd { ok, .. } => assert!(!*ok),
        other => panic!("unexpected event {:?}", other),
    }
    assert!(!run.has_result());
}

#[test]
fn a_run_hands_out_its_events_in_order() {
    let (mut run, begin) = ToolRun::begin("id", ToolName::FsFind, "Finding files".to_string(), None);
    assert!(matches!(begin, AppEvent::ToolBegin { .. }));
    assert_eq!(run.id(), "id");
    assert_eq!(run.tool(), ToolName::FsFind);
    assert!(matches!(run.result(Json::Null), Some(AppEvent::ToolResult { .. })));
    assert!(run.result(Json::Null).is_none());
    assert!(matches!(run.stdout("x".to_string()), Some(AppEvent::ToolStdout { .. })));
    assert!(matches!(run.end(false, 0), Some(AppEvent::ToolEnd { ok: false, duration_ms: 0, .. })));
    assert!(run.stderr("x".to_string()).is_none());
}

#[test]
fn test_event_bus() {
    let bus = EventBus::new();
    let sender = bus.sender();
    let mut receiver = bus.into_receiver();

    sender.send_user_input("test message".to_string()).unwrap();

    let event = receiver.try_recv().unwrap();
    match event {
        AppEvent::UserInput(msg) => assert_eq!(msg, "test message"),
        _ => panic!("Expected UserInput event"),
    }
}

#[test]
fn sending_fails_only_once_the_consumer_is_gone() {
    let bus = EventBus::new();
    let sender = bus.sender();
    let other = sender.duplicate();
    let receiver = bus.into_receiver();
    assert!(sender.send_quit().is_ok());
    assert!(other.send_agent_thinking("hm".to_string()).is_ok());
    drop(receiver);
    let err = sender.send(AppEvent::Quit).unwrap_err();
    assert_eq!(err.message(), "Event channel is closed");
    assert!(other.send(AppEvent::Clear).is_err());
}
