use grok_core::events::{AppEvent, EventBus, ToolName};
use grok_core::json::Json;
use grok_core::tools::executor::ToolRun;
use grok_core::tools::executors::shell::{ProcessOutcome, ShellExecutor, DEFAULT_TIMEOUT_MS};
use grok_core::tools::types::ShellExecResult;

fn drain(receiver: &mut tokio::sync::mpsc::UnboundedReceiver<AppEvent>) -> Vec<AppEvent> {
    let mut events = Vec::new();
    while let Ok(ev) = receiver.try_recv() {
        events.push(ev);
    }
    events
}

fn new_run() -> ToolRun {
    ToolRun::begin("test_id", ToolName::ShellExec, "Executing command".to_string(), None).0
}

#[test]
fn test_shell_exec_success() {
    let bus = EventBus::new();
    let executor = ShellExecutor::new(bus.sender(), 1024 * 1024);
    let mut receiver = bus.into_receiver();
    let mut run = new_run();

    let args = Json::parse("{\"command\": [\"echo\", \"hello\"]}").unwrap();
    let parsed = executor.prepare(&mut run, &args).unwrap();
    assert_eq!(parsed.command, vec!["echo", "hello"]);
    assert_eq!(ShellExecutor::timeout_ms(&parsed), DEFAULT_TIMEOUT_MS);
    let chunk = executor.stdout_line(&mut run, "hello");
    assert_eq!(chunk, "hello\n");
    let result = executor.execute_with_result(
        &mut run, 5000,
        ProcessOutcome::Exited { code: Some(0), elapsed_ms: 0 },
        chunk,
        String::new(),
    );
    assert!(result.is_ok());
    let shell_result = ShellExecResult::from_json(&result.unwrap()).unwrap();
    assert_eq!(shell_result.exit_code, 0);
    assert!(shell_result.stdout.contains("hello\n"));
    assert!(shell_result.stderr.is_empty());
    assert!(shell_result.duration_ms >= 1);

    let events = drain(&mut receiver);
    assert_eq!(events.len(), 3);
    match &events[0] {
        AppEvent::ToolProgress { message, .. } => assert_eq!(message, "Executing: echo hello"),
        other => panic!("unexpected event {:?}", other),
    }
    match &events[1] {
        AppEvent::ToolStdout { chunk, .. } => assert!(chunk.ends_with("\n")),
        other => panic!("unexpected event {:?}", other),
    }
    assert!(matches!(events[2], AppEvent::ToolResult { .. }));
}

#[test]
fn test_shell_exec_stderr_output() {
    let bus = EventBus::new();
    let executor = ShellExecutor::new(bus.sender(), 1024 * 1024);
    let mut receiver = bus.into_receiver();
    let mut run = new_run();
    let chunk = executor.stderr_line(&mut run, "error message");
    assert_eq!(chunk, "error message\n");
    let result = executor
        .execute_with_result(
            &mut run, 5000,
            ProcessOutcome::Exited { code: Some(0), elapsed_ms: 7 },
            String::new(),
            chunk,
        )
        .unwrap();
    let shell_result = ShellExecResult::from_json(&result).unwrap();
    assert_eq!(shell_result.stderr, "error message\n");
    assert_eq!(shell_result.duration_ms, 7);
    let events = drain(&mut receiver);
    assert!(matches!(events[0], AppEvent::ToolStderr { .. }));
}

#[test]
fn test_shell_exec_failure() {
    let bus = EventBus::new();
    let executor = ShellExecutor::new(bus.sender(), 1024 * 1024);
    let mut receiver = bus.into_receiver();
    let mut run = new_run();
    let result = executor.execute_with_result(
        &mut run, 5000,
        ProcessOutcome::Exited { code: Some(1), elapsed_ms: 3 },
        String::new(),
        String::new(),
    );
    assert_eq!(result, Err("Command failed with exit code: 1".to_string()));
    assert!(run.has_result());
    let events = drain(&mut receiver);
    match &events[0] {
        AppEvent::ToolResult { payload, .. } => {
            assert_eq!(payload.get("exit_code"), Some(&Json::Int(1)));
        }
        other => panic!("unexpected event {:?}", other),
    }
    let mut killed = new_run();
    let by_signal = executor.execute_with_result(
        &mut killed, 5000,
        ProcessOutcome::Exited { code: None, elapsed_ms: 3 },
        String::new(),
        String::new(),
    );
    assert_eq!(by_signal, Err("Command failed with exit code: -1".to_string()));
}

#[test]
fn test_shell_exec_nonexistent_command() {
    let bus = EventBus::new();
    let executor = ShellExecutor::new(bus.sender(), 1024 * 1024);
    let mut run = new_run();
    let result = executor.execute_with_result(
        &mut run, 5000,
        ProcessOutcome::SpawnFailed("No such file or directory (os error 2)".to_string()),
        String::new(),
        String::new(),
    );
    assert!(result.is_err());
    assert!(result.unwrap_err().contains("Failed to spawn command"));
    assert!(!run.has_result());
    let mut other = new_run();
    let waited = executor.execute(
        &mut other, 5000,
        ProcessOutcome::WaitFailed("interrupted".to_string()),
        String::new(),
        String::new(),
    );
    assert_eq!(waited, Err("Process wait error: interrupted".to_string()));
}

#[test]
fn test_shell_exec_empty_command() {
    let bus = EventBus::new();
    let executor = ShellExecutor::new(bus.sender(), 1024 * 1024);
    let mut run = new_run();
    let args = Json::parse("{\"command\": []}").unwrap();
    let result = executor.prepare(&mut run, &args);
    assert!(result.is_err());
    assert!(result.unwrap_err().contains("Empty command"));
}

#[test]
fn test_shell_exec_timeout() {
    let bus = EventBus::new();
    let executor = ShellExecutor::new(bus.sender(), 1024 * 1024);
    let mut receiver = bus.into_receiver();
    let mut run = new_run();
    let args = Json::parse("{\"command\": [\"sleep\", \"10\"], \"timeout_ms\": 100}").unwrap();
    let parsed = executor.prepare(&mut run, &args).unwrap();
    assert_eq!(ShellExecutor::timeout_ms(&parsed), 100);
    let result =
        executor.execute_with_result(&mut run, 5000, ProcessOutcome::TimedOut, String::new(), String::new());
    assert!(result.is_err());
    assert!(result.unwrap_err().contains("timed out"));
    assert!(!run.has_result());
    let events = drain(&mut receiver);
    assert!(events.iter().all(|e| !matches!(e, AppEvent::ToolResult { .. })));
}

#[test]
fn test_shell_exec_invalid_args() {
    let bus = EventBus::new();
    let executor = ShellExecutor::new(bus.sender(), 1024 * 1024);
    let mut run = new_run();
    let args = Json::parse("{\"invalid_field\": \"value\"}").unwrap();
    let result = executor.prepare(&mut run, &args);
    assert!(result.is_err());
    assert!(result.unwrap_err().contains("Invalid ShellExec arguments"));
}

#[test]
fn test_shell_exec_output_truncation() {
    let bus = EventBus::new();
    let executor = ShellExecutor::new(bus.sender(), 100);
    let mut run = new_run();
    let result = executor
        .execute_with_result(
            &mut run, 5000,
            ProcessOutcome::Exited { code: Some(0), elapsed_ms: 5 },
            "x".repeat(500),
            String::new(),
        )
        .unwrap();
    assert_eq!(result.get("truncated"), Some(&Json::Bool(true)));
    assert_eq!(result.get("max_allowed_bytes"), Some(&Json::Int(100)));
}

#[test]
fn test_shell_exec_legacy_method() {
    let bus = EventBus::new();
    let executor = ShellExecutor::new(bus.sender(), 1024 * 1024);
    let mut run = new_run();
    let result = executor.execute(
        &mut run, 5000,
        ProcessOutcome::Exited { code: Some(0), elapsed_ms: 2 },
        "legacy test\n".to_string(),
        String::new(),
    );
    assert!(result.is_ok());
}

#[test]
fn the_reported_duration_is_at_least_one_millisecond() {
    let zero = ShellExecutor::result_of(Some(0), 0, String::new(), String::new());
    assert_eq!(zero.duration_ms, 1);
    let some = ShellExecutor::result_of(None, 29999, "o".to_string(), "e".to_string());
    assert_eq!(some.duration_ms, 29999);
    assert_eq!(some.exit_code, -1);
    assert_eq!(some.stdout, "o");
    assert_eq!(some.stderr, "e");
}

fn run_process(args_text: &str, stdout_lines: &[&str]) -> (ShellExecResult, Vec<AppEvent>) {
    let bus = EventBus::new();
    let executor = ShellExecutor::new(bus.sender(), 1024 * 1024);
    let mut receiver = bus.into_receiver();
    let mut run = new_run();
    let args = Json::parse(args_text).unwrap();
    let parsed = executor.prepare(&mut run, &args).unwrap();
    assert_eq!(ShellExecutor::timeout_ms(&parsed), 5000);
    let mut stdout = String::new();
    for line in stdout_lines {
        stdout.push_str(&executor.stdout_line(&mut run, line));
    }
    let result = executor.execute_with_result(
        &mut run, 5000,
        ProcessOutcome::Exited { code: Some(0), elapsed_ms: 12 },
        stdout,
        String::new(),
    );
    assert!(result.is_ok());
    (ShellExecResult::from_json(&result.unwrap()).unwrap(), drain(&mut receiver))
}

fn count_progress_events(events: &[AppEvent]) -> usize {
    events.iter().filter(|e| matches!(e, AppEvent::ToolProgress { .. })).count()
}

#[test]
fn test_shell_exec_with_args() {
    let (shell_result, events) = run_process(
        "{\"command\": [\"echo\", \"-n\", \"no\", \"newline\"], \"timeout_ms\": 5000}",
        &["no newline"],
    );
    assert_eq!(shell_result.exit_code, 0);
    assert!(shell_result.stdout.contains("no newline"));
    assert_eq!(events.len(), 3);
    assert_eq!(count_progress_events(&events), 1);
    match &events[0] {
        AppEvent::ToolProgress { message, .. } => {
            assert_eq!(message, "Executing: echo -n no newline")
        }
        other => panic!("unexpected event {:?}", other),
    }
}

#[test]
fn test_shell_exec_with_cwd() {
    let bus = EventBus::new();
    let executor = ShellExecutor::new(bus.sender(), 1024 * 1024);
    let mut run = new_run();
    let args = Json::parse(
        "{\"command\": [\"ls\", \"test_file.txt\"], \"cwd\": \"/tmp/work\", \"timeout_ms\": 5000}",
    )
    .unwrap();
    let parsed = executor.prepare(&mut run, &args).unwrap();
    assert_eq!(parsed.cwd.as_deref(), Some("/tmp/work"));

    let (shell_result, events) = run_process(
        "{\"command\": [\"ls\", \"test_file.txt\"], \"cwd\": \"/tmp/work\", \"timeout_ms\": 5000}",
        &["test_file.txt"],
    );
    assert_eq!(shell_result.exit_code, 0);
    assert!(shell_result.stdout.contains("test_file.txt"));
    assert_eq!(events.len(), 3);
    assert_eq!(count_progress_events(&events), 1);
}

#[test]
fn test_shell_exec_with_env_vars() {
    let text = "{\"command\": [\"sh\", \"-c\", \"echo $TEST_VAR\"], \"env\": [[\"TEST_VAR\", \"test_value\"]], \"timeout_ms\": 5000}";
    let bus = EventBus::new();
    let executor = ShellExecutor::new(bus.sender(), 1024 * 1024);
    let mut run = new_run();
    let parsed = executor.prepare(&mut run, &Json::parse(text).unwrap()).unwrap();
    assert_eq!(parsed.env, Some(vec![("TEST_VAR".to_string(), "test_value".to_string())]));

    let (shell_result, events) = run_process(text, &["test_value"]);
    assert_eq!(shell_result.exit_code, 0);
    assert!(shell_result.stdout.contains("test_value"));
    assert_eq!(events.len(), 3);
    assert_eq!(count_progress_events(&events), 1);
}

#[test]
fn test_shell_exec_complex_command() {
    let (shell_result, events) = run_process(
        "{\"command\": [\"sh\", \"-c\", \"ls *.txt | wc -l\"], \"cwd\": \"/tmp/work\", \"timeout_ms\": 5000}",
        &["2"],
    );
    assert_eq!(shell_result.exit_code, 0);
    assert!(shell_result.stdout.trim() == "2");
    assert_eq!(events.len(), 3);
    assert_eq!(count_progress_events(&events), 1);
    match &events[0] {
        AppEvent::ToolProgress { message, .. } => {
            assert_eq!(message, "Executing: sh -c ls *.txt | wc -l")
        }
        other => panic!("unexpected event {:?}", other),
    }
}

#[test]
fn a_run_beyond_its_timeout_has_no_result() {
    let bus = EventBus::new();
    let executor = ShellExecutor::new(bus.sender(), 1024 * 1024);
    let mut receiver = bus.into_receiver();
    let mut run = new_run();
    let late = executor.execute_with_result(
        &mut run,
        100,
        ProcessOutcome::Exited { code: Some(0), elapsed_ms: 101 },
        "out\n".to_string(),
        String::new(),
    );
    assert_eq!(late.unwrap_err(), "Command timed out");
    assert!(drain(&mut receiver).is_empty());

    let in_time = executor
        .execute_with_result(
            &mut run,
            100,
            ProcessOutcome::Exited { code: Some(0), elapsed_ms: 100 },
            "out\n".to_string(),
            String::new(),
        )
        .unwrap();
    assert_eq!(ShellExecResult::from_json(&in_time).unwrap().duration_ms, 100);
    assert_eq!(drain(&mut receiver).len(), 1);

    let mut other = new_run();
    let none = executor.execute_with_result(
        &mut other,
        0,
        ProcessOutcome::Exited { code: Some(0), elapsed_ms: 0 },
        String::new(),
        String::new(),
    );
    assert_eq!(none.unwrap_err(), "Command timed out");
}
