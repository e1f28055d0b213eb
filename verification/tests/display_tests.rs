use grok_core::agent::AgentInfo;
use grok_core::display::{split_words, wrap_line, ChatComponent, StatusComponent, ToolsComponent};
use grok_core::events::{EventBus, ToolName};
use grok_core::json::Json;
use grok_core::session::{Session, Timestamp, ToolMessageInfo, ToolStatus};
use grok_core::state::AppState;

fn info(status: ToolStatus, stdout: &str, stderr: &str, result: Option<Json>) -> ToolMessageInfo {
    ToolMessageInfo {
        id: "t".to_string(),
        tool: ToolName::FsRead,
        summary: "Reading file: a".to_string(),
        args: None,
        start_time: Timestamp { secs: 0, nanos: 0 },
        status,
        stdout: stdout.to_string(),
        stderr: stderr.to_string(),
        result,
    }
}

#[test]
fn headers_show_the_argument_of_the_summary() {
    assert_eq!(
        ToolsComponent::format_tool_header("FsSearch", "Searching for: fn main", "*"),
        "* FsSearch \"fn main\""
    );
    assert_eq!(
        ToolsComponent::format_tool_header("ShellExec", "Executing: cargo build", ">"),
        "> ShellExec cargo build"
    );
    assert_eq!(
        ToolsComponent::format_tool_header("FsRead", "read file: src/tools/mod.rs", "+"),
        "+ FsRead mod.rs"
    );
    assert_eq!(
        ToolsComponent::format_tool_header("FsRead", "Reading file: src/main.rs", "+"),
        "+ Reading file: src/main.rs"
    );
    assert_eq!(ToolsComponent::format_tool_header("FsFind", "Applying patch", "!"), "! Applying patch");
    assert_eq!(
        ToolsComponent::format_tool_header("ShellExec", "Executing: a: b: c", ">"),
        "> ShellExec a"
    );
}

#[test]
fn errors_are_cut_to_five_lines_of_120_bytes() {
    assert_eq!(ToolsComponent::make_error_concise("one\ntwo"), "one\ntwo");
    assert_eq!(ToolsComponent::make_error_concise(""), "");
    assert_eq!(
        ToolsComponent::make_error_concise("1\n2\n3\n4\n5\n6\n7\n"),
        "1\n2\n3\n4\n5\n... (2 more lines)"
    );
    let long = "x".repeat(121);
    assert_eq!(ToolsComponent::make_error_concise(&long), format!("{}...", "x".repeat(120)));
    let exact = "y".repeat(120);
    assert_eq!(ToolsComponent::make_error_concise(&exact), exact);
    let wide = format!("{}é{}", "z".repeat(119), "w".repeat(10));
    assert_eq!(ToolsComponent::make_error_concise(&wide), format!("{}...", "z".repeat(119)));
}

#[test]
fn results_are_shown_by_the_kind_of_tool() {
    let read = Json::parse("{\"contents\": \"hello\", \"encoding\": \"utf-8\", \"truncated\": true}").unwrap();
    assert_eq!(
        ToolsComponent::format_tool_result(&ToolName::FsRead, &read),
        "hello\n\n[File was truncated during reading...]"
    );
    let big = Json::Object(vec![("contents".to_string(), Json::Str("a".repeat(5001)))]);
    assert_eq!(
        ToolsComponent::format_tool_result(&ToolName::FsRead, &big),
        format!(
            "{}\n\n[Content truncated for display - showing first 5000 of 5001 characters]",
            "a".repeat(5000)
        )
    );
    let search = Json::parse("{\"matches\": [{\"path\": \"a.rs\", \"lines\": [{\"ln\": 1, \"text\": \"fn a\"}, {\"ln\": 9, \"text\": \"fn b\"}]}, {\"path\": \"b.rs\", \"lines\": []}]}").unwrap();
    assert_eq!(
        ToolsComponent::format_tool_result(&ToolName::FsSearch, &search),
        "\u{1F4C1} a.rs\n  1| fn a\n  9| fn b\n\n\n\u{1F4C1} b.rs\n"
    );
    let none = Json::parse("{\"matches\": []}").unwrap();
    assert_eq!(ToolsComponent::format_tool_result(&ToolName::FsSearch, &none), "No matches found");
    let other = Json::parse("{\"bytes_written\": 3}").unwrap();
    assert_eq!(
        ToolsComponent::format_tool_result(&ToolName::FsWrite, &other),
        "{\n  \"bytes_written\": 3\n}"
    );
    assert_eq!(ToolsComponent::format_tool_result(&ToolName::FsRead, &other), "{\n  \"bytes_written\": 3\n}");
}

#[test]
fn the_content_of_a_call_follows_its_status() {
    assert_eq!(
        ToolsComponent::format_tool_content(&info(ToolStatus::Running, "", "", None)),
        "Tool is running..."
    );
    assert_eq!(
        ToolsComponent::format_tool_content(&info(ToolStatus::Running, "out\n", "err", None)),
        "STDOUT:\nout\n\n\nERROR:\nerr"
    );
    assert_eq!(
        ToolsComponent::format_tool_content(&info(ToolStatus::Completed, "", "", None)),
        "No output"
    );
    assert_eq!(
        ToolsComponent::format_tool_content(&info(
            ToolStatus::Completed,
            "out",
            "warn",
            Some(Json::Object(vec![("contents".to_string(), Json::string("text"))]))
        )),
        "text\n\nSTDOUT:\nout\n\nERROR:\nwarn"
    );
    assert_eq!(
        ToolsComponent::format_tool_content(&info(ToolStatus::Failed, "out", "boom", None)),
        "\u{274C} FAILED: boom\n\nSTDOUT:\nout"
    );
    assert_eq!(
        ToolsComponent::format_tool_content(&info(
            ToolStatus::Failed,
            "out",
            "",
            Some(Json::Object(vec![("contents".to_string(), Json::string("text"))]))
        )),
        "\u{274C} FAILED: Tool failed with no error details\n\ntext"
    );
}

fn parameters(tool: ToolName, members: Vec<(&str, Json)>) -> Vec<String> {
    let args = Json::object(members.into_iter().map(|(k, v)| (k.to_string(), v)).collect());
    ToolsComponent::render_tool_parameters(&tool, &args)
}

#[test]
fn search_parameters_show_what_is_set() {
    let lines = parameters(
        ToolName::FsSearch,
        vec![
            ("query", Json::string("fn main")),
            ("globs", Json::string_array(&vec!["*.rs".to_string(), "*.toml".to_string()])),
            ("max_results", Json::from_u64(20)),
            ("regex", Json::Bool(true)),
            ("case_insensitive", Json::Bool(false)),
            ("multiline", Json::Bool(true)),
        ],
    );
    assert_eq!(
        lines,
        vec![
            "Parameters:",
            "  Query: fn main",
            "  Globs: *.rs, *.toml",
            "  Max results: 20",
            "  Mode: Regex",
            "  Multiline: true",
            "",
        ]
    );
    let lines = parameters(
        ToolName::FsSearch,
        vec![
            ("query", Json::string("x")),
            ("regex", Json::Bool(false)),
            ("case_insensitive", Json::Bool(true)),
            ("multiline", Json::Bool(false)),
        ],
    );
    assert_eq!(lines, vec!["Parameters:", "  Query: x", "  Case insensitive: true", ""]);
}

#[test]
fn arguments_that_the_tool_would_not_take_show_nothing() {
    assert_eq!(
        parameters(ToolName::FsSearch, vec![("query", Json::string("x"))]),
        vec!["Parameters:", "  Query: x", ""]
    );
    assert!(parameters(ToolName::FsSearch, vec![("regex", Json::Bool(true))]).is_empty());
    assert!(parameters(ToolName::FsRead, vec![("path", Json::Bool(true))]).is_empty());
    assert!(ToolsComponent::render_tool_parameters(&ToolName::ShellExec, &Json::Null).is_empty());
}

#[test]
fn read_and_write_parameters() {
    let lines = parameters(
        ToolName::FsRead,
        vec![
            ("path", Json::string("src/lib.rs")),
            (
                "range",
                Json::object(vec![
                    ("start".to_string(), Json::from_u64(10)),
                    ("end".to_string(), Json::from_u64(25)),
                ]),
            ),
            ("encoding", Json::string("utf-8")),
        ],
    );
    assert_eq!(
        lines,
        vec!["Parameters:", "  Path: src/lib.rs", "  Range: 10..25", "  Encoding: utf-8", ""]
    );
    assert_eq!(
        parameters(ToolName::FsRead, vec![("path", Json::string("a"))]),
        vec!["Parameters:", "  Path: a", ""]
    );
    let lines = parameters(
        ToolName::FsWrite,
        vec![
            ("path", Json::string("out.txt")),
            ("contents", Json::string("héllo")),
            ("create_if_missing", Json::Bool(true)),
            ("overwrite", Json::Bool(true)),
        ],
    );
    assert_eq!(
        lines,
        vec![
            "Parameters:",
            "  Path: out.txt",
            "  Size: 6 bytes",
            "  Create if missing: true",
            "  Overwrite: true",
            "",
        ]
    );
}

#[test]
fn shell_find_symbols_patch_and_fetch_parameters() {
    let lines = parameters(
        ToolName::ShellExec,
        vec![
            ("command", Json::string_array(&vec!["cargo".to_string(), "test".to_string()])),
            ("cwd", Json::string("/work")),
            ("timeout_ms", Json::from_u64(5000)),
            ("with_escalated_permissions", Json::Bool(true)),
        ],
    );
    assert_eq!(
        lines,
        vec![
            "Parameters:",
            "  Command: cargo test",
            "  Working directory: /work",
            "  Timeout: 5000ms",
            "  Escalated permissions: true",
            "",
        ]
    );
    let lines = parameters(
        ToolName::ShellExec,
        vec![
            ("command", Json::string_array(&vec!["ls".to_string()])),
            ("with_escalated_permissions", Json::Bool(false)),
        ],
    );
    assert_eq!(lines, vec!["Parameters:", "  Command: ls", ""]);

    let lines = parameters(
        ToolName::FsFind,
        vec![
            ("pattern", Json::string("main")),
            ("base_path", Json::string("src")),
            ("fuzzy", Json::Bool(false)),
            ("max_results", Json::from_u64(7)),
        ],
    );
    assert_eq!(
        lines,
        vec![
            "Parameters:",
            "  Pattern: main",
            "  Base path: src",
            "  Fuzzy matching: false",
            "  Max results: 7",
            "",
        ]
    );

    let lines = parameters(
        ToolName::CodeSymbols,
        vec![
            ("path", Json::string("a.py")),
            ("symbol_types", Json::string_array(&vec!["function".to_string(), "class".to_string()])),
            ("language", Json::string("python")),
        ],
    );
    assert_eq!(
        lines,
        vec![
            "Parameters:",
            "  File: a.py",
            "  Language: python",
            "  Symbol types: function, class",
            "",
        ]
    );

    let op = Json::object(vec![
        ("op".to_string(), Json::string("delete_file")),
        ("path".to_string(), Json::string("old.txt")),
    ]);
    let lines = parameters(
        ToolName::FsApplyPatch,
        vec![("dry_run", Json::Bool(true)), ("ops", Json::array(vec![op]))],
    );
    assert_eq!(lines, vec!["Parameters:", "  Operations: 1", "  Mode: Dry run", ""]);

    let lines = parameters(
        ToolName::LargeContextFetch,
        vec![("user_query", Json::string("where is auth")), ("max_files", Json::from_u64(12))],
    );
    assert_eq!(lines, vec!["Parameters:", "  Query: where is auth", "  Max files: 12", ""]);
}

#[test]
fn words_are_the_runs_between_whitespace() {
    assert_eq!(split_words("  one two\tthree\n four  "), vec!["one", "two", "three", "four"]);
    assert!(split_words("").is_empty());
    assert!(split_words(" \n\t").is_empty());
    assert_eq!(split_words("single"), vec!["single"]);
    let text = "a\u{a0}b  c\u{2003}d";
    let expected: Vec<String> = text.split_whitespace().map(|w| w.to_string()).collect();
    assert_eq!(split_words(text), expected);
}

#[test]
fn long_lines_are_wrapped_at_words() {
    assert_eq!(wrap_line("short line", 20, true), vec!["short line"]);
    assert_eq!(wrap_line("exactly ten", 11, true), vec!["exactly ten"]);
    assert_eq!(
        wrap_line("the quick brown fox jumps over the lazy dog", 10, true),
        vec!["the quick", "brown fox", "jumps over", "the lazy", "dog"]
    );
    assert_eq!(
        wrap_line("the quick brown fox jumps over the lazy dog", 10, false),
        vec!["the quick brown fox jumps over the lazy dog"]
    );
    assert_eq!(wrap_line("a_very_long_word and more", 5, true), vec!["a_very_long_word", "and", "more"]);
    assert_eq!(wrap_line("   spaced    out   words  ", 12, true), vec!["spaced out", "words"]);
    assert!(wrap_line("          ", 3, true).is_empty());
    assert_eq!(wrap_line("", 0, true), vec![""]);
    // The width counts bytes: each of these words takes four.
    assert_eq!(wrap_line("éé éé éé", 9, true), vec!["éé éé", "éé"]);
    assert_eq!(
        ToolsComponent::add_wrapped_line("one two three", 7, true),
        vec!["one two", "three"]
    );
    assert_eq!(
        ChatComponent::add_wrapped_text("one two three", 7, true),
        vec!["one two", "three"]
    );
}

#[test]
fn arguments_are_shown_in_one_line() {
    let args = Json::object(vec![
        ("path".to_string(), Json::string("a.rs")),
        ("max".to_string(), Json::from_u64(3)),
        ("deep".to_string(), Json::Bool(true)),
        ("globs".to_string(), Json::string_array(&vec!["*.rs".to_string()])),
    ]);
    assert_eq!(
        ChatComponent::format_params(&args),
        "path=\"a.rs\", max=3, deep=true, globs=[\"*.rs\"]"
    );
    assert_eq!(ChatComponent::format_params(&Json::object(Vec::new())), "{}");
    assert_eq!(ChatComponent::format_params(&Json::string("x")), "\"x\"");
    assert_eq!(ChatComponent::format_params(&Json::Null), "null");
    assert_eq!(
        ChatComponent::format_params(&Json::array(vec![Json::from_u64(1), Json::from_u64(2)])),
        "[1,2]"
    );
}

#[test]
fn the_status_line_names_the_focus_while_working() {
    let bus = EventBus::new();
    let session = Session::new(
        AgentInfo { name: "a".to_string(), description: "b".to_string(), version: "c".to_string() },
        bus.sender(),
    );
    let mut state = AppState::new(session, Vec::new(), "/tmp".to_string(), 0, false);
    assert_eq!(
        StatusComponent::status_text(&state),
        "Ready - Grok Code CLI | / for commands | Tab to switch"
    );
    let tail = " | 'q' to quit, Tab to switch, '/' for commands, ↑↓/scroll wheel to scroll, End to jump to bottom";
    state.processing = true;
    assert_eq!(
        StatusComponent::status_text(&state),
        format!("● Processing... | Input focused{}", tail)
    );
    state.focused_panel = 1;
    assert_eq!(
        StatusComponent::status_text(&state),
        format!("● Processing... | Chat focused [Auto-scroll]{}", tail)
    );
    state.auto_scroll_chat = false;
    assert_eq!(
        StatusComponent::status_text(&state),
        format!("● Processing... | Chat focused{}", tail)
    );
    state.focused_panel = 2;
    assert_eq!(
        StatusComponent::status_text(&state),
        format!("● Processing... | Tools focused [Auto-scroll]{}", tail)
    );
    state.focused_panel = 9;
    assert_eq!(StatusComponent::status_text(&state), format!("● Processing... | Unknown{}", tail));
}
