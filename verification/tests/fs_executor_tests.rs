use grok_core::events::{AppEvent, EventBus, ToolName};
use grok_core::json::Json;
use grok_core::tools::executor::ToolRun;
use grok_core::tools::executors::fs::find::{is_below, FsFind};
use grok_core::tools::executors::fs::search::{binary_extension, FsSearch};
use grok_core::tools::executors::fs::simple_edit::{
    CommitAction, DiskEntry, DiskSnapshot, ReadOutcome, StatOutcome,
};
use grok_core::tools::executors::fs::{
    calculate_fuzzy_score, detect_language, fuzzy_match, paths_to_probe, FileProbe, FsExecutor,
    WriteOutcome,
};
use grok_core::tools::types::{
    FsApplyPatchArgs, FsApplyPatchResult, FsFindArgs, FsReadArgs, FsReadResult, FsSearchArgs,
    FsSearchResult, FsWriteArgs, MatchScore, SimpleEditOp,
};

fn drain(receiver: &mut tokio::sync::mpsc::UnboundedReceiver<AppEvent>) -> Vec<AppEvent> {
    let mut events = Vec::new();
    while let Ok(ev) = receiver.try_recv() {
        events.push(ev);
    }
    events
}

fn count_progress_events(events: &[AppEvent]) -> usize {
    events.iter().filter(|e| matches!(e, AppEvent::ToolProgress { .. })).count()
}

fn find_tool_result_event(events: &[AppEvent]) -> Option<&AppEvent> {
    events.iter().find(|e| matches!(e, AppEvent::ToolResult { .. }))
}

fn new_run(tool: ToolName) -> ToolRun {
    ToolRun::begin("test_id", tool, "summary".to_string(), None).0
}

fn read_args(path: &str, range: Option<(u64, u64)>, encoding: Option<&str>) -> FsReadArgs {
    FsReadArgs { path: path.to_string(), range, encoding: encoding.map(|e| e.to_string()) }
}

#[test]
fn test_fs_read_success() {
    let bus = EventBus::new();
    let executor = FsExecutor::new(bus.sender(), 1024 * 1024);
    let mut receiver = bus.into_receiver();
    let mut run = new_run(ToolName::FsRead);
    let test_content = "Hello, World!\nThis is a test file.";
    let result = executor.execute_read_with_result(
        &mut run,
        &read_args("test.txt", None, None),
        &FileProbe::Contents(test_content.to_string()),
    );
    assert!(result.is_ok());
    let read_result = FsReadResult::from_json(&result.unwrap()).unwrap();
    assert_eq!(read_result.contents, test_content);
    assert_eq!(read_result.encoding, "utf-8");
    assert!(!read_result.truncated);

    let events = drain(&mut receiver);
    assert_eq!(events.len(), 2);
    match &events[0] {
        AppEvent::ToolProgress { message, .. } => assert_eq!(message, "Reading file: test.txt"),
        other => panic!("unexpected event {:?}", other),
    }
    assert!(matches!(events[1], AppEvent::ToolResult { .. }));
}

#[test]
fn test_fs_read_file_not_found() {
    let result = FsExecutor::read_file(&read_args("/nonexistent/file.txt", None, None), &FileProbe::Missing);
    assert!(result.is_err());
    assert!(result.unwrap_err().contains("File not found"));
    let dir = FsExecutor::read_file(&read_args("/tmp", None, None), &FileProbe::NotAFile);
    assert_eq!(dir.unwrap_err(), "Path is not a file: /tmp");
    let denied = FsExecutor::read_file(
        &read_args("/secret", None, None),
        &FileProbe::Unreadable("Permission denied".to_string()),
    );
    assert_eq!(denied.unwrap_err(), "Failed to read file /secret: Permission denied");
}

#[test]
fn test_fs_read_with_range() {
    let test_content = "0123456789abcdefghijklmnopqrstuvwxyz";
    let probe = FileProbe::Contents(test_content.to_string());
    let result = FsExecutor::read_file(&read_args("test.txt", Some((5, 15)), None), &probe).unwrap();
    assert_eq!(result.contents, "56789abcde");
    assert!(result.truncated);

    let to_end = FsExecutor::read_file(&read_args("test.txt", Some((30, 100)), None), &probe).unwrap();
    assert_eq!(to_end.contents, "uvwxyz");
    assert!(!to_end.truncated);

    let beyond = FsExecutor::read_file(&read_args("test.txt", Some((36, 40)), None), &probe).unwrap();
    assert_eq!(beyond.contents, "");
    assert!(!beyond.truncated);

    let backwards = FsExecutor::read_file(&read_args("test.txt", Some((10, 5)), None), &probe);
    assert_eq!(backwards.unwrap_err(), "Invalid range: the start lies behind the end");
}

#[test]
fn reading_respects_characters_and_encodings() {
    let probe = FileProbe::Contents("aé€b".to_string());
    let whole = FsExecutor::read_file(&read_args("t", None, Some("utf-8")), &probe).unwrap();
    assert_eq!(whole.contents, "aé€b");
    let part = FsExecutor::read_file(&read_args("t", Some((1, 6)), None), &probe).unwrap();
    assert_eq!(part.contents, "é€");
    assert!(part.truncated);
    let split = FsExecutor::read_file(&read_args("t", Some((2, 6)), None), &probe);
    assert_eq!(split.unwrap_err(), "Invalid range: not on a character boundary");
    let latin = FsExecutor::read_file(&read_args("t", None, Some("latin-1")), &probe);
    assert_eq!(latin.unwrap_err(), "Unsupported encoding: latin-1");
}

#[test]
fn large_files_are_read_up_to_one_mebibyte() {
    let mut text = "x".repeat(1024 * 1024 - 1);
    text.push('é');
    text.push_str("tail");
    let result = FsExecutor::read_file(&read_args("big", None, None), &FileProbe::Contents(text)).unwrap();
    assert!(result.truncated);
    assert_eq!(result.contents.len(), 1024 * 1024 - 1);
    let exact = "y".repeat(1024 * 1024);
    let all = FsExecutor::read_file(&read_args("big", None, None), &FileProbe::Contents(exact)).unwrap();
    assert!(!all.truncated);
    assert_eq!(all.contents.len(), 1024 * 1024);
}

fn write_args(path: &str, contents: &str, create_if_missing: bool, overwrite: bool) -> FsWriteArgs {
    FsWriteArgs {
        path: path.to_string(),
        contents: contents.to_string(),
        create_if_missing,
        overwrite,
    }
}

#[test]
fn test_fs_write_success() {
    let bus = EventBus::new();
    let executor = FsExecutor::new(bus.sender(), 1024 * 1024);
    let mut run = new_run(ToolName::FsWrite);
    let args = write_args("output.txt", "This is test content", true, false);
    assert_eq!(FsExecutor::plan_write(&args, false), Ok(true));
    let result = executor.execute_write_with_result(&mut run, &args, &WriteOutcome::Written).unwrap();
    assert_eq!(result.get("bytes_written"), Some(&Json::Int(20)));
}

#[test]
fn test_fs_write_file_exists_no_overwrite() {
    let args = write_args("existing.txt", "new content", true, false);
    let result = FsExecutor::plan_write(&args, true);
    assert!(result.is_err());
    assert!(result.unwrap_err().contains("File already exists and overwrite is false"));
}

#[test]
fn test_fs_write_with_overwrite() {
    let args = write_args("existing.txt", "new content", false, true);
    assert_eq!(FsExecutor::plan_write(&args, true), Ok(false));
}

#[test]
fn test_fs_write_create_directories() {
    let bus = EventBus::new();
    let executor = FsExecutor::new(bus.sender(), 1024 * 1024);
    let args = write_args("nested/dirs/file.txt", "content", true, false);
    assert_eq!(FsExecutor::plan_write(&args, false), Ok(true));
    let mut run = new_run(ToolName::FsWrite);
    let failed = executor.execute_write_with_result(
        &mut run,
        &args,
        &WriteOutcome::ParentFailed("read-only".to_string()),
    );
    assert_eq!(
        failed.unwrap_err(),
        "Failed to create parent directories for nested/dirs/file.txt: read-only"
    );
    let mut other = new_run(ToolName::FsWrite);
    let not_written =
        executor.execute_write(&mut other, &args, &WriteOutcome::WriteFailed("disk full".to_string()));
    assert_eq!(not_written.unwrap_err(), "Failed to write file nested/dirs/file.txt: disk full");
}

fn search_args(query: &str, regex: bool, case_insensitive: bool) -> FsSearchArgs {
    FsSearchArgs {
        query: query.to_string(),
        globs: None,
        max_results: None,
        regex,
        case_insensitive,
        multiline: false,
    }
}

#[test]
fn test_fs_search_success() {
    let test_file = "temp_test_file1.rs";
    let test_content = "fn main() {\n    println!(\"Hello, world!\");\n}";

    let bus = EventBus::new();
    let executor = FsExecutor::new(bus.sender(), 1024 * 1024);
    let mut receiver = bus.into_receiver();

    let args = Json::parse(
        "{\"query\": \"fn\", \"globs\": [\"*.rs\"], \"regex\": false, \"case_insensitive\": false, \"multiline\": false, \"max_results\": 10}",
    )
    .unwrap();
    let args = FsSearchArgs::from_json(&args).unwrap();
    let mut search = FsSearch::new(&args).unwrap();
    let path = format!("./{}", test_file);
    assert!(search.accepts(&path));
    search.scan(&path, test_content);
    let found = search.finish();

    let mut run = new_run(ToolName::FsSearch);
    let result = executor.execute_search_with_result(&mut run, &args.query, &found);
    assert!(result.is_ok());
    let search_result = FsSearchResult::from_json(&result.unwrap()).unwrap();

    assert!(!search_result.matches.is_empty());
    let found_file = search_result.matches.iter().any(|m| m.path.contains(test_file));
    assert!(found_file);

    let events = drain(&mut receiver);
    assert_eq!(events.len(), 2);
    assert_eq!(count_progress_events(&events), 1);
}

#[test]
fn a_search_with_query_and_regex_alone_finds_both_lines() {
    let args = Json::parse("{\"query\": \"fn \", \"regex\": false}").unwrap();
    let args = FsSearchArgs::from_json(&args).unwrap();
    assert!(!args.regex && !args.case_insensitive && !args.multiline);
    let only_query = FsSearchArgs::from_json(&Json::parse("{\"query\": \"fn \"}").unwrap()).unwrap();
    assert!(!only_query.regex && !only_query.case_insensitive && !only_query.multiline);
    assert_eq!(
        FsSearchArgs::from_json(&Json::parse("{\"query\": \"x\", \"regex\": 1}").unwrap())
            .unwrap_err(),
        "Invalid FsSearch arguments: invalid type for field `regex`"
    );

    let bus = EventBus::new();
    let executor = FsExecutor::new(bus.sender(), 1024 * 1024);
    let mut search = FsSearch::new(&args).unwrap();
    assert!(search.accepts("./a.rs"));
    search.scan("./a.rs", "fn foo(){}\nfn bar(){}");
    search.scan("./b.rs", "nothing here");
    let found = search.finish();
    assert_eq!(found.matches.len(), 1);
    assert!(found.matches[0].path.ends_with("a.rs"));
    let lines: Vec<(u64, &str)> =
        found.matches[0].lines.iter().map(|l| (l.ln, l.text.as_str())).collect();
    assert_eq!(lines, vec![(1, "fn foo(){}"), (2, "fn bar(){}")]);

    let mut run = new_run(ToolName::FsSearch);
    let result = executor.execute_search_with_result(&mut run, "fn ", &found).unwrap();
    assert_eq!(
        result.to_text(),
        "{\"matches\":[{\"lines\":[{\"ln\":1,\"text\":\"fn foo(){}\"},{\"ln\":2,\"text\":\"fn bar(){}\"}],\"path\":\"./a.rs\"}]}"
    );
}

#[test]
fn test_fs_search_regex() {
    let test_file = "temp_test_emails.txt";
    let test_content =
        "Email: test@example.com\nAnother: user@domain.org\nNot an email: example.com";

    let bus = EventBus::new();
    let executor = FsExecutor::new(bus.sender(), 1024 * 1024);
    let mut receiver = bus.into_receiver();

    let args = Json::object(vec![
        ("query".to_string(), Json::string(r"\b[A-Za-z0-9._%+-]+@[A-Za-z0-9.-]+\.[A-Z|a-z]{2,}\b")),
        ("regex".to_string(), Json::Bool(true)),
        ("case_insensitive".to_string(), Json::Bool(false)),
        ("multiline".to_string(), Json::Bool(false)),
        ("max_results".to_string(), Json::from_u64(10)),
    ]);
    let args = FsSearchArgs::from_json(&args).unwrap();
    let mut search = FsSearch::new(&args).unwrap();
    let path = format!("./{}", test_file);
    assert!(search.accepts(&path));
    search.scan(&path, test_content);
    let found = search.finish();

    let mut run = new_run(ToolName::FsSearch);
    let result = executor.execute_search_with_result(&mut run, &args.query, &found);
    assert!(result.is_ok());
    let search_result = FsSearchResult::from_json(&result.unwrap()).unwrap();

    assert!(!search_result.matches.is_empty());
    let file_match = &search_result.matches[0];
    assert!(!file_match.lines.is_empty());
    let lines: Vec<u64> = file_match.lines.iter().map(|l| l.ln).collect();
    assert_eq!(lines, vec![1, 2]);

    let events = drain(&mut receiver);
    assert_eq!(events.len(), 2);
    assert_eq!(count_progress_events(&events), 1);
}

#[test]
fn regular_expressions_are_compiled_with_the_flags() {
    let mut search = FsSearch::new(&search_args(r"fn\s+\w+_test", true, false)).unwrap();
    search.scan("t.rs", "fn hello_test() {}\nfn other() {}\nfn  world_test() {}\n");
    let found = search.finish();
    assert_eq!(found.matches[0].lines.len(), 2);
    assert_eq!(found.matches[0].lines[1].ln, 3);

    let bad = FsSearch::new(&search_args("(unclosed", true, false));
    assert!(bad.is_err());
    assert!(bad.err().unwrap().starts_with("Invalid regex: "));

    let mut folded = FsSearch::new(&search_args("HELLO", true, true)).unwrap();
    folded.scan("t.rs", "say hello\n");
    assert_eq!(folded.finish().matches.len(), 1);
}

#[test]
fn search_stops_at_its_limit_and_honours_globs() {
    let mut args = search_args("TODO", false, true);
    args.max_results = Some(3);
    args.globs = Some(vec!["*.rs".to_string(), "docs/*.md".to_string()]);
    let mut search = FsSearch::new(&args).unwrap();
    assert!(search.accepts("./src/main.rs"));
    assert!(search.accepts("docs/a.md"));
    assert!(!search.accepts("./src/main.py"));
    assert!(!search.accepts("./other/a.md"));
    search.scan("a.rs", "todo one\nTODO two\nnothing\n");
    assert!(!search.is_done());
    search.scan("b.rs", "Todo three\ntodo four\n");
    assert!(search.is_done());
    search.scan("c.rs", "todo five\n");
    let found = search.finish();
    assert_eq!(found.matches.len(), 2);
    assert_eq!(found.matches[1].lines.len(), 1);
    assert_eq!(found.matches[1].lines[0].text, "Todo three");

    let plain = FsSearch::new(&search_args("x", false, false)).unwrap();
    assert!(plain.accepts("anything.txt"));
    assert!(!plain.accepts("image.PNG"));
    assert!(!plain.accepts("lib.so"));
    assert!(binary_extension("pdf"));
    assert!(!binary_extension("rs"));

    let mut bad_glob = search_args("x", false, false);
    bad_glob.globs = Some(vec!["a[".to_string()]);
    assert!(FsSearch::new(&bad_glob).err().unwrap().starts_with("Invalid glob pattern a["));
}

fn find_args(pattern: &str, fuzzy: Option<bool>) -> FsFindArgs {
    FsFindArgs {
        pattern: pattern.to_string(),
        base_path: None,
        fuzzy,
        case_sensitive: None,
        file_type: None,
        max_results: None,
        ignore_patterns: None,
    }
}

#[test]
fn test_fs_find_success() {
    let mut find = FsFind::new(&find_args("main", None));
    find.offer("./src", true);
    find.offer("./src/main.rs", false);
    find.offer("./src/my_main_file.txt", false);
    find.offer("./src/m_a_i_n", false);
    find.offer("./src/MAIN", false);
    find.offer("./src/lib.rs", false);
    let found = find.finish(7);
    assert_eq!(found.search_time_ms, 7);
    let shown: Vec<(&str, &str, MatchScore)> = found
        .matches
        .iter()
        .map(|m| (m.path.as_str(), m.match_type.as_str(), m.score.unwrap()))
        .collect();
    assert_eq!(
        shown,
        vec![
            ("./src/MAIN", "fuzzy", MatchScore::Exact),
            ("./src/main.rs", "fuzzy", MatchScore::Prefix),
            ("./src/my_main_file.txt", "fuzzy", MatchScore::Contains),
            ("./src/m_a_i_n", "fuzzy", MatchScore::Subsequence { pattern_len: 4, text_len: 7 }),
        ]
    );
}

#[test]
fn finding_with_globs_kinds_and_exclusions() {
    let mut args = find_args("*.rs", Some(false));
    args.file_type = Some("file".to_string());
    args.ignore_patterns = Some(vec!["target".to_string()]);
    args.max_results = Some(2);
    let mut find = FsFind::new(&args);
    find.offer("./src.rs", true);
    find.offer("./target/debug/x.rs", false);
    find.offer("./src/a.rs", false);
    find.offer("./src/b.txt", false);
    assert!(!find.is_done());
    find.offer("./src/c.rs", false);
    assert!(find.is_done());
    find.offer("./src/d.rs", false);
    let found = find.finish(0);
    let shown: Vec<(&str, &str, MatchScore)> = found
        .matches
        .iter()
        .map(|m| (m.path.as_str(), m.match_type.as_str(), m.score.unwrap()))
        .collect();
    assert_eq!(
        shown,
        vec![
            ("./src/a.rs", "partial", MatchScore::Glob),
            ("./src/c.rs", "partial", MatchScore::Glob),
        ]
    );

    let mut sensitive = find_args("Cargo.toml", Some(false));
    sensitive.case_sensitive = Some(true);
    let mut exact = FsFind::new(&sensitive);
    exact.offer("./Cargo.toml", false);
    exact.offer("./sub/xCargo.tomlx", false);
    let found = exact.finish(0);
    assert_eq!(found.matches[0].match_type, "exact");
    assert_eq!(found.matches[0].score, Some(MatchScore::Exact));
    assert_eq!(found.matches[1].match_type, "partial");
    assert_eq!(found.matches[1].score, Some(MatchScore::Glob));
}

#[test]
fn scores_are_ordered_as_fractions() {
    let exact = Some(MatchScore::Exact);
    let prefix = Some(MatchScore::Prefix);
    let contains = Some(MatchScore::Contains);
    let half = Some(MatchScore::Subsequence { pattern_len: 1, text_len: 2 });
    let third = Some(MatchScore::Subsequence { pattern_len: 1, text_len: 3 });
    let same = Some(MatchScore::Subsequence { pattern_len: 2, text_len: 6 });
    assert!(is_below(&prefix, &exact));
    assert!(is_below(&contains, &prefix));
    assert!(is_below(&half, &contains));
    assert!(is_below(&third, &half));
    assert!(!is_below(&third, &same));
    assert!(!is_below(&same, &third));
    assert!(is_below(&None, &Some(MatchScore::Zero)));
    assert!(!is_below(&exact, &exact));
}

#[test]
fn fuzzy_matching_and_scores() {
    assert!(fuzzy_match("mn", "main"));
    assert!(fuzzy_match("", "anything"));
    assert!(fuzzy_match("main", "main"));
    assert!(!fuzzy_match("nm", "main"));
    assert!(!fuzzy_match("mainx", "main"));
    assert_eq!(calculate_fuzzy_score("main", "main"), MatchScore::Exact);
    assert_eq!(calculate_fuzzy_score("ma", "main"), MatchScore::Prefix);
    assert_eq!(calculate_fuzzy_score("ai", "main"), MatchScore::Contains);
    assert_eq!(
        calculate_fuzzy_score("mn", "main"),
        MatchScore::Subsequence { pattern_len: 2, text_len: 4 }
    );
    assert_eq!(calculate_fuzzy_score("xyz", "main"), MatchScore::Zero);
}

#[test]
fn languages_of_extensions() {
    assert_eq!(detect_language("rs"), Some("rust".to_string()));
    assert_eq!(detect_language("tsx"), Some("typescript".to_string()));
    assert_eq!(detect_language("hpp"), Some("c".to_string()));
    assert_eq!(detect_language("cc"), Some("cpp".to_string()));
    assert_eq!(detect_language("fish"), Some("bash".to_string()));
    assert_eq!(detect_language("m"), Some("objective-c".to_string()));
    assert_eq!(detect_language("zig"), Some("zig".to_string()));
    assert_eq!(detect_language("txt"), None);
}

fn patch_args(dry_run: bool, ops: Vec<SimpleEditOp>) -> FsApplyPatchArgs {
    FsApplyPatchArgs { dry_run, ops }
}

fn one_file(path: &str, contents: &str) -> DiskSnapshot {
    DiskSnapshot {
        entries: vec![DiskEntry {
            path: path.to_string(),
            contents: ReadOutcome::Contents(contents.to_string()),
            exists: StatOutcome::Exists,
        }],
    }
}

#[test]
fn test_fs_apply_patch_dry_run() {
    let bus = EventBus::new();
    let executor = FsExecutor::new(bus.sender(), 1024 * 1024);
    let mut receiver = bus.into_receiver();
    let mut run = new_run(ToolName::FsApplyPatch);
    let spec = patch_args(
        true,
        vec![SimpleEditOp::ReplaceOnce {
            path: "test.txt".to_string(),
            find: "line 2".to_string(),
            replace: "line two".to_string(),
        }],
    );
    let planner = executor
        .apply_simple_edit_spec(&spec, &one_file("test.txt", "line 1\nline 2\nline 3\n"))
        .unwrap();
    assert!(planner.commit_actions().is_empty());
    let outcome = planner.finish(Ok(()));
    let result = executor.execute_apply_patch_with_result(&mut run, &spec, outcome).unwrap();
    assert_eq!(result.get("success"), Some(&Json::Bool(true)));
    assert_eq!(result.get("rejected_hunks"), Some(&Json::Null));
    assert!(result.get("summary").unwrap().as_str().unwrap().contains("Dry run"));
    let events = drain(&mut receiver);
    let messages: Vec<&str> = events
        .iter()
        .filter_map(|e| match e {
            AppEvent::ToolProgress { message, .. } => Some(message.as_str()),
            _ => None,
        })
        .collect();
    assert_eq!(messages, vec!["Planning 1 edit operation(s)...", "Dry run completed"]);
}

#[test]
fn test_fs_apply_patch_real_modification() {
    let original_content = r#"fn main() {
    let name = "World";
    println!("Hello, {}!", name);
    // TODO: Add more functionality
}"#;
    let path_str = "/tmp/work/hello.rs".to_string();

    let bus = EventBus::new();
    let executor = FsExecutor::new(bus.sender(), 1024 * 1024);
    let mut receiver = bus.into_receiver();
    let mut run = new_run(ToolName::FsApplyPatch);

    assert!(original_content.contains("World"));
    assert!(!original_content.contains("Rust"));

    let spec = FsApplyPatchArgs {
        dry_run: false,
        ops: vec![
            SimpleEditOp::ReplaceOnce {
                path: path_str.clone(),
                find: "let name = \"World\";".to_string(),
                replace: "let name = \"Rust\";".to_string(),
            },
            SimpleEditOp::InsertAfter {
                path: path_str.clone(),
                anchor: "println!(\"Hello, {}!\", name);".to_string(),
                insert: "\n    greet_user();".to_string(),
            },
            SimpleEditOp::InsertAfter {
                path: path_str.clone(),
                anchor: "    // TODO: Add more functionality\n}".to_string(),
                insert: "\n\nfn greet_user() {\n    println!(\"Welcome to Rust programming!\");\n}"
                    .to_string(),
            },
        ],
    };
    let spec = FsApplyPatchArgs::from_json(&spec.to_json()).unwrap();

    let planner =
        executor.apply_simple_edit_spec(&spec, &one_file(&path_str, original_content)).unwrap();
    let actions = planner.commit_actions();
    assert_eq!(actions.len(), 1);
    let modified_content = match &actions[0] {
        CommitAction::Write { path, contents } => {
            assert_eq!(path, &path_str);
            contents.clone()
        }
        _ => panic!("the plan writes the file"),
    };
    let result = executor.execute_apply_patch_with_result(&mut run, &spec, planner.finish(Ok(())));
    assert!(result.is_ok());
    let patch_result = FsApplyPatchResult::from_json(&result.unwrap()).unwrap();
    assert!(patch_result.success, "Patch should succeed: {}", patch_result.summary);
    assert!(
        patch_result.rejected_hunks.is_none()
            || patch_result.rejected_hunks.as_ref().unwrap().is_empty()
    );

    assert_ne!(modified_content, original_content, "File content should have changed");
    assert!(!modified_content.contains("World"), "Old content should be replaced");
    assert!(modified_content.contains("Rust"), "New content should be present");
    assert!(modified_content.contains("greet_user"), "New function should be added");
    assert!(
        modified_content.contains("Welcome to Rust programming!"),
        "New function body should be present"
    );

    let events = drain(&mut receiver);
    assert_eq!(events.len(), 3);
    assert_eq!(count_progress_events(&events), 2);
    assert!(find_tool_result_event(&events).is_some());
}

#[test]
fn an_anchored_replace_is_planned_and_reported() {
    let bus = EventBus::new();
    let executor = FsExecutor::new(bus.sender(), 1024 * 1024);
    let mut run = new_run(ToolName::FsApplyPatch);
    let spec = patch_args(
        false,
        vec![SimpleEditOp::ReplaceOnce {
            path: "main.rs".to_string(),
            find: "println!(\"x\");".to_string(),
            replace: "println!(\"y\");".to_string(),
        }],
    );
    let planner = executor
        .apply_simple_edit_spec(&spec, &one_file("main.rs", "fn main() {\n    println!(\"x\");\n}\n"))
        .unwrap();
    assert_eq!(planner.commit_actions().len(), 1);
    let result = executor
        .execute_apply_patch_with_result(&mut run, &spec, planner.finish(Ok(())))
        .unwrap();
    assert_eq!(result.get("success"), Some(&Json::Bool(true)));
}

#[test]
fn test_fs_apply_patch_invalid_format() {
    let bus = EventBus::new();
    let executor = FsExecutor::new(bus.sender(), 1024 * 1024);
    let mut run = new_run(ToolName::FsApplyPatch);
    let spec = patch_args(
        false,
        vec![SimpleEditOp::ReplaceOnce {
            path: "notes.txt".to_string(),
            find: "TODO".to_string(),
            replace: "DONE".to_string(),
        }],
    );
    let planned = executor.apply_simple_edit_spec(&spec, &one_file("notes.txt", "TODO\nTODO\n"));
    let outcome = match planned {
        Ok(planner) => planner.finish(Ok(())),
        Err(e) => Err(e),
    };
    let result = executor.execute_apply_patch_with_result(&mut run, &spec, outcome).unwrap();
    assert_eq!(result.get("success"), Some(&Json::Bool(false)));
    assert!(result.get("summary").unwrap().as_str().unwrap().contains("anchor ambiguous"));
    assert_eq!(
        result.get("rejected_hunks"),
        Some(&Json::Array(vec![Json::string("anchor ambiguous (found >1)")]))
    );
}

#[test]
fn test_fs_apply_patch_create_new_file() {
    let bus = EventBus::new();
    let executor = FsExecutor::new(bus.sender(), 1024 * 1024);
    let spec = patch_args(
        false,
        vec![SimpleEditOp::SetFile { path: "new.txt".to_string(), contents: "fresh".to_string() }],
    );
    let planner = executor.apply_simple_edit_spec(&spec, &DiskSnapshot { entries: vec![] }).unwrap();
    let summary = planner.build_summary();
    assert!(summary.contains("Created files: new.txt"));
    assert!(summary.contains("Bytes added: 5"));
}

#[test]
fn test_fs_apply_patch_delete_file() {
    let bus = EventBus::new();
    let executor = FsExecutor::new(bus.sender(), 1024 * 1024);
    let spec = patch_args(false, vec![SimpleEditOp::DeleteFile { path: "old.txt".to_string() }]);
    let planner = executor.apply_simple_edit_spec(&spec, &one_file("old.txt", "bye")).unwrap();
    let summary = planner.build_summary();
    assert!(summary.contains("Deleted files: old.txt"));
    assert!(summary.contains("Bytes removed: 3"));
    let committed = planner.finish(Err("Failed to delete file old.txt: denied".to_string()));
    assert_eq!(committed, Err("Failed to delete file old.txt: denied".to_string()));
}

#[test]
fn the_paths_to_probe_are_those_that_the_operations_name() {
    let ops = vec![
        SimpleEditOp::SetFile { path: "a".to_string(), contents: String::new() },
        SimpleEditOp::RenameFile { path: "b".to_string(), to: "c".to_string() },
        SimpleEditOp::DeleteFile { path: "a".to_string() },
    ];
    assert_eq!(paths_to_probe(&ops), vec!["a", "b", "c", "a"]);
}

#[test]
fn test_output_truncation() {
    let large_content = "x".repeat(2000);

    let bus = EventBus::new();
    let executor = FsExecutor::new(bus.sender(), 1000);
    let mut receiver = bus.into_receiver();
    let mut run = new_run(ToolName::FsRead);

    let args =
        Json::parse("{\"path\": \"/tmp/work/large.txt\", \"encoding\": \"utf-8\"}").unwrap();
    let args = FsReadArgs::from_json(&args).unwrap();
    let result = executor.execute_read_with_result(
        &mut run,
        &args,
        &FileProbe::Contents(large_content.clone()),
    );
    assert!(result.is_ok());
    let result_value = result.unwrap();
    assert_eq!(result_value.get("truncated"), Some(&Json::Bool(true)));
    assert_eq!(result_value.get("original_size_bytes").unwrap().as_u64(), Some(2052));
    assert_eq!(result_value.get("max_allowed_bytes").unwrap().as_u64(), Some(1000));

    let events = drain(&mut receiver);
    assert_eq!(events.len(), 2);
    match &events[1] {
        AppEvent::ToolResult { payload, .. } => {
            assert_eq!(payload.get("contents"), Some(&Json::Str(large_content)));
            assert_eq!(payload.get("truncated"), Some(&Json::Bool(false)));
        }
        other => panic!("unexpected event {:?}", other),
    }
}

#[test]
fn test_invalid_json_args() {
    let invalid_args = Json::parse("{\"invalid_field\": \"value\"}").unwrap();
    let result = FsReadArgs::from_json(&invalid_args);
    assert!(result.is_err());
    assert!(result.unwrap_err().contains("Invalid FsRead arguments"));
}

#[test]
fn the_document_of_found_names_carries_the_relevance_as_a_number() {
    let mut find = FsFind::new(&find_args("main", Some(false)));
    find.offer("./src/main.rs", false);
    find.offer("./src/domain.txt", false);
    let found = find.finish(7);
    assert_eq!(found.matches.len(), 2);
    let document = found.to_json_with(&vec![Some("0.9".to_string())]);
    assert_eq!(
        document.to_text(),
        format!(
            "{{\"matches\":[{{\"match_type\":\"{}\",\"path\":\"./src/main.rs\",\"score\":0.9}},{{\"match_type\":\"{}\",\"path\":\"./src/domain.txt\",\"score\":null}}],\"search_time_ms\":7}}",
            found.matches[0].match_type, found.matches[1].match_type
        )
    );
}
