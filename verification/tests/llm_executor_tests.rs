use grok_core::agent::agent_logic::HttpOutcome;
use grok_core::events::{AppEvent, EventBus, ToolName};
use grok_core::json::Json;
use grok_core::tools::executor::ToolRun;
use grok_core::tools::executors::llm::{
    build_request, credentials, endpoint, is_excluded_by, read_selection, CodeGatherer, LlmExecutor,
};
use grok_core::tools::types::LargeContextFetchArgs;

fn fetch_args() -> LargeContextFetchArgs {
    LargeContextFetchArgs {
        user_query: "where is the planner".to_string(),
        base_path: None,
        max_files: None,
        include_extensions: None,
        exclude_patterns: None,
    }
}

#[test]
fn test_large_context_fetch_args_validation() {
    let missing = Json::parse("{\"base_path\": \".\"}").unwrap();
    let result = LargeContextFetchArgs::from_json(&missing);
    assert!(result.is_err());
    assert!(result.unwrap_err().contains("Invalid LargeContextFetch arguments"));
    let given = Json::parse("{\"user_query\": \"q\", \"max_files\": 5, \"include_extensions\": [\"rs\"]}").unwrap();
    let args = LargeContextFetchArgs::from_json(&given).unwrap();
    assert_eq!(args.user_query, "q");
    assert_eq!(args.max_files, Some(5));
    assert_eq!(args.include_extensions, Some(vec!["rs".to_string()]));
    assert!(args.exclude_patterns.is_none());
}

#[test]
fn test_large_context_fetch_missing_api_key() {
    assert_eq!(
        credentials(None, Some("m".to_string())),
        Err("No API key found. Set OPENROUTER_API_KEY environment variable".to_string())
    );
    assert_eq!(
        credentials(Some("k".to_string()), None),
        Err("No model found. Set OPENROUTER_MODEL environment variable".to_string())
    );
    assert_eq!(
        credentials(Some("k".to_string()), Some("m".to_string())),
        Ok(("k".to_string(), "m".to_string()))
    );
    assert_eq!(endpoint(None), "https://openrouter.ai/api/v1/chat/completions");
    assert_eq!(endpoint(Some("http://localhost:1".to_string())), "http://localhost:1");
}

#[test]
fn exclusion_patterns_follow_their_three_forms() {
    assert!(is_excluded_by("target", "./target/debug/main.rs"));
    assert!(!is_excluded_by("target", "./src/main.rs"));
    assert!(is_excluded_by("*.lock", "./Cargo.lock"));
    assert!(is_excluded_by("*.lock", "./deadlock"));
    assert!(!is_excluded_by("*.lock", "./lock.rs"));
    assert!(is_excluded_by("**/gen", "./src/gen/a.rs"));
    assert!(is_excluded_by("*gen*", "./src/gen*/a.rs"));
    assert!(!is_excluded_by("*gen*", "./src/gen/a.rs"));
}

#[test]
fn candidates_are_gathered_up_to_the_limit() {
    let mut args = fetch_args();
    args.max_files = Some(2);
    let mut gatherer = CodeGatherer::new(&args);
    assert!(gatherer.wants("./src/main.rs"));
    assert!(gatherer.wants("./docs/README.MD"));
    assert!(!gatherer.wants("./target/debug/build.rs"));
    assert!(!gatherer.wants("./Cargo.lock"));
    assert!(!gatherer.wants("./image.png"));
    assert!(!gatherer.wants("./Makefile"));
    gatherer.add("./src/main.rs", "fn main() {}".to_string());
    assert!(!gatherer.is_done());
    gatherer.add("./src/Lib.RS", "é".to_string());
    assert!(gatherer.is_done());
    gatherer.add("./src/more.rs", "x".to_string());
    let files = gatherer.finish().unwrap();
    assert_eq!(files.len(), 2);
    assert_eq!(files[0].path, "./src/main.rs");
    assert_eq!(files[0].language, Some("rs".to_string()));
    assert_eq!(files[0].size_bytes, 12);
    assert!(!files[0].truncated);
    assert_eq!(files[1].language, Some("rs".to_string()));
    assert_eq!(files[1].size_bytes, 2);

    let mut narrow = fetch_args();
    narrow.include_extensions = Some(vec!["PY".to_string()]);
    narrow.exclude_patterns = Some(vec![]);
    let picky = CodeGatherer::new(&narrow);
    assert!(picky.wants("./target/a.py"));
    assert!(!picky.wants("./src/main.rs"));
    assert_eq!(picky.finish().err(), Some("No code files found to analyze".to_string()));
}

#[test]
fn the_request_carries_the_query_and_the_files() {
    let mut gatherer = CodeGatherer::new(&fetch_args());
    gatherer.add("a.rs", "fn a() {}".to_string());
    let files = gatherer.finish().unwrap();
    let bus = EventBus::new();
    let executor = LlmExecutor::new(bus.sender(), 1024 * 1024);
    let mut receiver = bus.into_receiver();
    let (mut run, _) = ToolRun::begin("id", ToolName::LargeContextFetch, "s".to_string(), None);
    executor.announce_gathering(&mut run);
    let body = executor.prepare_request(&mut run, "model-x", "where is a", &files);
    assert_eq!(body.to_text(), build_request("model-x", "where is a", &files).to_text());
    assert_eq!(body.get("model"), Some(&Json::string("model-x")));
    let messages = body.get("messages").unwrap().as_array().unwrap();
    assert_eq!(messages.len(), 2);
    assert_eq!(messages[0].get("role"), Some(&Json::string("system")));
    assert_eq!(
        messages[1].get("content"),
        Some(&Json::string(
            "{\"files\":[{\"content\":\"fn a() {}\",\"file_path\":\"a.rs\"}],\"user_query\":\"where is a\"}"
        ))
    );
    let format = body.get("response_format").unwrap();
    assert_eq!(format.get("type"), Some(&Json::string("json_schema")));
    let schema = format.get("json_schema").unwrap();
    assert_eq!(schema.get("strict"), Some(&Json::Bool(true)));
    assert_eq!(schema.get("schema").unwrap().get("type"), Some(&Json::string("array")));
    let mut messages = Vec::new();
    while let Ok(ev) = receiver.try_recv() {
        if let AppEvent::ToolProgress { message, .. } = ev {
            messages.push(message);
        }
    }
    assert_eq!(
        messages,
        vec![
            "Gathering code files for analysis...",
            "Sending 1 files to LLM for relevance reasoning (structured outputs)..."
        ]
    );
}

#[test]
fn the_selection_is_the_array_in_the_content() {
    let as_text = Json::parse("{\"choices\": [{\"message\": {\"content\": \"[{\\\"file_path\\\": \\\"a.rs\\\", \\\"reason\\\": \\\"r\\\"}]\"}}]}").unwrap();
    let expected = Json::Array(vec![Json::Object(vec![
        ("file_path".to_string(), Json::string("a.rs")),
        ("reason".to_string(), Json::string("r")),
    ])]);
    assert_eq!(read_selection(&as_text), Ok(expected.deep_clone()));
    let as_array = Json::parse("{\"choices\": [{\"message\": {\"content\": [{\"file_path\": \"a.rs\", \"reason\": \"r\"}]}}]}").unwrap();
    assert_eq!(read_selection(&as_array), Ok(expected));
    let cases = vec![
        ("{}", "Invalid LLM response format: missing choices[0].message.content"),
        ("{\"choices\": []}", "Invalid LLM response format: missing choices[0].message.content"),
        ("{\"choices\": [{\"message\": {}}]}", "Invalid LLM response format: missing choices[0].message.content"),
        ("{\"choices\": [{\"message\": {\"content\": \"{}\"}}]}", "LLM response was not a JSON array as required by schema"),
        ("{\"choices\": [{\"message\": {\"content\": 3}}]}", "LLM response was not a JSON array as required by schema"),
    ];
    for (response, expected) in cases {
        assert_eq!(read_selection(&Json::parse(response).unwrap()), Err(expected.to_string()));
    }
    let not_json = Json::parse("{\"choices\": [{\"message\": {\"content\": \"nope\"}}]}").unwrap();
    assert!(read_selection(&not_json).unwrap_err().starts_with("LLM content was not valid JSON: "));
}

#[test]
fn the_answer_ends_the_call_with_a_result() {
    let bus = EventBus::new();
    let executor = LlmExecutor::new(bus.sender(), 10);
    let (mut run, _) = ToolRun::begin("id", ToolName::LargeContextFetch, "s".to_string(), None);
    let response = Json::parse("{\"choices\": [{\"message\": {\"content\": [\"a long enough answer\"]}}]}").unwrap();
    let outcome = executor.execute_large_context_fetch_with_result(&mut run, &response).unwrap();
    assert_eq!(outcome.get("truncated"), Some(&Json::Bool(true)));
    assert!(run.has_result());
    let (mut other, _) = ToolRun::begin("id2", ToolName::LargeContextFetch, "s".to_string(), None);
    assert!(executor.execute_large_context_fetch(&mut other, &Json::Null).is_err());
    assert!(!other.has_result());
}

#[test]
fn the_outcome_of_the_request_is_read_into_the_answer() {
    let refused = LlmExecutor::read_response(HttpOutcome::TransportError("refused".to_string()));
    assert_eq!(refused.unwrap_err(), "Failed to make LLM request: refused");
    let denied = LlmExecutor::read_response(HttpOutcome::Status {
        success: false,
        status: "401 Unauthorized".to_string(),
        body: "no key".to_string(),
    });
    assert_eq!(
        denied.unwrap_err(),
        "LLM API request failed with status 401 Unauthorized: no key"
    );
    let broken = LlmExecutor::read_response(HttpOutcome::Status {
        success: true,
        status: "200 OK".to_string(),
        body: "{".to_string(),
    });
    assert!(broken.unwrap_err().starts_with("Failed to parse LLM response: "));
    let answer = LlmExecutor::read_response(HttpOutcome::Status {
        success: true,
        status: "200 OK".to_string(),
        body: "{\"choices\": []}".to_string(),
    })
    .unwrap();
    assert!(answer.get("choices").is_some());
}
