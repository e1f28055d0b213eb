use grok_core::agent::AgentInfo;
use grok_core::chats::{
    chat_file_name, chat_title, is_earlier, list_entry, load_chat, save_chat, scan_chats,
    ChatFile,
};
use grok_core::events::EventBus;
use grok_core::session::{ChatMessage, MessageRole, Session, Timestamp};
use grok_core::tools::executors::fs::matching::path_file_stem;

fn message(role: MessageRole, content: &str) -> ChatMessage {
    ChatMessage { role, content: content.to_string(), timestamp_secs: 7, tool_info: None }
}

fn session_with(messages: Vec<ChatMessage>) -> Session {
    let bus = EventBus::new();
    let mut session = Session::new(
        AgentInfo {
            name: "a".to_string(),
            description: "b".to_string(),
            version: "c".to_string(),
        },
        bus.sender(),
    );
    session.replace_messages(messages);
    session
}

fn plain(messages: &[ChatMessage]) -> Vec<(MessageRole, String, u64)> {
    messages.iter().map(|m| (m.role, m.content.clone(), m.timestamp_secs)).collect()
}

fn saved(messages: Vec<ChatMessage>) -> String {
    save_chat(&session_with(messages))
}

fn file(path: &str, contents: Option<String>, secs: Option<u64>) -> ChatFile {
    ChatFile {
        path: path.to_string(),
        contents,
        modified: secs.map(|secs| Timestamp { secs, nanos: 0 }),
    }
}

#[test]
fn the_title_is_the_first_message_of_the_user() {
    let messages = vec![
        message(MessageRole::System, "welcome"),
        message(MessageRole::User, "  Fix the bug: in main.rs!  "),
        message(MessageRole::User, "second"),
    ];
    assert_eq!(chat_title(&messages), Some("Fix_the_bug_in_mainrs".to_string()));
    assert_eq!(chat_title(&[message(MessageRole::Agent, "hi")]), None);
    assert_eq!(chat_title(&[]), None);
}

#[test]
fn the_file_of_a_chat_is_named_by_title_and_second() {
    let messages = vec![message(MessageRole::User, "hello world")];
    assert_eq!(chat_file_name(&messages, 1700000000), "hello_world_1700000000.json");
    assert_eq!(chat_file_name(&[], 0), "Untitled_0.json");
}

#[test]
fn a_saved_chat_loads_as_it_was() {
    let text = saved(vec![message(MessageRole::User, "q"), message(MessageRole::Agent, "a")]);
    assert!(text.contains('\n'));
    assert_eq!(
        plain(&load_chat(&text).unwrap()),
        vec![(MessageRole::User, "q".to_string(), 7), (MessageRole::Agent, "a".to_string(), 7)]
    );
    assert!(load_chat("not json").is_err());
    assert_eq!(load_chat("{}").unwrap_err(), "Invalid chat history");
    assert!(load_chat("[]").unwrap().is_empty());
}

#[test]
fn file_stems_leave_the_extension_out() {
    assert_eq!(path_file_stem("/a/b/chat_12.json"), Some("chat_12".to_string()));
    assert_eq!(path_file_stem("notes"), Some("notes".to_string()));
    assert_eq!(path_file_stem(".hidden"), Some(".hidden".to_string()));
    assert_eq!(path_file_stem("a.tar.gz"), Some("a.tar".to_string()));
    assert_eq!(path_file_stem("dir/"), Some("dir".to_string()));
    assert_eq!(path_file_stem(""), None);
    assert_eq!(path_file_stem(".."), None);
    for sample in ["/a/b/chat_12.json", "notes", ".hidden", "a.tar.gz", "x/y.z/w", "trailing."] {
        let expected = std::path::Path::new(sample)
            .file_stem()
            .and_then(|s| s.to_str())
            .map(|s| s.to_string());
        assert_eq!(path_file_stem(sample), expected, "{}", sample);
    }
}

#[test]
fn only_chats_with_messages_are_listed() {
    let good = saved(vec![message(MessageRole::User, "first words")]);
    let entry = list_entry(&file("/c/x_1.json", Some(good.clone()), Some(5))).unwrap();
    assert_eq!(entry.title, "first_words");
    assert_eq!(entry.path, "/c/x_1.json");
    assert_eq!(entry.last_modified, Timestamp { secs: 5, nanos: 0 });

    assert!(list_entry(&file("/c/x_1.txt", Some(good.clone()), Some(5))).is_none());
    assert!(list_entry(&file("/c/x_1", Some(good.clone()), Some(5))).is_none());
    assert!(list_entry(&file("/c/x_1.json", None, Some(5))).is_none());
    assert!(list_entry(&file("/c/x_1.json", Some(good), None)).is_none());
    assert!(list_entry(&file("/c/x_1.json", Some("[]".to_string()), Some(5))).is_none());
    assert!(list_entry(&file("/c/x_1.json", Some("oops".to_string()), Some(5))).is_none());

    let untitled = saved(vec![message(MessageRole::Agent, "only me")]);
    let entry = list_entry(&file("/c/named_9.json", Some(untitled), Some(5))).unwrap();
    assert_eq!(entry.title, "named_9");
}

#[test]
fn chats_are_listed_latest_first() {
    let text = |words: &str| Some(saved(vec![message(MessageRole::User, words)]));
    let files = vec![
        file("/c/a.json", text("a"), Some(10)),
        file("/c/skip.txt", text("skip"), Some(99)),
        file("/c/b.json", text("b"), Some(30)),
        file("/c/c.json", text("c"), Some(20)),
        file("/c/d.json", text("d"), Some(30)),
        file("/c/e.json", Some("broken".to_string()), Some(50)),
    ];
    let titles: Vec<String> = scan_chats(&files).into_iter().map(|c| c.title).collect();
    assert_eq!(titles, vec!["b", "d", "c", "a"]);
    assert!(scan_chats(&Vec::new()).is_empty());
}

#[test]
fn times_are_ordered_by_second_then_nanosecond() {
    let t = |secs, nanos| Timestamp { secs, nanos };
    assert!(is_earlier(&t(1, 9), &t(2, 0)));
    assert!(is_earlier(&t(2, 1), &t(2, 2)));
    assert!(!is_earlier(&t(2, 2), &t(2, 2)));
    assert!(!is_earlier(&t(3, 0), &t(2, 9)));
}
