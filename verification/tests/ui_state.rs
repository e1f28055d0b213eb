use grok_core::agent::{AgentError, AgentInfo, AgentResponse, ResponseMetadata};
use grok_core::chats::ChatInfo;
use grok_core::events::{AppEvent, EventBus, TokenUsage, ToolName};
use grok_core::handlers::{
    CommandPaletteComponent, EventHandler, InputHandler, Key, TuiEvent, UiAction, Wheel,
};
use grok_core::json::Json;
use grok_core::session::{MessageRole, Session, Timestamp, ToolStatus};
use grok_core::state::AppState;

fn new_session() -> Session {
    let bus = EventBus::new();
    Session::new(
        AgentInfo {
            name: "Grok".to_string(),
            description: "assistant".to_string(),
            version: "2.0".to_string(),
        },
        bus.sender(),
    )
}

fn fresh() -> AppState {
    AppState::new(new_session(), Vec::new(), "/tmp/chats".to_string(), 1_000, false)
}

fn press(state: &mut AppState, key: Key) -> UiAction {
    InputHandler::handle_event(state, TuiEvent::Key { key, control: false })
}

fn type_text(state: &mut AppState, text: &str) {
    for c in text.chars() {
        press(state, Key::Char(c));
    }
}

fn with_input(text: &str, cursor: usize) -> AppState {
    let mut state = fresh();
    state.input = text.to_string();
    state.input_cursor = cursor;
    state
}

fn last_content(state: &AppState) -> String {
    state.session.messages().last().map(|m| m.content.clone()).unwrap_or_default()
}

fn chat(title: &str, path: &str, secs: u64) -> ChatInfo {
    ChatInfo {
        title: title.to_string(),
        path: path.to_string(),
        last_modified: Timestamp { secs, nanos: 0 },
    }
}

#[test]
fn a_new_state_is_ready_for_input() {
    let state = fresh();
    assert_eq!(state.input, "");
    assert_eq!(state.input_cursor, 0);
    assert!(!state.should_quit && !state.processing);
    assert_eq!(state.focused_panel, 0);
    assert!(!state.show_chat_list);
    assert!(state.auto_scroll_chat && state.auto_scroll_tools && state.cursor_visible);
    assert_eq!(state.last_cursor_blink, 1_000);
    let names: Vec<&str> = state.available_commands.iter().map(|c| c.name.as_str()).collect();
    assert_eq!(names, vec!["/context", "/quit", "/clear", "/info", "/new", "/save", "/load"]);
    assert_eq!(state.available_commands[3].description, "Show agent information");
    assert!(state.current_token_usage.is_none());
    assert_eq!(state.chats_dir, "/tmp/chats");
}

#[test]
fn saved_chats_are_listed_first_while_the_session_is_empty() {
    let chats = vec![chat("one", "/tmp/chats/one_1.json", 5)];
    let state = AppState::new(new_session(), chats, "/tmp/chats".to_string(), 0, false);
    assert!(state.show_chat_list);
    assert_eq!(state.focused_panel, 1);

    let mut session = new_session();
    session.add_user_message("hello".to_string());
    let chats = vec![chat("one", "/tmp/chats/one_1.json", 5)];
    let state = AppState::new(session, chats, "/tmp/chats".to_string(), 0, false);
    assert!(!state.show_chat_list);
    assert_eq!(state.focused_panel, 0);
}

#[test]
fn the_cursor_blinks_every_half_second() {
    let mut state = fresh();
    state.update_cursor_blink(1_499);
    assert!(state.cursor_visible);
    assert_eq!(state.last_cursor_blink, 1_000);
    state.update_cursor_blink(1_500);
    assert!(!state.cursor_visible);
    assert_eq!(state.last_cursor_blink, 1_500);
    state.update_cursor_blink(900);
    assert!(!state.cursor_visible);
    state.update_cursor_blink(2_000);
    assert!(state.cursor_visible);
}

#[test]
fn typing_inserts_at_the_cursor() {
    let mut state = fresh();
    type_text(&mut state, "helo");
    assert_eq!(state.input, "helo");
    assert_eq!(state.input_cursor, 4);
    press(&mut state, Key::Left);
    press(&mut state, Key::Char('l'));
    assert_eq!(state.input, "hello");
    assert_eq!(state.input_cursor, 4);
    press(&mut state, Key::Home);
    press(&mut state, Key::Char('é'));
    assert_eq!(state.input, "éhello");
    assert_eq!(state.input_cursor, 1);
    press(&mut state, Key::End);
    assert_eq!(state.input_cursor, 6);
    press(&mut state, Key::Right);
    assert_eq!(state.input_cursor, 6);
}

#[test]
fn backspace_takes_the_character_before_the_cursor() {
    let mut state = with_input("aéb", 2);
    press(&mut state, Key::Backspace);
    assert_eq!(state.input, "ab");
    assert_eq!(state.input_cursor, 1);
    press(&mut state, Key::Backspace);
    assert_eq!(state.input, "b");
    assert_eq!(state.input_cursor, 0);
    press(&mut state, Key::Backspace);
    assert_eq!(state.input, "b");
    assert_eq!(state.input_cursor, 0);
}

#[test]
fn a_cursor_beyond_the_text_edits_nothing() {
    let mut state = with_input("ab", 5);
    InputHandler::insert_char(&mut state, 'x');
    assert_eq!(state.input, "ab");
    assert_eq!(state.input_cursor, 5);
    InputHandler::delete_char(&mut state);
    assert_eq!(state.input, "ab");
    InputHandler::move_cursor_up(&mut state);
    assert_eq!(state.input_cursor, 5);
    InputHandler::move_cursor_down(&mut state);
    assert_eq!(state.input_cursor, 5);
}

#[test]
fn the_cursor_moves_up_by_lines() {
    // "abc\nde\nfghi": lines start at 0, 4 and 7.
    let text = "abc\nde\nfghi";
    let mut state = with_input(text, 10);
    InputHandler::move_cursor_up(&mut state);
    assert_eq!(state.input_cursor, 6);
    InputHandler::move_cursor_up(&mut state);
    assert_eq!(state.input_cursor, 2);
    InputHandler::move_cursor_up(&mut state);
    assert_eq!(state.input_cursor, 0);

    let mut state = with_input(text, 5);
    InputHandler::move_cursor_up(&mut state);
    assert_eq!(state.input_cursor, 1);

    let mut state = with_input(text, 7);
    InputHandler::move_cursor_up(&mut state);
    assert_eq!(state.input_cursor, 4);
}

#[test]
fn the_cursor_moves_down_by_lines() {
    let text = "abc\nde\nfghi";
    let mut state = with_input(text, 3);
    InputHandler::move_cursor_down(&mut state);
    assert_eq!(state.input_cursor, 6);
    InputHandler::move_cursor_down(&mut state);
    assert_eq!(state.input_cursor, 9);
    InputHandler::move_cursor_down(&mut state);
    assert_eq!(state.input_cursor, 11);

    let mut state = with_input(text, 1);
    InputHandler::move_cursor_down(&mut state);
    assert_eq!(state.input_cursor, 5);

    let mut state = with_input("ab\n", 1);
    InputHandler::move_cursor_down(&mut state);
    assert_eq!(state.input_cursor, 3);
}

#[test]
fn arrows_in_the_input_move_the_cursor() {
    let mut state = with_input("ab\ncd", 4);
    press(&mut state, Key::Up);
    assert_eq!(state.input_cursor, 1);
    press(&mut state, Key::Down);
    assert_eq!(state.input_cursor, 4);
}

#[test]
fn tab_goes_round_the_panes() {
    let mut state = fresh();
    press(&mut state, Key::Tab);
    assert_eq!(state.focused_panel, 1);
    press(&mut state, Key::Tab);
    assert_eq!(state.focused_panel, 2);
    press(&mut state, Key::Tab);
    assert_eq!(state.focused_panel, 0);
}

#[test]
fn keys_scroll_the_focused_pane() {
    let mut state = fresh();
    state.focused_panel = 1;
    press(&mut state, Key::Up);
    assert_eq!(state.chat_scroll, 0);
    assert!(state.auto_scroll_chat);
    press(&mut state, Key::Down);
    assert_eq!(state.chat_scroll, 1);
    assert!(!state.auto_scroll_chat);
    press(&mut state, Key::PageDown);
    assert_eq!(state.chat_scroll, 11);
    press(&mut state, Key::Up);
    assert_eq!(state.chat_scroll, 10);
    press(&mut state, Key::PageUp);
    assert_eq!(state.chat_scroll, 0);
    press(&mut state, Key::End);
    assert!(state.auto_scroll_chat);
    press(&mut state, Key::PageUp);
    assert_eq!(state.chat_scroll, 0);
    assert!(!state.auto_scroll_chat);

    state.focused_panel = 2;
    press(&mut state, Key::PageDown);
    assert_eq!(state.tools_scroll, 10);
    assert!(!state.auto_scroll_tools);
    press(&mut state, Key::End);
    assert!(state.auto_scroll_tools);

    state.focused_panel = 0;
    press(&mut state, Key::PageDown);
    assert_eq!(state.input_scroll, 5);
    press(&mut state, Key::PageUp);
    assert_eq!(state.input_scroll, 0);
    state.chat_scroll = usize::MAX;
    state.focused_panel = 1;
    press(&mut state, Key::Down);
    assert_eq!(state.chat_scroll, usize::MAX);
}

#[test]
fn the_wheel_scrolls_by_three_lines() {
    let mut state = fresh();
    state.focused_panel = 1;
    InputHandler::handle_event(&mut state, TuiEvent::Mouse(Wheel::Down));
    assert_eq!(state.chat_scroll, 3);
    assert!(!state.auto_scroll_chat);
    InputHandler::handle_event(&mut state, TuiEvent::Mouse(Wheel::Up));
    assert_eq!(state.chat_scroll, 0);
    state.auto_scroll_chat = true;
    InputHandler::handle_event(&mut state, TuiEvent::Mouse(Wheel::Up));
    assert!(state.auto_scroll_chat);
    state.focused_panel = 0;
    InputHandler::handle_event(&mut state, TuiEvent::Mouse(Wheel::Down));
    assert_eq!(state.input_scroll, 1);
    InputHandler::handle_event(&mut state, TuiEvent::Mouse(Wheel::Other));
    InputHandler::handle_event(&mut state, TuiEvent::Other);
    assert_eq!(state.input_scroll, 1);
    state.focused_panel = 2;
    InputHandler::handle_mouse_event(&mut state, Wheel::Down);
    assert_eq!(state.tools_scroll, 3);
    assert!(!state.auto_scroll_tools);
}

#[test]
fn control_c_quits_and_q_quits_outside_the_input() {
    let mut state = fresh();
    InputHandler::handle_event(&mut state, TuiEvent::Key { key: Key::Char('c'), control: true });
    assert!(state.should_quit);

    let mut state = fresh();
    press(&mut state, Key::Char('q'));
    assert!(!state.should_quit);
    assert_eq!(state.input, "q");

    let mut state = fresh();
    state.focused_panel = 2;
    state.processing = true;
    press(&mut state, Key::Char('q'));
    assert!(!state.should_quit);
    state.processing = false;
    press(&mut state, Key::Char('x'));
    assert!(!state.should_quit);
    assert_eq!(state.input, "");
    press(&mut state, Key::Char('q'));
    assert!(state.should_quit);
}

#[test]
fn submitting_a_message_hands_it_out_with_the_history() {
    let mut state = fresh();
    state.auto_scroll_chat = false;
    state.input_scroll = 2;
    type_text(&mut state, "  hello there ");
    match press(&mut state, Key::Enter) {
        UiAction::Submit { text, history } => {
            assert_eq!(text, "hello there");
            assert_eq!(history.len(), 1);
            assert_eq!(history[0].role, MessageRole::User);
            assert_eq!(history[0].content, "hello there");
        }
        other => panic!("unexpected action {:?}", other),
    }
    assert_eq!(state.input, "");
    assert_eq!(state.input_cursor, 0);
    assert_eq!(state.input_scroll, 0);
    assert!(state.processing);
    assert!(state.auto_scroll_chat);
    assert_eq!(state.session.messages().len(), 1);

    // While the response is awaited nothing is submitted.
    type_text(&mut state, "again");
    assert!(matches!(press(&mut state, Key::Enter), UiAction::Nothing));
    assert_eq!(state.input, "again");
    assert_eq!(state.session.messages().len(), 1);
}

#[test]
fn an_empty_input_is_not_submitted() {
    let mut state = with_input("  \n ", 2);
    assert!(matches!(InputHandler::submit_input(&mut state), UiAction::Nothing));
    assert_eq!(state.input, "  \n ");
    assert_eq!(state.input_cursor, 2);
    assert!(!state.processing);
    assert!(state.session.messages().is_empty());
}

#[test]
fn quit_commands_quit() {
    for command in ["/quit", "/q"] {
        let mut state = with_input(command, 0);
        assert!(matches!(InputHandler::submit_input(&mut state), UiAction::Nothing));
        assert!(state.should_quit);
        assert!(state.processing);
        assert_eq!(state.input, "");
    }
}

#[test]
fn the_clear_command_clears_the_session() {
    let mut state = fresh();
    state.session.add_user_message("one".to_string());
    state.input = "/clear".to_string();
    assert!(matches!(InputHandler::submit_input(&mut state), UiAction::Nothing));
    assert_eq!(state.session.messages().len(), 1);
    assert_eq!(state.session.messages()[0].role, MessageRole::System);
    assert_eq!(last_content(&state), "Conversation and context cleared.");
    assert!(!state.processing);
}

#[test]
fn the_info_command_describes_the_agent() {
    let mut state = with_input("/info", 5);
    assert!(matches!(InputHandler::submit_input(&mut state), UiAction::Nothing));
    assert_eq!(last_content(&state), "Agent: Grok v2.0 - assistant");
    assert_eq!(state.session.messages()[0].role, MessageRole::System);
    assert!(!state.processing);
}

#[test]
fn the_context_command_shows_the_token_usage() {
    let mut state = with_input("/context", 0);
    InputHandler::submit_input(&mut state);
    assert_eq!(last_content(&state), "No token usage information available yet.");
    state.current_token_usage =
        Some(TokenUsage { input_tokens: 120, output_tokens: 30, total_tokens: 150 });
    state.input = "/context".to_string();
    InputHandler::submit_input(&mut state);
    assert_eq!(
        last_content(&state),
        "Token Usage:\n• Input tokens: 120\n• Output tokens: 30\n• Total tokens: 150"
    );
    assert_eq!(state.session.messages().len(), 2);
}

#[test]
fn the_thinking_command_toggles() {
    let mut state = with_input("/thinking", 0);
    match InputHandler::submit_input(&mut state) {
        UiAction::SetThinking(on) => assert!(on),
        other => panic!("unexpected action {:?}", other),
    }
    assert!(state.interleaved_thinking);
    assert_eq!(
        last_content(&state),
        "Interleaved thinking is now enabled. This will take effect for the next conversation.\n• When enabled, the agent will share its reasoning process between tool calls\n• Use '/thinking' again to toggle"
    );
    state.input = "/thinking".to_string();
    match InputHandler::submit_input(&mut state) {
        UiAction::SetThinking(on) => assert!(!on),
        other => panic!("unexpected action {:?}", other),
    }
    assert!(!state.interleaved_thinking);
    assert!(last_content(&state).starts_with("Interleaved thinking is now disabled."));
    assert!(!state.processing);
}

#[test]
fn the_new_command_starts_over() {
    let mut state = fresh();
    state.session.add_user_message("one".to_string());
    state.chat_scroll = 4;
    state.tools_scroll = 2;
    state.auto_scroll_chat = false;
    state.current_token_usage =
        Some(TokenUsage { input_tokens: 1, output_tokens: 1, total_tokens: 2 });
    state.current_chat_path = Some("/tmp/chats/a_1.json".to_string());
    state.input = "/new".to_string();
    assert!(matches!(InputHandler::submit_input(&mut state), UiAction::Nothing));
    assert_eq!(state.session.messages().len(), 1);
    assert_eq!(state.chat_scroll, 0);
    assert_eq!(state.tools_scroll, 0);
    assert!(state.auto_scroll_chat && state.auto_scroll_tools);
    assert!(state.current_token_usage.is_none());
    assert!(state.current_chat_path.is_none());
}

#[test]
fn the_save_command_hands_out_the_chat() {
    let mut state = fresh();
    state.session.add_user_message("keep me".to_string());
    state.dirty = true;
    state.input = "/save".to_string();
    match InputHandler::submit_input(&mut state) {
        UiAction::SaveChat { text } => {
            assert_eq!(text, grok_core::chats::save_chat(&state.session));
            assert!(text.contains("keep me"));
            assert!(text.contains('\n'));
        }
        other => panic!("unexpected action {:?}", other),
    }
    assert!(!state.dirty);
    assert_eq!(state.session.messages().len(), 1);
}

#[test]
fn the_load_command_shows_the_chats() {
    let mut state = with_input("/load", 0);
    state.selected_chat_index = 3;
    assert!(matches!(InputHandler::submit_input(&mut state), UiAction::ListChats));
    assert!(state.show_chat_list);
    assert_eq!(state.focused_panel, 1);
    assert_eq!(state.selected_chat_index, 0);

    state.set_chats(vec![chat("a", "/c/a_2.json", 2), chat("b", "/c/b_1.json", 1)]);
    press(&mut state, Key::Up);
    assert_eq!(state.selected_chat_index, 0);
    press(&mut state, Key::Down);
    assert_eq!(state.selected_chat_index, 1);
    press(&mut state, Key::Down);
    assert_eq!(state.selected_chat_index, 1);
    match press(&mut state, Key::Enter) {
        UiAction::LoadChat { path } => assert_eq!(path, "/c/b_1.json"),
        other => panic!("unexpected action {:?}", other),
    }
    press(&mut state, Key::Esc);
    assert!(!state.show_chat_list);
    assert_eq!(state.focused_panel, 0);
}

#[test]
fn a_chat_is_opened_from_its_text() {
    let mut saved = new_session();
    saved.add_user_message("old question".to_string());
    saved.add_agent_message("old answer".to_string());
    let text = grok_core::chats::save_chat(&saved);

    let mut state = fresh();
    state.show_chat_list = true;
    state.focused_panel = 1;
    state.chat_scroll = 7;
    assert!(state.open_chat("/c/old_1.json".to_string(), &text));
    assert_eq!(state.session.messages().len(), 2);
    assert_eq!(state.session.messages()[1].content, "old answer");
    assert_eq!(state.current_chat_path.as_deref(), Some("/c/old_1.json"));
    assert!(!state.show_chat_list);
    assert_eq!(state.focused_panel, 0);
    assert_eq!(state.chat_scroll, 0);

    assert!(!state.open_chat("/c/bad.json".to_string(), "{\"no\": \"chat\"}"));
    assert_eq!(state.session.messages().len(), 3);
    assert_eq!(state.session.messages()[2].role, MessageRole::Error);
    assert_eq!(last_content(&state), "Invalid chat history");
    assert_eq!(state.current_chat_path.as_deref(), Some("/c/old_1.json"));
}

#[test]
fn the_palette_filters_and_runs_commands() {
    let mut state = fresh();
    press(&mut state, Key::Char('/'));
    assert!(state.command_palette_open);
    assert_eq!(state.input, "");
    assert_eq!(InputHandler::get_filtered_commands(&state).len(), 7);

    type_text(&mut state, "CHAT");
    assert_eq!(state.command_palette_filter, "CHAT");
    let shown: Vec<String> =
        InputHandler::get_filtered_commands(&state).iter().map(|c| c.name.clone()).collect();
    assert_eq!(shown, vec!["/clear", "/new", "/save", "/load"]);
    assert_eq!(CommandPaletteComponent::get_filtered_commands(&state).len(), 4);

    press(&mut state, Key::Char('!'));
    assert_eq!(state.command_palette_filter, "CHAT");
    press(&mut state, Key::Down);
    press(&mut state, Key::Down);
    press(&mut state, Key::Down);
    press(&mut state, Key::Down);
    assert_eq!(state.command_palette_selected, 3);
    press(&mut state, Key::Up);
    assert_eq!(state.command_palette_selected, 2);
    press(&mut state, Key::Backspace);
    assert_eq!(state.command_palette_filter, "CHA");
    assert_eq!(state.command_palette_selected, 0);

    state.session.add_user_message("something".to_string());
    assert!(matches!(press(&mut state, Key::Enter), UiAction::Nothing));
    assert!(!state.command_palette_open);
    assert_eq!(state.command_palette_filter, "");
    assert_eq!(last_content(&state), "Conversation and context cleared.");
    assert_eq!(state.input, "");
}

#[test]
fn the_palette_closes_on_escape_and_on_an_empty_filter() {
    let mut state = fresh();
    press(&mut state, Key::Char('/'));
    press(&mut state, Key::Char('i'));
    press(&mut state, Key::Esc);
    assert!(!state.command_palette_open);
    assert_eq!(state.command_palette_filter, "");

    press(&mut state, Key::Char('/'));
    press(&mut state, Key::Char('x'));
    press(&mut state, Key::Backspace);
    assert!(state.command_palette_open);
    press(&mut state, Key::Backspace);
    assert!(!state.command_palette_open);

    press(&mut state, Key::Char('/'));
    type_text(&mut state, "zzz");
    assert!(InputHandler::get_filtered_commands(&state).is_empty());
    assert!(matches!(press(&mut state, Key::Enter), UiAction::Nothing));
    assert!(state.command_palette_open);
}

#[test]
fn a_chosen_command_waits_in_the_input_while_a_response_is_awaited() {
    let mut state = fresh();
    press(&mut state, Key::Char('/'));
    type_text(&mut state, "agent");
    state.processing = true;
    assert!(matches!(press(&mut state, Key::Enter), UiAction::Nothing));
    assert!(!state.command_palette_open);
    assert_eq!(state.input, "/info");
    assert!(state.session.messages().is_empty());
}

#[test]
fn escape_empties_the_input() {
    let mut state = with_input("draft", 3);
    state.focused_panel = 2;
    press(&mut state, Key::Esc);
    assert_eq!(state.input, "");
    assert_eq!(state.input_cursor, 0);
    assert_eq!(state.focused_panel, 0);
}

#[test]
fn a_response_ends_the_wait_and_is_saved() {
    let mut state = fresh();
    state.processing = true;
    state.auto_scroll_chat = false;
    let response = AgentResponse { content: "done".to_string(), metadata: ResponseMetadata::new() };
    let saved = EventHandler::handle_event(&mut state, AppEvent::AgentResponse(response));
    assert_eq!(saved, Some(state.session.save()));
    assert!(!state.processing);
    assert!(state.auto_scroll_chat);
    assert_eq!(state.session.messages()[0].role, MessageRole::Agent);
    assert_eq!(last_content(&state), "done");
}

#[test]
fn an_agent_error_ends_the_wait() {
    let mut state = fresh();
    state.processing = true;
    let saved = EventHandler::handle_event(
        &mut state,
        AppEvent::AgentError(AgentError::Network("refused".to_string())),
    );
    assert!(saved.is_none());
    assert!(!state.processing);
    assert_eq!(state.session.messages()[0].role, MessageRole::Error);
    assert_eq!(last_content(&state), "Network error: refused");
}

#[test]
fn tool_events_are_routed_to_the_session() {
    let mut state = fresh();
    state.auto_scroll_tools = false;
    let args = Json::object(vec![("path".to_string(), Json::string("a.rs"))]);
    EventHandler::handle_event(
        &mut state,
        AppEvent::ToolBegin {
            id: "t1".to_string(),
            tool: ToolName::FsRead,
            summary: "Read a.rs".to_string(),
            args: Some(args),
        },
    );
    assert!(state.auto_scroll_tools && state.auto_scroll_chat);
    assert_eq!(state.session.messages().len(), 1);
    assert_eq!(state.session.messages()[0].role, MessageRole::Tool);
    assert_eq!(state.session.messages()[0].content, "Agent ran Read a.rs");

    EventHandler::handle_event(
        &mut state,
        AppEvent::ToolProgress { id: "t1".to_string(), message: "half".to_string() },
    );
    EventHandler::handle_event(
        &mut state,
        AppEvent::ToolStdout { id: "t1".to_string(), chunk: "out\n".to_string() },
    );
    EventHandler::handle_event(
        &mut state,
        AppEvent::ToolStderr { id: "t1".to_string(), chunk: "err\n".to_string() },
    );
    EventHandler::handle_event(
        &mut state,
        AppEvent::ToolResult { id: "t1".to_string(), payload: Json::Bool(true) },
    );
    EventHandler::handle_event(
        &mut state,
        AppEvent::ToolEnd { id: "t1".to_string(), ok: true, duration_ms: 3 },
    );
    assert_eq!(state.session.messages().len(), 1);
    let info = state.session.messages()[0].tool_info.as_ref().unwrap();
    assert_eq!(info.stdout, "out\n");
    assert_eq!(info.stderr, "err\n");
    assert_eq!(info.result, Some(Json::Bool(true)));
    assert_eq!(info.status, ToolStatus::Completed);
}

#[test]
fn the_other_events_do_what_they_say() {
    let mut state = fresh();
    state.processing = true;
    EventHandler::handle_event(&mut state, AppEvent::ChatCompleted { token_usage: None });
    assert!(!state.processing);

    let usage = TokenUsage { input_tokens: 5, output_tokens: 6, total_tokens: 11 };
    EventHandler::handle_event(&mut state, AppEvent::TokenCount(usage));
    assert_eq!(state.current_token_usage, Some(usage));

    EventHandler::handle_event(&mut state, AppEvent::ShowAgentInfo);
    assert_eq!(last_content(&state), "Agent: Grok v2.0 - assistant");

    EventHandler::handle_event(&mut state, AppEvent::AgentThinking("hm".to_string()));
    assert_eq!(last_content(&state), "[thinking] hm");

    EventHandler::handle_event(
        &mut state,
        AppEvent::ApprovalRequest {
            id: "a".to_string(),
            tool: ToolName::ShellExec,
            summary: "rm -rf x".to_string(),
        },
    );
    assert_eq!(last_content(&state), "Tool ShellExec needs approval: rm -rf x");

    EventHandler::handle_event(
        &mut state,
        AppEvent::Error { id: None, message: "primary failed".to_string() },
    );
    assert_eq!(last_content(&state), "Error: primary failed");
    assert_eq!(state.session.messages().last().unwrap().role, MessageRole::Error);
    let count = state.session.messages().len();

    EventHandler::handle_event(&mut state, AppEvent::Background("tick".to_string()));
    EventHandler::handle_event(&mut state, AppEvent::ChatCreated);
    EventHandler::handle_event(&mut state, AppEvent::ChatDelta { text: "x".to_string() });
    EventHandler::handle_event(&mut state, AppEvent::UserInput("x".to_string()));
    EventHandler::handle_event(
        &mut state,
        AppEvent::ApprovalDecision { id: "a".to_string(), approved: true },
    );
    assert_eq!(state.session.messages().len(), count);

    state.chat_scroll = 9;
    EventHandler::handle_event(&mut state, AppEvent::Clear);
    assert_eq!(state.session.messages().len(), 1);
    assert_eq!(state.chat_scroll, 0);
    assert!(state.current_token_usage.is_none());

    EventHandler::handle_event(&mut state, AppEvent::Quit);
    assert!(state.should_quit);
}

#[test]
fn events_other_than_clear_keep_the_messages() {
    let mut state = fresh();
    state.session.add_user_message("first".to_string());
    state.session.add_agent_message("second".to_string());
    let events = vec![
        AppEvent::AgentError(AgentError::Processing("p".to_string())),
        AppEvent::ShowAgentInfo,
        AppEvent::Quit,
        AppEvent::TokenCount(TokenUsage { input_tokens: 1, output_tokens: 1, total_tokens: 2 }),
        AppEvent::ToolEnd { id: "none".to_string(), ok: false, duration_ms: 1 },
    ];
    for event in events {
        let before = state.session.messages().len();
        EventHandler::handle_event(&mut state, event);
        assert!(state.session.messages().len() >= before);
        assert_eq!(state.session.messages()[0].content, "first");
        assert_eq!(state.session.messages()[1].content, "second");
    }
}

#[test]
fn a_turn_with_a_tool_leaves_user_tool_and_agent_rows() {
    let mut state = fresh();
    state.session.add_user_message("hi".to_string());
    let events = vec![
        AppEvent::ToolBegin {
            id: "c1".to_string(),
            tool: ToolName::FsRead,
            summary: "Reading file: README.md".to_string(),
            args: Some(Json::object(vec![("path".to_string(), Json::string("README.md"))])),
        },
        AppEvent::ToolResult { id: "c1".to_string(), payload: Json::Bool(true) },
        AppEvent::ToolEnd { id: "c1".to_string(), ok: true, duration_ms: 4 },
        AppEvent::AgentResponse(AgentResponse {
            content: "done".to_string(),
            metadata: ResponseMetadata::new(),
        }),
    ];
    for event in events {
        EventHandler::handle_event(&mut state, event);
    }
    let roles: Vec<MessageRole> = state.session.messages().iter().map(|m| m.role).collect();
    assert_eq!(roles, vec![MessageRole::User, MessageRole::Tool, MessageRole::Agent]);
    let info = state.session.messages()[1].tool_info.as_ref().unwrap();
    assert_eq!(info.id, "c1");
    assert_eq!(info.status, ToolStatus::Completed);
    assert_eq!(state.session.messages()[2].content, "done");
}
