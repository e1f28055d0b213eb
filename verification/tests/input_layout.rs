use grok_core::agent::AgentInfo;
use grok_core::events::EventBus;
use grok_core::layout::InputComponent;
use grok_core::session::Session;
use grok_core::state::AppState;

fn state(input: &str, cursor: usize, scroll: usize) -> AppState {
    let bus = EventBus::new();
    let session = Session::new(
        AgentInfo { name: "a".to_string(), description: "b".to_string(), version: "c".to_string() },
        bus.sender(),
    );
    let mut state = AppState::new(session, Vec::new(), "/tmp".to_string(), 0, false);
    state.input = input.to_string();
    state.input_cursor = cursor;
    state.input_scroll = scroll;
    state
}

#[test]
fn a_short_input_is_one_line() {
    let shown = InputComponent::layout(&state("hello", 2, 0), 10, 3);
    assert_eq!(shown.lines, vec!["hello"]);
    assert_eq!(shown.total_lines, 1);
    assert_eq!(shown.scroll, 0);
    assert_eq!((shown.cursor_line, shown.cursor_col), (0, 2));
}

#[test]
fn an_empty_input_has_no_line() {
    let shown = InputComponent::layout(&state("", 0, 4), 10, 3);
    assert!(shown.lines.is_empty());
    assert_eq!(shown.total_lines, 0);
    assert_eq!(shown.scroll, 0);
    assert_eq!((shown.cursor_line, shown.cursor_col), (0, 0));
}

#[test]
fn long_input_wraps_at_the_width() {
    let shown = InputComponent::layout(&state("abcdefgh", 8, 0), 3, 5);
    assert_eq!(shown.lines, vec!["abc", "def", "gh"]);
    assert_eq!((shown.cursor_line, shown.cursor_col), (2, 2));

    let shown = InputComponent::layout(&state("abcdefgh", 4, 0), 3, 5);
    assert_eq!((shown.cursor_line, shown.cursor_col), (1, 1));

    let shown = InputComponent::layout(&state("abcdefgh", 3, 0), 3, 5);
    assert_eq!((shown.cursor_line, shown.cursor_col), (0, 3));

    let shown = InputComponent::layout(&state("ééééé", 5, 0), 2, 5);
    assert_eq!(shown.lines, vec!["éé", "éé", "é"]);
    assert_eq!((shown.cursor_line, shown.cursor_col), (2, 1));
}

#[test]
fn line_breaks_end_lines() {
    let shown = InputComponent::layout(&state("ab\ncd", 4, 0), 10, 5);
    assert_eq!(shown.lines, vec!["ab", "cd"]);
    assert_eq!((shown.cursor_line, shown.cursor_col), (1, 1));

    let shown = InputComponent::layout(&state("ab\ncd", 1, 0), 10, 5);
    assert_eq!((shown.cursor_line, shown.cursor_col), (0, 1));

    let shown = InputComponent::layout(&state("ab\ncd", 3, 0), 10, 5);
    assert_eq!((shown.cursor_line, shown.cursor_col), (1, 0));

    // A cursor before a line break is shown at the start of the next line.
    let shown = InputComponent::layout(&state("ab\ncd", 2, 0), 10, 5);
    assert_eq!((shown.cursor_line, shown.cursor_col), (1, 0));

    let shown = InputComponent::layout(&state("ab\n", 3, 0), 10, 5);
    assert_eq!(shown.lines, vec!["ab"]);
    assert_eq!((shown.cursor_line, shown.cursor_col), (0, 2));

    let shown = InputComponent::layout(&state("a\n\nb", 0, 0), 10, 5);
    assert_eq!(shown.lines, vec!["a", "", "b"]);
}

#[test]
fn the_pane_shows_the_lines_at_the_scroll() {
    let text = "1\n2\n3\n4\n5";
    let shown = InputComponent::layout(&state(text, 9, 1), 10, 2);
    assert_eq!(shown.lines, vec!["2", "3"]);
    assert_eq!(shown.total_lines, 5);
    assert_eq!(shown.scroll, 1);
    assert_eq!((shown.cursor_line, shown.cursor_col), (3, 1));

    let shown = InputComponent::layout(&state(text, 9, 10), 10, 2);
    assert_eq!(shown.lines, vec!["4", "5"]);
    assert_eq!(shown.scroll, 3);
    assert_eq!((shown.cursor_line, shown.cursor_col), (1, 1));

    let shown = InputComponent::layout(&state(text, 0, 3), 10, 2);
    assert_eq!((shown.cursor_line, shown.cursor_col), (0, 0));

    let shown = InputComponent::layout(&state(text, 0, 0), 10, 9);
    assert_eq!(shown.lines, vec!["1", "2", "3", "4", "5"]);
    let shown = InputComponent::layout(&state(text, 0, 2), 10, 0);
    assert!(shown.lines.is_empty());
    assert_eq!(shown.scroll, 2);
}
