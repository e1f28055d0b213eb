//! What the display does with an event: a key or the wheel of the mouse
//! from the terminal, or an event of the application from the bus.

use crate::agent::AgentInfo;
use crate::chats::save_chat;
use crate::events::{AppEvent, TokenUsage, ToolName};
use crate::json::{json_pretty_text, json_text, Json};
use crate::session::{
    extends, lemma_last_tool_message, messages_json, messages_view, routed,
    ChatMessage, MessageRole, Session, ToolStatus, ToolUpdate,
};
use crate::state::{AppState, Command, PANELS};
use crate::text::{
    chars_to_string, concat2, concat3, contains, contains_sub, decimal, is_alphanumeric,
    line_end, str_chars, str_eq, sub_vec, to_lowercase, trim, trim_spec, u64_to_string,
    unicode_alphanumeric, unicode_lowercase,
};
use crate::tools::executors::fs::matching::{after_last, find_after_last};
use vstd::prelude::*;

verus! {

/// A key of the keyboard.
#[derive(Debug, Clone, Copy, PartialEq, Eq)]
pub enum Key {
    Char(char),
    Tab,
    Up,
    Down,
    PageUp,
    PageDown,
    Enter,
    Backspace,
    Left,
    Right,
    Home,
    End,
    Esc,
    Other,
}

/// A turn of the wheel of the mouse.
#[derive(Debug, Clone, Copy, PartialEq, Eq)]
pub enum Wheel {
    Up,
    Down,
    Other,
}

/// An event of the terminal: a key that was pressed, with or without the
/// control key, or the mouse.
#[derive(Debug, Clone, Copy, PartialEq, Eq)]
pub enum TuiEvent {
    Key { key: Key, control: bool },
    Mouse(Wheel),
    Other,
}

/// The lines that the wheel scrolls a pane by.
pub const WHEEL_LINES: usize = 3;

/// The lines that a page key scrolls a pane by.
pub const PAGE_LINES: usize = 10;

/// The lines that a page key scrolls the input by.
pub const INPUT_PAGE_LINES: usize = 5;

/// The state with the focused pane scrolled up by a number of lines. A
/// pane that is at the top stays as it is; one that moves no longer
/// follows its end.
pub open spec fn scrolled_up(s: AppState, input_lines: usize, lines: usize) -> AppState {
    if s.focused_panel == 0 {
        AppState { input_scroll: s.input_scroll.saturating_sub(input_lines), ..s }
    } else if s.focused_panel == 1 {
        if s.chat_scroll > 0 {
            AppState {
                chat_scroll: s.chat_scroll.saturating_sub(lines),
                auto_scroll_chat: false,
                ..s
            }
        } else {
            s
        }
    } else if s.focused_panel == 2 {
        if s.tools_scroll > 0 {
            AppState {
                tools_scroll: s.tools_scroll.saturating_sub(lines),
                auto_scroll_tools: false,
                ..s
            }
        } else {
            s
        }
    } else {
        s
    }
}

/// The state with the focused pane scrolled down by a number of lines; the
/// chat and the tools no longer follow their end.
pub open spec fn scrolled_down(s: AppState, input_lines: usize, lines: usize) -> AppState {
    if s.focused_panel == 0 {
        AppState { input_scroll: s.input_scroll.saturating_add(input_lines), ..s }
    } else if s.focused_panel == 1 {
        AppState { chat_scroll: s.chat_scroll.saturating_add(lines), auto_scroll_chat: false, ..s }
    } else if s.focused_panel == 2 {
        AppState {
            tools_scroll: s.tools_scroll.saturating_add(lines),
            auto_scroll_tools: false,
            ..s
        }
    } else {
        s
    }
}

/// The state a page further up in the focused pane: as a scroll, but the
/// chat and the tools stop following their end even at the top.
pub open spec fn paged_up(s: AppState) -> AppState {
    if s.focused_panel == 1 {
        AppState {
            chat_scroll: s.chat_scroll.saturating_sub(PAGE_LINES),
            auto_scroll_chat: false,
            ..s
        }
    } else if s.focused_panel == 2 {
        AppState {
            tools_scroll: s.tools_scroll.saturating_sub(PAGE_LINES),
            auto_scroll_tools: false,
            ..s
        }
    } else {
        scrolled_up(s, INPUT_PAGE_LINES, PAGE_LINES)
    }
}

/// The state after a turn of the wheel.
pub open spec fn wheeled(s: AppState, wheel: Wheel) -> AppState {
    match wheel {
        Wheel::Up => scrolled_up(s, 1, WHEEL_LINES),
        Wheel::Down => scrolled_down(s, 1, WHEEL_LINES),
        Wheel::Other => s,
    }
}

/// The start of the line of a text that position `n` lies in.
pub open spec fn line_start(s: Seq<char>, n: int) -> int {
    match after_last(s.take(n), '\n') {
        Some(i) => i,
        None => 0,
    }
}

/// The end of the line of a text that position `n` lies in: the position
/// of the first line break at or behind `n`, or the length of the text.
pub open spec fn line_stop(s: Seq<char>, n: int) -> int {
    n + line_end(s.skip(n))
}

/// The smaller of two numbers.
pub open spec fn least(a: int, b: int) -> int {
    if a <= b {
        a
    } else {
        b
    }
}

/// Where the cursor goes from position `c` one line up: to the same
/// column of the line before, or to its end where that line is shorter;
/// on the first line, to the start of the text.
pub open spec fn cursor_up(s: Seq<char>, c: int) -> int {
    match after_last(s.take(c), '\n') {
        None => 0,
        Some(start) => {
            let before = line_start(s, start - 1);
            before + least(c - start, start - 1 - before)
        },
    }
}

/// Where the cursor goes from position `c` one line down: to the same
/// column of the next line, or to its end where that line is shorter;
/// on the last line, and where nothing follows the line break, to the end
/// of the text.
pub open spec fn cursor_down(s: Seq<char>, c: int) -> int {
    let next = line_stop(s, c) + 1;
    if next >= s.len() {
        s.len() as int
    } else {
        next + least(c - line_start(s, c), line_stop(s, next) - next)
    }
}

/// The state with the cursor of the input at a position.
pub open spec fn with_cursor(s: AppState, cursor: int) -> AppState {
    AppState { input_cursor: cursor as usize, ..s }
}

/// The state with the cursor one character to the left, unless it is at
/// the start.
pub open spec fn moved_left(s: AppState) -> AppState {
    if s.input_cursor > 0 {
        with_cursor(s, s.input_cursor - 1)
    } else {
        s
    }
}

/// The state with the cursor one character to the right, unless it is at
/// the end.
pub open spec fn moved_right(s: AppState) -> AppState {
    if s.input_cursor < s.input@.len() {
        with_cursor(s, s.input_cursor + 1)
    } else {
        s
    }
}

/// The state with the cursor one line up.
pub open spec fn moved_up(s: AppState) -> AppState {
    if s.input_cursor <= s.input@.len() {
        with_cursor(s, cursor_up(s.input@, s.input_cursor as int))
    } else {
        s
    }
}

/// The state with the cursor one line down.
pub open spec fn moved_down(s: AppState) -> AppState {
    if s.input_cursor <= s.input@.len() {
        with_cursor(s, cursor_down(s.input@, s.input_cursor as int))
    } else {
        s
    }
}

/// `after` is `before` with a character typed at the cursor, which moves
/// behind it.
pub open spec fn typed(before: AppState, after: AppState, ch: char) -> bool {
    if before.input_cursor <= before.input@.len() {
        &&& after.input@ == before.input@.insert(before.input_cursor as int, ch)
        &&& after == (AppState {
            input: after.input,
            input_cursor: (before.input_cursor + 1) as usize,
            ..before
        })
    } else {
        after == before
    }
}

/// `after` is `before` without the character before the cursor, which
/// moves back by one.
pub open spec fn erased(before: AppState, after: AppState) -> bool {
    if 0 < before.input_cursor <= before.input@.len() {
        &&& after.input@ == before.input@.remove(before.input_cursor - 1)
        &&& after == (AppState {
            input: after.input,
            input_cursor: (before.input_cursor - 1) as usize,
            ..before
        })
    } else {
        after == before
    }
}

fn find_line_start(chars: &[char], n: usize) -> (r: usize)
    requires
        n <= chars.len(),
    ensures
        r == line_start(chars@, n as int),
        r <= n,
        (after_last(chars@.take(n as int), '\n') is Some) == (r > 0),
{
    let head = sub_vec(chars, 0, n);
    assert(head@ == chars@.take(n as int));
    match find_after_last(head.as_slice(), '\n') {
        Some(i) => i,
        None => 0,
    }
}

fn find_line_stop(chars: &[char], n: usize) -> (r: usize)
    requires
        n <= chars.len(),
    ensures
        r == line_stop(chars@, n as int),
        n <= r <= chars.len(),
{
    let mut i: usize = n;
    while i < chars.len() && chars[i] != '\n'
        invariant
            n <= i <= chars.len(),
            line_stop(chars@, n as int) == i + line_end(chars@.skip(i as int)),
        decreases chars.len() - i,
    {
        assert(chars@.skip(i as int)[0] == chars@[i as int]);
        assert(chars@.skip(i as int).skip(1) == chars@.skip(i + 1));
        i += 1;
    }
    proof {
        if i < chars.len() {
            assert(chars@.skip(i as int)[0] == chars@[i as int]);
        }
    }
    i
}

/// What whoever drives the display is to do after an event of the
/// terminal.
#[derive(Debug)]
pub enum UiAction {
    /// Nothing.
    Nothing,
    /// Submit the text to the agent with the history, and put its outcome
    /// on the bus.
    Submit { text: String, history: Vec<ChatMessage> },
    /// Tell the agent whether to share its reasoning from now on.
    SetThinking(bool),
    /// Save the text as a named chat.
    SaveChat { text: String },
    /// List the saved chats anew.
    ListChats,
    /// Read the file of a saved chat and open it.
    LoadChat { path: String },
}

/// Whether a command passes a filter: the filter is empty, or occurs in
/// the name or in the description, whatever the case of the letters.
pub open spec fn passes(filter: Seq<char>, command: Command) -> bool {
    filter.len() == 0 || contains_sub(unicode_lowercase(command.name@), unicode_lowercase(filter))
        || contains_sub(unicode_lowercase(command.description@), unicode_lowercase(filter))
}

/// The commands that the palette shows.
pub open spec fn filtered(s: AppState) -> Seq<Command> {
    s.available_commands@.filter(|c: Command| passes(s.command_palette_filter@, c))
}

/// Whether a character is taken into the filter of the palette.
pub open spec fn is_filter_char(c: char) -> bool {
    unicode_alphanumeric(c) || c == '/' || c == ' ' || c == '-' || c == '_'
}

/// `after` is `before` with a character typed into the filter of the
/// palette; the selection goes back to the first command.
pub open spec fn filter_typed(before: AppState, after: AppState, c: char) -> bool {
    if is_filter_char(c) {
        &&& after.command_palette_filter@ == before.command_palette_filter@.push(c)
        &&& after == (AppState {
            command_palette_filter: after.command_palette_filter,
            command_palette_selected: 0,
            ..before
        })
    } else {
        after == before
    }
}

/// `after` is `before` with the last character of the filter taken back;
/// with an empty filter the palette closes.
pub open spec fn filter_erased(before: AppState, after: AppState) -> bool {
    if before.command_palette_filter@.len() > 0 {
        &&& after.command_palette_filter@ == before.command_palette_filter@.drop_last()
        &&& after == (AppState {
            command_palette_filter: after.command_palette_filter,
            command_palette_selected: 0,
            ..before
        })
    } else {
        after == (AppState { command_palette_open: false, ..before })
    }
}

/// `after` is `before` with the palette at the given state of open, an
/// empty filter and the first command selected.
pub open spec fn palette_reset(before: AppState, after: AppState, open: bool) -> bool {
    &&& after.command_palette_filter@.len() == 0
    &&& after == (AppState {
        command_palette_open: open,
        command_palette_filter: after.command_palette_filter,
        command_palette_selected: 0,
        ..before
    })
}

/// The later session holds the messages of the earlier and one more, of
/// the given role and content.
pub open spec fn said(before: Session, after: Session, role: MessageRole, text: Seq<char>) -> bool {
    &&& after.log().len() == before.log().len() + 1
    &&& after.log().drop_last() == before.log()
    &&& after.log().last().role == role
    &&& after.log().last().content@ == text
    &&& after.log().last().tool_info is None
}

/// The session holds nothing but the notice that it was cleared.
pub open spec fn wiped(after: Session) -> bool {
    &&& after.log().len() == 1
    &&& after.log()[0].role == MessageRole::System
    &&& after.log()[0].content@ == "Conversation and context cleared."@
    &&& after.log()[0].tool_info is None
}

/// What the display says of an agent.
pub open spec fn info_text(info: AgentInfo) -> Seq<char> {
    "Agent: "@ + info.name@ + " v"@ + info.version@ + " - "@ + info.description@
}

/// What the display says of the token usage.
pub open spec fn usage_text(usage: Option<TokenUsage>) -> Seq<char> {
    match usage {
        Some(u) => "Token Usage:\n• Input tokens: "@ + decimal(u.input_tokens as nat)
            + "\n• Output tokens: "@ + decimal(u.output_tokens as nat) + "\n• Total tokens: "@
            + decimal(u.total_tokens as nat),
        None => "No token usage information available yet."@,
    }
}

/// What the display says when the sharing of reasoning is switched.
pub open spec fn thinking_text(enabled: bool) -> Seq<char> {
    "Interleaved thinking is now "@ + (if enabled {
        "enabled"@
    } else {
        "disabled"@
    })
        + ". This will take effect for the next conversation.\n• When enabled, the agent will share its reasoning process between tool calls\n• Use '/thinking' again to toggle"@
}

/// The state after a submission but for what the command itself does:
/// the input is empty, its cursor and scroll at the start, and no response
/// is awaited.
pub open spec fn taken(before: AppState, after: AppState) -> AppState {
    AppState {
        session: after.session,
        input: after.input,
        input_cursor: 0,
        input_scroll: 0,
        processing: false,
        ..before
    }
}

/// What a text of the input does when it is submitted. A command is
/// carried out; any other text goes into the session as a message of the
/// user and is handed out for the agent with the history.
pub open spec fn carried_out(
    before: AppState,
    text: Seq<char>,
    after: AppState,
    action: UiAction,
) -> bool {
    let base = taken(before, after);
    &&& after.input@.len() == 0
    &&& if text == "/quit"@ || text == "/q"@ {
        &&& after == (AppState {
            session: before.session,
            should_quit: true,
            processing: true,
            ..base
        })
        &&& action is Nothing
    } else if text == "/clear"@ {
        &&& after == base
        &&& wiped(after.session)
        &&& action is Nothing
    } else if text == "/info"@ {
        &&& after == base
        &&& said(
            before.session,
            after.session,
            MessageRole::System,
            info_text(before.session.agent_info_spec()),
        )
        &&& action is Nothing
    } else if text == "/context"@ {
        &&& after == base
        &&& said(
            before.session,
            after.session,
            MessageRole::System,
            usage_text(before.current_token_usage),
        )
        &&& action is Nothing
    } else if text == "/thinking"@ {
        &&& after == (AppState { interleaved_thinking: !before.interleaved_thinking, ..base })
        &&& said(
            before.session,
            after.session,
            MessageRole::System,
            thinking_text(!before.interleaved_thinking),
        )
        &&& action == UiAction::SetThinking(!before.interleaved_thinking)
    } else if text == "/new"@ {
        &&& after == (AppState {
            chat_scroll: 0,
            tools_scroll: 0,
            auto_scroll_chat: true,
            auto_scroll_tools: true,
            current_token_usage: None,
            current_chat_path: None,
            dirty: false,
            ..base
        })
        &&& wiped(after.session)
        &&& action is Nothing
    } else if text == "/save"@ {
        &&& after == (AppState { session: before.session, dirty: false, ..base })
        &&& action matches UiAction::SaveChat { text: saved }
        &&& saved@ == json_pretty_text(messages_json(messages_view(before.session.log())))
    } else if text == "/load"@ {
        &&& after == (AppState {
            session: before.session,
            show_chat_list: true,
            focused_panel: 1,
            selected_chat_index: 0,
            ..base
        })
        &&& action is ListChats
    } else {
        &&& after == (AppState { processing: true, auto_scroll_chat: true, ..base })
        &&& said(before.session, after.session, MessageRole::User, text)
        &&& action matches UiAction::Submit { text: sent, history }
        &&& sent@ == text
        &&& messages_view(history@) == messages_view(after.session.log())
    }
}

/// What a submission of the input does. An input of nothing but
/// whitespace, or one while a response is awaited, does nothing;
/// otherwise the input without the whitespace around it is carried out.
pub open spec fn submitted(before: AppState, after: AppState, action: UiAction) -> bool {
    let text = trim_spec(before.input@);
    if text.len() == 0 || before.processing {
        after == before && action is Nothing
    } else {
        carried_out(before, text, after, action)
    }
}

/// The state with the palette closed: the filter is that of `after`, and
/// empty, and the first command is selected.
pub open spec fn palette_closed(before: AppState, after: AppState) -> AppState {
    AppState {
        command_palette_open: false,
        command_palette_filter: after.command_palette_filter,
        command_palette_selected: 0,
        ..before
    }
}

/// What choosing the selected command of the palette does: the palette
/// closes, and the name of the command is submitted in place of the
/// input. While a response is awaited the name stays in the input.
/// Without a selected command nothing happens.
pub open spec fn chosen(before: AppState, after: AppState, action: UiAction) -> bool {
    let shown = filtered(before);
    if before.command_palette_selected < shown.len() {
        let name = shown[before.command_palette_selected as int].name@;
        let text = trim_spec(name);
        &&& after.command_palette_filter@.len() == 0
        &&& if text.len() == 0 || before.processing {
            &&& after.input@ == name
            &&& after == (AppState { input: after.input, ..palette_closed(before, after) })
            &&& action is Nothing
        } else {
            carried_out(palette_closed(before, after), text, after, action)
        }
    } else {
        after == before && action is Nothing
    }
}

/// The state after the key that moves up: in the open palette the
/// selection, in the input the cursor, in the list of chats the selected
/// chat, and else the focused pane by a line.
pub open spec fn key_up(s: AppState) -> AppState {
    if s.focused_panel == 0 {
        if s.command_palette_open {
            if s.command_palette_selected > 0 {
                AppState {
                    command_palette_selected: (s.command_palette_selected - 1) as usize,
                    ..s
                }
            } else {
                s
            }
        } else {
            moved_up(s)
        }
    } else if s.focused_panel == 1 && s.show_chat_list {
        if s.selected_chat_index > 0 {
            AppState { selected_chat_index: (s.selected_chat_index - 1) as usize, ..s }
        } else {
            s
        }
    } else {
        scrolled_up(s, 1, 1)
    }
}

/// The state after the key that moves down.
pub open spec fn key_down(s: AppState) -> AppState {
    if s.focused_panel == 0 {
        if s.command_palette_open {
            if s.command_palette_selected + 1 < filtered(s).len() {
                AppState {
                    command_palette_selected: (s.command_palette_selected + 1) as usize,
                    ..s
                }
            } else {
                s
            }
        } else {
            moved_down(s)
        }
    } else if s.focused_panel == 1 && s.show_chat_list {
        if s.selected_chat_index + 1 < s.available_chats@.len() {
            AppState { selected_chat_index: (s.selected_chat_index + 1) as usize, ..s }
        } else {
            s
        }
    } else {
        scrolled_down(s, 1, 1)
    }
}

/// The pane that takes the focus after a pane.
pub open spec fn next_panel(panel: usize) -> usize {
    if panel + 1 < PANELS {
        (panel + 1) as usize
    } else {
        0
    }
}

/// What a character does that is typed with or without the control key.
/// With the control key `c` quits. Outside the input `q` quits while no
/// response is awaited, and nothing else is taken. In the input a slash
/// in an empty line opens the palette; a character goes into the filter
/// of the open palette, and into the line otherwise.
pub open spec fn char_keyed(before: AppState, after: AppState, c: char, control: bool) -> bool {
    if c == 'c' && control {
        after == (AppState { should_quit: true, ..before })
    } else if before.focused_panel != 0 {
        if c == 'q' && !before.processing {
            after == (AppState { should_quit: true, ..before })
        } else {
            after == before
        }
    } else if c == '/' && before.input@.len() == 0 && !before.command_palette_open {
        palette_reset(before, after, true)
    } else if before.command_palette_open {
        filter_typed(before, after, c)
    } else {
        typed(before, after, c)
    }
}

/// What the key that confirms does: in the input it chooses the selected
/// command of the open palette or submits the line; in the list of chats
/// it asks for the selected chat.
pub open spec fn entered(before: AppState, after: AppState, action: UiAction) -> bool {
    if before.focused_panel == 0 {
        if before.command_palette_open {
            chosen(before, after, action)
        } else {
            submitted(before, after, action)
        }
    } else if before.focused_panel == 1 && before.show_chat_list && before.selected_chat_index
        < before.available_chats@.len() {
        &&& after == before
        &&& action matches UiAction::LoadChat { path }
        &&& path@ == before.available_chats@[before.selected_chat_index as int].path@
    } else {
        after == before && action is Nothing
    }
}

/// The state after the key that goes to the end: in the input the cursor
/// goes behind the last character; the chat and the tools follow their
/// end again.
pub open spec fn ended(s: AppState) -> AppState {
    if s.focused_panel == 0 {
        with_cursor(s, s.input@.len() as int)
    } else if s.focused_panel == 1 {
        AppState { auto_scroll_chat: true, ..s }
    } else if s.focused_panel == 2 {
        AppState { auto_scroll_tools: true, ..s }
    } else {
        s
    }
}

/// What the key that leaves does: it closes the open palette; else it
/// empties the input, hides the list of chats and gives the focus to the
/// input.
pub open spec fn escaped(before: AppState, after: AppState) -> bool {
    if before.command_palette_open {
        palette_reset(before, after, false)
    } else {
        &&& after.input@.len() == 0
        &&& after == (AppState {
            input: after.input,
            input_cursor: 0,
            focused_panel: 0,
            show_chat_list: false,
            ..before
        })
    }
}

/// What a key does to the state, and what is to be done after it.
pub open spec fn keyed(
    before: AppState,
    after: AppState,
    key: Key,
    control: bool,
    action: UiAction,
) -> bool {
    match key {
        Key::Enter => entered(before, after, action),
        _ => {
            &&& action is Nothing
            &&& match key {
                Key::Char(c) => char_keyed(before, after, c, control),
                Key::Tab => after == (AppState {
                    focused_panel: next_panel(before.focused_panel),
                    ..before
                }),
                Key::Up => after == key_up(before),
                Key::Down => after == key_down(before),
                Key::PageUp => after == paged_up(before),
                Key::PageDown => after == scrolled_down(before, INPUT_PAGE_LINES, PAGE_LINES),
                Key::Backspace => if before.focused_panel != 0 {
                    after == before
                } else if before.command_palette_open {
                    filter_erased(before, after)
                } else {
                    erased(before, after)
                },
                Key::Left => after == (if before.focused_panel == 0 {
                    moved_left(before)
                } else {
                    before
                }),
                Key::Right => after == (if before.focused_panel == 0 {
                    moved_right(before)
                } else {
                    before
                }),
                Key::Home => after == (if before.focused_panel == 0 {
                    with_cursor(before, 0)
                } else {
                    before
                }),
                Key::End => after == ended(before),
                Key::Esc => escaped(before, after),
                _ => after == before,
            }
        },
    }
}

/// What an event of the terminal does to the state, and what is to be
/// done after it.
pub open spec fn terminal_step(
    before: AppState,
    after: AppState,
    event: TuiEvent,
    action: UiAction,
) -> bool {
    match event {
        TuiEvent::Key { key, control } => keyed(before, after, key, control, action),
        TuiEvent::Mouse(wheel) => after == wheeled(before, wheel) && action is Nothing,
        TuiEvent::Other => after == before && action is Nothing,
    }
}

/// Handles input events for the application.
pub struct InputHandler;

impl InputHandler {
    fn scroll_up(state: &mut AppState, input_lines: usize, lines: usize)
        ensures
            *final(state) == scrolled_up(*old(state), input_lines, lines),
    {
        if state.focused_panel == 0 {
            state.input_scroll = state.input_scroll.saturating_sub(input_lines);
        } else if state.focused_panel == 1 {
            if state.chat_scroll > 0 {
                state.chat_scroll = state.chat_scroll.saturating_sub(lines);
                state.auto_scroll_chat = false;
            }
        } else if state.focused_panel == 2 {
            if state.tools_scroll > 0 {
                state.tools_scroll = state.tools_scroll.saturating_sub(lines);
                state.auto_scroll_tools = false;
            }
        }
    }

    fn scroll_down(state: &mut AppState, input_lines: usize, lines: usize)
        ensures
            *final(state) == scrolled_down(*old(state), input_lines, lines),
    {
        if state.focused_panel == 0 {
            state.input_scroll = state.input_scroll.saturating_add(input_lines);
        } else if state.focused_panel == 1 {
            state.chat_scroll = state.chat_scroll.saturating_add(lines);
            state.auto_scroll_chat = false;
        } else if state.focused_panel == 2 {
            state.tools_scroll = state.tools_scroll.saturating_add(lines);
            state.auto_scroll_tools = false;
        }
    }

    /// Insert a character at the cursor position.
    pub fn insert_char(state: &mut AppState, ch: char)
        ensures
            typed(*old(state), *final(state), ch),
    {
        let mut chars = str_chars(state.input.as_str());
        if state.input_cursor <= chars.len() {
            chars.insert(state.input_cursor, ch);
            state.input_cursor = if state.input_cursor < chars.len() {
                state.input_cursor + 1
            } else {
                chars.len()
            };
            state.input = chars_to_string(chars.as_slice());
        }
    }

    /// Delete the character before the cursor.
    pub fn delete_char(state: &mut AppState)
        ensures
            erased(*old(state), *final(state)),
    {
        let mut chars = str_chars(state.input.as_str());
        if state.input_cursor > 0 && state.input_cursor <= chars.len() {
            chars.remove(state.input_cursor - 1);
            state.input = chars_to_string(chars.as_slice());
            state.input_cursor = state.input_cursor - 1;
        }
    }

    /// Move the cursor left.
    pub fn move_cursor_left(state: &mut AppState)
        ensures
            *final(state) == moved_left(*old(state)),
    {
        if state.input_cursor > 0 {
            state.input_cursor = state.input_cursor - 1;
        }
    }

    /// Move the cursor right.
    pub fn move_cursor_right(state: &mut AppState)
        ensures
            *final(state) == moved_right(*old(state)),
    {
        let chars = str_chars(state.input.as_str());
        if state.input_cursor < chars.len() {
            state.input_cursor = state.input_cursor + 1;
        }
    }

    /// Move the cursor up in a multi-line input.
    pub fn move_cursor_up(state: &mut AppState)
        ensures
            *final(state) == moved_up(*old(state)),
    {
        let chars = str_chars(state.input.as_str());
        let c = state.input_cursor;
        if c <= chars.len() {
            let start = find_line_start(chars.as_slice(), c);
            if start == 0 {
                state.input_cursor = 0;
            } else {
                let before = find_line_start(chars.as_slice(), start - 1);
                let column = c - start;
                let length = start - 1 - before;
                state.input_cursor = before + if column <= length {
                    column
                } else {
                    length
                };
            }
        }
    }

    /// Move the cursor down in a multi-line input.
    pub fn move_cursor_down(state: &mut AppState)
        ensures
            *final(state) == moved_down(*old(state)),
    {
        let chars = str_chars(state.input.as_str());
        let c = state.input_cursor;
        if c <= chars.len() {
            let stop = find_line_stop(chars.as_slice(), c);
            if stop >= chars.len() || stop + 1 >= chars.len() {
                state.input_cursor = chars.len();
            } else {
                let next = stop + 1;
                let column = c - find_line_start(chars.as_slice(), c);
                let length = find_line_stop(chars.as_slice(), next) - next;
                state.input_cursor = next + if column <= length {
                    column
                } else {
                    length
                };
            }
        }
    }

    /// Scrolls the focused pane with the wheel of the mouse: the input by
    /// one line, the chat and the tools by three.
    pub fn handle_mouse_event(state: &mut AppState, wheel: Wheel)
        ensures
            *final(state) == wheeled(*old(state), wheel),
    {
        match wheel {
            Wheel::Up => Self::scroll_up(state, 1, WHEEL_LINES),
            Wheel::Down => Self::scroll_down(state, 1, WHEEL_LINES),
            Wheel::Other => {},
        }
    }

    /// Scrolls the focused pane a page up: the input by five lines, the
    /// chat and the tools by ten.
    pub fn handle_page_up(state: &mut AppState)
        ensures
            *final(state) == paged_up(*old(state)),
    {
        if state.focused_panel == 1 {
            state.chat_scroll = state.chat_scroll.saturating_sub(PAGE_LINES);
            state.auto_scroll_chat = false;
        } else if state.focused_panel == 2 {
            state.tools_scroll = state.tools_scroll.saturating_sub(PAGE_LINES);
            state.auto_scroll_tools = false;
        } else {
            Self::scroll_up(state, INPUT_PAGE_LINES, PAGE_LINES);
        }
    }

    /// Scrolls the focused pane a page down: the input by five lines, the
    /// chat and the tools by ten.
    pub fn handle_page_down(state: &mut AppState)
        ensures
            *final(state) == scrolled_down(*old(state), INPUT_PAGE_LINES, PAGE_LINES),
    {
        Self::scroll_down(state, INPUT_PAGE_LINES, PAGE_LINES);
    }
    /// Get the commands that pass the current filter, in the order of the
    /// palette.
    pub fn get_filtered_commands(state: &AppState) -> (r: Vec<&Command>)
        ensures
            r@.map_values(|c: &Command| *c) == filtered(*state),
    {
        let ghost pred = |c: Command| passes(state.command_palette_filter@, c);
        let all = &state.available_commands;
        let filter = str_chars(state.command_palette_filter.as_str());
        let needle = str_chars(to_lowercase(state.command_palette_filter.as_str()).as_str());
        let mut out: Vec<&Command> = Vec::new();
        let mut i: usize = 0;
        proof {
            assert(all@.take(0).filter(pred) =~= Seq::empty());
            assert(out@.map_values(|c: &Command| *c) =~= Seq::empty());
        }
        while i < all.len()
            invariant
                i <= all@.len(),
                all == &state.available_commands,
                filter@ == state.command_palette_filter@,
                needle@ == unicode_lowercase(state.command_palette_filter@),
                pred == (|c: Command| passes(state.command_palette_filter@, c)),
                out@.map_values(|c: &Command| *c) == all@.take(i as int).filter(pred),
            decreases all.len() - i,
        {
            let ghost before = out@.map_values(|c: &Command| *c);
            proof {
                let head = all@.take(i as int);
                assert(all@.take(i + 1) == head.push(all@[i as int]));
                assert(head.push(all@[i as int]).drop_last() == head);
                reveal(Seq::filter);
            }
            let name = str_chars(to_lowercase(all[i].name.as_str()).as_str());
            let description = str_chars(to_lowercase(all[i].description.as_str()).as_str());
            if filter.len() == 0 || contains(name.as_slice(), needle.as_slice()) || contains(
                description.as_slice(),
                needle.as_slice(),
            ) {
                out.push(&all[i]);
                assert(out@.map_values(|c: &Command| *c) =~= before.push(all@[i as int]));
            }
            i += 1;
        }
        proof {
            assert(all@.take(all@.len() as int) == all@);
        }
        out
    }

    /// Handle a character typed into the filter of the command palette.
    pub fn handle_command_palette_char(state: &mut AppState, c: char)
        ensures
            filter_typed(*old(state), *final(state), c),
    {
        if is_alphanumeric(c) || c == '/' || c == ' ' || c == '-' || c == '_' {
            let mut chars = str_chars(state.command_palette_filter.as_str());
            chars.push(c);
            state.command_palette_filter = chars_to_string(chars.as_slice());
            state.command_palette_selected = 0;
        }
    }

    fn erase_filter(state: &mut AppState)
        ensures
            filter_erased(*old(state), *final(state)),
    {
        let chars = str_chars(state.command_palette_filter.as_str());
        if chars.len() > 0 {
            let rest = sub_vec(chars.as_slice(), 0, chars.len() - 1);
            assert(rest@ == chars@.drop_last());
            state.command_palette_filter = chars_to_string(rest.as_slice());
            state.command_palette_selected = 0;
        } else {
            state.command_palette_open = false;
        }
    }

    fn reset_palette(state: &mut AppState, open: bool)
        ensures
            palette_reset(*old(state), *final(state), open),
    {
        state.command_palette_open = open;
        state.command_palette_filter = String::new();
        state.command_palette_selected = 0;
    }

    fn usage_message(usage: &Option<TokenUsage>) -> (s: String)
        ensures
            s@ == usage_text(*usage),
    {
        match usage {
            Some(u) => {
                let input = u64_to_string(u.input_tokens as u64);
                let output = u64_to_string(u.output_tokens as u64);
                let total = u64_to_string(u.total_tokens as u64);
                let a = concat3(
                    "Token Usage:\n• Input tokens: ",
                    input.as_str(),
                    "\n• Output tokens: ",
                );
                let b = concat3(a.as_str(), output.as_str(), "\n• Total tokens: ");
                concat2(b.as_str(), total.as_str())
            },
            None => String::from_str("No token usage information available yet."),
        }
    }

    fn info_message(info: &AgentInfo) -> (s: String)
        ensures
            s@ == info_text(*info),
    {
        let a = concat3("Agent: ", info.name.as_str(), " v");
        let b = concat3(a.as_str(), info.version.as_str(), " - ");
        concat2(b.as_str(), info.description.as_str())
    }

    fn carry_out(state: &mut AppState, text: String) -> (action: UiAction)
        ensures
            carried_out(*old(state), text@, *final(state), action),
    {
        state.input = String::new();
        state.input_cursor = 0;
        state.input_scroll = 0;
        state.processing = false;
        if str_eq(text.as_str(), "/quit") || str_eq(text.as_str(), "/q") {
            state.should_quit = true;
            state.processing = true;
            UiAction::Nothing
        } else if str_eq(text.as_str(), "/clear") {
            state.session.clear();
            UiAction::Nothing
        } else if str_eq(text.as_str(), "/info") {
            let info = state.session.agent_info();
            let message = Self::info_message(&info);
            assert(message@ == info_text(old(state).session.agent_info_spec()));
            state.session.add_system_message(message);
            UiAction::Nothing
        } else if str_eq(text.as_str(), "/context") {
            let message = Self::usage_message(&state.current_token_usage);
            state.session.add_system_message(message);
            UiAction::Nothing
        } else if str_eq(text.as_str(), "/thinking") {
            let enabled = !state.interleaved_thinking;
            state.interleaved_thinking = enabled;
            let message = concat3(
                "Interleaved thinking is now ",
                if enabled {
                    "enabled"
                } else {
                    "disabled"
                },
                ". This will take effect for the next conversation.\n• When enabled, the agent will share its reasoning process between tool calls\n• Use '/thinking' again to toggle",
            );
            state.session.add_system_message(message);
            UiAction::SetThinking(enabled)
        } else if str_eq(text.as_str(), "/new") {
            state.session.clear();
            state.chat_scroll = 0;
            state.tools_scroll = 0;
            state.auto_scroll_chat = true;
            state.auto_scroll_tools = true;
            state.current_token_usage = None;
            state.current_chat_path = None;
            state.dirty = false;
            UiAction::Nothing
        } else if str_eq(text.as_str(), "/save") {
            state.dirty = false;
            UiAction::SaveChat { text: save_chat(&state.session) }
        } else if str_eq(text.as_str(), "/load") {
            state.show_chat_list = true;
            state.focused_panel = 1;
            state.selected_chat_index = 0;
            UiAction::ListChats
        } else {
            state.processing = true;
            state.auto_scroll_chat = true;
            let sent = text.clone();
            let history = state.session.handle_user_input(text);
            UiAction::Submit { text: sent, history }
        }
    }

    /// Submit the current input.
    pub fn submit_input(state: &mut AppState) -> (action: UiAction)
        ensures
            submitted(*old(state), *final(state), action),
    {
        let chars = str_chars(state.input.as_str());
        let trimmed = trim(chars.as_slice());
        if trimmed.len() == 0 || state.processing {
            return UiAction::Nothing;
        }
        let text = chars_to_string(trimmed.as_slice());
        Self::carry_out(state, text)
    }

    /// Execute the currently selected command of the palette.
    pub fn execute_selected_command(state: &mut AppState) -> (action: UiAction)
        ensures
            chosen(*old(state), *final(state), action),
    {
        let name = {
            let shown = Self::get_filtered_commands(state);
            if state.command_palette_selected < shown.len() {
                let command: &Command = shown[state.command_palette_selected];
                assert(*command == shown@.map_values(|c: &Command| *c)[state.command_palette_selected as int]);
                command.name.clone()
            } else {
                return UiAction::Nothing;
            }
        };
        Self::reset_palette(state, false);
        let chars = str_chars(name.as_str());
        let trimmed = trim(chars.as_slice());
        if trimmed.len() == 0 || state.processing {
            state.input = name;
            return UiAction::Nothing;
        }
        let text = chars_to_string(trimmed.as_slice());
        Self::carry_out(state, text)
    }

    /// Handle the key that moves up.
    pub fn handle_up_key(state: &mut AppState)
        ensures
            *final(state) == key_up(*old(state)),
    {
        if state.focused_panel == 0 {
            if state.command_palette_open {
                if state.command_palette_selected > 0 {
                    state.command_palette_selected = state.command_palette_selected - 1;
                }
            } else {
                Self::move_cursor_up(state);
            }
        } else if state.focused_panel == 1 && state.show_chat_list {
            if state.selected_chat_index > 0 {
                state.selected_chat_index = state.selected_chat_index - 1;
            }
        } else {
            Self::scroll_up(state, 1, 1);
        }
    }

    /// Handle the key that moves down.
    pub fn handle_down_key(state: &mut AppState)
        ensures
            *final(state) == key_down(*old(state)),
    {
        if state.focused_panel == 0 {
            if state.command_palette_open {
                let shown = Self::get_filtered_commands(state).len();
                assert(shown == filtered(*state).len());
                if shown > 0 && state.command_palette_selected < shown - 1 {
                    state.command_palette_selected = state.command_palette_selected + 1;
                }
            } else {
                Self::move_cursor_down(state);
            }
        } else if state.focused_panel == 1 && state.show_chat_list {
            let chats = state.available_chats.len();
            if chats > 0 && state.selected_chat_index < chats - 1 {
                state.selected_chat_index = state.selected_chat_index + 1;
            }
        } else {
            Self::scroll_down(state, 1, 1);
        }
    }

    fn handle_char(state: &mut AppState, c: char, control: bool)
        ensures
            char_keyed(*old(state), *final(state), c, control),
    {
        if c == 'c' && control {
            state.should_quit = true;
        } else if state.focused_panel != 0 {
            if c == 'q' && !state.processing {
                state.should_quit = true;
            }
        } else if c == '/' && str_chars(state.input.as_str()).len() == 0
            && !state.command_palette_open {
            Self::reset_palette(state, true);
        } else if state.command_palette_open {
            Self::handle_command_palette_char(state, c);
        } else {
            Self::insert_char(state, c);
        }
    }

    fn handle_enter(state: &mut AppState) -> (action: UiAction)
        ensures
            entered(*old(state), *final(state), action),
    {
        if state.focused_panel == 0 {
            if state.command_palette_open {
                Self::execute_selected_command(state)
            } else {
                Self::submit_input(state)
            }
        } else if state.focused_panel == 1 && state.show_chat_list && state.selected_chat_index
            < state.available_chats.len() {
            UiAction::LoadChat { path: state.available_chats[state.selected_chat_index].path.clone() }
        } else {
            UiAction::Nothing
        }
    }

    fn handle_end(state: &mut AppState)
        ensures
            *final(state) == ended(*old(state)),
    {
        if state.focused_panel == 0 {
            state.input_cursor = str_chars(state.input.as_str()).len();
        } else if state.focused_panel == 1 {
            state.auto_scroll_chat = true;
        } else if state.focused_panel == 2 {
            state.auto_scroll_tools = true;
        }
    }

    fn handle_escape(state: &mut AppState)
        ensures
            escaped(*old(state), *final(state)),
    {
        if state.command_palette_open {
            Self::reset_palette(state, false);
        } else {
            state.input = String::new();
            state.input_cursor = 0;
            state.focused_panel = 0;
            state.show_chat_list = false;
        }
    }

    /// Handle a key that was pressed.
    pub fn handle_key_event(state: &mut AppState, key: Key, control: bool) -> (action: UiAction)
        ensures
            keyed(*old(state), *final(state), key, control, action),
    {
        match key {
            Key::Enter => {
                return Self::handle_enter(state);
            },
            Key::Char(c) => Self::handle_char(state, c, control),
            Key::Tab => {
                state.focused_panel = if state.focused_panel < PANELS - 1 {
                    state.focused_panel + 1
                } else {
                    0
                };
            },
            Key::Up => Self::handle_up_key(state),
            Key::Down => Self::handle_down_key(state),
            Key::PageUp => Self::handle_page_up(state),
            Key::PageDown => Self::handle_page_down(state),
            Key::Backspace => {
                if state.focused_panel == 0 {
                    if state.command_palette_open {
                        Self::erase_filter(state);
                    } else {
                        Self::delete_char(state);
                    }
                }
            },
            Key::Left => {
                if state.focused_panel == 0 {
                    Self::move_cursor_left(state);
                }
            },
            Key::Right => {
                if state.focused_panel == 0 {
                    Self::move_cursor_right(state);
                }
            },
            Key::Home => {
                if state.focused_panel == 0 {
                    state.input_cursor = 0;
                }
            },
            Key::End => Self::handle_end(state),
            Key::Esc => Self::handle_escape(state),
            Key::Other => {},
        }
        UiAction::Nothing
    }

    /// Handle an event of the terminal: a key or the mouse.
    pub fn handle_event(state: &mut AppState, event: TuiEvent) -> (action: UiAction)
        ensures
            terminal_step(*old(state), *final(state), event, action),
    {
        match event {
            TuiEvent::Key { key, control } => Self::handle_key_event(state, key, control),
            TuiEvent::Mouse(wheel) => {
                Self::handle_mouse_event(state, wheel);
                UiAction::Nothing
            },
            TuiEvent::Other => UiAction::Nothing,
        }
    }
}

/// The later session holds the messages of the earlier and one more: the
/// tool message of the call, which is running and has neither output nor
/// result.
pub open spec fn tool_begun(
    before: Session,
    after: Session,
    id: String,
    tool: ToolName,
    summary: String,
    args: Option<Json>,
) -> bool {
    let log = after.log();
    &&& log.len() == before.log().len() + 1
    &&& log.drop_last() == before.log()
    &&& log.last().role == MessageRole::Tool
    &&& log.last().content@ == "Agent ran "@ + summary@
    &&& log.last().tool_info matches Some(info) && info.id == id && info.tool == tool
        && info.summary == summary && info.args == args && info.status == ToolStatus::Running
        && info.stdout@.len() == 0 && info.stderr@.len() == 0 && info.result is None
}

/// What an event of the application does to the state. The response of
/// the agent goes into the session, and the text of the history to save
/// is handed out; an error of the agent goes into the session too, and
/// either ends the wait. The begin of a tool call adds its tool message
/// and nothing else; the other events of the call are routed to that
/// message. The token usage is kept. What the session says of the other
/// events is fixed; an event that the display does not show changes
/// nothing.
pub open spec fn handled(
    before: AppState,
    after: AppState,
    event: AppEvent,
    saved: Option<String>,
) -> bool {
    let kept = AppState { session: after.session, ..before };
    match event {
        AppEvent::AgentResponse(response) => {
            &&& after == (AppState { processing: false, auto_scroll_chat: true, ..kept })
            &&& said(before.session, after.session, MessageRole::Agent, response.content@)
            &&& saved matches Some(text)
            &&& text@ == json_text(messages_json(messages_view(after.session.log())))
        },
        _ => {
            &&& saved is None
            &&& match event {
                AppEvent::AgentError(error) => {
                    &&& after == (AppState { processing: false, ..kept })
                    &&& said(
                        before.session,
                        after.session,
                        MessageRole::Error,
                        error.message_spec(),
                    )
                },
                AppEvent::AgentThinking(thinking) => {
                    &&& after == (AppState { auto_scroll_chat: true, ..kept })
                    &&& said(
                        before.session,
                        after.session,
                        MessageRole::System,
                        "[thinking] "@ + thinking@,
                    )
                },
                AppEvent::Quit => after == (AppState { should_quit: true, ..before }),
                AppEvent::Clear => {
                    &&& after == (AppState {
                        chat_scroll: 0,
                        tools_scroll: 0,
                        auto_scroll_chat: true,
                        auto_scroll_tools: true,
                        current_token_usage: None,
                        ..kept
                    })
                    &&& wiped(after.session)
                },
                AppEvent::ShowAgentInfo => {
                    &&& after == kept
                    &&& said(
                        before.session,
                        after.session,
                        MessageRole::System,
                        info_text(before.session.agent_info_spec()),
                    )
                },
                AppEvent::ChatCompleted { .. } => after == (AppState {
                    processing: false,
                    ..before
                }),
                AppEvent::ToolBegin { id, tool, summary, args } => {
                    &&& after == (AppState {
                        auto_scroll_tools: true,
                        auto_scroll_chat: true,
                        ..kept
                    })
                    &&& tool_begun(before.session, after.session, id, tool, summary, args)
                },
                AppEvent::ToolProgress { .. } => {
                    &&& after == kept
                    &&& after.session.log() == before.session.log()
                },
                AppEvent::ToolStdout { id, chunk } => {
                    &&& after == kept
                    &&& routed(
                        before.session.log(),
                        after.session.log(),
                        id@,
                        ToolUpdate::Stdout(chunk@),
                    )
                },
                AppEvent::ToolStderr { id, chunk } => {
                    &&& after == kept
                    &&& routed(
                        before.session.log(),
                        after.session.log(),
                        id@,
                        ToolUpdate::Stderr(chunk@),
                    )
                },
                AppEvent::ToolResult { id, payload } => {
                    &&& after == kept
                    &&& routed(
                        before.session.log(),
                        after.session.log(),
                        id@,
                        ToolUpdate::Result(payload@),
                    )
                },
                AppEvent::ToolEnd { id, ok, .. } => {
                    &&& after == kept
                    &&& routed(before.session.log(), after.session.log(), id@, ToolUpdate::End(ok))
                },
                AppEvent::ApprovalRequest { tool, summary, .. } => {
                    &&& after == kept
                    &&& said(
                        before.session,
                        after.session,
                        MessageRole::System,
                        "Tool "@ + tool.variant_name_spec() + " needs approval: "@ + summary@,
                    )
                },
                AppEvent::Error { message, .. } => {
                    &&& after == kept
                    &&& said(
                        before.session,
                        after.session,
                        MessageRole::Error,
                        "Error: "@ + message@,
                    )
                },
                AppEvent::TokenCount(usage) => after == (AppState {
                    current_token_usage: Some(usage),
                    ..before
                }),
                _ => after == before,
            }
        },
    }
}

/// A session that has said one thing more has kept what it held.
pub proof fn lemma_said_extends(
    before: Session,
    after: Session,
    role: MessageRole,
    text: Seq<char>,
)
    requires
        said(before, after, role, text),
    ensures
        extends(before.log(), after.log()),
{
    assert forall|i: int| 0 <= i < before.log().len() implies after.log()[i] == before.log()[i] by {
        assert(after.log().drop_last()[i] == after.log()[i]);
    }
}

/// A log in which an event was routed to its tool message has kept what
/// it held.
pub proof fn lemma_routed_extends(
    before: Seq<ChatMessage>,
    after: Seq<ChatMessage>,
    id: Seq<char>,
    update: ToolUpdate,
)
    requires
        routed(before, after, id, update),
    ensures
        extends(before, after),
{
    lemma_last_tool_message(before, id, before.len() as int);
}

/// No event of the application takes a message from the session or
/// moves one, but the event that clears the conversation.
pub proof fn law_events_keep_messages(
    before: AppState,
    after: AppState,
    event: AppEvent,
    saved: Option<String>,
)
    requires
        handled(before, after, event, saved),
        !(event is Clear),
    ensures
        extends(before.session.log(), after.session.log()),
{
    let old_log = before.session.log();
    let new_log = after.session.log();
    match event {
        AppEvent::AgentResponse(response) => {
            lemma_said_extends(
                before.session,
                after.session,
                MessageRole::Agent,
                response.content@,
            );
        },
        AppEvent::AgentError(error) => {
            lemma_said_extends(
                before.session,
                after.session,
                MessageRole::Error,
                error.message_spec(),
            );
        },
        AppEvent::AgentThinking(thinking) => {
            lemma_said_extends(
                before.session,
                after.session,
                MessageRole::System,
                "[thinking] "@ + thinking@,
            );
        },
        AppEvent::ShowAgentInfo => {
            lemma_said_extends(
                before.session,
                after.session,
                MessageRole::System,
                info_text(before.session.agent_info_spec()),
            );
        },
        AppEvent::ToolBegin { .. } => {
            assert forall|i: int| 0 <= i < old_log.len() implies new_log[i] == old_log[i] by {
                assert(new_log.drop_last()[i] == new_log[i]);
            }
        },
        AppEvent::ToolStdout { id, chunk } => {
            lemma_routed_extends(old_log, new_log, id@, ToolUpdate::Stdout(chunk@));
        },
        AppEvent::ToolStderr { id, chunk } => {
            lemma_routed_extends(old_log, new_log, id@, ToolUpdate::Stderr(chunk@));
        },
        AppEvent::ToolResult { id, payload } => {
            lemma_routed_extends(old_log, new_log, id@, ToolUpdate::Result(payload@));
        },
        AppEvent::ToolEnd { id, ok, .. } => {
            lemma_routed_extends(old_log, new_log, id@, ToolUpdate::End(ok));
        },
        AppEvent::ApprovalRequest { tool, summary, .. } => {
            lemma_said_extends(
                before.session,
                after.session,
                MessageRole::System,
                "Tool "@ + tool.variant_name_spec() + " needs approval: "@ + summary@,
            );
        },
        AppEvent::Error { message, .. } => {
            lemma_said_extends(
                before.session,
                after.session,
                MessageRole::Error,
                "Error: "@ + message@,
            );
        },
        _ => {},
    }
}

/// Handles application events from the bus.
pub struct EventHandler;

impl EventHandler {
    fn on_response(state: &mut AppState, response: crate::agent::AgentResponse) -> (saved: Option<
        String,
    >)
        ensures
            handled(*old(state), *final(state), AppEvent::AgentResponse(response), saved),
    {
        let text = state.session.add_agent_message(response.content);
        state.processing = false;
        state.auto_scroll_chat = true;
        Some(text)
    }

    fn on_error(state: &mut AppState, error: crate::agent::AgentError)
        ensures
            handled(*old(state), *final(state), AppEvent::AgentError(error), None),
    {
        state.session.add_error_message(error.message());
        state.processing = false;
    }

    fn on_thinking(state: &mut AppState, thinking: String)
        ensures
            handled(*old(state), *final(state), AppEvent::AgentThinking(thinking), None),
    {
        state.session.add_system_message(concat2("[thinking] ", thinking.as_str()));
        state.auto_scroll_chat = true;
    }

    fn on_clear(state: &mut AppState)
        ensures
            handled(*old(state), *final(state), AppEvent::Clear, None),
    {
        state.session.clear();
        state.chat_scroll = 0;
        state.tools_scroll = 0;
        state.auto_scroll_chat = true;
        state.auto_scroll_tools = true;
        state.current_token_usage = None;
    }

    fn on_show_info(state: &mut AppState)
        ensures
            handled(*old(state), *final(state), AppEvent::ShowAgentInfo, None),
    {
        let info = state.session.agent_info();
        let message = InputHandler::info_message(&info);
        assert(message@ == info_text(old(state).session.agent_info_spec()));
        state.session.add_system_message(message);
    }

    fn on_tool_begin(
        state: &mut AppState,
        id: String,
        tool: ToolName,
        summary: String,
        args: Option<Json>,
    )
        ensures
            handled(
                *old(state),
                *final(state),
                AppEvent::ToolBegin { id, tool, summary, args },
                None,
            ),
    {
        state.session.handle_tool_begin(id, tool, summary, args);
        state.auto_scroll_tools = true;
        state.auto_scroll_chat = true;
    }

    fn on_tool_update(state: &mut AppState, event: AppEvent) -> (done: bool)
        ensures
            done ==> handled(*old(state), *final(state), event, None),
            !done ==> *final(state) == *old(state),
            done == (event is ToolProgress || event is ToolStdout || event is ToolStderr
                || event is ToolResult || event is ToolEnd),
    {
        match event {
            AppEvent::ToolProgress { id, message } => {
                state.session.handle_tool_progress(id, message);
                true
            },
            AppEvent::ToolStdout { id, chunk } => {
                state.session.handle_tool_stdout(id, chunk);
                true
            },
            AppEvent::ToolStderr { id, chunk } => {
                state.session.handle_tool_stderr(id, chunk);
                true
            },
            AppEvent::ToolResult { id, payload } => {
                state.session.handle_tool_result(id, payload);
                true
            },
            AppEvent::ToolEnd { id, ok, duration_ms } => {
                state.session.handle_tool_end(id, ok, duration_ms);
                true
            },
            _ => false,
        }
    }

    fn on_approval_request(state: &mut AppState, id: String, tool: ToolName, summary: String)
        ensures
            handled(
                *old(state),
                *final(state),
                AppEvent::ApprovalRequest { id, tool, summary },
                None,
            ),
    {
        let head = concat3("Tool ", tool.variant_name(), " needs approval: ");
        state.session.add_system_message(concat2(head.as_str(), summary.as_str()));
    }

    fn on_bus_error(state: &mut AppState, id: Option<String>, message: String)
        ensures
            handled(*old(state), *final(state), AppEvent::Error { id, message }, None),
    {
        state.session.add_error_message(concat2("Error: ", message.as_str()));
    }

    /// Handle an application event. Where the response of the agent came,
    /// the text of the history to save comes back.
    pub fn handle_event(state: &mut AppState, event: AppEvent) -> (saved: Option<String>)
        ensures
            handled(*old(state), *final(state), event, saved),
    {
        match event {
            AppEvent::AgentResponse(response) => {
                return Self::on_response(state, response);
            },
            AppEvent::AgentError(error) => Self::on_error(state, error),
            AppEvent::AgentThinking(thinking) => Self::on_thinking(state, thinking),
            AppEvent::Quit => {
                state.should_quit = true;
            },
            AppEvent::Clear => Self::on_clear(state),
            AppEvent::ShowAgentInfo => Self::on_show_info(state),
            AppEvent::ChatCompleted { token_usage: _ } => {
                state.processing = false;
            },
            AppEvent::ToolBegin { id, tool, summary, args } => Self::on_tool_begin(
                state,
                id,
                tool,
                summary,
                args,
            ),
            AppEvent::ApprovalRequest { id, tool, summary } => Self::on_approval_request(
                state,
                id,
                tool,
                summary,
            ),
            AppEvent::Error { id, message } => Self::on_bus_error(state, id, message),
            AppEvent::TokenCount(usage) => {
                state.current_token_usage = Some(usage);
            },
            other => {
                let _ = Self::on_tool_update(state, other);
            },
        }
        None
    }
}

/// Component for the command palette.
pub struct CommandPaletteComponent;

impl CommandPaletteComponent {
    /// Get the commands that the palette shows, in its order.
    pub fn get_filtered_commands(state: &AppState) -> (r: Vec<&Command>)
        ensures
            r@.map_values(|c: &Command| *c) == filtered(*state),
    {
        InputHandler::get_filtered_commands(state)
    }
}

} // verus!
