//! The state of the display: the session, the input line, the panes and
//! the command palette.

use crate::chats::{load_chat, read_chat, ChatInfo};
use crate::events::TokenUsage;
use crate::session::{messages_view, MessageRole, Session};
use vstd::prelude::*;

verus! {

/// A command of the command palette.
#[derive(Debug)]
pub struct Command {
    pub name: String,
    pub description: String,
}

/// The number of panes that take the focus: the input, the chat and the
/// tools.
pub const PANELS: usize = 3;

/// The milliseconds after which the cursor changes between shown and
/// hidden.
pub const BLINK_MS: u64 = 500;

/// The names and descriptions of the commands of the palette.
pub open spec fn command_table() -> Seq<(Seq<char>, Seq<char>)> {
    Seq::empty().push(("/context"@, "Show current token usage information"@)).push(
        ("/quit"@, "Exit the application"@),
    ).push(("/clear"@, "Clear conversation history and start new chat"@)).push(
        ("/info"@, "Show agent information"@),
    ).push(("/new"@, "Start a new chat"@)).push(
        ("/save"@, "Save current chat with a title based on first message"@),
    ).push(("/load"@, "Load a specific chat (use chat list)"@))
}

/// The names and descriptions of a list of commands.
pub open spec fn commands_view(commands: Seq<Command>) -> Seq<(Seq<char>, Seq<char>)> {
    Seq::new(commands.len(), |i: int| (commands[i].name@, commands[i].description@))
}

fn command(name: &str, description: &str) -> (c: Command)
    ensures
        c.name@ == name@,
        c.description@ == description@,
{
    Command { name: String::from_str(name), description: String::from_str(description) }
}

/// The commands of the palette.
pub fn default_commands() -> (commands: Vec<Command>)
    ensures
        commands_view(commands@) == command_table(),
{
    let mut commands: Vec<Command> = Vec::new();
    commands.push(command("/context", "Show current token usage information"));
    commands.push(command("/quit", "Exit the application"));
    commands.push(command("/clear", "Clear conversation history and start new chat"));
    commands.push(command("/info", "Show agent information"));
    commands.push(command("/new", "Start a new chat"));
    commands.push(command("/save", "Save current chat with a title based on first message"));
    commands.push(command("/load", "Load a specific chat (use chat list)"));
    assert(commands_view(commands@) =~= command_table());
    commands
}

/// Application state. The cursor of the input counts characters; times
/// are milliseconds on the clock of whoever drives the display.
pub struct AppState {
    /// The chat session.
    pub session: Session,
    /// Current input text.
    pub input: String,
    /// Cursor position in the input text, in characters.
    pub input_cursor: usize,
    /// Whether the application should quit.
    pub should_quit: bool,
    /// Whether an agent response is awaited.
    pub processing: bool,
    /// Chat scroll state.
    pub chat_scroll: usize,
    /// Tools scroll state.
    pub tools_scroll: usize,
    /// Input scroll state.
    pub input_scroll: usize,
    /// Currently focused panel: 0 the input, 1 the chat, 2 the tools.
    pub focused_panel: usize,
    /// Whether the chat follows new messages to the bottom.
    pub auto_scroll_chat: bool,
    /// Whether the tools pane follows new tools to the bottom.
    pub auto_scroll_tools: bool,
    /// Whether the cursor is shown at present.
    pub cursor_visible: bool,
    /// When the cursor last changed between shown and hidden.
    pub last_cursor_blink: u64,
    /// Whether the command palette is open.
    pub command_palette_open: bool,
    /// The selected command among those that pass the filter.
    pub command_palette_selected: usize,
    /// Filter text of the command palette.
    pub command_palette_filter: String,
    /// Available commands.
    pub available_commands: Vec<Command>,
    /// The latest token usage.
    pub current_token_usage: Option<TokenUsage>,
    /// Directory of the chat files.
    pub chats_dir: String,
    /// The saved chats, the latest first.
    pub available_chats: Vec<ChatInfo>,
    /// Whether the list of chats is shown.
    pub show_chat_list: bool,
    /// Path of the file of the current chat.
    pub current_chat_path: Option<String>,
    /// The selected chat of the list.
    pub selected_chat_index: usize,
    /// Whether the chat has changed since it was saved.
    pub dirty: bool,
    /// Whether the agent is asked to share its reasoning between tool
    /// calls.
    pub interleaved_thinking: bool,
}

impl AppState {
    /// Create a new application state. The list of chats is shown where
    /// there are saved chats and the session is empty; the focus is then
    /// on it, and on the input otherwise.
    pub fn new(
        session: Session,
        available_chats: Vec<ChatInfo>,
        chats_dir: String,
        now_ms: u64,
        interleaved_thinking: bool,
    ) -> (state: AppState)
        ensures
            state.session == session,
            state.input@.len() == 0,
            state.input_cursor == 0,
            !state.should_quit,
            !state.processing,
            state.chat_scroll == 0 && state.tools_scroll == 0 && state.input_scroll == 0,
            state.show_chat_list == (available_chats@.len() > 0 && session.log().len() == 0),
            state.focused_panel == (if state.show_chat_list {
                1usize
            } else {
                0usize
            }),
            state.auto_scroll_chat && state.auto_scroll_tools,
            state.cursor_visible,
            state.last_cursor_blink == now_ms,
            !state.command_palette_open,
            state.command_palette_selected == 0,
            state.command_palette_filter@.len() == 0,
            commands_view(state.available_commands@) == command_table(),
            state.current_token_usage is None,
            state.chats_dir == chats_dir,
            state.available_chats == available_chats,
            state.current_chat_path is None,
            state.selected_chat_index == 0,
            !state.dirty,
            state.interleaved_thinking == interleaved_thinking,
    {
        let show_chat_list = available_chats.len() > 0 && session.messages().len() == 0;
        AppState {
            session,
            input: String::new(),
            input_cursor: 0,
            should_quit: false,
            processing: false,
            chat_scroll: 0,
            tools_scroll: 0,
            input_scroll: 0,
            focused_panel: if show_chat_list {
                1
            } else {
                0
            },
            auto_scroll_chat: true,
            auto_scroll_tools: true,
            cursor_visible: true,
            last_cursor_blink: now_ms,
            command_palette_open: false,
            command_palette_selected: 0,
            command_palette_filter: String::new(),
            available_commands: default_commands(),
            current_token_usage: None,
            chats_dir,
            available_chats,
            show_chat_list,
            current_chat_path: None,
            selected_chat_index: 0,
            dirty: false,
            interleaved_thinking,
        }
    }

    /// Whether the cursor changes between shown and hidden at a time: half
    /// a second after it last did.
    pub open spec fn blinks_at(self, now_ms: u64) -> bool {
        now_ms >= self.last_cursor_blink && now_ms - self.last_cursor_blink >= BLINK_MS
    }

    /// Update cursor blinking state at the given time.
    pub fn update_cursor_blink(&mut self, now_ms: u64)
        ensures
            *final(self) == (if old(self).blinks_at(now_ms) {
                AppState {
                    cursor_visible: !old(self).cursor_visible,
                    last_cursor_blink: now_ms,
                    ..*old(self)
                }
            } else {
                *old(self)
            }),
    {
        if now_ms >= self.last_cursor_blink && now_ms - self.last_cursor_blink >= BLINK_MS {
            self.cursor_visible = !self.cursor_visible;
            self.last_cursor_blink = now_ms;
        }
    }

    /// Takes a new list of the saved chats; the selection goes back to the
    /// first.
    pub fn set_chats(&mut self, chats: Vec<ChatInfo>)
        ensures
            *final(self) == (AppState {
                available_chats: chats,
                selected_chat_index: 0,
                ..*old(self)
            }),
    {
        self.available_chats = chats;
        self.selected_chat_index = 0;
    }

    /// Opens a saved chat from the text of its file: its messages replace
    /// those of the session, the list of chats closes and the focus goes
    /// to the input. A text that holds no chat leaves the session as it is
    /// but for an error message that says why.
    pub fn open_chat(&mut self, path: String, contents: &str) -> (opened: bool)
        ensures
            opened == (read_chat(contents@) is Some),
            opened ==> messages_view(final(self).session.log()) == read_chat(contents@)->Some_0
                && *final(self) == (AppState {
                session: final(self).session,
                current_chat_path: Some(path),
                show_chat_list: false,
                focused_panel: 0,
                chat_scroll: 0,
                auto_scroll_chat: true,
                dirty: false,
                ..*old(self)
            }),
            !opened ==> *final(self) == (AppState { session: final(self).session, ..*old(self) })
                && final(self).session.log().len() == old(self).session.log().len() + 1
                && final(self).session.log().drop_last() == old(self).session.log()
                && final(self).session.log().last().role == MessageRole::Error,
    {
        match load_chat(contents) {
            Ok(messages) => {
                self.session.replace_messages(messages);
                self.current_chat_path = Some(path);
                self.show_chat_list = false;
                self.focused_panel = 0;
                self.chat_scroll = 0;
                self.auto_scroll_chat = true;
                self.dirty = false;
                true
            },
            Err(e) => {
                self.session.add_error_message(e);
                false
            },
        }
    }
}

} // verus!
