//! Named chats: what a directory of saved chats lists, and the name and
//! the text under which a chat is saved.

use crate::display::{sanitize_filename, sanitized};
use crate::json::{json_parse, json_pretty_text, Json};
use crate::session::{
    messages_from_json, messages_json, messages_to_json, messages_view, parse_messages,
    ChatMessage, MessageRole, MessageView, Session, Timestamp,
};
use crate::text::{concat2, concat3, decimal, str_eq, u64_to_string};
use crate::tools::executors::fs::matching::{
    extension_of, path_extension, path_file_stem, stem_of,
};
use vstd::prelude::*;

verus! {

/// A saved chat as the list of chats shows it.
#[derive(Debug)]
pub struct ChatInfo {
    pub title: String,
    pub path: String,
    pub last_modified: Timestamp,
}

/// A file of the directory of chats as it was found: its path, its text
/// where it could be read, and the time of its last change where the file
/// system told it.
#[derive(Debug)]
pub struct ChatFile {
    pub path: String,
    pub contents: Option<String>,
    pub modified: Option<Timestamp>,
}

/// The value of a `ChatInfo`: title, path and time of the last change.
pub type ChatView = (Seq<char>, Seq<char>, Timestamp);

impl ChatInfo {
    /// The value of the entry.
    pub open spec fn value(self) -> ChatView {
        (self.title@, self.path@, self.last_modified)
    }

    /// A copy of the entry.
    pub fn duplicate(&self) -> (r: ChatInfo)
        ensures
            r.value() == self.value(),
    {
        ChatInfo {
            title: self.title.clone(),
            path: self.path.clone(),
            last_modified: self.last_modified,
        }
    }
}

/// The values of a list of chats.
pub open spec fn chats_view(chats: Seq<ChatInfo>) -> Seq<ChatView> {
    Seq::new(chats.len(), |i: int| chats[i].value())
}

/// The content of the first message of the user.
pub open spec fn first_user(messages: Seq<MessageView>) -> Option<Seq<char>>
    decreases messages.len(),
{
    if messages.len() == 0 {
        None
    } else if messages[0].role == MessageRole::User {
        Some(messages[0].content)
    } else {
        first_user(messages.skip(1))
    }
}

/// The title of a chat: the first message of the user as a file name.
pub open spec fn title_of(messages: Seq<MessageView>) -> Option<Seq<char>> {
    match first_user(messages) {
        Some(content) => Some(sanitized(content)),
        None => None,
    }
}

/// The title under which a chat of a file is listed: that of the chat, or
/// else the stem of the file's name, or else `Untitled`.
pub open spec fn listed_title(messages: Seq<MessageView>, path: Seq<char>) -> Seq<char> {
    match title_of(messages) {
        Some(title) => title,
        None => match stem_of(path) {
            Some(stem) => stem,
            None => "Untitled"@,
        },
    }
}

/// The messages that a saved text holds.
pub open spec fn read_chat(text: Seq<char>) -> Option<Seq<MessageView>> {
    match json_parse(text) {
        Some(doc) => parse_messages(doc),
        None => None,
    }
}

/// The entry of a file in the list of chats. A file is listed where its
/// extension is `json`, its text holds at least one message, and the time
/// of its last change is known.
pub open spec fn listing(file: ChatFile) -> Option<ChatView> {
    if extension_of(file.path@) != Some("json"@) {
        None
    } else {
        match (file.contents, file.modified) {
            (Some(text), Some(time)) => match read_chat(text@) {
                Some(messages) => if messages.len() == 0 {
                    None
                } else {
                    Some((listed_title(messages, file.path@), file.path@, time))
                },
                None => None,
            },
            _ => None,
        }
    }
}

/// `a` lies before `b` in time.
pub open spec fn earlier(a: Timestamp, b: Timestamp) -> bool {
    a.secs < b.secs || (a.secs == b.secs && a.nanos < b.nanos)
}

/// Where a chat goes among chats listed latest first: before the first
/// that was changed earlier than it.
pub open spec fn chat_slot(sorted: Seq<ChatView>, time: Timestamp) -> nat
    decreases sorted.len(),
{
    if sorted.len() == 0 || earlier(sorted[0].2, time) {
        0
    } else {
        1 + chat_slot(sorted.skip(1), time)
    }
}

/// The list of the chats among the first `n` files, the latest change
/// first; chats of one time keep the order of their files.
pub open spec fn listed(files: Seq<ChatFile>, n: nat) -> Seq<ChatView>
    decreases n,
{
    if n == 0 || n > files.len() {
        Seq::empty()
    } else {
        let before = listed(files, (n - 1) as nat);
        match listing(files[n - 1]) {
            None => before,
            Some(chat) => before.insert(chat_slot(before, chat.2) as int, chat),
        }
    }
}

/// No chat of the sequence was changed earlier than a later one.
pub open spec fn latest_first(s: Seq<ChatView>) -> bool {
    forall|i: int, j: int| 0 <= i < j < s.len() ==> !earlier(#[trigger] s[i].2, #[trigger] s[j].2)
}

/// The entries of the files that are listed, in the order of the files.
pub open spec fn listings(files: Seq<ChatFile>, n: nat) -> Seq<ChatView>
    decreases n,
{
    if n == 0 || n > files.len() {
        Seq::empty()
    } else {
        let before = listings(files, (n - 1) as nat);
        match listing(files[n - 1]) {
            None => before,
            Some(chat) => before.push(chat),
        }
    }
}

/// The slot of a chat lies behind every chat that is at least as late and
/// before one that is earlier.
pub proof fn lemma_chat_slot(sorted: Seq<ChatView>, time: Timestamp)
    ensures
        chat_slot(sorted, time) <= sorted.len(),
        forall|i: int| 0 <= i < chat_slot(sorted, time) ==> !earlier(#[trigger] sorted[i].2, time),
        chat_slot(sorted, time) < sorted.len() ==> earlier(
            sorted[chat_slot(sorted, time) as int].2,
            time,
        ),
    decreases sorted.len(),
{
    if sorted.len() == 0 || earlier(sorted[0].2, time) {
    } else {
        let rest = sorted.skip(1);
        lemma_chat_slot(rest, time);
        assert forall|i: int| 0 <= i < chat_slot(sorted, time) implies !earlier(
            #[trigger] sorted[i].2,
            time,
        ) by {
            if i > 0 {
                assert(rest[i - 1] == sorted[i]);
            }
        }
        if chat_slot(sorted, time) < sorted.len() {
            assert(rest[chat_slot(rest, time) as int] == sorted[chat_slot(sorted, time) as int]);
        }
    }
}

/// The list of chats is in order of time, the latest first, and holds
/// the entry of each listed file once and nothing else.
pub proof fn law_listed(files: Seq<ChatFile>, n: nat)
    requires
        n <= files.len(),
    ensures
        latest_first(listed(files, n)),
        listed(files, n).to_multiset() == listings(files, n).to_multiset(),
    decreases n,
{
    if n > 0 {
        law_listed(files, (n - 1) as nat);
        let before = listed(files, (n - 1) as nat);
        match listing(files[n - 1]) {
            None => {},
            Some(chat) => {
                let k = chat_slot(before, chat.2) as int;
                lemma_chat_slot(before, chat.2);
                let after = before.insert(k, chat);
                assert forall|i: int, j: int| 0 <= i < j < after.len() implies !earlier(
                    #[trigger] after[i].2,
                    #[trigger] after[j].2,
                ) by {
                    if j < k {
                        assert(after[i] == before[i] && after[j] == before[j]);
                    } else if j == k {
                        assert(after[i] == before[i]);
                    } else if i == k {
                        assert(after[j] == before[j - 1]);
                        if j - 1 > k {
                            assert(!earlier(before[k].2, before[j - 1].2));
                        }
                    } else if i < k {
                        assert(after[i] == before[i] && after[j] == before[j - 1]);
                    } else {
                        assert(after[i] == before[i - 1] && after[j] == before[j - 1]);
                    }
                }
                vstd::seq_lib::to_multiset_insert(before, k, chat);
                vstd::seq_lib::to_multiset_build(listings(files, (n - 1) as nat), chat);
            },
        }
    }
}

/// Tests whether `a` lies before `b` in time.
pub fn is_earlier(a: &Timestamp, b: &Timestamp) -> (r: bool)
    ensures
        r == earlier(*a, *b),
{
    a.secs < b.secs || (a.secs == b.secs && a.nanos < b.nanos)
}

fn first_user_content(messages: &[ChatMessage]) -> (r: Option<usize>)
    ensures
        match r {
            Some(i) => i < messages.len() && first_user(messages_view(messages@)) == Some(
                messages[i as int].content@,
            ),
            None => first_user(messages_view(messages@)) is None,
        },
{
    let ghost all = messages_view(messages@);
    let mut i: usize = 0;
    assert(all.skip(0) == all);
    while i < messages.len()
        invariant
            i <= messages.len(),
            all == messages_view(messages@),
            first_user(all) == first_user(all.skip(i as int)),
        decreases messages.len() - i,
    {
        assert(all.skip(i as int)[0] == messages@[i as int]@);
        match messages[i].role {
            MessageRole::User => {
                return Some(i);
            },
            _ => {},
        }
        assert(all.skip(i as int).skip(1) == all.skip(i + 1));
        i += 1;
    }
    None
}

/// The title of a chat, where the user has said anything in it.
pub fn chat_title(messages: &[ChatMessage]) -> (r: Option<String>)
    ensures
        crate::text::opt_text(r) == title_of(messages_view(messages@)),
{
    match first_user_content(messages) {
        Some(i) => Some(sanitize_filename(messages[i].content.as_str())),
        None => None,
    }
}

/// The name of the file of a chat that is saved at the given second
/// since the epoch: its title, or `Untitled`, an underscore, the second,
/// and the extension `json`.
pub open spec fn file_name_spec(messages: Seq<MessageView>, epoch_secs: u64) -> Seq<char> {
    (match title_of(messages) {
        Some(title) => title,
        None => "Untitled"@,
    }) + "_"@ + decimal(epoch_secs as nat) + ".json"@
}

/// The name of the file of a chat that is saved at the given second
/// since the epoch.
pub fn chat_file_name(messages: &[ChatMessage], epoch_secs: u64) -> (name: String)
    ensures
        name@ == file_name_spec(messages_view(messages@), epoch_secs),
{
    let title = match chat_title(messages) {
        Some(title) => title,
        None => String::from_str("Untitled"),
    };
    let second = u64_to_string(epoch_secs);
    let head = concat3(title.as_str(), "_", second.as_str());
    concat2(head.as_str(), ".json")
}

/// The text under which the chat of a session is saved: its document
/// over several lines.
pub fn save_chat(session: &Session) -> (text: String)
    ensures
        text@ == json_pretty_text(messages_json(messages_view(session.log()))),
{
    messages_to_json(session.messages()).to_pretty_text()
}

/// Reads the messages of a saved chat. The error is the parser's own
/// where the text is no document, and says that the history is invalid
/// where the document is no list of messages.
pub fn load_chat(contents: &str) -> (r: Result<Vec<ChatMessage>, String>)
    ensures
        match r {
            Ok(messages) => read_chat(contents@) == Some(messages_view(messages@)),
            Err(e) => read_chat(contents@) is None && (json_parse(contents@) is Some ==> e@
                == "Invalid chat history"@),
        },
{
    let doc = match Json::parse(contents) {
        Ok(doc) => doc,
        Err(e) => {
            return Err(e);
        },
    };
    match messages_from_json(&doc) {
        Some(messages) => Ok(messages),
        None => Err(String::from_str("Invalid chat history")),
    }
}

/// The entry of a file in the list of chats.
pub fn list_entry(file: &ChatFile) -> (r: Option<ChatInfo>)
    ensures
        match r {
            Some(chat) => listing(*file) == Some(chat.value()),
            None => listing(*file) is None,
        },
{
    let is_json = match path_extension(file.path.as_str()) {
        Some(ext) => str_eq(ext.as_str(), "json"),
        None => false,
    };
    if !is_json {
        return None;
    }
    let text = match &file.contents {
        Some(text) => text,
        None => {
            return None;
        },
    };
    let time = match file.modified {
        Some(time) => time,
        None => {
            return None;
        },
    };
    let messages = match load_chat(text.as_str()) {
        Ok(messages) => messages,
        Err(_) => {
            return None;
        },
    };
    if messages.len() == 0 {
        return None;
    }
    let title = match chat_title(messages.as_slice()) {
        Some(title) => title,
        None => match path_file_stem(file.path.as_str()) {
            Some(stem) => stem,
            None => String::from_str("Untitled"),
        },
    };
    Some(ChatInfo { title, path: file.path.clone(), last_modified: time })
}

fn find_chat_slot(sorted: &Vec<ChatInfo>, time: &Timestamp) -> (k: usize)
    ensures
        k <= sorted.len(),
        k == chat_slot(chats_view(sorted@), *time),
{
    let ghost all = chats_view(sorted@);
    let mut i: usize = 0;
    assert(all.skip(0) == all);
    while i < sorted.len()
        invariant
            i <= sorted.len(),
            all == chats_view(sorted@),
            chat_slot(all, *time) == i + chat_slot(all.skip(i as int), *time),
        decreases sorted.len() - i,
    {
        assert(all.skip(i as int)[0] == sorted@[i as int].value());
        if is_earlier(&sorted[i].last_modified, time) {
            return i;
        }
        assert(all.skip(i as int).skip(1) == all.skip(i + 1));
        i += 1;
    }
    assert(all.skip(i as int).len() == 0);
    i
}

/// The list of the chats among the files of a directory, the latest
/// change first; chats of one time keep the order of their files.
pub fn scan_chats(files: &Vec<ChatFile>) -> (chats: Vec<ChatInfo>)
    ensures
        chats_view(chats@) == listed(files@, files@.len()),
        latest_first(chats_view(chats@)),
{
    let mut chats: Vec<ChatInfo> = Vec::new();
    let mut i: usize = 0;
    assert(chats_view(chats@) =~= listed(files@, 0));
    while i < files.len()
        invariant
            i <= files.len(),
            chats_view(chats@) == listed(files@, i as nat),
        decreases files.len() - i,
    {
        match list_entry(&files[i]) {
            Some(chat) => {
                let k = find_chat_slot(&chats, &chat.last_modified);
                let ghost before = chats_view(chats@);
                let ghost value = chat.value();
                chats.insert(k, chat);
                assert(chats_view(chats@) =~= before.insert(k as int, value));
            },
            None => {},
        }
        i += 1;
    }
    proof {
        law_listed(files@, files@.len());
    }
    chats
}

} // verus!
