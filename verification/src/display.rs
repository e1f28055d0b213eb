//! Texts for the display: file names for saved chats and the short forms
//! of what a tool reports.

use vstd::prelude::*;
use vstd::string::StringExecFns;
use crate::events::ToolName;
use crate::json::{fields_view, items_view, json_pretty_text, json_text, lemma_object_view, Json, JsonView};
use crate::state::AppState;
use crate::session::{ToolInfoView, ToolMessageInfo, ToolStatus};
use crate::text::{
    byte_len, byte_length, byte_prefix, chars_to_string, concat2, concat3, decimal,
    is_alphanumeric, is_whitespace, join, join_spec, lines, lines_spec, matches_at, remove_all,
    removed, unicode_whitespace,
    second_piece, second_piece_spec, starts_with, str_chars, string_views, take_bytes,
    to_lowercase, trim, trim_spec, u64_to_string, unicode_alphanumeric, unicode_lowercase, views,
};
use crate::tools::executors::fs::matching::{file_name_of, path_file_name};
use crate::tools::types::{
    CodeSymbolsArgs, FsApplyPatchArgs, FsFindArgs, FsReadArgs, FsSearchArgs, FsWriteArgs,
    LargeContextFetchArgs, ShellExecArgs,
};

verus! {

/// Whether a character is kept in a file name: a letter, a digit, a space,
/// a hyphen or an underscore.
pub open spec fn is_kept(c: char) -> bool {
    unicode_alphanumeric(c) || c == ' ' || c == '-' || c == '_'
}

/// The text with every space turned into an underscore.
pub open spec fn underscored(s: Seq<char>) -> Seq<char> {
    Seq::new(
        s.len(),
        |i: int|
            if s[i] == ' ' {
                '_'
            } else {
                s[i]
            },
    )
}

/// The name of the file for a chat with the given title: of the first 50
/// characters those that are kept, without the whitespace around them,
/// with underscores for spaces.
pub open spec fn sanitized(name: Seq<char>) -> Seq<char> {
    let head = if name.len() > 50 {
        name.take(50)
    } else {
        name
    };
    underscored(trim_spec(head.filter(|c: char| is_kept(c))))
}

/// The name of the file for a chat with the given title.
pub fn sanitize_filename(name: &str) -> (r: String)
    ensures
        r@ == sanitized(name@),
{
    let chars = str_chars(name);
    let n: usize = if chars.len() > 50 {
        50
    } else {
        chars.len()
    };
    let ghost head = chars@.take(n as int);
    let ghost pred = |c: char| is_kept(c);
    let mut kept: Vec<char> = Vec::new();
    let mut i: usize = 0;
    proof {
        assert(head.take(0).filter(pred) =~= Seq::empty());
        if chars.len() <= 50 {
            assert(chars@.take(chars@.len() as int) == chars@);
        }
    }
    while i < n
        invariant
            i <= n <= chars.len(),
            head == chars@.take(n as int),
            pred == (|c: char| is_kept(c)),
            kept@ == head.take(i as int).filter(pred),
        decreases n - i,
    {
        proof {
            let before = head.take(i as int);
            assert(head.take(i + 1) == before.push(head[i as int]));
            assert(before.push(head[i as int]).drop_last() == before);
            reveal(Seq::filter);
        }
        let c = chars[i];
        if is_alphanumeric(c) || c == ' ' || c == '-' || c == '_' {
            kept.push(c);
        }
        i += 1;
    }
    assert(head.take(n as int) == head);
    let trimmed = trim(kept.as_slice());
    let mut out: Vec<char> = Vec::new();
    let mut k: usize = 0;
    while k < trimmed.len()
        invariant
            k <= trimmed.len(),
            out@ == underscored(trimmed@).take(k as int),
        decreases trimmed.len() - k,
    {
        let c = if trimmed[k] == ' ' {
            '_'
        } else {
            trimmed[k]
        };
        out.push(c);
        assert(out@ =~= underscored(trimmed@).take(k + 1));
        k += 1;
    }
    assert(underscored(trimmed@).take(trimmed@.len() as int) == underscored(trimmed@));
    chars_to_string(out.as_slice())
}

// ---------------------------------------------------------------------------
// The tools pane
// ---------------------------------------------------------------------------

/// The number of lines of an error that are shown.
pub const MAX_ERROR_LINES: usize = 5;

/// The number of bytes of a line of an error that are shown.
pub const MAX_LINE_LENGTH: usize = 120;

/// The number of bytes of the contents of a file that are shown.
pub const MAX_DISPLAY_LENGTH: usize = 5000;

/// A line of an error as it is shown: cut after 120 bytes, at a character
/// boundary, with an ellipsis.
pub open spec fn shortened(line: Seq<char>) -> Seq<char> {
    if byte_len(line) > MAX_LINE_LENGTH {
        byte_prefix(line, MAX_LINE_LENGTH as int) + "..."@
    } else {
        line
    }
}

/// The first `n` lines of an error as they are shown.
pub open spec fn shortened_upto(all: Seq<Seq<char>>, n: nat) -> Seq<Seq<char>>
    decreases n,
{
    if n == 0 || n > all.len() {
        Seq::empty()
    } else {
        shortened_upto(all, (n - 1) as nat).push(shortened(all[n - 1]))
    }
}

/// The lines of an error as they are shown: the first five, and a note on
/// how many more there are.
pub open spec fn concise_lines(all: Seq<Seq<char>>) -> Seq<Seq<char>> {
    if all.len() > MAX_ERROR_LINES {
        shortened_upto(all, MAX_ERROR_LINES as nat).push(
            "... ("@ + decimal((all.len() - MAX_ERROR_LINES) as nat) + " more lines)"@,
        )
    } else {
        shortened_upto(all, all.len())
    }
}

/// An error as it is shown.
pub open spec fn concise(error_text: Seq<char>) -> Seq<char> {
    join_spec(concise_lines(lines_spec(error_text)), "\n"@)
}

/// The argument of a summary: what follows its first colon and space, up
/// to the next; the summary itself where it has none.
pub open spec fn summary_argument(summary: Seq<char>) -> Seq<char> {
    match second_piece_spec(summary, ": "@) {
        Some(p) => p,
        None => summary,
    }
}

/// The last component of a path, or the path itself where it has none.
pub open spec fn base_name(path: Seq<char>) -> Seq<char> {
    match file_name_of(path) {
        Some(n) => n,
        None => path,
    }
}

/// The header of a tool call: the status icon, then, for a summary of a
/// file operation, a search or a command, the tool with the file name, the
/// query or the command; else the summary.
pub open spec fn tool_header(tool_name: Seq<char>, summary: Seq<char>, status_icon: Seq<char>)
    -> Seq<char> {
    if matches_at(summary, unicode_lowercase(removed(tool_name, "Fs"@)) + " file:"@, 0) {
        status_icon + " "@ + tool_name + " "@ + base_name(summary_argument(summary))
    } else if matches_at(summary, "Searching for:"@, 0) {
        status_icon + " "@ + tool_name + " \""@ + summary_argument(summary) + "\""@
    } else if matches_at(summary, "Executing:"@, 0) {
        status_icon + " "@ + tool_name + " "@ + summary_argument(summary)
    } else {
        status_icon + " "@ + summary
    }
}

/// The contents of a file as they are shown: cut after 5000 bytes, at a
/// character boundary, with a note that says so.
pub open spec fn shown_contents(contents: Seq<char>) -> Seq<char> {
    if byte_len(contents) > MAX_DISPLAY_LENGTH {
        byte_prefix(contents, MAX_DISPLAY_LENGTH as int)
            + "\n\n[Content truncated for display - showing first "@ + decimal(
            MAX_DISPLAY_LENGTH as nat,
        ) + " of "@ + decimal(byte_len(contents)) + " characters]"@
    } else {
        contents
    }
}

/// A matching line as it is shown; nothing for a document that is none.
pub open spec fn shown_line(line: JsonView) -> Seq<char> {
    match (line.get("ln"@), line.get("text"@)) {
        (Some(ln), Some(JsonView::Str(text))) => match ln.as_u64() {
            Some(n) => "  "@ + decimal(n as nat) + "| "@ + text + "\n"@,
            None => Seq::empty(),
        },
        _ => Seq::empty(),
    }
}

/// The first `n` matching lines as they are shown.
pub open spec fn shown_lines(lines: Seq<JsonView>, n: nat) -> Seq<char>
    decreases n,
{
    if n == 0 || n > lines.len() {
        Seq::empty()
    } else {
        shown_lines(lines, (n - 1) as nat) + shown_line(lines[n - 1])
    }
}

/// The matches of a file as they are shown: the path, then the lines.
pub open spec fn shown_match(m: JsonView) -> Seq<char> {
    (match m.get("path"@) {
        Some(JsonView::Str(path)) => "\u{1F4C1} "@ + path + "\n"@,
        _ => Seq::empty(),
    }) + (match m.get("lines"@) {
        Some(JsonView::Array(lines)) => shown_lines(lines, lines.len()),
        _ => Seq::empty(),
    })
}

/// The first `n` matches as they are shown, an empty line between them.
pub open spec fn shown_matches(matches: Seq<JsonView>, n: nat) -> Seq<char>
    decreases n,
{
    if n == 0 || n > matches.len() {
        Seq::empty()
    } else if n == 1 {
        shown_match(matches[0])
    } else {
        shown_matches(matches, (n - 1) as nat) + "\n\n"@ + shown_match(matches[n - 1])
    }
}

/// The result of a tool as it is shown: the contents of a file that was
/// read, the matches of a search, and for anything else the text of the
/// document over several lines.
pub open spec fn tool_result_text(tool: ToolName, result: JsonView) -> Seq<char> {
    match tool {
        ToolName::FsRead => match result.get("contents"@) {
            Some(JsonView::Str(contents)) => shown_contents(contents) + (if result.get(
                "truncated"@,
            ) == Some(JsonView::Bool(true)) {
                "\n\n[File was truncated during reading...]"@
            } else {
                Seq::empty()
            }),
            _ => json_pretty_text(result),
        },
        ToolName::FsSearch => match result.get("matches"@) {
            Some(JsonView::Array(matches)) => if matches.len() == 0 {
                "No matches found"@
            } else {
                shown_matches(matches, matches.len())
            },
            _ => json_pretty_text(result),
        },
        _ => json_pretty_text(result),
    }
}

/// `content` with `part` behind it, an empty line between them where
/// `content` is not empty.
pub open spec fn with_part(content: Seq<char>, part: Seq<char>) -> Seq<char> {
    if content.len() > 0 {
        content + "\n\n"@ + part
    } else {
        part
    }
}

/// What is shown of a tool call: while it runs its output so far; once it
/// has ended the failure, the result, the output and the errors.
pub open spec fn tool_content(tool: ToolInfoView) -> Seq<char> {
    match tool.status {
        ToolStatus::Running => {
            let c1 = if tool.stdout.len() > 0 {
                "STDOUT:\n"@ + tool.stdout
            } else {
                Seq::empty()
            };
            let c2 = if tool.stderr.len() > 0 {
                with_part(c1, "ERROR:\n"@ + concise(tool.stderr))
            } else {
                c1
            };
            if c2.len() == 0 {
                "Tool is running..."@
            } else {
                c2
            }
        },
        _ => {
            let failed = tool.status == ToolStatus::Failed;
            let c1 = if failed {
                if tool.stderr.len() > 0 {
                    "\u{274C} FAILED: "@ + concise(tool.stderr)
                } else {
                    "\u{274C} FAILED: Tool failed with no error details"@
                }
            } else {
                Seq::empty()
            };
            let c2 = match tool.result {
                Some(r) => with_part(c1, tool_result_text(tool.tool, r)),
                None => c1,
            };
            let c3 = if tool.stdout.len() > 0 && (!failed || tool.result is None) {
                with_part(c2, "STDOUT:\n"@ + tool.stdout)
            } else {
                c2
            };
            let c4 = if tool.stderr.len() > 0 && !failed {
                with_part(c3, "ERROR:\n"@ + concise(tool.stderr))
            } else {
                c3
            };
            if c4.len() == 0 {
                "No output"@
            } else {
                c4
            }
        },
    }
}

fn add_part(content: &mut String, part: &str)
    ensures
        final(content)@ == with_part(old(content)@, part@),
{
    if !content.as_str().is_empty() {
        content.append("\n\n");
        content.append(part);
    } else {
        content.append(part);
        assert(Seq::<char>::empty() + part@ == part@);
    }
}

/// The pane that shows the tool calls.
pub struct ToolsComponent;

impl ToolsComponent {
    /// The header of a tool call.
    pub fn format_tool_header(tool_name: &str, summary: &str, status_icon: &str) -> (r: String)
        ensures
            r@ == tool_header(tool_name@, summary@, status_icon@),
    {
        let name_chars = str_chars(tool_name);
        let fs = str_chars("Fs");
        let bare = remove_all(name_chars.as_slice(), fs.as_slice());
        let bare_text = chars_to_string(bare.as_slice());
        let lowered = to_lowercase(bare_text.as_str());
        let key = concat2(lowered.as_str(), " file:");
        let key_chars = str_chars(key.as_str());
        let summary_chars = str_chars(summary);
        let sep = str_chars(": ");
        proof {
            reveal_strlit(": ");
        }
        let argument: String = match second_piece(summary_chars.as_slice(), sep.as_slice()) {
            Some(p) => chars_to_string(p.as_slice()),
            None => String::from_str(summary),
        };
        let searching = str_chars("Searching for:");
        let executing = str_chars("Executing:");
        if starts_with(summary_chars.as_slice(), key_chars.as_slice()) {
            let base: String = match path_file_name(argument.as_str()) {
                Some(n) => n,
                None => argument,
            };
            let mut r = concat3(status_icon, " ", tool_name);
            r.append(" ");
            r.append(base.as_str());
            r
        } else if starts_with(summary_chars.as_slice(), searching.as_slice()) {
            let mut r = concat3(status_icon, " ", tool_name);
            r.append(" \"");
            r.append(argument.as_str());
            r.append("\"");
            r
        } else if starts_with(summary_chars.as_slice(), executing.as_slice()) {
            let mut r = concat3(status_icon, " ", tool_name);
            r.append(" ");
            r.append(argument.as_str());
            r
        } else {
            concat3(status_icon, " ", summary)
        }
    }

    /// An error as it is shown: its first lines, each of bounded length.
    pub fn make_error_concise(error_text: &str) -> (r: String)
        ensures
            r@ == concise(error_text@),
    {
        let chars = str_chars(error_text);
        let all = lines(chars.as_slice());
        let ghost lv = lines_spec(error_text@);
        let shown: usize = if all.len() > MAX_ERROR_LINES {
            MAX_ERROR_LINES
        } else {
            all.len()
        };
        let mut out: Vec<String> = Vec::new();
        let mut i: usize = 0;
        assert(string_views(out@) =~= Seq::empty());
        assert(views(all@).len() == all@.len());
        while i < shown
            invariant
                i <= shown <= all.len(),
                lv == views(all@),
                string_views(out@) == shortened_upto(lv, i as nat),
            decreases shown - i,
        {
            assert(lv[i as int] == all@[i as int]@);
            let ghost before = string_views(out@);
            let line = chars_to_string(all[i].as_slice());
            let text = if byte_length(line.as_str()) > MAX_LINE_LENGTH {
                let head = take_bytes(line.as_str(), MAX_LINE_LENGTH);
                concat2(head.as_str(), "...")
            } else {
                line
            };
            out.push(text);
            assert(string_views(out@) =~= before.push(shortened(lv[i as int])));
            i += 1;
        }
        if all.len() > MAX_ERROR_LINES {
            let ghost before = string_views(out@);
            let more = u64_to_string((all.len() - MAX_ERROR_LINES) as u64);
            let note = concat3("... (", more.as_str(), " more lines)");
            out.push(note);
            assert(string_views(out@) =~= before.push(note@));
        }
        join(&out, "\n")
    }

    fn format_line(line: &Json) -> (r: String)
        ensures
            r@ == shown_line(line@),
    {
        let ln = match line.get("ln") {
            Some(v) => v.as_u64(),
            None => None,
        };
        let text = match line.get("text") {
            Some(v) => v.as_str(),
            None => None,
        };
        match (ln, text) {
            (Some(n), Some(t)) => {
                let number = u64_to_string(n);
                let mut r = concat3("  ", number.as_str(), "| ");
                r.append(t);
                r.append("\n");
                r
            },
            _ => String::new(),
        }
    }

    fn format_match(m: &Json) -> (r: String)
        ensures
            r@ == shown_match(m@),
    {
        let mut r = String::new();
        match m.get("path") {
            Some(p) => match p.as_str() {
                Some(path) => {
                    r.append("\u{1F4C1} ");
                    r.append(path);
                    r.append("\n");
                    assert(Seq::<char>::empty() + "\u{1F4C1} "@ + path@ + "\n"@ == "\u{1F4C1} "@
                        + path@ + "\n"@);
                },
                None => {},
            },
            None => {},
        }
        let ghost head = r@;
        match m.get("lines") {
            Some(l) => match l.as_array() {
                Some(listed) => {
                    let ghost lv = items_view(listed@);
                    let mut i: usize = 0;
                    assert(head + Seq::<char>::empty() == head);
                    while i < listed.len()
                        invariant
                            i <= listed.len(),
                            lv == items_view(listed@),
                            r@ == head + shown_lines(lv, i as nat),
                        decreases listed.len() - i,
                    {
                        assert(lv[i as int] == listed@[i as int]@);
                        let line = Self::format_line(&listed[i]);
                        r.append(line.as_str());
                        assert(head + shown_lines(lv, i as nat) + line@ == head + (shown_lines(
                            lv,
                            i as nat,
                        ) + line@));
                        i += 1;
                    }
                },
                None => {
                    assert(head + Seq::<char>::empty() == head);
                },
            },
            None => {
                assert(head + Seq::<char>::empty() == head);
            },
        }
        r
    }

    /// The result of a tool as it is shown.
    pub fn format_tool_result(tool: &ToolName, result: &Json) -> (r: String)
        ensures
            r@ == tool_result_text(*tool, result@),
    {
        match tool {
            ToolName::FsRead => {
                let contents = match result.get("contents") {
                    Some(c) => match c.as_str() {
                        Some(text) => text,
                        None => {
                            return result.to_pretty_text();
                        },
                    },
                    None => {
                        return result.to_pretty_text();
                    },
                };
                let size = byte_length(contents);
                let mut shown = if size > MAX_DISPLAY_LENGTH {
                    let mut s = take_bytes(contents, MAX_DISPLAY_LENGTH);
                    s.append("\n\n[Content truncated for display - showing first ");
                    let limit = u64_to_string(MAX_DISPLAY_LENGTH as u64);
                    s.append(limit.as_str());
                    s.append(" of ");
                    let total = u64_to_string(size as u64);
                    s.append(total.as_str());
                    s.append(" characters]");
                    s
                } else {
                    String::from_str(contents)
                };
                let cut = match result.get("truncated") {
                    Some(t) => match t.as_bool() {
                        Some(b) => b,
                        None => false,
                    },
                    None => false,
                };
                if cut {
                    shown.append("\n\n[File was truncated during reading...]");
                } else {
                    assert(shown@ + Seq::<char>::empty() == shown@);
                }
                shown
            },
            ToolName::FsSearch => {
                let matches = match result.get("matches") {
                    Some(m) => match m.as_array() {
                        Some(listed) => listed,
                        None => {
                            return result.to_pretty_text();
                        },
                    },
                    None => {
                        return result.to_pretty_text();
                    },
                };
                if matches.len() == 0 {
                    return String::from_str("No matches found");
                }
                let ghost mv = items_view(matches@);
                let mut content = String::new();
                let mut i: usize = 0;
                while i < matches.len()
                    invariant
                        i <= matches.len(),
                        mv == items_view(matches@),
                        content@ == shown_matches(mv, i as nat),
                    decreases matches.len() - i,
                {
                    assert(mv[i as int] == matches@[i as int]@);
                    if i > 0 {
                        content.append("\n\n");
                    }
                    let one = Self::format_match(&matches[i]);
                    content.append(one.as_str());
                    proof {
                        if i == 0 {
                            assert(Seq::<char>::empty() + one@ == one@);
                        }
                    }
                    i += 1;
                }
                content
            },
            _ => result.to_pretty_text(),
        }
    }

    /// What is shown of a tool call.
    pub fn format_tool_content(tool: &ToolMessageInfo) -> (r: String)
        ensures
            r@ == tool_content(tool@),
    {
        let mut content = String::new();
        let stdout = tool.stdout.as_str();
        let stderr = tool.stderr.as_str();
        match tool.status {
            ToolStatus::Running => {
                if !stdout.is_empty() {
                    content.append("STDOUT:\n");
                    content.append(stdout);
                    assert(Seq::<char>::empty() + "STDOUT:\n"@ + stdout@ == "STDOUT:\n"@ + stdout@);
                }
                if !stderr.is_empty() {
                    let short = Self::make_error_concise(stderr);
                    add_part(&mut content, concat2("ERROR:\n", short.as_str()).as_str());
                }
                if content.as_str().is_empty() {
                    String::from_str("Tool is running...")
                } else {
                    content
                }
            },
            _ => {
                let failed = match tool.status {
                    ToolStatus::Failed => true,
                    _ => false,
                };
                if failed {
                    if !stderr.is_empty() {
                        let short = Self::make_error_concise(stderr);
                        content.append("\u{274C} FAILED: ");
                        content.append(short.as_str());
                        assert(Seq::<char>::empty() + "\u{274C} FAILED: "@ + short@
                            == "\u{274C} FAILED: "@ + short@);
                    } else {
                        content.append("\u{274C} FAILED: Tool failed with no error details");
                        assert(Seq::<char>::empty()
                            + "\u{274C} FAILED: Tool failed with no error details"@
                            == "\u{274C} FAILED: Tool failed with no error details"@);
                    }
                }
                match &tool.result {
                    Some(result) => {
                        let shown = Self::format_tool_result(&tool.tool, result);
                        add_part(&mut content, shown.as_str());
                    },
                    None => {},
                }
                if !stdout.is_empty() && (!failed || tool.result.is_none()) {
                    add_part(&mut content, concat2("STDOUT:\n", stdout).as_str());
                }
                if !stderr.is_empty() && !failed {
                    let short = Self::make_error_concise(stderr);
                    add_part(&mut content, concat2("ERROR:\n", short.as_str()).as_str());
                }
                if content.as_str().is_empty() {
                    String::from_str("No output")
                } else {
                    content
                }
            },
        }
    }
}

// ---------------------------------------------------------------------------
// The parameters of a tool call
// ---------------------------------------------------------------------------

/// The line of a parameter that may be absent: the label and the value,
/// or no line.
pub open spec fn optional_line(label: Seq<char>, value: Option<Seq<char>>) -> Seq<Seq<char>> {
    match value {
        Some(v) => Seq::empty().push(label + v),
        None => Seq::empty(),
    }
}

/// The line of a parameter that is shown only where it is set.
pub open spec fn flag_line(line: Seq<char>, on: bool) -> Seq<Seq<char>> {
    if on {
        Seq::empty().push(line)
    } else {
        Seq::empty()
    }
}

/// A number as the value of a parameter that may be absent.
pub open spec fn opt_decimal(n: Option<u32>) -> Option<Seq<char>> {
    match n {
        Some(n) => Some(decimal(n as nat)),
        None => None,
    }
}

/// A list as the value of a parameter that may be absent: its items with
/// a comma and a space between them.
pub open spec fn opt_list(items: Option<Seq<Seq<char>>>) -> Option<Seq<char>> {
    match items {
        Some(items) => Some(join_spec(items, ", "@)),
        None => None,
    }
}

/// The word for a truth value.
pub open spec fn truth(b: bool) -> Seq<char> {
    if b {
        "true"@
    } else {
        "false"@
    }
}

/// The first lines of the parameters of a call: the heading, then the
/// line of the parameter that every call of the tool has.
pub open spec fn heading(first: Seq<char>) -> Seq<Seq<char>> {
    Seq::empty().push("Parameters:"@).push(first)
}

/// The lines that show the parameters of a tool call: a heading, a line
/// for each parameter that is shown, and an empty line. Arguments that the
/// tool would not take give no lines.
pub open spec fn parameter_lines(tool: ToolName, args: JsonView) -> Seq<Seq<char>> {
    match tool {
        ToolName::FsSearch => match FsSearchArgs::parse_spec(args) {
            Ok(a) => (heading("  Query: "@ + a.0) + optional_line("  Globs: "@, opt_list(a.1))
                + optional_line("  Max results: "@, opt_decimal(a.2)) + flag_line(
                "  Mode: Regex"@,
                a.3,
            ) + flag_line("  Case insensitive: true"@, a.4) + flag_line(
                "  Multiline: true"@,
                a.5,
            )).push(""@),
            Err(_) => Seq::empty(),
        },
        ToolName::FsRead => match FsReadArgs::parse_spec(args) {
            Ok(a) => (heading("  Path: "@ + a.0) + optional_line(
                "  Range: "@,
                match a.1 {
                    Some((start, end)) => Some(decimal(start as nat) + ".."@ + decimal(end as nat)),
                    None => None,
                },
            ) + optional_line("  Encoding: "@, a.2)).push(""@),
            Err(_) => Seq::empty(),
        },
        ToolName::FsWrite => match FsWriteArgs::parse_spec(args) {
            Ok(a) => (heading("  Path: "@ + a.0).push(
                "  Size: "@ + decimal(byte_len(a.1)) + " bytes"@,
            ) + flag_line("  Create if missing: true"@, a.2) + flag_line(
                "  Overwrite: true"@,
                a.3,
            )).push(""@),
            Err(_) => Seq::empty(),
        },
        ToolName::ShellExec => match ShellExecArgs::parse_spec(args) {
            Ok(a) => (heading("  Command: "@ + join_spec(a.0, " "@)) + optional_line(
                "  Working directory: "@,
                a.1,
            ) + optional_line(
                "  Timeout: "@,
                match a.3 {
                    Some(ms) => Some(decimal(ms as nat) + "ms"@),
                    None => None,
                },
            ) + flag_line("  Escalated permissions: true"@, a.4 == Some(true))).push(""@),
            Err(_) => Seq::empty(),
        },
        ToolName::FsApplyPatch => match FsApplyPatchArgs::parse_spec(args) {
            Ok(a) => (heading("  Operations: "@ + decimal(a.1.len())) + flag_line(
                "  Mode: Dry run"@,
                a.0,
            )).push(""@),
            Err(_) => Seq::empty(),
        },
        ToolName::FsFind => match FsFindArgs::parse_spec(args) {
            Ok(a) => (heading("  Pattern: "@ + a.0) + optional_line("  Base path: "@, a.1)
                + optional_line(
                "  Fuzzy matching: "@,
                match a.2 {
                    Some(fuzzy) => Some(truth(fuzzy)),
                    None => None,
                },
            ) + optional_line("  Max results: "@, opt_decimal(a.5))).push(""@),
            Err(_) => Seq::empty(),
        },
        ToolName::CodeSymbols => match CodeSymbolsArgs::parse_spec(args) {
            Ok(a) => (heading("  File: "@ + a.0) + optional_line("  Language: "@, a.2)
                + optional_line("  Symbol types: "@, opt_list(a.1))).push(""@),
            Err(_) => Seq::empty(),
        },
        ToolName::LargeContextFetch => match LargeContextFetchArgs::parse_spec(args) {
            Ok(a) => (heading("  Query: "@ + a.0) + optional_line("  Base path: "@, a.1)
                + optional_line("  Max files: "@, opt_decimal(a.2))).push(""@),
            Err(_) => Seq::empty(),
        },
    }
}

fn start_lines(label: &str, value: &str) -> (lines: Vec<String>)
    ensures
        string_views(lines@) == heading(label@ + value@),
{
    let mut lines: Vec<String> = Vec::new();
    lines.push(String::from_str("Parameters:"));
    lines.push(concat2(label, value));
    assert(string_views(lines@) =~= heading(label@ + value@));
    lines
}

fn add_line(lines: &mut Vec<String>, line: String)
    ensures
        string_views(final(lines)@) == string_views(old(lines)@).push(line@),
{
    lines.push(line);
    assert(string_views(lines@) =~= string_views(old(lines)@).push(line@));
}

fn add_optional(lines: &mut Vec<String>, label: &str, value: Option<String>)
    ensures
        string_views(final(lines)@) == string_views(old(lines)@) + optional_line(
            label@,
            crate::text::opt_text(value),
        ),
{
    match value {
        Some(v) => {
            add_line(lines, concat2(label, v.as_str()));
            assert(string_views(lines@) =~= string_views(old(lines)@) + optional_line(
                label@,
                Some(v@),
            ));
        },
        None => {
            assert(string_views(lines@) =~= string_views(old(lines)@) + Seq::empty());
        },
    }
}

fn add_flag(lines: &mut Vec<String>, line: &str, on: bool)
    ensures
        string_views(final(lines)@) == string_views(old(lines)@) + flag_line(line@, on),
{
    if on {
        add_line(lines, String::from_str(line));
        assert(string_views(lines@) =~= string_views(old(lines)@) + flag_line(line@, on));
    } else {
        assert(string_views(lines@) =~= string_views(old(lines)@) + Seq::empty());
    }
}

fn number_text(n: Option<u32>) -> (r: Option<String>)
    ensures
        crate::text::opt_text(r) == opt_decimal(n),
{
    match n {
        Some(n) => Some(u64_to_string(n as u64)),
        None => None,
    }
}

fn list_text(items: &Option<Vec<String>>) -> (r: Option<String>)
    ensures
        crate::text::opt_text(r) == opt_list(crate::json::opt_strings_view(*items)),
{
    match items {
        Some(items) => Some(join(items, ", ")),
        None => None,
    }
}

fn copy_text(text: &Option<String>) -> (r: Option<String>)
    ensures
        crate::text::opt_text(r) == crate::text::opt_text(*text),
{
    match text {
        Some(t) => Some(t.clone()),
        None => None,
    }
}

impl ToolsComponent {
    fn search_parameters(args: &Json) -> (lines: Vec<String>)
        ensures
            string_views(lines@) == parameter_lines(ToolName::FsSearch, args@),
    {
        match FsSearchArgs::from_json(args) {
            Ok(a) => {
                let mut lines = start_lines("  Query: ", a.query.as_str());
                add_optional(&mut lines, "  Globs: ", list_text(&a.globs));
                add_optional(&mut lines, "  Max results: ", number_text(a.max_results));
                add_flag(&mut lines, "  Mode: Regex", a.regex);
                add_flag(&mut lines, "  Case insensitive: true", a.case_insensitive);
                add_flag(&mut lines, "  Multiline: true", a.multiline);
                add_line(&mut lines, String::from_str(""));
                lines
            },
            Err(_) => {
                let lines: Vec<String> = Vec::new();
                assert(string_views(lines@) =~= Seq::empty());
                lines
            },
        }
    }

    fn read_parameters(args: &Json) -> (lines: Vec<String>)
        ensures
            string_views(lines@) == parameter_lines(ToolName::FsRead, args@),
    {
        match FsReadArgs::from_json(args) {
            Ok(a) => {
                let mut lines = start_lines("  Path: ", a.path.as_str());
                let range = match a.range {
                    Some((start, end)) => Some(
                        concat3(u64_to_string(start).as_str(), "..", u64_to_string(end).as_str()),
                    ),
                    None => None,
                };
                add_optional(&mut lines, "  Range: ", range);
                add_optional(&mut lines, "  Encoding: ", copy_text(&a.encoding));
                add_line(&mut lines, String::from_str(""));
                lines
            },
            Err(_) => {
                let lines: Vec<String> = Vec::new();
                assert(string_views(lines@) =~= Seq::empty());
                lines
            },
        }
    }

    fn write_parameters(args: &Json) -> (lines: Vec<String>)
        ensures
            string_views(lines@) == parameter_lines(ToolName::FsWrite, args@),
    {
        match FsWriteArgs::from_json(args) {
            Ok(a) => {
                let mut lines = start_lines("  Path: ", a.path.as_str());
                let size = u64_to_string(byte_length(a.contents.as_str()) as u64);
                add_line(&mut lines, concat3("  Size: ", size.as_str(), " bytes"));
                add_flag(&mut lines, "  Create if missing: true", a.create_if_missing);
                add_flag(&mut lines, "  Overwrite: true", a.overwrite);
                add_line(&mut lines, String::from_str(""));
                lines
            },
            Err(_) => {
                let lines: Vec<String> = Vec::new();
                assert(string_views(lines@) =~= Seq::empty());
                lines
            },
        }
    }

    fn shell_parameters(args: &Json) -> (lines: Vec<String>)
        ensures
            string_views(lines@) == parameter_lines(ToolName::ShellExec, args@),
    {
        match ShellExecArgs::from_json(args) {
            Ok(a) => {
                let mut lines = start_lines("  Command: ", join(&a.command, " ").as_str());
                add_optional(&mut lines, "  Working directory: ", copy_text(&a.cwd));
                let timeout = match a.timeout_ms {
                    Some(ms) => Some(concat2(u64_to_string(ms).as_str(), "ms")),
                    None => None,
                };
                add_optional(&mut lines, "  Timeout: ", timeout);
                let escalated = match a.with_escalated_permissions {
                    Some(b) => b,
                    None => false,
                };
                add_flag(&mut lines, "  Escalated permissions: true", escalated);
                add_line(&mut lines, String::from_str(""));
                lines
            },
            Err(_) => {
                let lines: Vec<String> = Vec::new();
                assert(string_views(lines@) =~= Seq::empty());
                lines
            },
        }
    }

    fn patch_parameters(args: &Json) -> (lines: Vec<String>)
        ensures
            string_views(lines@) == parameter_lines(ToolName::FsApplyPatch, args@),
    {
        match FsApplyPatchArgs::from_json(args) {
            Ok(a) => {
                let count = u64_to_string(a.ops.len() as u64);
                let mut lines = start_lines("  Operations: ", count.as_str());
                add_flag(&mut lines, "  Mode: Dry run", a.dry_run);
                add_line(&mut lines, String::from_str(""));
                lines
            },
            Err(_) => {
                let lines: Vec<String> = Vec::new();
                assert(string_views(lines@) =~= Seq::empty());
                lines
            },
        }
    }

    fn find_parameters(args: &Json) -> (lines: Vec<String>)
        ensures
            string_views(lines@) == parameter_lines(ToolName::FsFind, args@),
    {
        match FsFindArgs::from_json(args) {
            Ok(a) => {
                let mut lines = start_lines("  Pattern: ", a.pattern.as_str());
                add_optional(&mut lines, "  Base path: ", copy_text(&a.base_path));
                let fuzzy = match a.fuzzy {
                    Some(true) => Some(String::from_str("true")),
                    Some(false) => Some(String::from_str("false")),
                    None => None,
                };
                add_optional(&mut lines, "  Fuzzy matching: ", fuzzy);
                add_optional(&mut lines, "  Max results: ", number_text(a.max_results));
                add_line(&mut lines, String::from_str(""));
                lines
            },
            Err(_) => {
                let lines: Vec<String> = Vec::new();
                assert(string_views(lines@) =~= Seq::empty());
                lines
            },
        }
    }

    fn symbols_parameters(args: &Json) -> (lines: Vec<String>)
        ensures
            string_views(lines@) == parameter_lines(ToolName::CodeSymbols, args@),
    {
        match CodeSymbolsArgs::from_json(args) {
            Ok(a) => {
                let mut lines = start_lines("  File: ", a.path.as_str());
                add_optional(&mut lines, "  Language: ", copy_text(&a.language));
                add_optional(&mut lines, "  Symbol types: ", list_text(&a.symbol_types));
                add_line(&mut lines, String::from_str(""));
                lines
            },
            Err(_) => {
                let lines: Vec<String> = Vec::new();
                assert(string_views(lines@) =~= Seq::empty());
                lines
            },
        }
    }

    fn fetch_parameters(args: &Json) -> (lines: Vec<String>)
        ensures
            string_views(lines@) == parameter_lines(ToolName::LargeContextFetch, args@),
    {
        match LargeContextFetchArgs::from_json(args) {
            Ok(a) => {
                let mut lines = start_lines("  Query: ", a.user_query.as_str());
                add_optional(&mut lines, "  Base path: ", copy_text(&a.base_path));
                add_optional(&mut lines, "  Max files: ", number_text(a.max_files));
                add_line(&mut lines, String::from_str(""));
                lines
            },
            Err(_) => {
                let lines: Vec<String> = Vec::new();
                assert(string_views(lines@) =~= Seq::empty());
                lines
            },
        }
    }

    /// The lines that show the parameters of a tool call; the first of
    /// them is the heading.
    pub fn render_tool_parameters(tool: &ToolName, args: &Json) -> (lines: Vec<String>)
        ensures
            string_views(lines@) == parameter_lines(*tool, args@),
    {
        match tool {
            ToolName::FsSearch => Self::search_parameters(args),
            ToolName::FsRead => Self::read_parameters(args),
            ToolName::FsWrite => Self::write_parameters(args),
            ToolName::ShellExec => Self::shell_parameters(args),
            ToolName::FsApplyPatch => Self::patch_parameters(args),
            ToolName::FsFind => Self::find_parameters(args),
            ToolName::CodeSymbols => Self::symbols_parameters(args),
            ToolName::LargeContextFetch => Self::fetch_parameters(args),
        }
    }
}

// ---------------------------------------------------------------------------
// Wrapping, the arguments of a call in one line, and the status line
// ---------------------------------------------------------------------------

/// The word in progress as a list: nothing where it is empty.
pub open spec fn word_if_any(word: Seq<char>) -> Seq<Seq<char>> {
    if word.len() > 0 {
        Seq::empty().push(word)
    } else {
        Seq::empty()
    }
}

/// The words of a text after the word in progress `word`: the runs of
/// characters that are no whitespace.
pub open spec fn words_after(s: Seq<char>, word: Seq<char>) -> Seq<Seq<char>>
    decreases s.len(),
{
    if s.len() == 0 {
        word_if_any(word)
    } else if unicode_whitespace(s[0]) {
        word_if_any(word) + words_after(s.skip(1), Seq::empty())
    } else {
        words_after(s.skip(1), word.push(s[0]))
    }
}

/// The lines that hold words after the line in progress `line`: a word
/// joins the line with a space before it while the line stays within the
/// width in bytes, and starts a new line otherwise.
pub open spec fn packed(words: Seq<Seq<char>>, width: nat, line: Seq<char>) -> Seq<Seq<char>>
    decreases words.len(),
{
    if words.len() == 0 {
        word_if_any(line)
    } else if line.len() == 0 {
        packed(words.skip(1), width, words[0])
    } else if byte_len(line) + byte_len(words[0]) + 1 <= width {
        packed(words.skip(1), width, line + " "@ + words[0])
    } else {
        Seq::empty().push(line) + packed(words.skip(1), width, words[0])
    }
}

/// The lines that show a line of text in a given width in bytes. A line
/// that fits, or one that is not to be wrapped, stays as it is; else its
/// words are packed into lines.
pub open spec fn wrapped(line: Seq<char>, width: nat, should_wrap: bool) -> Seq<Seq<char>> {
    if !should_wrap || byte_len(line) <= width {
        Seq::empty().push(line)
    } else {
        packed(words_after(line, Seq::empty()), width, Seq::empty())
    }
}

/// The words of a text.
pub fn split_words(text: &str) -> (words: Vec<String>)
    ensures
        string_views(words@) == words_after(text@, Seq::empty()),
{
    let chars = str_chars(text);
    let mut words: Vec<String> = Vec::new();
    let mut word: Vec<char> = Vec::new();
    let mut i: usize = 0;
    assert(chars@.skip(0) == chars@);
    assert(string_views(words@) + words_after(chars@, word@) =~= words_after(chars@, word@));
    while i < chars.len()
        invariant
            i <= chars.len(),
            chars@ == text@,
            string_views(words@) + words_after(chars@.skip(i as int), word@) == words_after(
                text@,
                Seq::empty(),
            ),
        decreases chars.len() - i,
    {
        let ghost rest = chars@.skip(i as int);
        let ghost done = string_views(words@);
        let ghost before = word@;
        assert(rest[0] == chars@[i as int]);
        assert(rest.skip(1) == chars@.skip(i + 1));
        if is_whitespace(chars[i]) {
            if word.len() > 0 {
                words.push(chars_to_string(word.as_slice()));
                word = Vec::new();
            }
            proof {
                let tail = words_after(rest.skip(1), Seq::empty());
                assert(string_views(words@) =~= done + word_if_any(before));
                assert((done + word_if_any(before)) + tail =~= done + (word_if_any(before) + tail));
                assert(word@ =~= Seq::empty());
            }
        } else {
            word.push(chars[i]);
        }
        i += 1;
    }
    if word.len() > 0 {
        let ghost done = string_views(words@);
        words.push(chars_to_string(word.as_slice()));
        assert(string_views(words@) =~= done + word_if_any(word@));
    } else {
        assert(string_views(words@) =~= string_views(words@) + word_if_any(word@));
    }
    words
}

fn pack_words(words: &Vec<String>, width: usize) -> (lines: Vec<String>)
    ensures
        string_views(lines@) == packed(string_views(words@), width as nat, Seq::empty()),
{
    let ghost all = string_views(words@);
    let mut lines: Vec<String> = Vec::new();
    let mut current = String::new();
    let mut i: usize = 0;
    assert(all.skip(0) == all);
    assert(string_views(lines@) + packed(all, width as nat, current@) =~= packed(
        all,
        width as nat,
        current@,
    ));
    while i < words.len()
        invariant
            i <= words.len(),
            all == string_views(words@),
            string_views(lines@) + packed(all.skip(i as int), width as nat, current@) == packed(
                all,
                width as nat,
                Seq::empty(),
            ),
        decreases words.len() - i,
    {
        let ghost rest = all.skip(i as int);
        let ghost done = string_views(lines@);
        let ghost line = current@;
        assert(rest[0] == words@[i as int]@);
        assert(rest.skip(1) == all.skip(i + 1));
        let word = &words[i];
        let held = byte_length(current.as_str());
        let more = byte_length(word.as_str());
        if str_chars(current.as_str()).len() == 0 {
            current = word.clone();
        } else if (held as u128) + (more as u128) + 1 <= (width as u128) {
            current = concat3(current.as_str(), " ", word.as_str());
        } else {
            lines.push(current);
            current = word.clone();
            proof {
                let tail = packed(rest.skip(1), width as nat, rest[0]);
                assert(string_views(lines@) =~= done + Seq::empty().push(line));
                assert((done + Seq::empty().push(line)) + tail =~= done + (Seq::empty().push(line)
                    + tail));
            }
        }
        i += 1;
    }
    let ghost done = string_views(lines@);
    if str_chars(current.as_str()).len() > 0 {
        lines.push(current);
        assert(string_views(lines@) =~= done + word_if_any(current@));
    } else {
        assert(done =~= done + word_if_any(current@));
    }
    lines
}

/// The lines that show a line of text in a given width in bytes.
pub fn wrap_line(line: &str, available_width: usize, should_wrap: bool) -> (lines: Vec<String>)
    ensures
        string_views(lines@) == wrapped(line@, available_width as nat, should_wrap),
{
    if !should_wrap || byte_length(line) <= available_width {
        let mut lines: Vec<String> = Vec::new();
        lines.push(String::from_str(line));
        assert(string_views(lines@) =~= Seq::empty().push(line@));
        lines
    } else {
        let words = split_words(line);
        pack_words(&words, available_width)
    }
}

/// A value among the arguments of a call: a text between quotes, anything
/// else as its document.
pub open spec fn shown_value(v: JsonView) -> Seq<char> {
    match v {
        JsonView::Str(s) => "\""@ + s + "\""@,
        _ => json_text(v),
    }
}

/// The members of the arguments of a call, each as name, `=` and value.
pub open spec fn shown_members(fields: Seq<(Seq<char>, JsonView)>) -> Seq<Seq<char>> {
    Seq::new(fields.len(), |i: int| fields[i].0 + "="@ + shown_value(fields[i].1))
}

/// The arguments of a call in one line: the members of an object with a
/// comma and a space between them, `{}` for an object without members,
/// and the document of anything else.
pub open spec fn params_text(v: JsonView) -> Seq<char> {
    match v {
        JsonView::Object(fields) => if fields.len() == 0 {
            "{}"@
        } else {
            join_spec(shown_members(fields), ", "@)
        },
        _ => json_text(v),
    }
}

/// The line at the foot of the display that says where the focus is.
pub open spec fn focus_text(s: AppState) -> Seq<char> {
    if s.focused_panel == 0 {
        "Input focused"@
    } else if s.focused_panel == 1 {
        "Chat focused"@ + (if s.auto_scroll_chat {
            " [Auto-scroll]"@
        } else {
            ""@
        })
    } else if s.focused_panel == 2 {
        "Tools focused"@ + (if s.auto_scroll_tools {
            " [Auto-scroll]"@
        } else {
            ""@
        })
    } else {
        "Unknown"@
    }
}

/// The status line: while a response is awaited it says so, names the
/// focus and lists the keys; else it says that the display is ready.
pub open spec fn status_line(s: AppState) -> Seq<char> {
    if s.processing {
        "● Processing... | "@ + focus_text(s)
            + " | 'q' to quit, Tab to switch, '/' for commands, ↑↓/scroll wheel to scroll, End to jump to bottom"@
    } else {
        "Ready - Grok Code CLI | / for commands | Tab to switch"@
    }
}

/// Component for the chat pane.
pub struct ChatComponent;

impl ChatComponent {
    /// The arguments of a call in one line.
    pub fn format_params(v: &Json) -> (r: String)
        ensures
            r@ == params_text(v@),
    {
        match v {
            Json::Object(fields) => {
                proof {
                    lemma_object_view(*fields);
                }
                if fields.len() == 0 {
                    return String::from_str("{}");
                }
                let ghost all = fields_view(fields@);
                let mut parts: Vec<String> = Vec::new();
                let mut i: usize = 0;
                while i < fields.len()
                    invariant
                        i <= fields.len(),
                        all == fields_view(fields@),
                        string_views(parts@) == shown_members(all).take(i as int),
                    decreases fields.len() - i,
                {
                    let ghost done = string_views(parts@);
                    let value = match &fields[i].1 {
                        Json::Str(text) => concat3("\"", text.as_str(), "\""),
                        other => other.to_text(),
                    };
                    assert(value@ == shown_value(all[i as int].1));
                    let part = concat3(fields[i].0.as_str(), "=", value.as_str());
                    assert(part@ == shown_members(all)[i as int]);
                    parts.push(part);
                    assert(string_views(parts@) =~= done.push(part@));
                    assert(shown_members(all).take(i + 1) =~= shown_members(all).take(
                        i as int,
                    ).push(shown_members(all)[i as int]));
                    i += 1;
                }
                assert(shown_members(all).take(i as int) == shown_members(all));
                join(&parts, ", ")
            },
            other => other.to_text(),
        }
    }

    /// The lines that show a text of the chat in a given width.
    pub fn add_wrapped_text(content: &str, available_width: usize, should_wrap: bool) -> (lines:
        Vec<String>)
        ensures
            string_views(lines@) == wrapped(content@, available_width as nat, should_wrap),
    {
        wrap_line(content, available_width, should_wrap)
    }
}

/// Component for the status line.
pub struct StatusComponent;

impl StatusComponent {
    /// The text of the status line.
    pub fn status_text(state: &AppState) -> (r: String)
        ensures
            r@ == status_line(*state),
    {
        if !state.processing {
            return String::from_str("Ready - Grok Code CLI | / for commands | Tab to switch");
        }
        let focus = if state.focused_panel == 0 {
            String::from_str("Input focused")
        } else if state.focused_panel == 1 {
            concat2(
                "Chat focused",
                if state.auto_scroll_chat {
                    " [Auto-scroll]"
                } else {
                    ""
                },
            )
        } else if state.focused_panel == 2 {
            concat2(
                "Tools focused",
                if state.auto_scroll_tools {
                    " [Auto-scroll]"
                } else {
                    ""
                },
            )
        } else {
            String::from_str("Unknown")
        };
        concat3(
            "● Processing... | ",
            focus.as_str(),
            " | 'q' to quit, Tab to switch, '/' for commands, ↑↓/scroll wheel to scroll, End to jump to bottom",
        )
    }
}

impl ToolsComponent {
    /// The lines that show a line of a tool in a given width.
    pub fn add_wrapped_line(line: &str, available_width: usize, should_wrap: bool) -> (lines: Vec<
        String,
    >)
        ensures
            string_views(lines@) == wrapped(line@, available_width as nat, should_wrap),
    {
        wrap_line(line, available_width, should_wrap)
    }
}

} // verus!
