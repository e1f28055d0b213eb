//! The argument and result records of the tools.

use vstd::prelude::*;
use vstd::string::StringExecFns;
use crate::json::{
    no_fields, no_items, push_field, push_item, uint_view, items_view, opt_bool_spec, opt_str_array_spec, opt_str_spec, opt_strings_view, opt_uint_spec,
    present, req_str_array_spec, req_str_spec, invalid_field, missing_field, Json,
    JsonView,
};
use crate::text::{concat2, concat3, opt_text, str_eq, string_views};

verus! {

// ---------------------------------------------------------------------------
// Readers of the members that need more than one step
// ---------------------------------------------------------------------------

/// A boolean member that has a default.
pub open spec fn bool_or_spec(j: JsonView, key: Seq<char>, default: bool) -> Result<
    bool,
    Seq<char>,
> {
    match opt_bool_spec(j, key) {
        Err(e) => Err(e),
        Ok(Some(b)) => Ok(b),
        Ok(None) => Ok(default),
    }
}

/// An optional member that is a non-negative integer of 32 bits.
pub open spec fn opt_u32_spec(j: JsonView, key: Seq<char>) -> Result<Option<u32>, Seq<char>> {
    match opt_uint_spec(j, key, u32::MAX as u64) {
        Err(e) => Err(e),
        Ok(Some(n)) => Ok(Some(n as u32)),
        Ok(None) => Ok(None),
    }
}

/// An optional byte range: an object with the members `start` and `end`.
pub open spec fn range_spec(j: JsonView, key: Seq<char>) -> Result<Option<(u64, u64)>, Seq<char>> {
    match present(j, key) {
        None => Ok(None),
        Some(r) => match (r.get("start"@), r.get("end"@)) {
            (Some(s), Some(e)) => match (s.as_u64(), e.as_u64()) {
                (Some(start), Some(end)) => Ok(Some((start, end))),
                _ => Err(invalid_field(key)),
            },
            _ => Err(invalid_field(key)),
        },
    }
}

/// The two texts of a pair: an array of exactly two strings.
pub open spec fn pair_spec(v: JsonView) -> Option<(Seq<char>, Seq<char>)> {
    match v {
        JsonView::Array(items) => if items.len() == 2 && items[0] is Str && items[1] is Str {
            Some((items[0]->Str_0, items[1]->Str_0))
        } else {
            None
        },
        _ => None,
    }
}

/// An optional list of pairs of texts.
pub open spec fn env_spec(j: JsonView, key: Seq<char>) -> Result<
    Option<Seq<(Seq<char>, Seq<char>)>>,
    Seq<char>,
> {
    match present(j, key) {
        None => Ok(None),
        Some(JsonView::Array(items)) => if forall|i: int|
            0 <= i < items.len() ==> pair_spec(#[trigger] items[i]) is Some {
            Ok(Some(Seq::new(items.len(), |i: int| pair_spec(items[i])->Some_0)))
        } else {
            Err(invalid_field(key))
        },
        Some(_) => Err(invalid_field(key)),
    }
}

/// The texts of optional pairs.
pub open spec fn opt_pairs_view(v: Option<Vec<(String, String)>>) -> Option<
    Seq<(Seq<char>, Seq<char>)>,
> {
    match v {
        Some(pairs) => Some(Seq::new(pairs@.len(), |i: int| (pairs@[i].0@, pairs@[i].1@))),
        None => None,
    }
}

impl Json {
    /// Reads a boolean member that has a default.
    pub fn bool_or(&self, key: &str, default: bool) -> (r: Result<bool, String>)
        ensures
            match r {
                Ok(b) => bool_or_spec(self@, key@, default) == Ok::<bool, Seq<char>>(b),
                Err(e) => bool_or_spec(self@, key@, default) == Err::<bool, Seq<char>>(e@),
            },
    {
        match self.opt_bool(key) {
            Err(e) => Err(e),
            Ok(Some(b)) => Ok(b),
            Ok(None) => Ok(default),
        }
    }

    /// Reads an optional member that is a non-negative integer of 32 bits.
    pub fn opt_u32(&self, key: &str) -> (r: Result<Option<u32>, String>)
        ensures
            match r {
                Ok(n) => opt_u32_spec(self@, key@) == Ok::<Option<u32>, Seq<char>>(n),
                Err(e) => opt_u32_spec(self@, key@) == Err::<Option<u32>, Seq<char>>(e@),
            },
    {
        match self.opt_uint(key, 4294967295u64) {
            Err(e) => Err(e),
            Ok(Some(n)) => Ok(Some(n as u32)),
            Ok(None) => Ok(None),
        }
    }
}

fn bad_field(key: &str) -> (s: String)
    ensures
        s@ == invalid_field(key@),
{
    concat3("invalid type for field `", key, "`")
}

/// Reads an optional byte range.
pub fn read_range(args: &Json, key: &str) -> (r: Result<Option<(u64, u64)>, String>)
    ensures
        match r {
            Ok(v) => range_spec(args@, key@) == Ok::<Option<(u64, u64)>, Seq<char>>(v),
            Err(e) => range_spec(args@, key@) == Err::<Option<(u64, u64)>, Seq<char>>(e@),
        },
{
    let range = match args.get_present(key) {
        None => {
            return Ok(None);
        },
        Some(r) => r,
    };
    let start = match range.get("start") {
        Some(s) => s.as_u64(),
        None => {
            return Err(bad_field(key));
        },
    };
    let end = match range.get("end") {
        Some(e) => e.as_u64(),
        None => {
            return Err(bad_field(key));
        },
    };
    match (start, end) {
        (Some(s), Some(e)) => Ok(Some((s, e))),
        _ => Err(bad_field(key)),
    }
}

fn read_pair(v: &Json) -> (r: Option<(String, String)>)
    ensures
        match r {
            Some(p) => pair_spec(v@) == Some((p.0@, p.1@)),
            None => pair_spec(v@) is None,
        },
{
    let items = match v.as_array() {
        Some(items) => items,
        None => {
            return None;
        },
    };
    if items.len() != 2 {
        return None;
    }
    assert(items_view(items@)[0] == items@[0]@);
    assert(items_view(items@)[1] == items@[1]@);
    match (items[0].as_str(), items[1].as_str()) {
        (Some(a), Some(b)) => Some((String::from_str(a), String::from_str(b))),
        _ => None,
    }
}

/// Reads an optional list of pairs of texts.
pub fn read_env(args: &Json, key: &str) -> (r: Result<Option<Vec<(String, String)>>, String>)
    ensures
        match r {
            Ok(v) => env_spec(args@, key@) == Ok::<Option<Seq<(Seq<char>, Seq<char>)>>, Seq<char>>(
                opt_pairs_view(v),
            ),
            Err(e) => env_spec(args@, key@) == Err::<
                Option<Seq<(Seq<char>, Seq<char>)>>,
                Seq<char>,
            >(e@),
        },
{
    let list = match args.get_present(key) {
        None => {
            return Ok(None);
        },
        Some(v) => v,
    };
    let items = match list.as_array() {
        Some(items) => items,
        None => {
            return Err(bad_field(key));
        },
    };
    let ghost iv = items_view(items@);
    let mut out: Vec<(String, String)> = Vec::new();
    let mut i: usize = 0;
    while i < items.len()
        invariant
            i <= items.len(),
            iv == items_view(items@),
            present(args@, key@) == Some(JsonView::Array(iv)),
            out@.len() == i,
            forall|k: int|
                0 <= k < i ==> pair_spec(#[trigger] iv[k]) == Some((out@[k].0@, out@[k].1@)),
        decreases items.len() - i,
    {
        assert(iv[i as int] == items@[i as int]@);
        match read_pair(&items[i]) {
            Some(p) => {
                out.push(p);
            },
            None => {
                return Err(bad_field(key));
            },
        }
        i += 1;
    }
    proof {
        assert forall|k: int| 0 <= k < iv.len() implies pair_spec(#[trigger] iv[k]) is Some by {}
        assert(opt_pairs_view(Some(out))->Some_0 =~= Seq::new(
            iv.len(),
            |i: int| pair_spec(iv[i])->Some_0,
        ));
    }
    Ok(Some(out))
}

/// Arguments of `fs.read`.
#[derive(Debug)]
pub struct FsReadArgs {
    pub path: String,
    /// Byte range `start..end` to read.
    pub range: Option<(u64, u64)>,
    pub encoding: Option<String>,
}

/// Result of `fs.read`.
#[derive(Debug)]
pub struct FsReadResult {
    pub contents: String,
    pub encoding: String,
    pub truncated: bool,
}

/// Arguments of `fs.search`.
#[derive(Debug)]
pub struct FsSearchArgs {
    pub query: String,
    pub globs: Option<Vec<String>>,
    pub max_results: Option<u32>,
    pub regex: bool,
    pub case_insensitive: bool,
    pub multiline: bool,
}

/// One matching line: its number, from 1, and its text.
#[derive(Debug)]
pub struct SearchLine {
    pub ln: u64,
    pub text: String,
}

/// The matching lines of one file.
#[derive(Debug)]
pub struct SearchMatch {
    pub path: String,
    pub lines: Vec<SearchLine>,
}

/// Result of `fs.search`.
#[derive(Debug)]
pub struct FsSearchResult {
    pub matches: Vec<SearchMatch>,
}

/// Arguments of `fs.write`.
#[derive(Debug)]
pub struct FsWriteArgs {
    pub path: String,
    pub contents: String,
    pub create_if_missing: bool,
    pub overwrite: bool,
}

/// What `create_if_missing` is where the arguments do not say.
pub fn default_create_if_missing() -> (b: bool)
    ensures
        b,
{
    true
}

/// Result of `fs.write`.
#[derive(Debug)]
pub struct FsWriteResult {
    pub bytes_written: u64,
}

/// One edit operation.
#[derive(Debug)]
pub enum SimpleEditOp {
    /// Create the file or replace its contents wholesale.
    SetFile { path: String, contents: String },
    /// Replace the one occurrence of `find`.
    ReplaceOnce { path: String, find: String, replace: String },
    /// Insert immediately before the one occurrence of `anchor`.
    InsertBefore { path: String, anchor: String, insert: String },
    /// Insert immediately after the one occurrence of `anchor`.
    InsertAfter { path: String, anchor: String, insert: String },
    /// Remove an existing file.
    DeleteFile { path: String },
    /// Move the file to a path that is free on disk and in the plan.
    RenameFile { path: String, to: String },
}

impl SimpleEditOp {
    /// The path that the operation works on.
    pub open spec fn path_spec(self) -> Seq<char> {
        match self {
            SimpleEditOp::SetFile { path, .. } => path@,
            SimpleEditOp::ReplaceOnce { path, .. } => path@,
            SimpleEditOp::InsertBefore { path, .. } => path@,
            SimpleEditOp::InsertAfter { path, .. } => path@,
            SimpleEditOp::DeleteFile { path } => path@,
            SimpleEditOp::RenameFile { path, .. } => path@,
        }
    }

    /// The path that the operation works on.
    pub fn path(&self) -> (p: &str)
        ensures
            p@ == self.path_spec(),
    {
        match self {
            SimpleEditOp::SetFile { path, .. } => path.as_str(),
            SimpleEditOp::ReplaceOnce { path, .. } => path.as_str(),
            SimpleEditOp::InsertBefore { path, .. } => path.as_str(),
            SimpleEditOp::InsertAfter { path, .. } => path.as_str(),
            SimpleEditOp::DeleteFile { path } => path.as_str(),
            SimpleEditOp::RenameFile { path, .. } => path.as_str(),
        }
    }
}

/// The name of an operation, its path and its two operands; an operand that
/// the operation does not have is empty.
pub type OpFields = (Seq<char>, Seq<char>, Seq<char>, Seq<char>);

impl SimpleEditOp {
    /// The name, the path and the operands of the operation.
    pub open spec fn op_fields(self) -> OpFields {
        match self {
            SimpleEditOp::SetFile { path, contents } => ("set_file"@, path@, contents@, Seq::empty()),
            SimpleEditOp::ReplaceOnce { path, find, replace } => (
                "replace_once"@,
                path@,
                find@,
                replace@,
            ),
            SimpleEditOp::InsertBefore { path, anchor, insert } => (
                "insert_before"@,
                path@,
                anchor@,
                insert@,
            ),
            SimpleEditOp::InsertAfter { path, anchor, insert } => (
                "insert_after"@,
                path@,
                anchor@,
                insert@,
            ),
            SimpleEditOp::DeleteFile { path } => ("delete_file"@, path@, Seq::empty(), Seq::empty()),
            SimpleEditOp::RenameFile { path, to } => ("rename_file"@, path@, to@, Seq::empty()),
        }
    }
}

/// The fields of a list of operations.
pub open spec fn ops_fields(ops: Seq<SimpleEditOp>) -> Seq<OpFields> {
    Seq::new(ops.len(), |i: int| ops[i].op_fields())
}

/// The two operands that an operation named `name` takes, by the names of
/// their members; `None` for a name that is no operation.
pub open spec fn operand_keys(name: Seq<char>) -> Option<(Option<Seq<char>>, Option<Seq<char>>)> {
    if name == "set_file"@ {
        Some((Some("contents"@), None))
    } else if name == "replace_once"@ {
        Some((Some("find"@), Some("replace"@)))
    } else if name == "insert_before"@ {
        Some((Some("anchor"@), Some("insert"@)))
    } else if name == "insert_after"@ {
        Some((Some("anchor"@), Some("insert"@)))
    } else if name == "delete_file"@ {
        Some((None, None))
    } else if name == "rename_file"@ {
        Some((Some("to"@), None))
    } else {
        None
    }
}

/// An operand of an operation: the string member `key`, or nothing where
/// the operation has no such operand.
pub open spec fn operand_spec(j: JsonView, key: Option<Seq<char>>) -> Result<Seq<char>, Seq<char>> {
    match key {
        None => Ok(Seq::empty()),
        Some(k) => req_str_spec(j, k),
    }
}

/// The fields of the operation that an object describes: the member `op`
/// names it, `path` and the operands of that operation are strings.
pub open spec fn op_spec(j: JsonView) -> Result<OpFields, Seq<char>> {
    match req_str_spec(j, "op"@) {
        Err(e) => Err(e),
        Ok(name) => match operand_keys(name) {
            None => Err("unknown operation `"@ + name + "`"@),
            Some(keys) => match req_str_spec(j, "path"@) {
                Err(e) => Err(e),
                Ok(path) => match operand_spec(j, keys.0) {
                    Err(e) => Err(e),
                    Ok(first) => match operand_spec(j, keys.1) {
                        Err(e) => Err(e),
                        Ok(second) => Ok((name, path, first, second)),
                    },
                },
            },
        },
    }
}

/// The fields of the operations that the first `n` items describe, or what
/// is wrong with the first item that describes none.
pub open spec fn ops_prefix_spec(items: Seq<JsonView>, n: nat) -> Result<Seq<OpFields>, Seq<char>>
    decreases n,
{
    if n == 0 || n > items.len() {
        Ok(Seq::empty())
    } else {
        match ops_prefix_spec(items, (n - 1) as nat) {
            Err(e) => Err(e),
            Ok(before) => match op_spec(items[n - 1]) {
                Err(e) => Err(e),
                Ok(f) => Ok(before.push(f)),
            },
        }
    }
}

/// A required member that is an array of operations.
pub open spec fn ops_spec(j: JsonView, key: Seq<char>) -> Result<Seq<OpFields>, Seq<char>> {
    match j.get(key) {
        None => Err(missing_field(key)),
        Some(JsonView::Array(items)) => ops_prefix_spec(items, items.len()),
        Some(_) => Err(invalid_field(key)),
    }
}

fn read_operand(j: &Json, key: Option<&str>) -> (r: Result<String, String>)
    ensures
        match r {
            Ok(s) => operand_spec(
                j@,
                match key {
                    Some(k) => Some(k@),
                    None => None,
                },
            ) == Ok::<Seq<char>, Seq<char>>(s@),
            Err(e) => operand_spec(
                j@,
                match key {
                    Some(k) => Some(k@),
                    None => None,
                },
            ) == Err::<Seq<char>, Seq<char>>(e@),
        },
{
    match key {
        None => Ok(String::new()),
        Some(k) => j.req_str(k),
    }
}

/// Reads one operation from the object that describes it.
pub fn read_op(j: &Json) -> (r: Result<SimpleEditOp, String>)
    ensures
        match r {
            Ok(op) => op_spec(j@) == Ok::<OpFields, Seq<char>>(op.op_fields()),
            Err(e) => op_spec(j@) == Err::<OpFields, Seq<char>>(e@),
        },
{
    let name = match j.req_str("op") {
        Ok(n) => n,
        Err(e) => {
            return Err(e);
        },
    };
    let kind: u8 = if str_eq(name.as_str(), "set_file") {
        0
    } else if str_eq(name.as_str(), "replace_once") {
        1
    } else if str_eq(name.as_str(), "insert_before") {
        2
    } else if str_eq(name.as_str(), "insert_after") {
        3
    } else if str_eq(name.as_str(), "delete_file") {
        4
    } else if str_eq(name.as_str(), "rename_file") {
        5
    } else {
        return Err(concat3("unknown operation `", name.as_str(), "`"));
    };
    let path = match j.req_str("path") {
        Ok(p) => p,
        Err(e) => {
            return Err(e);
        },
    };
    let first_key: Option<&str> = if kind == 0 {
        Some("contents")
    } else if kind == 1 {
        Some("find")
    } else if kind == 2 || kind == 3 {
        Some("anchor")
    } else if kind == 5 {
        Some("to")
    } else {
        None
    };
    let second_key: Option<&str> = if kind == 1 {
        Some("replace")
    } else if kind == 2 || kind == 3 {
        Some("insert")
    } else {
        None
    };
    let first = match read_operand(j, first_key) {
        Ok(s) => s,
        Err(e) => {
            return Err(e);
        },
    };
    let second = match read_operand(j, second_key) {
        Ok(s) => s,
        Err(e) => {
            return Err(e);
        },
    };
    let op = if kind == 0 {
        SimpleEditOp::SetFile { path, contents: first }
    } else if kind == 1 {
        SimpleEditOp::ReplaceOnce { path, find: first, replace: second }
    } else if kind == 2 {
        SimpleEditOp::InsertBefore { path, anchor: first, insert: second }
    } else if kind == 3 {
        SimpleEditOp::InsertAfter { path, anchor: first, insert: second }
    } else if kind == 4 {
        SimpleEditOp::DeleteFile { path }
    } else {
        SimpleEditOp::RenameFile { path, to: first }
    };
    Ok(op)
}

/// Reads a required member that is an array of operations.
pub fn read_ops(args: &Json, key: &str) -> (r: Result<Vec<SimpleEditOp>, String>)
    ensures
        match r {
            Ok(ops) => ops_spec(args@, key@) == Ok::<Seq<OpFields>, Seq<char>>(ops_fields(ops@)),
            Err(e) => ops_spec(args@, key@) == Err::<Seq<OpFields>, Seq<char>>(e@),
        },
{
    let list = match args.get(key) {
        None => {
            return Err(concat3("missing field `", key, "`"));
        },
        Some(v) => v,
    };
    let items = match list.as_array() {
        Some(items) => items,
        None => {
            return Err(bad_field(key));
        },
    };
    let ghost iv = items_view(items@);
    let mut out: Vec<SimpleEditOp> = Vec::new();
    let mut i: usize = 0;
    assert(ops_fields(out@) =~= Seq::<OpFields>::empty());
    while i < items.len()
        invariant
            i <= items.len(),
            iv == items_view(items@),
            args@.get(key@) == Some(JsonView::Array(iv)),
            ops_prefix_spec(iv, i as nat) == Ok::<Seq<OpFields>, Seq<char>>(ops_fields(out@)),
        decreases items.len() - i,
    {
        assert(iv[i as int] == items@[i as int]@);
        let ghost before = ops_fields(out@);
        match read_op(&items[i]) {
            Ok(op) => {
                out.push(op);
                assert(ops_fields(out@) =~= before.push(op.op_fields()));
            },
            Err(e) => {
                proof {
                    lemma_ops_prefix_err(iv, (i + 1) as nat, iv.len());
                }
                return Err(e);
            },
        }
        i += 1;
    }
    Ok(out)
}

/// Once a prefix of the items fails, every longer prefix fails the same
/// way.
pub proof fn lemma_ops_prefix_err(items: Seq<JsonView>, n: nat, m: nat)
    requires
        n <= m <= items.len(),
        ops_prefix_spec(items, n) is Err,
    ensures
        ops_prefix_spec(items, m) == ops_prefix_spec(items, n),
    decreases m - n,
{
    if n < m {
        lemma_ops_prefix_err(items, n, (m - 1) as nat);
    }
}

/// Arguments of `fs.apply_patch`.
#[derive(Debug)]
pub struct FsApplyPatchArgs {
    pub dry_run: bool,
    pub ops: Vec<SimpleEditOp>,
}

/// Result of `fs.apply_patch`.
#[derive(Debug)]
pub struct FsApplyPatchResult {
    pub success: bool,
    pub rejected_hunks: Option<Vec<String>>,
    pub summary: String,
}

/// Arguments of `fs.find`.
#[derive(Debug)]
pub struct FsFindArgs {
    pub pattern: String,
    pub base_path: Option<String>,
    pub fuzzy: Option<bool>,
    pub case_sensitive: Option<bool>,
    /// `"file"`, `"dir"` or `"both"`.
    pub file_type: Option<String>,
    pub max_results: Option<u32>,
    pub ignore_patterns: Option<Vec<String>>,
}

/// How well a name matches a pattern. The relevance is a fraction between
/// 0 and 1.
#[derive(Debug, Clone, Copy, PartialEq, Eq, Structural)]
pub enum MatchScore {
    /// The name is the pattern: 1.
    Exact,
    /// The name starts with the pattern: 0.95.
    Prefix,
    /// A pattern with wildcards matches, or the name holds the pattern,
    /// without fuzzy matching: 0.9.
    Glob,
    /// The name holds the pattern: 0.8.
    Contains,
    /// The characters of the pattern occur in the name in order: 0.6 times
    /// the length of the pattern over the length of the name, in bytes.
    Subsequence { pattern_len: u32, text_len: u32 },
    /// No match: 0.
    Zero,
}

/// One found file or directory.
#[derive(Debug)]
pub struct FileMatch {
    pub path: String,
    pub score: Option<MatchScore>,
    /// `"exact"`, `"fuzzy"` or `"partial"`.
    pub match_type: String,
}

/// Result of `fs.find`.
#[derive(Debug)]
pub struct FsFindResult {
    pub matches: Vec<FileMatch>,
    pub search_time_ms: u64,
}

/// Arguments of `code.symbols`.
#[derive(Debug)]
pub struct CodeSymbolsArgs {
    pub path: String,
    pub symbol_types: Option<Vec<String>>,
    /// Detected from the path where absent.
    pub language: Option<String>,
}

/// One symbol of a source file.
#[derive(Debug)]
pub struct CodeSymbol {
    pub name: String,
    pub symbol_type: String,
    pub line_start: u32,
    pub line_end: u32,
    pub scope: Option<String>,
    pub visibility: Option<String>,
}

/// Result of `code.symbols`.
#[derive(Debug)]
pub struct CodeSymbolsResult {
    pub symbols: Vec<CodeSymbol>,
    pub language: String,
}

/// One source file with its contents.
#[derive(Debug)]
pub struct CodeFile {
    pub path: String,
    pub contents: String,
    pub language: Option<String>,
    pub size_bytes: u64,
    pub truncated: bool,
}

/// Arguments of `shell.exec`.
#[derive(Debug)]
pub struct ShellExecArgs {
    pub command: Vec<String>,
    pub cwd: Option<String>,
    pub env: Option<Vec<(String, String)>>,
    pub timeout_ms: Option<u64>,
    pub with_escalated_permissions: Option<bool>,
    pub justification: Option<String>,
}

/// Result of `shell.exec`.
#[derive(Debug)]
pub struct ShellExecResult {
    pub exit_code: i32,
    pub duration_ms: u64,
    pub stdout: String,
    pub stderr: String,
}

/// Arguments of `large_context_fetch`.
#[derive(Debug)]
pub struct LargeContextFetchArgs {
    pub user_query: String,
    pub base_path: Option<String>,
    pub max_files: Option<u32>,
    pub include_extensions: Option<Vec<String>>,
    pub exclude_patterns: Option<Vec<String>>,
}

/// Result of `large_context_fetch`.
#[derive(Debug)]
pub struct LargeContextFetchResult {
    pub relevant_files: Vec<CodeFile>,
    pub llm_reasoning: String,
    pub total_files_analyzed: u32,
    pub total_files_returned: u32,
    pub execution_time_ms: u64,
}

// ---------------------------------------------------------------------------
// Reading the argument records
// ---------------------------------------------------------------------------

impl FsReadArgs {
    /// The values of the fields, in order.
    pub open spec fn fields(self) -> (Seq<char>, Option<(u64, u64)>, Option<Seq<char>>) {
        (self.path@, self.range, opt_text(self.encoding))
    }

    /// The fields that an argument object gives, or what is wrong with it.
    pub open spec fn parse_spec(j: JsonView) -> Result<
        (Seq<char>, Option<(u64, u64)>, Option<Seq<char>>),
        Seq<char>,
    > {
        match req_str_spec(j, "path"@) {
            Err(e) => Err(e),
            Ok(path) => match range_spec(j, "range"@) {
                Err(e) => Err(e),
                Ok(range) => match opt_str_spec(j, "encoding"@) {
                    Err(e) => Err(e),
                    Ok(encoding) => Ok((path, range, encoding)),
                },
            },
        }
    }

    /// Reads the arguments of `fs.read` from an argument object. Members that
    /// the record does not know are ignored.
    pub fn from_json(args: &Json) -> (r: Result<FsReadArgs, String>)
        ensures
            match r {
                Ok(a) => Self::parse_spec(args@) == Ok::<(Seq<char>, Option<(u64, u64)>, Option<Seq<char>>), Seq<char>>(
                    a.fields(),
                ),
                Err(e) => Self::parse_spec(args@) matches Err(d) && e@
                    == "Invalid FsRead arguments: "@ + d,
            },
    {
        let path = match args.req_str("path") {
            Ok(v) => v,
            Err(e) => {
                return Err(concat2("Invalid FsRead arguments: ", e.as_str()));
            },
        };
        let range = match read_range(args, "range") {
            Ok(v) => v,
            Err(e) => {
                return Err(concat2("Invalid FsRead arguments: ", e.as_str()));
            },
        };
        let encoding = match args.opt_str("encoding") {
            Ok(v) => v,
            Err(e) => {
                return Err(concat2("Invalid FsRead arguments: ", e.as_str()));
            },
        };
        Ok(FsReadArgs { path, range, encoding })
    }
}

impl FsSearchArgs {
    /// The values of the fields, in order.
    pub open spec fn fields(self) -> (Seq<char>, Option<Seq<Seq<char>>>, Option<u32>, bool, bool, bool) {
        (self.query@, opt_strings_view(self.globs), self.max_results, self.regex, self.case_insensitive, self.multiline)
    }

    /// The fields that an argument object gives, or what is wrong with it.
    pub open spec fn parse_spec(j: JsonView) -> Result<
        (Seq<char>, Option<Seq<Seq<char>>>, Option<u32>, bool, bool, bool),
        Seq<char>,
    > {
        match req_str_spec(j, "query"@) {
            Err(e) => Err(e),
            Ok(query) => match opt_str_array_spec(j, "globs"@) {
                Err(e) => Err(e),
                Ok(globs) => match opt_u32_spec(j, "max_results"@) {
                    Err(e) => Err(e),
                    Ok(max_results) => match bool_or_spec(j, "regex"@, false) {
                        Err(e) => Err(e),
                        Ok(regex) => match bool_or_spec(j, "case_insensitive"@, false) {
                            Err(e) => Err(e),
                            Ok(case_insensitive) => match bool_or_spec(j, "multiline"@, false) {
                                Err(e) => Err(e),
                                Ok(multiline) => Ok((query, globs, max_results, regex, case_insensitive, multiline)),
                            },
                        },
                    },
                },
            },
        }
    }

    /// Reads the arguments of `fs.search` from an argument object. Only the
    /// query is required: the three flags are off where they are absent.
    /// Members that the record does not know are ignored.
    pub fn from_json(args: &Json) -> (r: Result<FsSearchArgs, String>)
        ensures
            match r {
                Ok(a) => Self::parse_spec(args@) == Ok::<(Seq<char>, Option<Seq<Seq<char>>>, Option<u32>, bool, bool, bool), Seq<char>>(
                    a.fields(),
                ),
                Err(e) => Self::parse_spec(args@) matches Err(d) && e@
                    == "Invalid FsSearch arguments: "@ + d,
            },
    {
        let query = match args.req_str("query") {
            Ok(v) => v,
            Err(e) => {
                return Err(concat2("Invalid FsSearch arguments: ", e.as_str()));
            },
        };
        let globs = match args.opt_str_array("globs") {
            Ok(v) => v,
            Err(e) => {
                return Err(concat2("Invalid FsSearch arguments: ", e.as_str()));
            },
        };
        let max_results = match args.opt_u32("max_results") {
            Ok(v) => v,
            Err(e) => {
                return Err(concat2("Invalid FsSearch arguments: ", e.as_str()));
            },
        };
        let regex = match args.bool_or("regex", false) {
            Ok(v) => v,
            Err(e) => {
                return Err(concat2("Invalid FsSearch arguments: ", e.as_str()));
            },
        };
        let case_insensitive = match args.bool_or("case_insensitive", false) {
            Ok(v) => v,
            Err(e) => {
                return Err(concat2("Invalid FsSearch arguments: ", e.as_str()));
            },
        };
        let multiline = match args.bool_or("multiline", false) {
            Ok(v) => v,
            Err(e) => {
                return Err(concat2("Invalid FsSearch arguments: ", e.as_str()));
            },
        };
        Ok(FsSearchArgs { query, globs, max_results, regex, case_insensitive, multiline })
    }
}

impl FsWriteArgs {
    /// The values of the fields, in order.
    pub open spec fn fields(self) -> (Seq<char>, Seq<char>, bool, bool) {
        (self.path@, self.contents@, self.create_if_missing, self.overwrite)
    }

    /// The fields that an argument object gives, or what is wrong with it.
    pub open spec fn parse_spec(j: JsonView) -> Result<
        (Seq<char>, Seq<char>, bool, bool),
        Seq<char>,
    > {
        match req_str_spec(j, "path"@) {
            Err(e) => Err(e),
            Ok(path) => match req_str_spec(j, "contents"@) {
                Err(e) => Err(e),
                Ok(contents) => match bool_or_spec(j, "create_if_missing"@, true) {
                    Err(e) => Err(e),
                    Ok(create_if_missing) => match bool_or_spec(j, "overwrite"@, false) {
                        Err(e) => Err(e),
                        Ok(overwrite) => Ok((path, contents, create_if_missing, overwrite)),
                    },
                },
            },
        }
    }

    /// Reads the arguments of `fs.write` from an argument object. Members that
    /// the record does not know are ignored.
    pub fn from_json(args: &Json) -> (r: Result<FsWriteArgs, String>)
        ensures
            match r {
                Ok(a) => Self::parse_spec(args@) == Ok::<(Seq<char>, Seq<char>, bool, bool), Seq<char>>(
                    a.fields(),
                ),
                Err(e) => Self::parse_spec(args@) matches Err(d) && e@
                    == "Invalid FsWrite arguments: "@ + d,
            },
    {
        let path = match args.req_str("path") {
            Ok(v) => v,
            Err(e) => {
                return Err(concat2("Invalid FsWrite arguments: ", e.as_str()));
            },
        };
        let contents = match args.req_str("contents") {
            Ok(v) => v,
            Err(e) => {
                return Err(concat2("Invalid FsWrite arguments: ", e.as_str()));
            },
        };
        let create_if_missing = match args.bool_or("create_if_missing", true) {
            Ok(v) => v,
            Err(e) => {
                return Err(concat2("Invalid FsWrite arguments: ", e.as_str()));
            },
        };
        let overwrite = match args.bool_or("overwrite", false) {
            Ok(v) => v,
            Err(e) => {
                return Err(concat2("Invalid FsWrite arguments: ", e.as_str()));
            },
        };
        Ok(FsWriteArgs { path, contents, create_if_missing, overwrite })
    }
}

impl FsApplyPatchArgs {
    /// The values of the fields, in order.
    pub open spec fn fields(self) -> (bool, Seq<OpFields>) {
        (self.dry_run, ops_fields(self.ops@))
    }

    /// The fields that an argument object gives, or what is wrong with it.
    pub open spec fn parse_spec(j: JsonView) -> Result<
        (bool, Seq<OpFields>),
        Seq<char>,
    > {
        match bool_or_spec(j, "dry_run"@, false) {
            Err(e) => Err(e),
            Ok(dry_run) => match ops_spec(j, "ops"@) {
                Err(e) => Err(e),
                Ok(ops) => Ok((dry_run, ops)),
            },
        }
    }

    /// Reads the arguments of `fs.apply_patch` from an argument object. Members that
    /// the record does not know are ignored.
    pub fn from_json(args: &Json) -> (r: Result<FsApplyPatchArgs, String>)
        ensures
            match r {
                Ok(a) => Self::parse_spec(args@) == Ok::<(bool, Seq<OpFields>), Seq<char>>(
                    a.fields(),
                ),
                Err(e) => Self::parse_spec(args@) matches Err(d) && e@
                    == "Invalid FsApplyPatch arguments: "@ + d,
            },
    {
        let dry_run = match args.bool_or("dry_run", false) {
            Ok(v) => v,
            Err(e) => {
                return Err(concat2("Invalid FsApplyPatch arguments: ", e.as_str()));
            },
        };
        let ops = match read_ops(args, "ops") {
            Ok(v) => v,
            Err(e) => {
                return Err(concat2("Invalid FsApplyPatch arguments: ", e.as_str()));
            },
        };
        Ok(FsApplyPatchArgs { dry_run, ops })
    }
}

impl FsFindArgs {
    /// The values of the fields, in order.
    pub open spec fn fields(self) -> (Seq<char>, Option<Seq<char>>, Option<bool>, Option<bool>, Option<Seq<char>>, Option<u32>, Option<Seq<Seq<char>>>) {
        (self.pattern@, opt_text(self.base_path), self.fuzzy, self.case_sensitive, opt_text(self.file_type), self.max_results, opt_strings_view(self.ignore_patterns))
    }

    /// The fields that an argument object gives, or what is wrong with it.
    pub open spec fn parse_spec(j: JsonView) -> Result<
        (Seq<char>, Option<Seq<char>>, Option<bool>, Option<bool>, Option<Seq<char>>, Option<u32>, Option<Seq<Seq<char>>>),
        Seq<char>,
    > {
        match req_str_spec(j, "pattern"@) {
            Err(e) => Err(e),
            Ok(pattern) => match opt_str_spec(j, "base_path"@) {
                Err(e) => Err(e),
                Ok(base_path) => match opt_bool_spec(j, "fuzzy"@) {
                    Err(e) => Err(e),
                    Ok(fuzzy) => match opt_bool_spec(j, "case_sensitive"@) {
                        Err(e) => Err(e),
                        Ok(case_sensitive) => match opt_str_spec(j, "file_type"@) {
                            Err(e) => Err(e),
                            Ok(file_type) => match opt_u32_spec(j, "max_results"@) {
                                Err(e) => Err(e),
                                Ok(max_results) => match opt_str_array_spec(j, "ignore_patterns"@) {
                                    Err(e) => Err(e),
                                    Ok(ignore_patterns) => Ok((pattern, base_path, fuzzy, case_sensitive, file_type, max_results, ignore_patterns)),
                                },
                            },
                        },
                    },
                },
            },
        }
    }

    /// Reads the arguments of `fs.find` from an argument object. Members that
    /// the record does not know are ignored.
    pub fn from_json(args: &Json) -> (r: Result<FsFindArgs, String>)
        ensures
            match r {
                Ok(a) => Self::parse_spec(args@) == Ok::<(Seq<char>, Option<Seq<char>>, Option<bool>, Option<bool>, Option<Seq<char>>, Option<u32>, Option<Seq<Seq<char>>>), Seq<char>>(
                    a.fields(),
                ),
                Err(e) => Self::parse_spec(args@) matches Err(d) && e@
                    == "Invalid FsFind arguments: "@ + d,
            },
    {
        let pattern = match args.req_str("pattern") {
            Ok(v) => v,
            Err(e) => {
                return Err(concat2("Invalid FsFind arguments: ", e.as_str()));
            },
        };
        let base_path = match args.opt_str("base_path") {
            Ok(v) => v,
            Err(e) => {
                return Err(concat2("Invalid FsFind arguments: ", e.as_str()));
            },
        };
        let fuzzy = match args.opt_bool("fuzzy") {
            Ok(v) => v,
            Err(e) => {
                return Err(concat2("Invalid FsFind arguments: ", e.as_str()));
            },
        };
        let case_sensitive = match args.opt_bool("case_sensitive") {
            Ok(v) => v,
            Err(e) => {
                return Err(concat2("Invalid FsFind arguments: ", e.as_str()));
            },
        };
        let file_type = match args.opt_str("file_type") {
            Ok(v) => v,
            Err(e) => {
                return Err(concat2("Invalid FsFind arguments: ", e.as_str()));
            },
        };
        let max_results = match args.opt_u32("max_results") {
            Ok(v) => v,
            Err(e) => {
                return Err(concat2("Invalid FsFind arguments: ", e.as_str()));
            },
        };
        let ignore_patterns = match args.opt_str_array("ignore_patterns") {
            Ok(v) => v,
            Err(e) => {
                return Err(concat2("Invalid FsFind arguments: ", e.as_str()));
            },
        };
        Ok(FsFindArgs { pattern, base_path, fuzzy, case_sensitive, file_type, max_results, ignore_patterns })
    }
}

impl CodeSymbolsArgs {
    /// The values of the fields, in order.
    pub open spec fn fields(self) -> (Seq<char>, Option<Seq<Seq<char>>>, Option<Seq<char>>) {
        (self.path@, opt_strings_view(self.symbol_types), opt_text(self.language))
    }

    /// The fields that an argument object gives, or what is wrong with it.
    pub open spec fn parse_spec(j: JsonView) -> Result<
        (Seq<char>, Option<Seq<Seq<char>>>, Option<Seq<char>>),
        Seq<char>,
    > {
        match req_str_spec(j, "path"@) {
            Err(e) => Err(e),
            Ok(path) => match opt_str_array_spec(j, "symbol_types"@) {
                Err(e) => Err(e),
                Ok(symbol_types) => match opt_str_spec(j, "language"@) {
                    Err(e) => Err(e),
                    Ok(language) => Ok((path, symbol_types, language)),
                },
            },
        }
    }

    /// Reads the arguments of `code.symbols` from an argument object. Members that
    /// the record does not know are ignored.
    pub fn from_json(args: &Json) -> (r: Result<CodeSymbolsArgs, String>)
        ensures
            match r {
                Ok(a) => Self::parse_spec(args@) == Ok::<(Seq<char>, Option<Seq<Seq<char>>>, Option<Seq<char>>), Seq<char>>(
                    a.fields(),
                ),
                Err(e) => Self::parse_spec(args@) matches Err(d) && e@
                    == "Invalid CodeSymbols arguments: "@ + d,
            },
    {
        let path = match args.req_str("path") {
            Ok(v) => v,
            Err(e) => {
                return Err(concat2("Invalid CodeSymbols arguments: ", e.as_str()));
            },
        };
        let symbol_types = match args.opt_str_array("symbol_types") {
            Ok(v) => v,
            Err(e) => {
                return Err(concat2("Invalid CodeSymbols arguments: ", e.as_str()));
            },
        };
        let language = match args.opt_str("language") {
            Ok(v) => v,
            Err(e) => {
                return Err(concat2("Invalid CodeSymbols arguments: ", e.as_str()));
            },
        };
        Ok(CodeSymbolsArgs { path, symbol_types, language })
    }
}

impl ShellExecArgs {
    /// The values of the fields, in order.
    pub open spec fn fields(self) -> (Seq<Seq<char>>, Option<Seq<char>>, Option<Seq<(Seq<char>, Seq<char>)>>, Option<u64>, Option<bool>, Option<Seq<char>>) {
        (string_views(self.command@), opt_text(self.cwd), opt_pairs_view(self.env), self.timeout_ms, self.with_escalated_permissions, opt_text(self.justification))
    }

    /// The fields that an argument object gives, or what is wrong with it.
    pub open spec fn parse_spec(j: JsonView) -> Result<
        (Seq<Seq<char>>, Option<Seq<char>>, Option<Seq<(Seq<char>, Seq<char>)>>, Option<u64>, Option<bool>, Option<Seq<char>>),
        Seq<char>,
    > {
        match req_str_array_spec(j, "command"@) {
            Err(e) => Err(e),
            Ok(command) => match opt_str_spec(j, "cwd"@) {
                Err(e) => Err(e),
                Ok(cwd) => match env_spec(j, "env"@) {
                    Err(e) => Err(e),
                    Ok(env) => match opt_uint_spec(j, "timeout_ms"@, u64::MAX) {
                        Err(e) => Err(e),
                        Ok(timeout_ms) => match opt_bool_spec(j, "with_escalated_permissions"@) {
                            Err(e) => Err(e),
                            Ok(with_escalated_permissions) => match opt_str_spec(j, "justification"@) {
                                Err(e) => Err(e),
                                Ok(justification) => Ok((command, cwd, env, timeout_ms, with_escalated_permissions, justification)),
                            },
                        },
                    },
                },
            },
        }
    }

    /// Reads the arguments of `shell.exec` from an argument object. Members that
    /// the record does not know are ignored.
    pub fn from_json(args: &Json) -> (r: Result<ShellExecArgs, String>)
        ensures
            match r {
                Ok(a) => Self::parse_spec(args@) == Ok::<(Seq<Seq<char>>, Option<Seq<char>>, Option<Seq<(Seq<char>, Seq<char>)>>, Option<u64>, Option<bool>, Option<Seq<char>>), Seq<char>>(
                    a.fields(),
                ),
                Err(e) => Self::parse_spec(args@) matches Err(d) && e@
                    == "Invalid ShellExec arguments: "@ + d,
            },
    {
        let command = match args.req_str_array("command") {
            Ok(v) => v,
            Err(e) => {
                return Err(concat2("Invalid ShellExec arguments: ", e.as_str()));
            },
        };
        let cwd = match args.opt_str("cwd") {
            Ok(v) => v,
            Err(e) => {
                return Err(concat2("Invalid ShellExec arguments: ", e.as_str()));
            },
        };
        let env = match read_env(args, "env") {
            Ok(v) => v,
            Err(e) => {
                return Err(concat2("Invalid ShellExec arguments: ", e.as_str()));
            },
        };
        let timeout_ms = match args.opt_uint("timeout_ms", u64::MAX) {
            Ok(v) => v,
            Err(e) => {
                return Err(concat2("Invalid ShellExec arguments: ", e.as_str()));
            },
        };
        let with_escalated_permissions = match args.opt_bool("with_escalated_permissions") {
            Ok(v) => v,
            Err(e) => {
                return Err(concat2("Invalid ShellExec arguments: ", e.as_str()));
            },
        };
        let justification = match args.opt_str("justification") {
            Ok(v) => v,
            Err(e) => {
                return Err(concat2("Invalid ShellExec arguments: ", e.as_str()));
            },
        };
        Ok(ShellExecArgs { command, cwd, env, timeout_ms, with_escalated_permissions, justification })
    }
}

impl LargeContextFetchArgs {
    /// The values of the fields, in order.
    pub open spec fn fields(self) -> (Seq<char>, Option<Seq<char>>, Option<u32>, Option<Seq<Seq<char>>>, Option<Seq<Seq<char>>>) {
        (self.user_query@, opt_text(self.base_path), self.max_files, opt_strings_view(self.include_extensions), opt_strings_view(self.exclude_patterns))
    }

    /// The fields that an argument object gives, or what is wrong with it.
    pub open spec fn parse_spec(j: JsonView) -> Result<
        (Seq<char>, Option<Seq<char>>, Option<u32>, Option<Seq<Seq<char>>>, Option<Seq<Seq<char>>>),
        Seq<char>,
    > {
        match req_str_spec(j, "user_query"@) {
            Err(e) => Err(e),
            Ok(user_query) => match opt_str_spec(j, "base_path"@) {
                Err(e) => Err(e),
                Ok(base_path) => match opt_u32_spec(j, "max_files"@) {
                    Err(e) => Err(e),
                    Ok(max_files) => match opt_str_array_spec(j, "include_extensions"@) {
                        Err(e) => Err(e),
                        Ok(include_extensions) => match opt_str_array_spec(j, "exclude_patterns"@) {
                            Err(e) => Err(e),
                            Ok(exclude_patterns) => Ok((user_query, base_path, max_files, include_extensions, exclude_patterns)),
                        },
                    },
                },
            },
        }
    }

    /// Reads the arguments of `large_context_fetch` from an argument object. Members that
    /// the record does not know are ignored.
    pub fn from_json(args: &Json) -> (r: Result<LargeContextFetchArgs, String>)
        ensures
            match r {
                Ok(a) => Self::parse_spec(args@) == Ok::<(Seq<char>, Option<Seq<char>>, Option<u32>, Option<Seq<Seq<char>>>, Option<Seq<Seq<char>>>), Seq<char>>(
                    a.fields(),
                ),
                Err(e) => Self::parse_spec(args@) matches Err(d) && e@
                    == "Invalid LargeContextFetch arguments: "@ + d,
            },
    {
        let user_query = match args.req_str("user_query") {
            Ok(v) => v,
            Err(e) => {
                return Err(concat2("Invalid LargeContextFetch arguments: ", e.as_str()));
            },
        };
        let base_path = match args.opt_str("base_path") {
            Ok(v) => v,
            Err(e) => {
                return Err(concat2("Invalid LargeContextFetch arguments: ", e.as_str()));
            },
        };
        let max_files = match args.opt_u32("max_files") {
            Ok(v) => v,
            Err(e) => {
                return Err(concat2("Invalid LargeContextFetch arguments: ", e.as_str()));
            },
        };
        let include_extensions = match args.opt_str_array("include_extensions") {
            Ok(v) => v,
            Err(e) => {
                return Err(concat2("Invalid LargeContextFetch arguments: ", e.as_str()));
            },
        };
        let exclude_patterns = match args.opt_str_array("exclude_patterns") {
            Ok(v) => v,
            Err(e) => {
                return Err(concat2("Invalid LargeContextFetch arguments: ", e.as_str()));
            },
        };
        Ok(LargeContextFetchArgs { user_query, base_path, max_files, include_extensions, exclude_patterns })
    }
}

// ---------------------------------------------------------------------------
// Writing the result records
// ---------------------------------------------------------------------------

/// The document of an optional text: `null` for none.
pub open spec fn text_or_null(t: Option<Seq<char>>) -> JsonView {
    match t {
        Some(s) => JsonView::Str(s),
        None => JsonView::Null,
    }
}

/// The document of a list of texts.
pub open spec fn texts_json(texts: Seq<Seq<char>>) -> JsonView {
    JsonView::Array(Seq::new(texts.len(), |i: int| JsonView::Str(texts[i])))
}

fn opt_text_json(t: &Option<String>) -> (j: Json)
    ensures
        j@ == text_or_null(opt_text(*t)),
{
    match t {
        Some(s) => Json::Str(s.clone()),
        None => Json::Null,
    }
}

fn texts_to_json(texts: &Vec<String>) -> (j: Json)
    ensures
        j@ == texts_json(string_views(texts@)),
{
    let mut items = no_items();
    let mut i: usize = 0;
    while i < texts.len()
        invariant
            i <= texts.len(),
            items_view(items@) == Seq::new(i as nat, |k: int| JsonView::Str(texts@[k]@)),
        decreases texts.len() - i,
    {
        push_item(&mut items, Json::Str(texts[i].clone()));
        assert(items_view(items@) =~= Seq::new((i + 1) as nat, |k: int| JsonView::Str(texts@[k]@)));
        i += 1;
    }
    assert(items_view(items@) =~= texts_json(string_views(texts@))->Array_0);
    Json::array(items)
}

impl FsReadResult {
    /// The document of the result.
    pub open spec fn json_spec(self) -> JsonView {
        JsonView::Object(
            Seq::empty().push(("contents"@, JsonView::Str(self.contents@))).push(
                ("encoding"@, JsonView::Str(self.encoding@)),
            ).push(("truncated"@, JsonView::Bool(self.truncated))),
        )
    }

    /// The document of the result.
    pub fn to_json(&self) -> (j: Json)
        ensures
            j@ == self.json_spec(),
    {
        let mut f = no_fields();
        push_field(&mut f, "contents", Json::Str(self.contents.clone()));
        push_field(&mut f, "encoding", Json::Str(self.encoding.clone()));
        push_field(&mut f, "truncated", Json::Bool(self.truncated));
        Json::object(f)
    }
}

impl FsWriteResult {
    /// The document of the result.
    pub open spec fn json_spec(self) -> JsonView {
        JsonView::Object(
            Seq::empty().push(("bytes_written"@, uint_view(self.bytes_written as nat))),
        )
    }

    /// The document of the result.
    pub fn to_json(&self) -> (j: Json)
        ensures
            j@ == self.json_spec(),
    {
        let mut f = no_fields();
        push_field(&mut f, "bytes_written", Json::from_u64(self.bytes_written));
        Json::object(f)
    }
}

impl FsApplyPatchResult {
    /// The document of the result.
    pub open spec fn json_spec(self) -> JsonView {
        JsonView::Object(
            Seq::empty().push(("success"@, JsonView::Bool(self.success))).push(
                (
                    "rejected_hunks"@,
                    match self.rejected_hunks {
                        Some(hunks) => texts_json(string_views(hunks@)),
                        None => JsonView::Null,
                    },
                ),
            ).push(("summary"@, JsonView::Str(self.summary@))),
        )
    }

    /// The document of the result.
    pub fn to_json(&self) -> (j: Json)
        ensures
            j@ == self.json_spec(),
    {
        let mut f = no_fields();
        push_field(&mut f, "success", Json::Bool(self.success));
        let hunks = match &self.rejected_hunks {
            Some(h) => texts_to_json(h),
            None => Json::Null,
        };
        push_field(&mut f, "rejected_hunks", hunks);
        push_field(&mut f, "summary", Json::Str(self.summary.clone()));
        Json::object(f)
    }
}

impl ShellExecResult {
    /// The document of the result.
    pub open spec fn json_spec(self) -> JsonView {
        JsonView::Object(
            Seq::empty().push(("exit_code"@, JsonView::Int(self.exit_code as i64))).push(
                ("duration_ms"@, uint_view(self.duration_ms as nat)),
            ).push(("stdout"@, JsonView::Str(self.stdout@))).push(
                ("stderr"@, JsonView::Str(self.stderr@)),
            ),
        )
    }

    /// The document of the result.
    pub fn to_json(&self) -> (j: Json)
        ensures
            j@ == self.json_spec(),
    {
        let mut f = no_fields();
        push_field(&mut f, "exit_code", Json::Int(self.exit_code as i64));
        push_field(&mut f, "duration_ms", Json::from_u64(self.duration_ms));
        push_field(&mut f, "stdout", Json::Str(self.stdout.clone()));
        push_field(&mut f, "stderr", Json::Str(self.stderr.clone()));
        Json::object(f)
    }
}

impl SearchLine {
    /// The document of the line.
    pub open spec fn json_spec(self) -> JsonView {
        JsonView::Object(
            Seq::empty().push(("ln"@, uint_view(self.ln as nat))).push(
                ("text"@, JsonView::Str(self.text@)),
            ),
        )
    }

    /// The document of the line.
    pub fn to_json(&self) -> (j: Json)
        ensures
            j@ == self.json_spec(),
    {
        let mut f = no_fields();
        push_field(&mut f, "ln", Json::from_u64(self.ln));
        push_field(&mut f, "text", Json::Str(self.text.clone()));
        Json::object(f)
    }
}

impl SearchMatch {
    /// The document of the match.
    pub open spec fn json_spec(self) -> JsonView {
        JsonView::Object(
            Seq::empty().push(("path"@, JsonView::Str(self.path@))).push(
                (
                    "lines"@,
                    JsonView::Array(
                        Seq::new(self.lines@.len(), |i: int| self.lines@[i].json_spec()),
                    ),
                ),
            ),
        )
    }

    /// The document of the match.
    pub fn to_json(&self) -> (j: Json)
        ensures
            j@ == self.json_spec(),
    {
        let mut items = no_items();
        let mut i: usize = 0;
        while i < self.lines.len()
            invariant
                i <= self.lines@.len(),
                items_view(items@) == Seq::new(i as nat, |k: int| self.lines@[k].json_spec()),
            decreases self.lines.len() - i,
        {
            push_item(&mut items, self.lines[i].to_json());
            assert(items_view(items@) =~= Seq::new(
                (i + 1) as nat,
                |k: int| self.lines@[k].json_spec(),
            ));
            i += 1;
        }
        let mut f = no_fields();
        push_field(&mut f, "path", Json::Str(self.path.clone()));
        push_field(&mut f, "lines", Json::array(items));
        Json::object(f)
    }
}

impl FsSearchResult {
    /// The document of the result.
    pub open spec fn json_spec(self) -> JsonView {
        JsonView::Object(
            Seq::empty().push(
                (
                    "matches"@,
                    JsonView::Array(
                        Seq::new(self.matches@.len(), |i: int| self.matches@[i].json_spec()),
                    ),
                ),
            ),
        )
    }

    /// The document of the result.
    pub fn to_json(&self) -> (j: Json)
        ensures
            j@ == self.json_spec(),
    {
        let mut items = no_items();
        let mut i: usize = 0;
        while i < self.matches.len()
            invariant
                i <= self.matches@.len(),
                items_view(items@) == Seq::new(i as nat, |k: int| self.matches@[k].json_spec()),
            decreases self.matches.len() - i,
        {
            push_item(&mut items, self.matches[i].to_json());
            assert(items_view(items@) =~= Seq::new(
                (i + 1) as nat,
                |k: int| self.matches@[k].json_spec(),
            ));
            i += 1;
        }
        let mut f = no_fields();
        push_field(&mut f, "matches", Json::array(items));
        Json::object(f)
    }
}

impl CodeSymbol {
    /// The document of the symbol.
    pub open spec fn json_spec(self) -> JsonView {
        JsonView::Object(
            Seq::empty().push(("name"@, JsonView::Str(self.name@))).push(
                ("symbol_type"@, JsonView::Str(self.symbol_type@)),
            ).push(("line_start"@, JsonView::Int(self.line_start as i64))).push(
                ("line_end"@, JsonView::Int(self.line_end as i64)),
            ).push(("scope"@, text_or_null(opt_text(self.scope)))).push(
                ("visibility"@, text_or_null(opt_text(self.visibility))),
            ),
        )
    }

    /// The document of the symbol.
    pub fn to_json(&self) -> (j: Json)
        ensures
            j@ == self.json_spec(),
    {
        let mut f = no_fields();
        push_field(&mut f, "name", Json::Str(self.name.clone()));
        push_field(&mut f, "symbol_type", Json::Str(self.symbol_type.clone()));
        push_field(&mut f, "line_start", Json::Int(self.line_start as i64));
        push_field(&mut f, "line_end", Json::Int(self.line_end as i64));
        push_field(&mut f, "scope", opt_text_json(&self.scope));
        push_field(&mut f, "visibility", opt_text_json(&self.visibility));
        Json::object(f)
    }
}

impl CodeSymbolsResult {
    /// The document of the result.
    pub open spec fn json_spec(self) -> JsonView {
        JsonView::Object(
            Seq::empty().push(
                (
                    "symbols"@,
                    JsonView::Array(
                        Seq::new(self.symbols@.len(), |i: int| self.symbols@[i].json_spec()),
                    ),
                ),
            ).push(("language"@, JsonView::Str(self.language@))),
        )
    }

    /// The document of the result.
    pub fn to_json(&self) -> (j: Json)
        ensures
            j@ == self.json_spec(),
    {
        let mut items = no_items();
        let mut i: usize = 0;
        while i < self.symbols.len()
            invariant
                i <= self.symbols@.len(),
                items_view(items@) == Seq::new(i as nat, |k: int| self.symbols@[k].json_spec()),
            decreases self.symbols.len() - i,
        {
            push_item(&mut items, self.symbols[i].to_json());
            assert(items_view(items@) =~= Seq::new(
                (i + 1) as nat,
                |k: int| self.symbols@[k].json_spec(),
            ));
            i += 1;
        }
        let mut f = no_fields();
        push_field(&mut f, "symbols", Json::array(items));
        push_field(&mut f, "language", Json::Str(self.language.clone()));
        Json::object(f)
    }
}

// ---------------------------------------------------------------------------
// Writing the argument records and reading the result records
// ---------------------------------------------------------------------------

/// The document of an optional boolean.
pub open spec fn bool_or_null(b: Option<bool>) -> JsonView {
    match b {
        Some(v) => JsonView::Bool(v),
        None => JsonView::Null,
    }
}

/// The document of an optional number of 32 bits.
pub open spec fn u32_or_null(n: Option<u32>) -> JsonView {
    match n {
        Some(v) => uint_view(v as nat),
        None => JsonView::Null,
    }
}

/// The document of an optional number of 64 bits.
pub open spec fn u64_or_null(n: Option<u64>) -> JsonView {
    match n {
        Some(v) => uint_view(v as nat),
        None => JsonView::Null,
    }
}

/// The document of an optional list of texts.
pub open spec fn texts_or_null(t: Option<Seq<Seq<char>>>) -> JsonView {
    match t {
        Some(v) => texts_json(v),
        None => JsonView::Null,
    }
}

/// The document of an optional byte range.
pub open spec fn range_json(r: Option<(u64, u64)>) -> JsonView {
    match r {
        Some((start, end)) => JsonView::Object(
            Seq::empty().push(("start"@, uint_view(start as nat))).push(
                ("end"@, uint_view(end as nat)),
            ),
        ),
        None => JsonView::Null,
    }
}

/// The document of a pair of texts.
pub open spec fn pair_json(p: (Seq<char>, Seq<char>)) -> JsonView {
    JsonView::Array(Seq::empty().push(JsonView::Str(p.0)).push(JsonView::Str(p.1)))
}

/// The document of an optional list of pairs of texts.
pub open spec fn env_json(e: Option<Seq<(Seq<char>, Seq<char>)>>) -> JsonView {
    match e {
        Some(pairs) => JsonView::Array(Seq::new(pairs.len(), |i: int| pair_json(pairs[i]))),
        None => JsonView::Null,
    }
}

/// The document of an operation: its name, its path and its operands
/// under the names of their members.
pub open spec fn op_json(f: OpFields) -> JsonView {
    let base = Seq::empty().push(("op"@, JsonView::Str(f.0))).push(("path"@, JsonView::Str(f.1)));
    match operand_keys(f.0) {
        Some((Some(a), Some(b))) => JsonView::Object(
            base.push((a, JsonView::Str(f.2))).push((b, JsonView::Str(f.3))),
        ),
        Some((Some(a), None)) => JsonView::Object(base.push((a, JsonView::Str(f.2)))),
        _ => JsonView::Object(base),
    }
}

/// The document of a list of operations.
pub open spec fn ops_json(ops: Seq<OpFields>) -> JsonView {
    JsonView::Array(Seq::new(ops.len(), |i: int| op_json(ops[i])))
}

fn opt_bool_json(b: Option<bool>) -> (j: Json)
    ensures
        j@ == bool_or_null(b),
{
    match b {
        Some(v) => Json::Bool(v),
        None => Json::Null,
    }
}

fn opt_u32_json(n: Option<u32>) -> (j: Json)
    ensures
        j@ == u32_or_null(n),
{
    match n {
        Some(v) => Json::from_u64(v as u64),
        None => Json::Null,
    }
}

fn opt_u64_json(n: Option<u64>) -> (j: Json)
    ensures
        j@ == u64_or_null(n),
{
    match n {
        Some(v) => Json::from_u64(v),
        None => Json::Null,
    }
}

fn opt_texts_json(t: &Option<Vec<String>>) -> (j: Json)
    ensures
        j@ == texts_or_null(opt_strings_view(*t)),
{
    match t {
        Some(v) => texts_to_json(v),
        None => Json::Null,
    }
}

fn range_to_json(r: Option<(u64, u64)>) -> (j: Json)
    ensures
        j@ == range_json(r),
{
    match r {
        Some((start, end)) => {
            let mut f = no_fields();
            push_field(&mut f, "start", Json::from_u64(start));
            push_field(&mut f, "end", Json::from_u64(end));
            Json::object(f)
        },
        None => Json::Null,
    }
}

fn env_to_json(e: &Option<Vec<(String, String)>>) -> (j: Json)
    ensures
        j@ == env_json(opt_pairs_view(*e)),
{
    match e {
        None => Json::Null,
        Some(pairs) => {
            let mut items = no_items();
            let mut i: usize = 0;
            while i < pairs.len()
                invariant
                    i <= pairs.len(),
                    items_view(items@) == Seq::new(
                        i as nat,
                        |k: int| pair_json((pairs@[k].0@, pairs@[k].1@)),
                    ),
                decreases pairs.len() - i,
            {
                let mut two = no_items();
                push_item(&mut two, Json::Str(pairs[i].0.clone()));
                push_item(&mut two, Json::Str(pairs[i].1.clone()));
                push_item(&mut items, Json::array(two));
                assert(items_view(items@) =~= Seq::new(
                    (i + 1) as nat,
                    |k: int| pair_json((pairs@[k].0@, pairs@[k].1@)),
                ));
                i += 1;
            }
            assert(items_view(items@) =~= env_json(opt_pairs_view(*e))->Array_0);
            Json::array(items)
        },
    }
}

impl SimpleEditOp {
    /// The document of the operation.
    pub fn to_json(&self) -> (j: Json)
        ensures
            j@ == op_json(self.op_fields()),
    {
        let mut f = no_fields();
        match self {
            SimpleEditOp::SetFile { path, contents } => {
                push_field(&mut f, "op", Json::string("set_file"));
                push_field(&mut f, "path", Json::Str(path.clone()));
                push_field(&mut f, "contents", Json::Str(contents.clone()));
            },
            SimpleEditOp::ReplaceOnce { path, find, replace } => {
                proof {
                    lemma_op_names();
                }
                push_field(&mut f, "op", Json::string("replace_once"));
                push_field(&mut f, "path", Json::Str(path.clone()));
                push_field(&mut f, "find", Json::Str(find.clone()));
                push_field(&mut f, "replace", Json::Str(replace.clone()));
            },
            SimpleEditOp::InsertBefore { path, anchor, insert } => {
                proof {
                    lemma_op_names();
                }
                push_field(&mut f, "op", Json::string("insert_before"));
                push_field(&mut f, "path", Json::Str(path.clone()));
                push_field(&mut f, "anchor", Json::Str(anchor.clone()));
                push_field(&mut f, "insert", Json::Str(insert.clone()));
            },
            SimpleEditOp::InsertAfter { path, anchor, insert } => {
                proof {
                    lemma_op_names();
                }
                push_field(&mut f, "op", Json::string("insert_after"));
                push_field(&mut f, "path", Json::Str(path.clone()));
                push_field(&mut f, "anchor", Json::Str(anchor.clone()));
                push_field(&mut f, "insert", Json::Str(insert.clone()));
            },
            SimpleEditOp::DeleteFile { path } => {
                proof {
                    lemma_op_names();
                }
                push_field(&mut f, "op", Json::string("delete_file"));
                push_field(&mut f, "path", Json::Str(path.clone()));
            },
            SimpleEditOp::RenameFile { path, to } => {
                proof {
                    lemma_op_names();
                }
                push_field(&mut f, "op", Json::string("rename_file"));
                push_field(&mut f, "path", Json::Str(path.clone()));
                push_field(&mut f, "to", Json::Str(to.clone()));
            },
        }
        Json::object(f)
    }
}

/// The names of the operations differ from one another.
pub proof fn lemma_op_names()
    ensures
        "set_file"@ != "replace_once"@,
        "set_file"@ != "insert_before"@,
        "set_file"@ != "insert_after"@,
        "set_file"@ != "delete_file"@,
        "set_file"@ != "rename_file"@,
        "replace_once"@ != "insert_before"@,
        "replace_once"@ != "insert_after"@,
        "replace_once"@ != "delete_file"@,
        "replace_once"@ != "rename_file"@,
        "insert_before"@ != "insert_after"@,
        "insert_before"@ != "delete_file"@,
        "insert_before"@ != "rename_file"@,
        "insert_after"@ != "delete_file"@,
        "insert_after"@ != "rename_file"@,
        "delete_file"@ != "rename_file"@,
{
    reveal_strlit("set_file");
    reveal_strlit("replace_once");
    reveal_strlit("insert_before");
    reveal_strlit("insert_after");
    reveal_strlit("delete_file");
    reveal_strlit("rename_file");
    assert("set_file"@.len() == 8);
    assert("replace_once"@.len() == 12);
    assert("insert_before"@.len() == 13);
    assert("insert_after"@.len() == 12);
    assert("delete_file"@.len() == 11);
    assert("rename_file"@.len() == 11);
    assert("replace_once"@[0] != "insert_after"@[0]);
    assert("delete_file"@[0] != "rename_file"@[0]);
}

fn ops_to_json(ops: &Vec<SimpleEditOp>) -> (j: Json)
    ensures
        j@ == ops_json(ops_fields(ops@)),
{
    let mut items = no_items();
    let mut i: usize = 0;
    while i < ops.len()
        invariant
            i <= ops.len(),
            items_view(items@) == Seq::new(i as nat, |k: int| op_json(ops@[k].op_fields())),
        decreases ops.len() - i,
    {
        push_item(&mut items, ops[i].to_json());
        assert(items_view(items@) =~= Seq::new((i + 1) as nat, |k: int| op_json(
            ops@[k].op_fields(),
        )));
        i += 1;
    }
    assert(items_view(items@) =~= ops_json(ops_fields(ops@))->Array_0);
    Json::array(items)
}

/// The text of the string member `key`.
pub open spec fn member_text(j: JsonView, key: Seq<char>) -> Option<Seq<char>> {
    match j.get(key) {
        Some(JsonView::Str(s)) => Some(s),
        _ => None,
    }
}

/// The value of the boolean member `key`.
pub open spec fn member_bool(j: JsonView, key: Seq<char>) -> Option<bool> {
    match j.get(key) {
        Some(JsonView::Bool(b)) => Some(b),
        _ => None,
    }
}

/// The value of the member `key` that is a non-negative integer.
pub open spec fn member_u64(j: JsonView, key: Seq<char>) -> Option<u64> {
    match j.get(key) {
        Some(v) => v.as_u64(),
        None => None,
    }
}

/// The value of the member `key` that is a non-negative integer of 32
/// bits.
pub open spec fn member_u32(j: JsonView, key: Seq<char>) -> Option<u32> {
    match member_u64(j, key) {
        Some(n) => if n <= u32::MAX {
            Some(n as u32)
        } else {
            None
        },
        None => None,
    }
}

/// The value of the member `key` that is an integer of 32 bits.
pub open spec fn member_i32(j: JsonView, key: Seq<char>) -> Option<i32> {
    match j.get(key) {
        Some(v) => match v.as_i64() {
            Some(n) => if i32::MIN <= n <= i32::MAX {
                Some(n as i32)
            } else {
                None
            },
            None => None,
        },
        None => None,
    }
}

/// The text of the member `key` that may be absent or `null`; nothing
/// where it is anything but a string.
pub open spec fn member_opt_text(j: JsonView, key: Seq<char>) -> Option<Option<Seq<char>>> {
    match present(j, key) {
        None => Some(None),
        Some(JsonView::Str(s)) => Some(Some(s)),
        Some(_) => None,
    }
}

/// The texts of the member `key` that may be absent or `null`; nothing
/// where it is anything but an array of strings.
pub open spec fn member_opt_texts(j: JsonView, key: Seq<char>) -> Option<Option<Seq<Seq<char>>>> {
    match present(j, key) {
        None => Some(None),
        Some(v) => match crate::json::str_items(v) {
            Some(items) => Some(Some(items)),
            None => None,
        },
    }
}

fn read_member_text(j: &Json, key: &str) -> (r: Option<String>)
    ensures
        opt_text(r) == member_text(j@, key@),
{
    match j.get(key) {
        Some(v) => match v.as_str() {
            Some(s) => Some(String::from_str(s)),
            None => None,
        },
        None => None,
    }
}

fn read_member_bool(j: &Json, key: &str) -> (r: Option<bool>)
    ensures
        r == member_bool(j@, key@),
{
    match j.get(key) {
        Some(v) => v.as_bool(),
        None => None,
    }
}

fn read_member_u64(j: &Json, key: &str) -> (r: Option<u64>)
    ensures
        r == member_u64(j@, key@),
{
    match j.get(key) {
        Some(v) => v.as_u64(),
        None => None,
    }
}

fn read_member_u32(j: &Json, key: &str) -> (r: Option<u32>)
    ensures
        r == member_u32(j@, key@),
{
    match read_member_u64(j, key) {
        Some(n) => if n <= 4294967295 {
            Some(n as u32)
        } else {
            None
        },
        None => None,
    }
}

fn read_member_i32(j: &Json, key: &str) -> (r: Option<i32>)
    ensures
        r == member_i32(j@, key@),
{
    match j.get(key) {
        Some(v) => match v.as_i64() {
            Some(n) => if -2147483648 <= n && n <= 2147483647 {
                Some(n as i32)
            } else {
                None
            },
            None => None,
        },
        None => None,
    }
}

fn read_member_opt_text(j: &Json, key: &str) -> (r: Option<Option<String>>)
    ensures
        match r {
            Some(t) => member_opt_text(j@, key@) == Some(opt_text(t)),
            None => member_opt_text(j@, key@) is None,
        },
{
    match j.get_present(key) {
        None => Some(None),
        Some(v) => match v.as_str() {
            Some(s) => Some(Some(String::from_str(s))),
            None => None,
        },
    }
}

fn read_member_opt_texts(j: &Json, key: &str) -> (r: Option<Option<Vec<String>>>)
    ensures
        match r {
            Some(t) => member_opt_texts(j@, key@) == Some(opt_strings_view(t)),
            None => member_opt_texts(j@, key@) is None,
        },
{
    match j.get_present(key) {
        None => Some(None),
        Some(v) => match v.to_strings() {
            Some(items) => Some(Some(items)),
            None => None,
        },
    }
}

impl FsReadArgs {
    /// The document of the arguments: one member for each field, `null` for
    /// a field that is absent.
    pub open spec fn json_spec(self) -> JsonView {
        JsonView::Object(
            Seq::empty().push(("path"@, JsonView::Str(self.path@))).push(("range"@, range_json(self.range))).push(("encoding"@, text_or_null(opt_text(self.encoding)))),
        )
    }

    /// The document of the arguments.
    pub fn to_json(&self) -> (j: Json)
        ensures
            j@ == self.json_spec(),
    {
        let mut f = no_fields();
        push_field(&mut f, "path", Json::Str(self.path.clone()));
        push_field(&mut f, "range", range_to_json(self.range));
        push_field(&mut f, "encoding", opt_text_json(&self.encoding));
        Json::object(f)
    }
}

impl FsSearchArgs {
    /// The document of the arguments: one member for each field, `null` for
    /// a field that is absent.
    pub open spec fn json_spec(self) -> JsonView {
        JsonView::Object(
            Seq::empty().push(("query"@, JsonView::Str(self.query@))).push(("globs"@, texts_or_null(opt_strings_view(self.globs)))).push(("max_results"@, u32_or_null(self.max_results))).push(("regex"@, JsonView::Bool(self.regex))).push(("case_insensitive"@, JsonView::Bool(self.case_insensitive))).push(("multiline"@, JsonView::Bool(self.multiline))),
        )
    }

    /// The document of the arguments.
    pub fn to_json(&self) -> (j: Json)
        ensures
            j@ == self.json_spec(),
    {
        let mut f = no_fields();
        push_field(&mut f, "query", Json::Str(self.query.clone()));
        push_field(&mut f, "globs", opt_texts_json(&self.globs));
        push_field(&mut f, "max_results", opt_u32_json(self.max_results));
        push_field(&mut f, "regex", Json::Bool(self.regex));
        push_field(&mut f, "case_insensitive", Json::Bool(self.case_insensitive));
        push_field(&mut f, "multiline", Json::Bool(self.multiline));
        Json::object(f)
    }
}

impl FsWriteArgs {
    /// The document of the arguments: one member for each field, `null` for
    /// a field that is absent.
    pub open spec fn json_spec(self) -> JsonView {
        JsonView::Object(
            Seq::empty().push(("path"@, JsonView::Str(self.path@))).push(("contents"@, JsonView::Str(self.contents@))).push(("create_if_missing"@, JsonView::Bool(self.create_if_missing))).push(("overwrite"@, JsonView::Bool(self.overwrite))),
        )
    }

    /// The document of the arguments.
    pub fn to_json(&self) -> (j: Json)
        ensures
            j@ == self.json_spec(),
    {
        let mut f = no_fields();
        push_field(&mut f, "path", Json::Str(self.path.clone()));
        push_field(&mut f, "contents", Json::Str(self.contents.clone()));
        push_field(&mut f, "create_if_missing", Json::Bool(self.create_if_missing));
        push_field(&mut f, "overwrite", Json::Bool(self.overwrite));
        Json::object(f)
    }
}

impl FsApplyPatchArgs {
    /// The document of the arguments: one member for each field, `null` for
    /// a field that is absent.
    pub open spec fn json_spec(self) -> JsonView {
        JsonView::Object(
            Seq::empty().push(("dry_run"@, JsonView::Bool(self.dry_run))).push(("ops"@, ops_json(ops_fields(self.ops@)))),
        )
    }

    /// The document of the arguments.
    pub fn to_json(&self) -> (j: Json)
        ensures
            j@ == self.json_spec(),
    {
        let mut f = no_fields();
        push_field(&mut f, "dry_run", Json::Bool(self.dry_run));
        push_field(&mut f, "ops", ops_to_json(&self.ops));
        Json::object(f)
    }
}

impl FsFindArgs {
    /// The document of the arguments: one member for each field, `null` for
    /// a field that is absent.
    pub open spec fn json_spec(self) -> JsonView {
        JsonView::Object(
            Seq::empty().push(("pattern"@, JsonView::Str(self.pattern@))).push(("base_path"@, text_or_null(opt_text(self.base_path)))).push(("fuzzy"@, bool_or_null(self.fuzzy))).push(("case_sensitive"@, bool_or_null(self.case_sensitive))).push(("file_type"@, text_or_null(opt_text(self.file_type)))).push(("max_results"@, u32_or_null(self.max_results))).push(("ignore_patterns"@, texts_or_null(opt_strings_view(self.ignore_patterns)))),
        )
    }

    /// The document of the arguments.
    pub fn to_json(&self) -> (j: Json)
        ensures
            j@ == self.json_spec(),
    {
        let mut f = no_fields();
        push_field(&mut f, "pattern", Json::Str(self.pattern.clone()));
        push_field(&mut f, "base_path", opt_text_json(&self.base_path));
        push_field(&mut f, "fuzzy", opt_bool_json(self.fuzzy));
        push_field(&mut f, "case_sensitive", opt_bool_json(self.case_sensitive));
        push_field(&mut f, "file_type", opt_text_json(&self.file_type));
        push_field(&mut f, "max_results", opt_u32_json(self.max_results));
        push_field(&mut f, "ignore_patterns", opt_texts_json(&self.ignore_patterns));
        Json::object(f)
    }
}

impl CodeSymbolsArgs {
    /// The document of the arguments: one member for each field, `null` for
    /// a field that is absent.
    pub open spec fn json_spec(self) -> JsonView {
        JsonView::Object(
            Seq::empty().push(("path"@, JsonView::Str(self.path@))).push(("symbol_types"@, texts_or_null(opt_strings_view(self.symbol_types)))).push(("language"@, text_or_null(opt_text(self.language)))),
        )
    }

    /// The document of the arguments.
    pub fn to_json(&self) -> (j: Json)
        ensures
            j@ == self.json_spec(),
    {
        let mut f = no_fields();
        push_field(&mut f, "path", Json::Str(self.path.clone()));
        push_field(&mut f, "symbol_types", opt_texts_json(&self.symbol_types));
        push_field(&mut f, "language", opt_text_json(&self.language));
        Json::object(f)
    }
}

impl ShellExecArgs {
    /// The document of the arguments: one member for each field, `null` for
    /// a field that is absent.
    pub open spec fn json_spec(self) -> JsonView {
        JsonView::Object(
            Seq::empty().push(("command"@, texts_json(string_views(self.command@)))).push(("cwd"@, text_or_null(opt_text(self.cwd)))).push(("env"@, env_json(opt_pairs_view(self.env)))).push(("timeout_ms"@, u64_or_null(self.timeout_ms))).push(("with_escalated_permissions"@, bool_or_null(self.with_escalated_permissions))).push(("justification"@, text_or_null(opt_text(self.justification)))),
        )
    }

    /// The document of the arguments.
    pub fn to_json(&self) -> (j: Json)
        ensures
            j@ == self.json_spec(),
    {
        let mut f = no_fields();
        push_field(&mut f, "command", texts_to_json(&self.command));
        push_field(&mut f, "cwd", opt_text_json(&self.cwd));
        push_field(&mut f, "env", env_to_json(&self.env));
        push_field(&mut f, "timeout_ms", opt_u64_json(self.timeout_ms));
        push_field(&mut f, "with_escalated_permissions", opt_bool_json(self.with_escalated_permissions));
        push_field(&mut f, "justification", opt_text_json(&self.justification));
        Json::object(f)
    }
}

impl LargeContextFetchArgs {
    /// The document of the arguments: one member for each field, `null` for
    /// a field that is absent.
    pub open spec fn json_spec(self) -> JsonView {
        JsonView::Object(
            Seq::empty().push(("user_query"@, JsonView::Str(self.user_query@))).push(("base_path"@, text_or_null(opt_text(self.base_path)))).push(("max_files"@, u32_or_null(self.max_files))).push(("include_extensions"@, texts_or_null(opt_strings_view(self.include_extensions)))).push(("exclude_patterns"@, texts_or_null(opt_strings_view(self.exclude_patterns)))),
        )
    }

    /// The document of the arguments.
    pub fn to_json(&self) -> (j: Json)
        ensures
            j@ == self.json_spec(),
    {
        let mut f = no_fields();
        push_field(&mut f, "user_query", Json::Str(self.user_query.clone()));
        push_field(&mut f, "base_path", opt_text_json(&self.base_path));
        push_field(&mut f, "max_files", opt_u32_json(self.max_files));
        push_field(&mut f, "include_extensions", opt_texts_json(&self.include_extensions));
        push_field(&mut f, "exclude_patterns", opt_texts_json(&self.exclude_patterns));
        Json::object(f)
    }
}

impl FsReadResult {
    /// The values of the fields, in order.
    pub open spec fn fields(self) -> (Seq<char>, Seq<char>, bool) {
        (self.contents@, self.encoding@, self.truncated)
    }

    /// The fields that a document gives; nothing where a member is missing or
    /// of the wrong type.
    pub open spec fn read_spec(j: JsonView) -> Option<(Seq<char>, Seq<char>, bool)> {
        match member_text(j, "contents"@) {
            None => None,
            Some(contents) => match member_text(j, "encoding"@) {
                None => None,
                Some(encoding) => match member_bool(j, "truncated"@) {
                    None => None,
                    Some(truncated) => Some((contents, encoding, truncated)),
                },
            },
        }
    }

    /// Reads the record from its document.
    pub fn from_json(j: &Json) -> (r: Option<FsReadResult>)
        ensures
            match r {
                Some(x) => Self::read_spec(j@) == Some(x.fields()),
                None => Self::read_spec(j@) is None,
            },
    {
        let contents = match read_member_text(j, "contents") {
            Some(v) => v,
            None => {
                return None;
            },
        };
        let encoding = match read_member_text(j, "encoding") {
            Some(v) => v,
            None => {
                return None;
            },
        };
        let truncated = match read_member_bool(j, "truncated") {
            Some(v) => v,
            None => {
                return None;
            },
        };
        Some(FsReadResult { contents, encoding, truncated })
    }
}

impl FsWriteResult {
    /// The values of the fields, in order.
    pub open spec fn fields(self) -> (u64,) {
        (self.bytes_written,)
    }

    /// The fields that a document gives; nothing where a member is missing or
    /// of the wrong type.
    pub open spec fn read_spec(j: JsonView) -> Option<(u64,)> {
        match member_u64(j, "bytes_written"@) {
            None => None,
            Some(bytes_written) => Some((bytes_written,)),
        }
    }

    /// Reads the record from its document.
    pub fn from_json(j: &Json) -> (r: Option<FsWriteResult>)
        ensures
            match r {
                Some(x) => Self::read_spec(j@) == Some(x.fields()),
                None => Self::read_spec(j@) is None,
            },
    {
        let bytes_written = match read_member_u64(j, "bytes_written") {
            Some(v) => v,
            None => {
                return None;
            },
        };
        Some(FsWriteResult { bytes_written })
    }
}

impl FsApplyPatchResult {
    /// The values of the fields, in order.
    pub open spec fn fields(self) -> (bool, Option<Seq<Seq<char>>>, Seq<char>) {
        (self.success, opt_strings_view(self.rejected_hunks), self.summary@)
    }

    /// The fields that a document gives; nothing where a member is missing or
    /// of the wrong type.
    pub open spec fn read_spec(j: JsonView) -> Option<(bool, Option<Seq<Seq<char>>>, Seq<char>)> {
        match member_bool(j, "success"@) {
            None => None,
            Some(success) => match member_opt_texts(j, "rejected_hunks"@) {
                None => None,
                Some(rejected_hunks) => match member_text(j, "summary"@) {
                    None => None,
                    Some(summary) => Some((success, rejected_hunks, summary)),
                },
            },
        }
    }

    /// Reads the record from its document.
    pub fn from_json(j: &Json) -> (r: Option<FsApplyPatchResult>)
        ensures
            match r {
                Some(x) => Self::read_spec(j@) == Some(x.fields()),
                None => Self::read_spec(j@) is None,
            },
    {
        let success = match read_member_bool(j, "success") {
            Some(v) => v,
            None => {
                return None;
            },
        };
        let rejected_hunks = match read_member_opt_texts(j, "rejected_hunks") {
            Some(v) => v,
            None => {
                return None;
            },
        };
        let summary = match read_member_text(j, "summary") {
            Some(v) => v,
            None => {
                return None;
            },
        };
        Some(FsApplyPatchResult { success, rejected_hunks, summary })
    }
}

impl ShellExecResult {
    /// The values of the fields, in order.
    pub open spec fn fields(self) -> (i32, u64, Seq<char>, Seq<char>) {
        (self.exit_code, self.duration_ms, self.stdout@, self.stderr@)
    }

    /// The fields that a document gives; nothing where a member is missing or
    /// of the wrong type.
    pub open spec fn read_spec(j: JsonView) -> Option<(i32, u64, Seq<char>, Seq<char>)> {
        match member_i32(j, "exit_code"@) {
            None => None,
            Some(exit_code) => match member_u64(j, "duration_ms"@) {
                None => None,
                Some(duration_ms) => match member_text(j, "stdout"@) {
                    None => None,
                    Some(stdout) => match member_text(j, "stderr"@) {
                        None => None,
                        Some(stderr) => Some((exit_code, duration_ms, stdout, stderr)),
                    },
                },
            },
        }
    }

    /// Reads the record from its document.
    pub fn from_json(j: &Json) -> (r: Option<ShellExecResult>)
        ensures
            match r {
                Some(x) => Self::read_spec(j@) == Some(x.fields()),
                None => Self::read_spec(j@) is None,
            },
    {
        let exit_code = match read_member_i32(j, "exit_code") {
            Some(v) => v,
            None => {
                return None;
            },
        };
        let duration_ms = match read_member_u64(j, "duration_ms") {
            Some(v) => v,
            None => {
                return None;
            },
        };
        let stdout = match read_member_text(j, "stdout") {
            Some(v) => v,
            None => {
                return None;
            },
        };
        let stderr = match read_member_text(j, "stderr") {
            Some(v) => v,
            None => {
                return None;
            },
        };
        Some(ShellExecResult { exit_code, duration_ms, stdout, stderr })
    }
}

impl SearchLine {
    /// The values of the fields, in order.
    pub open spec fn fields(self) -> (u64, Seq<char>) {
        (self.ln, self.text@)
    }

    /// The fields that a document gives; nothing where a member is missing or
    /// of the wrong type.
    pub open spec fn read_spec(j: JsonView) -> Option<(u64, Seq<char>)> {
        match member_u64(j, "ln"@) {
            None => None,
            Some(ln) => match member_text(j, "text"@) {
                None => None,
                Some(text) => Some((ln, text)),
            },
        }
    }

    /// Reads the record from its document.
    pub fn from_json(j: &Json) -> (r: Option<SearchLine>)
        ensures
            match r {
                Some(x) => Self::read_spec(j@) == Some(x.fields()),
                None => Self::read_spec(j@) is None,
            },
    {
        let ln = match read_member_u64(j, "ln") {
            Some(v) => v,
            None => {
                return None;
            },
        };
        let text = match read_member_text(j, "text") {
            Some(v) => v,
            None => {
                return None;
            },
        };
        Some(SearchLine { ln, text })
    }
}

impl CodeSymbol {
    /// The values of the fields, in order.
    pub open spec fn fields(self) -> (Seq<char>, Seq<char>, u32, u32, Option<Seq<char>>, Option<Seq<char>>) {
        (self.name@, self.symbol_type@, self.line_start, self.line_end, opt_text(self.scope), opt_text(self.visibility))
    }

    /// The fields that a document gives; nothing where a member is missing or
    /// of the wrong type.
    pub open spec fn read_spec(j: JsonView) -> Option<(Seq<char>, Seq<char>, u32, u32, Option<Seq<char>>, Option<Seq<char>>)> {
        match member_text(j, "name"@) {
            None => None,
            Some(name) => match member_text(j, "symbol_type"@) {
                None => None,
                Some(symbol_type) => match member_u32(j, "line_start"@) {
                    None => None,
                    Some(line_start) => match member_u32(j, "line_end"@) {
                        None => None,
                        Some(line_end) => match member_opt_text(j, "scope"@) {
                            None => None,
                            Some(scope) => match member_opt_text(j, "visibility"@) {
                                None => None,
                                Some(visibility) => Some((name, symbol_type, line_start, line_end, scope, visibility)),
                            },
                        },
                    },
                },
            },
        }
    }

    /// Reads the record from its document.
    pub fn from_json(j: &Json) -> (r: Option<CodeSymbol>)
        ensures
            match r {
                Some(x) => Self::read_spec(j@) == Some(x.fields()),
                None => Self::read_spec(j@) is None,
            },
    {
        let name = match read_member_text(j, "name") {
            Some(v) => v,
            None => {
                return None;
            },
        };
        let symbol_type = match read_member_text(j, "symbol_type") {
            Some(v) => v,
            None => {
                return None;
            },
        };
        let line_start = match read_member_u32(j, "line_start") {
            Some(v) => v,
            None => {
                return None;
            },
        };
        let line_end = match read_member_u32(j, "line_end") {
            Some(v) => v,
            None => {
                return None;
            },
        };
        let scope = match read_member_opt_text(j, "scope") {
            Some(v) => v,
            None => {
                return None;
            },
        };
        let visibility = match read_member_opt_text(j, "visibility") {
            Some(v) => v,
            None => {
                return None;
            },
        };
        Some(CodeSymbol { name, symbol_type, line_start, line_end, scope, visibility })
    }
}

/// The fields of a list of matching lines.
pub open spec fn searchline_list_fields(items: Seq<SearchLine>) -> Seq<(u64, Seq<char>)> {
    Seq::new(items.len(), |i: int| items[i].fields())
}

/// The fields of the matching lines that the array member `key` lists; nothing
/// where the member is no array or an item is no such record.
pub open spec fn searchline_list_spec(j: JsonView, key: Seq<char>) -> Option<Seq<(u64, Seq<char>)>> {
    match j.get(key) {
        Some(JsonView::Array(items)) => if forall|i: int|
            0 <= i < items.len() ==> SearchLine::read_spec(#[trigger] items[i]) is Some {
            Some(Seq::new(items.len(), |i: int| SearchLine::read_spec(items[i])->Some_0))
        } else {
            None
        },
        _ => None,
    }
}

fn read_searchline_list(j: &Json, key: &str) -> (r: Option<Vec<SearchLine>>)
    ensures
        match r {
            Some(v) => searchline_list_spec(j@, key@) == Some(searchline_list_fields(v@)),
            None => searchline_list_spec(j@, key@) is None,
        },
{
    let items = match j.get(key) {
        Some(list) => match list.as_array() {
            Some(items) => items,
            None => {
                return None;
            },
        },
        None => {
            return None;
        },
    };
    let ghost iv = items_view(items@);
    let mut out: Vec<SearchLine> = Vec::new();
    let mut i: usize = 0;
    while i < items.len()
        invariant
            i <= items.len(),
            iv == items_view(items@),
            j@.get(key@) == Some(JsonView::Array(iv)),
            out@.len() == i,
            forall|k: int|
                0 <= k < i ==> SearchLine::read_spec(#[trigger] iv[k]) == Some(out@[k].fields()),
        decreases items.len() - i,
    {
        assert(iv[i as int] == items@[i as int]@);
        match SearchLine::from_json(&items[i]) {
            Some(x) => {
                out.push(x);
            },
            None => {
                return None;
            },
        }
        i += 1;
    }
    proof {
        assert forall|k: int| 0 <= k < iv.len() implies SearchLine::read_spec(#[trigger] iv[k])
            is Some by {}
        assert(searchline_list_fields(out@) =~= searchline_list_spec(j@, key@)->Some_0);
    }
    Some(out)
}

impl SearchMatch {
    /// The values of the fields, in order.
    pub open spec fn fields(self) -> (Seq<char>, Seq<(u64, Seq<char>)>) {
        (self.path@, searchline_list_fields(self.lines@))
    }

    /// The fields that a document gives; nothing where a member is missing or
    /// of the wrong type.
    pub open spec fn read_spec(j: JsonView) -> Option<(Seq<char>, Seq<(u64, Seq<char>)>)> {
        match member_text(j, "path"@) {
            None => None,
            Some(path) => match searchline_list_spec(j, "lines"@) {
                None => None,
                Some(lines) => Some((path, lines)),
            },
        }
    }

    /// Reads the record from its document.
    pub fn from_json(j: &Json) -> (r: Option<SearchMatch>)
        ensures
            match r {
                Some(x) => Self::read_spec(j@) == Some(x.fields()),
                None => Self::read_spec(j@) is None,
            },
    {
        let path = match read_member_text(j, "path") {
            Some(v) => v,
            None => {
                return None;
            },
        };
        let lines = match read_searchline_list(j, "lines") {
            Some(v) => v,
            None => {
                return None;
            },
        };
        Some(SearchMatch { path, lines })
    }
}

/// The fields of a list of matches of files.
pub open spec fn searchmatch_list_fields(items: Seq<SearchMatch>) -> Seq<(Seq<char>, Seq<(u64, Seq<char>)>)> {
    Seq::new(items.len(), |i: int| items[i].fields())
}

/// The fields of the matches of files that the array member `key` lists; nothing
/// where the member is no array or an item is no such record.
pub open spec fn searchmatch_list_spec(j: JsonView, key: Seq<char>) -> Option<Seq<(Seq<char>, Seq<(u64, Seq<char>)>)>> {
    match j.get(key) {
        Some(JsonView::Array(items)) => if forall|i: int|
            0 <= i < items.len() ==> SearchMatch::read_spec(#[trigger] items[i]) is Some {
            Some(Seq::new(items.len(), |i: int| SearchMatch::read_spec(items[i])->Some_0))
        } else {
            None
        },
        _ => None,
    }
}

fn read_searchmatch_list(j: &Json, key: &str) -> (r: Option<Vec<SearchMatch>>)
    ensures
        match r {
            Some(v) => searchmatch_list_spec(j@, key@) == Some(searchmatch_list_fields(v@)),
            None => searchmatch_list_spec(j@, key@) is None,
        },
{
    let items = match j.get(key) {
        Some(list) => match list.as_array() {
            Some(items) => items,
            None => {
                return None;
            },
        },
        None => {
            return None;
        },
    };
    let ghost iv = items_view(items@);
    let mut out: Vec<SearchMatch> = Vec::new();
    let mut i: usize = 0;
    while i < items.len()
        invariant
            i <= items.len(),
            iv == items_view(items@),
            j@.get(key@) == Some(JsonView::Array(iv)),
            out@.len() == i,
            forall|k: int|
                0 <= k < i ==> SearchMatch::read_spec(#[trigger] iv[k]) == Some(out@[k].fields()),
        decreases items.len() - i,
    {
        assert(iv[i as int] == items@[i as int]@);
        match SearchMatch::from_json(&items[i]) {
            Some(x) => {
                out.push(x);
            },
            None => {
                return None;
            },
        }
        i += 1;
    }
    proof {
        assert forall|k: int| 0 <= k < iv.len() implies SearchMatch::read_spec(#[trigger] iv[k])
            is Some by {}
        assert(searchmatch_list_fields(out@) =~= searchmatch_list_spec(j@, key@)->Some_0);
    }
    Some(out)
}

impl FsSearchResult {
    /// The values of the fields, in order.
    pub open spec fn fields(self) -> (Seq<(Seq<char>, Seq<(u64, Seq<char>)>)>,) {
        (searchmatch_list_fields(self.matches@),)
    }

    /// The fields that a document gives; nothing where a member is missing or
    /// of the wrong type.
    pub open spec fn read_spec(j: JsonView) -> Option<(Seq<(Seq<char>, Seq<(u64, Seq<char>)>)>,)> {
        match searchmatch_list_spec(j, "matches"@) {
            None => None,
            Some(matches) => Some((matches,)),
        }
    }

    /// Reads the record from its document.
    pub fn from_json(j: &Json) -> (r: Option<FsSearchResult>)
        ensures
            match r {
                Some(x) => Self::read_spec(j@) == Some(x.fields()),
                None => Self::read_spec(j@) is None,
            },
    {
        let matches = match read_searchmatch_list(j, "matches") {
            Some(v) => v,
            None => {
                return None;
            },
        };
        Some(FsSearchResult { matches })
    }
}

/// The fields of a list of symbols.
pub open spec fn codesymbol_list_fields(items: Seq<CodeSymbol>) -> Seq<(Seq<char>, Seq<char>, u32, u32, Option<Seq<char>>, Option<Seq<char>>)> {
    Seq::new(items.len(), |i: int| items[i].fields())
}

/// The fields of the symbols that the array member `key` lists; nothing
/// where the member is no array or an item is no such record.
pub open spec fn codesymbol_list_spec(j: JsonView, key: Seq<char>) -> Option<Seq<(Seq<char>, Seq<char>, u32, u32, Option<Seq<char>>, Option<Seq<char>>)>> {
    match j.get(key) {
        Some(JsonView::Array(items)) => if forall|i: int|
            0 <= i < items.len() ==> CodeSymbol::read_spec(#[trigger] items[i]) is Some {
            Some(Seq::new(items.len(), |i: int| CodeSymbol::read_spec(items[i])->Some_0))
        } else {
            None
        },
        _ => None,
    }
}

fn read_codesymbol_list(j: &Json, key: &str) -> (r: Option<Vec<CodeSymbol>>)
    ensures
        match r {
            Some(v) => codesymbol_list_spec(j@, key@) == Some(codesymbol_list_fields(v@)),
            None => codesymbol_list_spec(j@, key@) is None,
        },
{
    let items = match j.get(key) {
        Some(list) => match list.as_array() {
            Some(items) => items,
            None => {
                return None;
            },
        },
        None => {
            return None;
        },
    };
    let ghost iv = items_view(items@);
    let mut out: Vec<CodeSymbol> = Vec::new();
    let mut i: usize = 0;
    while i < items.len()
        invariant
            i <= items.len(),
            iv == items_view(items@),
            j@.get(key@) == Some(JsonView::Array(iv)),
            out@.len() == i,
            forall|k: int|
                0 <= k < i ==> CodeSymbol::read_spec(#[trigger] iv[k]) == Some(out@[k].fields()),
        decreases items.len() - i,
    {
        assert(iv[i as int] == items@[i as int]@);
        match CodeSymbol::from_json(&items[i]) {
            Some(x) => {
                out.push(x);
            },
            None => {
                return None;
            },
        }
        i += 1;
    }
    proof {
        assert forall|k: int| 0 <= k < iv.len() implies CodeSymbol::read_spec(#[trigger] iv[k])
            is Some by {}
        assert(codesymbol_list_fields(out@) =~= codesymbol_list_spec(j@, key@)->Some_0);
    }
    Some(out)
}

impl CodeSymbolsResult {
    /// The values of the fields, in order.
    pub open spec fn fields(self) -> (Seq<(Seq<char>, Seq<char>, u32, u32, Option<Seq<char>>, Option<Seq<char>>)>, Seq<char>) {
        (codesymbol_list_fields(self.symbols@), self.language@)
    }

    /// The fields that a document gives; nothing where a member is missing or
    /// of the wrong type.
    pub open spec fn read_spec(j: JsonView) -> Option<(Seq<(Seq<char>, Seq<char>, u32, u32, Option<Seq<char>>, Option<Seq<char>>)>, Seq<char>)> {
        match codesymbol_list_spec(j, "symbols"@) {
            None => None,
            Some(symbols) => match member_text(j, "language"@) {
                None => None,
                Some(language) => Some((symbols, language)),
            },
        }
    }

    /// Reads the record from its document.
    pub fn from_json(j: &Json) -> (r: Option<CodeSymbolsResult>)
        ensures
            match r {
                Some(x) => Self::read_spec(j@) == Some(x.fields()),
                None => Self::read_spec(j@) is None,
            },
    {
        let symbols = match read_codesymbol_list(j, "symbols") {
            Some(v) => v,
            None => {
                return None;
            },
        };
        let language = match read_member_text(j, "language") {
            Some(v) => v,
            None => {
                return None;
            },
        };
        Some(CodeSymbolsResult { symbols, language })
    }
}

impl FileMatch {
    /// The document of the match with its relevance as the text of a
    /// number; a match without score or without such a text has none.
    pub open spec fn json_with(self, relevance: Option<Seq<char>>) -> JsonView {
        JsonView::Object(
            Seq::empty().push(("path"@, JsonView::Str(self.path@))).push(
                (
                    "score"@,
                    match relevance {
                        Some(text) => if self.score is Some {
                            JsonView::Real(text)
                        } else {
                            JsonView::Null
                        },
                        None => JsonView::Null,
                    },
                ),
            ).push(("match_type"@, JsonView::Str(self.match_type@))),
        )
    }

    /// The document of the match with its relevance as the text of a
    /// number.
    pub fn to_json_with(&self, relevance: &Option<String>) -> (j: Json)
        ensures
            j@ == self.json_with(opt_text(*relevance)),
    {
        let score = match relevance {
            Some(text) => if self.score.is_some() {
                Json::Real(text.clone())
            } else {
                Json::Null
            },
            None => Json::Null,
        };
        let mut f = no_fields();
        push_field(&mut f, "path", Json::Str(self.path.clone()));
        push_field(&mut f, "score", score);
        push_field(&mut f, "match_type", Json::Str(self.match_type.clone()));
        Json::object(f)
    }
}

/// The relevance of the match at a position, where the list holds one.
pub open spec fn relevance_at(relevances: Seq<Option<String>>, i: int) -> Option<Seq<char>> {
    if 0 <= i < relevances.len() {
        opt_text(relevances[i])
    } else {
        None
    }
}

impl FsFindResult {
    /// The document of the result: the matches in order, each with its
    /// relevance from the list, and the time that the look took.
    pub open spec fn json_with(self, relevances: Seq<Option<String>>) -> JsonView {
        JsonView::Object(
            Seq::empty().push(
                (
                    "matches"@,
                    JsonView::Array(
                        Seq::new(
                            self.matches@.len(),
                            |i: int| self.matches@[i].json_with(relevance_at(relevances, i)),
                        ),
                    ),
                ),
            ).push(("search_time_ms"@, uint_view(self.search_time_ms as nat))),
        )
    }

    /// The document of the result. The relevance of each match comes as
    /// the text of a number, in the order of the matches.
    pub fn to_json_with(&self, relevances: &Vec<Option<String>>) -> (j: Json)
        ensures
            j@ == self.json_with(relevances@),
    {
        let mut items = no_items();
        let mut i: usize = 0;
        while i < self.matches.len()
            invariant
                i <= self.matches@.len(),
                items_view(items@) == Seq::new(
                    i as nat,
                    |k: int| self.matches@[k].json_with(relevance_at(relevances@, k)),
                ),
            decreases self.matches.len() - i,
        {
            let item = if i < relevances.len() {
                self.matches[i].to_json_with(&relevances[i])
            } else {
                self.matches[i].to_json_with(&None)
            };
            push_item(&mut items, item);
            assert(items_view(items@) =~= Seq::new(
                (i + 1) as nat,
                |k: int| self.matches@[k].json_with(relevance_at(relevances@, k)),
            ));
            i += 1;
        }
        let mut f = no_fields();
        push_field(&mut f, "matches", Json::array(items));
        push_field(&mut f, "search_time_ms", Json::from_u64(self.search_time_ms));
        Json::object(f)
    }
}

} // verus!
