//! The bulk-context tool: candidate code files are gathered and the model
//! is asked which of them matter for a query.

use vstd::prelude::*;
use vstd::string::StringExecFns;
use crate::events::{AppEvent, EventSender};
use crate::json::{
    items_view, json_parse, no_fields, no_items, push_field, push_item, Json, JsonView,
};
use crate::text::{
    byte_len, byte_length, concat2, concat3, contains, contains_sub, decimal, ends_with, ends_with_spec,
    matches_at, opt_text, starts_with, str_chars, str_eq, string_views, sub_vec, to_lowercase,
    u64_to_string, unicode_lowercase,
};
use crate::agent::agent_logic::HttpOutcome;
use crate::tools::executor::{
    lemma_reported_none, lemma_told_none, lemma_told_one, reported, told, truncate_result,
    truncated, ToolRun,
};
use crate::tools::executors::fs::matching::{extension_of, path_extension};
use crate::tools::types::{CodeFile, LargeContextFetchArgs};

verus! {

/// The number of files that are gathered at most where the arguments do
/// not say.
pub const DEFAULT_MAX_FILES: u32 = 200;

/// `s` without its leading asterisks.
pub open spec fn without_leading_stars(s: Seq<char>) -> Seq<char>
    decreases s.len(),
{
    if s.len() > 0 && s[0] == '*' {
        without_leading_stars(s.skip(1))
    } else {
        s
    }
}

/// Whether a pattern excludes a path: a pattern `*.ext` excludes paths that
/// end in `ext`, any other pattern with an asterisk excludes paths that
/// hold what follows its leading asterisks, and a pattern without one
/// excludes paths that hold it.
pub open spec fn excludes(pattern: Seq<char>, path: Seq<char>) -> bool {
    if pattern.contains('*') {
        if matches_at(pattern, "*."@, 0) {
            ends_with_spec(path, pattern.skip(2))
        } else {
            contains_sub(path, without_leading_stars(pattern))
        }
    } else {
        contains_sub(path, pattern)
    }
}

/// Tests whether a pattern excludes a path.
pub fn is_excluded_by(pattern: &str, path: &str) -> (b: bool)
    ensures
        b == excludes(pattern@, path@),
{
    let p = str_chars(pattern);
    let t = str_chars(path);
    let mut star = false;
    let mut i: usize = 0;
    while i < p.len() && !star
        invariant
            i <= p.len(),
            p@ == pattern@,
            star ==> pattern@.contains('*'),
            !star ==> forall|k: int| 0 <= k < i ==> p@[k] != '*',
        decreases p.len() - i,
    {
        if p[i] == '*' {
            assert(pattern@[i as int] == '*');
            star = true;
        }
        i += 1;
    }
    if !star {
        return contains(t.as_slice(), p.as_slice());
    }
    let prefix = str_chars("*.");
    proof {
        reveal_strlit("*.");
    }
    if starts_with(p.as_slice(), prefix.as_slice()) {
        let ext = sub_vec(p.as_slice(), 2, p.len());
        assert(ext@ == p@.skip(2));
        return ends_with(t.as_slice(), ext.as_slice());
    }
    let mut a: usize = 0;
    assert(p@.skip(0) == p@);
    while a < p.len() && p[a] == '*'
        invariant
            a <= p.len(),
            without_leading_stars(p@) == without_leading_stars(p@.skip(a as int)),
        decreases p.len() - a,
    {
        proof {
            assert(p@.skip(a as int).skip(1) == p@.skip(a + 1));
        }
        a += 1;
    }
    let rest = sub_vec(p.as_slice(), a, p.len());
    assert(rest@ == p@.skip(a as int));
    contains(t.as_slice(), rest.as_slice())
}

/// Whether one of the patterns excludes a path.
pub open spec fn excluded(patterns: Seq<Seq<char>>, path: Seq<char>) -> bool {
    exists|i: int| 0 <= i < patterns.len() && excludes(#[trigger] patterns[i], path)
}

/// Whether the extension, in lower case, is one of the extensions, taken
/// in lower case.
pub open spec fn extension_listed(extensions: Seq<Seq<char>>, ext: Seq<char>) -> bool {
    exists|i: int|
        0 <= i < extensions.len() && unicode_lowercase(#[trigger] extensions[i])
            == unicode_lowercase(ext)
}

/// The extensions of the files that are gathered where the arguments name
/// none.
pub open spec fn default_extensions() -> Seq<Seq<char>> {
    Seq::empty().push("rs"@).push("py"@).push("js"@).push("ts"@).push("tsx"@).push("jsx"@).push(
        "go"@,
    ).push("java"@).push("cpp"@).push("c"@).push("h"@).push("hpp"@).push("cs"@).push("php"@).push(
        "rb"@,
    ).push("swift"@).push("kt"@).push("scala"@).push("clj"@).push("hs"@).push("ml"@).push(
        "elm"@,
    ).push("dart"@).push("vue"@).push("svelte"@).push("md"@).push("toml"@).push("yaml"@).push(
        "yml"@,
    ).push("json"@).push("xml"@)
}

/// The patterns that exclude files where the arguments name none.
pub open spec fn default_excludes() -> Seq<Seq<char>> {
    Seq::empty().push("target"@).push("node_modules"@).push(".git"@).push("dist"@).push(
        "build"@,
    ).push("coverage"@).push(".cache"@).push("vendor"@).push("__pycache__"@).push(
        ".pytest_cache"@,
    ).push("*.lock"@)
}

fn push_text(list: &mut Vec<String>, text: &str)
    ensures
        string_views(final(list)@) == string_views(old(list)@).push(text@),
{
    list.push(String::from_str(text));
    assert(string_views(list@) =~= string_views(old(list)@).push(text@));
}

fn extension_defaults() -> (r: Vec<String>)
    ensures
        string_views(r@) == default_extensions(),
{
    let mut v: Vec<String> = Vec::new();
    assert(string_views(v@) =~= Seq::empty());
    push_text(&mut v, "rs");
    push_text(&mut v, "py");
    push_text(&mut v, "js");
    push_text(&mut v, "ts");
    push_text(&mut v, "tsx");
    push_text(&mut v, "jsx");
    push_text(&mut v, "go");
    push_text(&mut v, "java");
    push_text(&mut v, "cpp");
    push_text(&mut v, "c");
    push_text(&mut v, "h");
    push_text(&mut v, "hpp");
    push_text(&mut v, "cs");
    push_text(&mut v, "php");
    push_text(&mut v, "rb");
    push_text(&mut v, "swift");
    push_text(&mut v, "kt");
    push_text(&mut v, "scala");
    push_text(&mut v, "clj");
    push_text(&mut v, "hs");
    push_text(&mut v, "ml");
    push_text(&mut v, "elm");
    push_text(&mut v, "dart");
    push_text(&mut v, "vue");
    push_text(&mut v, "svelte");
    push_text(&mut v, "md");
    push_text(&mut v, "toml");
    push_text(&mut v, "yaml");
    push_text(&mut v, "yml");
    push_text(&mut v, "json");
    push_text(&mut v, "xml");
    v
}

fn exclude_defaults() -> (r: Vec<String>)
    ensures
        string_views(r@) == default_excludes(),
{
    let mut v: Vec<String> = Vec::new();
    assert(string_views(v@) =~= Seq::empty());
    push_text(&mut v, "target");
    push_text(&mut v, "node_modules");
    push_text(&mut v, ".git");
    push_text(&mut v, "dist");
    push_text(&mut v, "build");
    push_text(&mut v, "coverage");
    push_text(&mut v, ".cache");
    push_text(&mut v, "vendor");
    push_text(&mut v, "__pycache__");
    push_text(&mut v, ".pytest_cache");
    push_text(&mut v, "*.lock");
    v
}

/// The value of a gathered file: its path, its contents, its language,
/// its size in bytes, and whether its contents were cut.
pub type CodeFileView = (Seq<char>, Seq<char>, Option<Seq<char>>, u64, bool);

/// The value of a gathered file.
pub open spec fn code_file_view(f: CodeFile) -> CodeFileView {
    (f.path@, f.contents@, opt_text(f.language), f.size_bytes, f.truncated)
}

/// The values of gathered files.
pub open spec fn code_files_view(files: Seq<CodeFile>) -> Seq<CodeFileView> {
    Seq::new(files.len(), |i: int| code_file_view(files[i]))
}

/// The gathering of candidate files in progress.
pub struct CodeGatherer {
    extensions: Vec<String>,
    exclude_patterns: Vec<String>,
    max_files: u32,
    files: Vec<CodeFile>,
}

impl CodeGatherer {
    /// The extensions of the files that are gathered.
    pub closed spec fn extensions_spec(&self) -> Seq<Seq<char>> {
        string_views(self.extensions@)
    }

    /// The patterns that exclude files.
    pub closed spec fn excludes_spec(&self) -> Seq<Seq<char>> {
        string_views(self.exclude_patterns@)
    }

    /// The number of files that are gathered at most.
    pub closed spec fn limit(&self) -> nat {
        self.max_files as nat
    }

    /// The files gathered so far.
    pub closed spec fn files_spec(&self) -> Seq<CodeFileView> {
        code_files_view(self.files@)
    }

    /// The sizes of the gathered files are those of their contents, and
    /// none counts as cut.
    pub closed spec fn well_formed(&self) -> bool {
        forall|i: int|
            0 <= i < self.files@.len() ==> (#[trigger] self.files@[i]).size_bytes == byte_len(
                self.files@[i].contents@,
            ) && !self.files@[i].truncated
    }

    /// Sets the gathering up with the extensions, the exclusions and the
    /// limit of the arguments, or with the defaults where they are absent.
    pub fn new(args: &LargeContextFetchArgs) -> (r: CodeGatherer)
        ensures
            r.well_formed(),
            r.files_spec().len() == 0,
            r.extensions_spec() == (match args.include_extensions {
                Some(e) => string_views(e@),
                None => default_extensions(),
            }),
            r.excludes_spec() == (match args.exclude_patterns {
                Some(e) => string_views(e@),
                None => default_excludes(),
            }),
            r.limit() == (match args.max_files {
                Some(n) => n as nat,
                None => DEFAULT_MAX_FILES as nat,
            }),
    {
        let r = CodeGatherer {
            extensions: match &args.include_extensions {
                Some(e) => e.clone(),
                None => extension_defaults(),
            },
            exclude_patterns: match &args.exclude_patterns {
                Some(e) => e.clone(),
                None => exclude_defaults(),
            },
            max_files: match args.max_files {
                Some(n) => n,
                None => DEFAULT_MAX_FILES,
            },
            files: Vec::new(),
        };
        assert(code_files_view(r.files@) =~= Seq::empty());
        r
    }

    /// Whether as many files are gathered as may be.
    pub fn is_done(&self) -> (b: bool)
        ensures
            b == (self.files_spec().len() >= self.limit()),
    {
        self.files.len() >= self.max_files as usize
    }

    /// Whether the file at the path is a candidate: no pattern excludes it
    /// and its extension is one of the extensions.
    #[verifier::loop_isolation(false)]
    pub fn wants(&self, path: &str) -> (b: bool)
        ensures
            b == (!excluded(self.excludes_spec(), path@) && (match extension_of(path@) {
                Some(ext) => extension_listed(self.extensions_spec(), ext),
                None => false,
            })),
    {
        let ghost pv = string_views(self.exclude_patterns@);
        let mut i: usize = 0;
        while i < self.exclude_patterns.len()
            invariant
                i <= self.exclude_patterns@.len(),
                forall|k: int| 0 <= k < i ==> !excludes(#[trigger] pv[k], path@),
            decreases self.exclude_patterns.len() - i,
        {
            assert(pv[i as int] == self.exclude_patterns@[i as int]@);
            if is_excluded_by(self.exclude_patterns[i].as_str(), path) {
                assert(excludes(pv[i as int], path@));
                return false;
            }
            i += 1;
        }
        let ext = match path_extension(path) {
            Some(e) => to_lowercase(e.as_str()),
            None => {
                return false;
            },
        };
        let ghost ev = string_views(self.extensions@);
        let ghost raw = extension_of(path@)->Some_0;
        let mut k: usize = 0;
        while k < self.extensions.len()
            invariant
                k <= self.extensions@.len(),
                forall|j: int|
                    0 <= j < k ==> unicode_lowercase(#[trigger] ev[j]) != unicode_lowercase(raw),
            decreases self.extensions.len() - k,
        {
            assert(ev[k as int] == self.extensions@[k as int]@);
            let listed = to_lowercase(self.extensions[k].as_str());
            if str_eq(listed.as_str(), ext.as_str()) {
                assert(unicode_lowercase(ev[k as int]) == unicode_lowercase(raw));
                return true;
            }
            k += 1;
        }
        false
    }

    /// Takes a candidate file with its contents. Once as many files are
    /// gathered as may be nothing more is taken.
    pub fn add(&mut self, path: &str, contents: String)
        requires
            old(self).well_formed(),
        ensures
            final(self).well_formed(),
            final(self).extensions_spec() == old(self).extensions_spec(),
            final(self).excludes_spec() == old(self).excludes_spec(),
            final(self).limit() == old(self).limit(),
            final(self).files_spec() == (if old(self).files_spec().len() >= old(self).limit() {
                old(self).files_spec()
            } else {
                old(self).files_spec().push(
                    (
                        path@,
                        contents@,
                        match extension_of(path@) {
                            Some(ext) => Some(unicode_lowercase(ext)),
                            None => None,
                        },
                        byte_len(contents@) as u64,
                        false,
                    ),
                )
            }),
    {
        if self.files.len() >= self.max_files as usize {
            return ;
        }
        let language = match path_extension(path) {
            Some(e) => Some(to_lowercase(e.as_str())),
            None => None,
        };
        let ghost before = code_files_view(self.files@);
        let f = CodeFile {
            path: String::from_str(path),
            size_bytes: byte_length(contents.as_str()) as u64,
            contents,
            language,
            truncated: false,
        };
        self.files.push(f);
        assert(code_files_view(self.files@) =~= before.push(code_file_view(f)));
    }

    /// Ends the gathering. Without any file there is nothing to analyze.
    /// The files come whole: the size of each is that of its contents in
    /// bytes, and none counts as cut.
    pub fn finish(self) -> (r: Result<Vec<CodeFile>, String>)
        ensures
            match r {
                Ok(files) => files@.len() > 0 && code_files_view(files@) == self.files_spec()
                    && (self.well_formed() ==> forall|i: int|
                    0 <= i < files@.len() ==> (#[trigger] files@[i]).size_bytes == byte_len(
                        files@[i].contents@,
                    ) && !files@[i].truncated),
                Err(e) => self.files_spec().len() == 0 && e@ == "No code files found to analyze"@,
            },
    {
        if self.files.len() == 0 {
            Err(String::from_str("No code files found to analyze"))
        } else {
            Ok(self.files)
        }
    }
}

// ---------------------------------------------------------------------------
// The request and its answer
// ---------------------------------------------------------------------------

/// The instructions for the model.
pub open spec fn relevance_prompt() -> Seq<char> {
    "You are a code analysis assistant.\nGiven a user query and a list of files ({ file_path, content }), identify which files are relevant.\nReturn ONLY a strict JSON array of objects, each with:\n- \"file_path\": string (the exact path provided to you)\n- \"reason\": string (brief explanation why this file is relevant)\nDo not include any other fields or wrapper keys.\nNO prose, NO markdown, NO code fences\u{2014}just valid JSON."@
}

/// The document of a gathered file for the model.
pub open spec fn file_json(f: CodeFileView) -> JsonView {
    JsonView::Object(
        Seq::empty().push(("file_path"@, JsonView::Str(f.0))).push(("content"@, JsonView::Str(f.1))),
    )
}

/// The document with the query and the files.
pub open spec fn query_json(user_query: Seq<char>, files: Seq<CodeFileView>) -> JsonView {
    JsonView::Object(
        Seq::empty().push(("user_query"@, JsonView::Str(user_query))).push(
            ("files"@, JsonView::Array(Seq::new(files.len(), |i: int| file_json(files[i])))),
        ),
    )
}

/// A property of the answer that is a string with a description.
pub open spec fn described_string(description: Seq<char>) -> JsonView {
    JsonView::Object(
        Seq::empty().push(("type"@, JsonView::Str("string"@))).push(
            ("description"@, JsonView::Str(description)),
        ),
    )
}

/// The format that the answer must have: an array of objects with a file
/// path and a reason.
pub open spec fn response_format() -> JsonView {
    JsonView::Object(
        Seq::empty().push(("type"@, JsonView::Str("json_schema"@))).push(
            (
                "json_schema"@,
                JsonView::Object(
                    Seq::empty().push(("name"@, JsonView::Str("file_relevance_list"@))).push(
                        ("strict"@, JsonView::Bool(true)),
                    ).push(
                        (
                            "schema"@,
                            JsonView::Object(
                                Seq::empty().push(("type"@, JsonView::Str("array"@))).push(
                                    (
                                        "items"@,
                                        JsonView::Object(
                                            Seq::empty().push(
                                                ("type"@, JsonView::Str("object"@)),
                                            ).push(
                                                (
                                                    "properties"@,
                                                    JsonView::Object(
                                                        Seq::empty().push(
                                                            (
                                                                "file_path"@,
                                                                described_string(
                                                                    "Full path of the relevant file as provided in input"@,
                                                                ),
                                                            ),
                                                        ).push(
                                                            (
                                                                "reason"@,
                                                                described_string(
                                                                    "Short explanation of why this file is relevant to the user query"@,
                                                                ),
                                                            ),
                                                        ),
                                                    ),
                                                ),
                                            ).push(
                                                (
                                                    "required"@,
                                                    JsonView::Array(
                                                        Seq::empty().push(
                                                            JsonView::Str("file_path"@),
                                                        ).push(JsonView::Str("reason"@)),
                                                    ),
                                                ),
                                            ).push(("additionalProperties"@, JsonView::Bool(false))),
                                        ),
                                    ),
                                ),
                            ),
                        ),
                    ),
                ),
            ),
        ),
    )
}

/// The body of the request: the model, the instructions, the query with
/// the files as the text of a document, and the format of the answer.
pub open spec fn relevance_request(model: Seq<char>, user_query: Seq<char>, files: Seq<CodeFileView>)
    -> JsonView {
    JsonView::Object(
        Seq::empty().push(("model"@, JsonView::Str(model))).push(
            (
                "messages"@,
                JsonView::Array(
                    Seq::empty().push(
                        crate::agent::agent_logic::plain_message("system"@, relevance_prompt()),
                    ).push(
                        crate::agent::agent_logic::plain_message(
                            "user"@,
                            crate::json::json_text(query_json(user_query, files)),
                        ),
                    ),
                ),
            ),
        ).push(("response_format"@, response_format())),
    )
}

fn described(description: &str) -> (j: Json)
    ensures
        j@ == described_string(description@),
{
    let mut f = no_fields();
    push_field(&mut f, "type", Json::string("string"));
    push_field(&mut f, "description", Json::string(description));
    Json::object(f)
}

fn build_response_format() -> (j: Json)
    ensures
        j@ == response_format(),
{
    let mut properties = no_fields();
    push_field(
        &mut properties,
        "file_path",
        described("Full path of the relevant file as provided in input"),
    );
    push_field(
        &mut properties,
        "reason",
        described("Short explanation of why this file is relevant to the user query"),
    );
    let mut required = no_items();
    push_item(&mut required, Json::string("file_path"));
    push_item(&mut required, Json::string("reason"));
    let mut items = no_fields();
    push_field(&mut items, "type", Json::string("object"));
    push_field(&mut items, "properties", Json::object(properties));
    push_field(&mut items, "required", Json::array(required));
    push_field(&mut items, "additionalProperties", Json::Bool(false));
    let mut schema = no_fields();
    push_field(&mut schema, "type", Json::string("array"));
    push_field(&mut schema, "items", Json::object(items));
    let mut json_schema = no_fields();
    push_field(&mut json_schema, "name", Json::string("file_relevance_list"));
    push_field(&mut json_schema, "strict", Json::Bool(true));
    push_field(&mut json_schema, "schema", Json::object(schema));
    let mut format = no_fields();
    push_field(&mut format, "type", Json::string("json_schema"));
    push_field(&mut format, "json_schema", Json::object(json_schema));
    Json::object(format)
}

fn plain(role: &str, content: &str) -> (j: Json)
    ensures
        j@ == crate::agent::agent_logic::plain_message(role@, content@),
{
    let mut f = no_fields();
    push_field(&mut f, "role", Json::string(role));
    push_field(&mut f, "content", Json::string(content));
    Json::object(f)
}

/// The body of the request that asks the model which files matter.
pub fn build_request(model: &str, user_query: &str, files: &Vec<CodeFile>) -> (body: Json)
    ensures
        body@ == relevance_request(model@, user_query@, code_files_view(files@)),
{
    let mut listed = no_items();
    let mut i: usize = 0;
    while i < files.len()
        invariant
            i <= files.len(),
            items_view(listed@) == Seq::new(
                i as nat,
                |k: int| file_json(code_file_view(files@[k])),
            ),
        decreases files.len() - i,
    {
        let mut f = no_fields();
        push_field(&mut f, "file_path", Json::Str(files[i].path.clone()));
        push_field(&mut f, "content", Json::Str(files[i].contents.clone()));
        push_item(&mut listed, Json::object(f));
        assert(items_view(listed@) =~= Seq::new(
            (i + 1) as nat,
            |k: int| file_json(code_file_view(files@[k])),
        ));
        i += 1;
    }
    assert(items_view(listed@) =~= Seq::new(
        code_files_view(files@).len(),
        |k: int| file_json(code_files_view(files@)[k]),
    ));
    let mut query = no_fields();
    push_field(&mut query, "user_query", Json::string(user_query));
    push_field(&mut query, "files", Json::array(listed));
    let question = Json::object(query).to_text();
    let mut messages = no_items();
    push_item(
        &mut messages,
        plain(
            "system",
            "You are a code analysis assistant.\nGiven a user query and a list of files ({ file_path, content }), identify which files are relevant.\nReturn ONLY a strict JSON array of objects, each with:\n- \"file_path\": string (the exact path provided to you)\n- \"reason\": string (brief explanation why this file is relevant)\nDo not include any other fields or wrapper keys.\nNO prose, NO markdown, NO code fences\u{2014}just valid JSON.",
        ),
    );
    push_item(&mut messages, plain("user", question.as_str()));
    let mut body = no_fields();
    push_field(&mut body, "model", Json::string(model));
    push_field(&mut body, "messages", Json::array(messages));
    push_field(&mut body, "response_format", build_response_format());
    Json::object(body)
}

/// The content of the first choice of an answer, where the answer has
/// one.
pub open spec fn answer_content(response: JsonView) -> Option<JsonView> {
    match response.get("choices"@) {
        Some(JsonView::Array(choices)) => if choices.len() > 0 {
            match choices[0].get("message"@) {
                Some(m) => m.get("content"@),
                None => None,
            }
        } else {
            None
        },
        _ => None,
    }
}

/// The selection that an answer holds: its content, read as a document
/// where it is a text; it must be an array.
pub open spec fn selection(response: JsonView) -> Result<JsonView, Seq<char>> {
    match answer_content(response) {
        None => Err("Invalid LLM response format: missing choices[0].message.content"@),
        Some(JsonView::Str(text)) => match json_parse(text) {
            None => Err("LLM content was not valid JSON"@),
            Some(doc) => if doc is Array {
                Ok(doc)
            } else {
                Err("LLM response was not a JSON array as required by schema"@)
            },
        },
        Some(other) => if other is Array {
            Ok(other)
        } else {
            Err("LLM response was not a JSON array as required by schema"@)
        },
    }
}

/// Reads the selection of the model from its answer.
pub fn read_selection(response: &Json) -> (r: Result<Json, String>)
    ensures
        match selection(response@) {
            Ok(doc) => r matches Ok(j) && j@ == doc,
            Err(why) => r matches Err(e) && matches_at(e@, why, 0),
        },
{
    let missing = "Invalid LLM response format: missing choices[0].message.content";
    proof {
        assert(missing@.subrange(0, missing@.len() as int) =~= missing@);
    }
    let choices = match response.get("choices") {
        Some(c) => match c.as_array() {
            Some(items) => items,
            None => {
                return Err(String::from_str(missing));
            },
        },
        None => {
            return Err(String::from_str(missing));
        },
    };
    if choices.len() == 0 {
        return Err(String::from_str(missing));
    }
    assert(items_view(choices@)[0] == choices@[0]@);
    let content = match choices[0].get("message") {
        Some(m) => match m.get("content") {
            Some(c) => c,
            None => {
                return Err(String::from_str(missing));
            },
        },
        None => {
            return Err(String::from_str(missing));
        },
    };
    let not_array = "LLM response was not a JSON array as required by schema";
    proof {
        assert(not_array@.subrange(0, not_array@.len() as int) =~= not_array@);
    }
    let doc = match content.as_str() {
        Some(text) => match Json::parse(text) {
            Ok(d) => d,
            Err(e) => {
                let full = concat3("LLM content was not valid JSON", ": ", e.as_str());
                proof {
                    assert(full@.subrange(0, "LLM content was not valid JSON"@.len() as int)
                        =~= "LLM content was not valid JSON"@);
                }
                return Err(full);
            },
        },
        None => content.deep_clone(),
    };
    if !doc.is_array() {
        return Err(String::from_str(not_array));
    }
    Ok(doc)
}

/// The key and the model for the request, where both are configured.
pub fn credentials(api_key: Option<String>, model: Option<String>) -> (r: Result<
    (String, String),
    String,
>)
    ensures
        match (api_key, model) {
            (None, _) => r matches Err(e) && e@
                == "No API key found. Set OPENROUTER_API_KEY environment variable"@,
            (Some(_), None) => r matches Err(e) && e@
                == "No model found. Set OPENROUTER_MODEL environment variable"@,
            (Some(k), Some(m)) => r == Ok::<(String, String), String>((k, m)),
        },
{
    match api_key {
        None => Err(
            String::from_str("No API key found. Set OPENROUTER_API_KEY environment variable"),
        ),
        Some(k) => match model {
            None => Err(
                String::from_str("No model found. Set OPENROUTER_MODEL environment variable"),
            ),
            Some(m) => Ok((k, m)),
        },
    }
}

/// The endpoint of the request: the configured one, else that of the
/// primary provider.
pub fn endpoint(configured: Option<String>) -> (url: String)
    ensures
        url@ == (match configured {
            Some(u) => u@,
            None => crate::agent::agent_logic::openrouter_url(),
        }),
{
    match configured {
        Some(u) => u,
        None => String::from_str("https://openrouter.ai/api/v1/chat/completions"),
    }
}

/// LLM-powered tool executor.
pub struct LlmExecutor {
    event_sender: EventSender,
    max_output_size: usize,
}

impl LlmExecutor {
    /// An executor that emits on the given bus and bounds its results.
    pub fn new(event_sender: EventSender, max_output_size: usize) -> (r: Self)
        ensures
            r.max_output_size_spec() == max_output_size,
    {
        Self { event_sender, max_output_size }
    }

    /// The bound on the size of results, in bytes.
    pub closed spec fn max_output_size_spec(&self) -> usize {
        self.max_output_size
    }

    fn emit(&self, event: Option<AppEvent>) {
        match event {
            Some(ev) => {
                let _ = self.event_sender.send(ev);
            },
            None => {},
        }
    }

    /// Announces the gathering of the files.
    pub fn announce_gathering(&self, run: &mut ToolRun)
        requires
            old(run).well_formed(),
        ensures
            final(run).well_formed(),
            final(run).id_spec() == old(run).id_spec(),
            final(run).ended_spec() == old(run).ended_spec(),
            final(run).has_result_spec() == old(run).has_result_spec(),
            crate::tools::executor::executor_added(old(run).trace(), final(run).trace()),
            told(
                *old(run),
                *final(run),
                Seq::empty().push("Gathering code files for analysis..."@),
            ),
    {
        let event = run.progress(String::from_str("Gathering code files for analysis..."));
        proof {
            if event is Some {
                assert(run.trace().drop_last() == old(run).trace());
            }
            crate::tools::executor::lemma_executor_added_one(old(run).trace(), run.trace());
            lemma_told_one(*old(run), *run, "Gathering code files for analysis..."@);
        }
        self.emit(event);
    }

    /// The text that announces the request for a number of files.
    pub open spec fn sending_text(count: nat) -> Seq<char> {
        "Sending "@ + decimal(count)
            + " files to LLM for relevance reasoning (structured outputs)..."@
    }

    /// Announces the request and builds its body.
    pub fn prepare_request(
        &self,
        run: &mut ToolRun,
        model: &str,
        user_query: &str,
        files: &Vec<CodeFile>,
    ) -> (body: Json)
        requires
            old(run).well_formed(),
        ensures
            final(run).well_formed(),
            final(run).id_spec() == old(run).id_spec(),
            final(run).ended_spec() == old(run).ended_spec(),
            final(run).has_result_spec() == old(run).has_result_spec(),
            crate::tools::executor::executor_added(old(run).trace(), final(run).trace()),
            told(*old(run), *final(run), Seq::empty().push(Self::sending_text(files@.len()))),
            body@ == relevance_request(model@, user_query@, code_files_view(files@)),
    {
        let count = u64_to_string(files.len() as u64);
        let event = run.progress(
            concat3(
                "Sending ",
                count.as_str(),
                " files to LLM for relevance reasoning (structured outputs)...",
            ),
        );
        proof {
            if event is Some {
                assert(run.trace().drop_last() == old(run).trace());
            }
            crate::tools::executor::lemma_executor_added_one(old(run).trace(), run.trace());
            lemma_told_one(*old(run), *run, Self::sending_text(files@.len()));
        }
        self.emit(event);
        build_request(model, user_query, files)
    }

    /// Ends the call with the answer of the model: the selection is
    /// emitted as the result and handed back bounded in size.
    pub fn execute_large_context_fetch_with_result(&self, run: &mut ToolRun, response: &Json) -> (r:
        Result<Json, String>)
        requires
            old(run).well_formed(),
        ensures
            crate::tools::executor::executor_added(old(run).trace(), final(run).trace()),
            r is Ok && !old(run).ended_spec() ==> final(run).has_result_spec(),
            r is Err ==> final(run).has_result_spec() == old(run).has_result_spec(),
            final(run).well_formed(),
            final(run).id_spec() == old(run).id_spec(),
            final(run).ended_spec() == old(run).ended_spec(),
            match selection(response@) {
                Ok(doc) => r matches Ok(j) && j@ == truncated(
                    doc,
                    self.max_output_size_spec() as nat,
                ) && reported(*old(run), *final(run), Seq::empty(), doc),
                Err(why) => r matches Err(e) && matches_at(e@, why, 0) && final(run).has_result_spec() == old(run).has_result_spec()
                    && told(*old(run), *final(run), Seq::empty()),
            },
    {
        match read_selection(response) {
            Ok(doc) => {
                let shown = doc.deep_clone();
                let event = run.result(shown);
                proof {
                    if event is Some {
                        assert(run.trace().drop_last() == old(run).trace());
                    }
                    crate::tools::executor::lemma_executor_added_one(old(run).trace(), run.trace());
                    lemma_reported_none(*old(run), *run, doc@);
                }
                self.emit(event);
                Ok(truncate_result(doc, self.max_output_size))
            },
            Err(e) => {
                proof {
                    crate::tools::executor::lemma_executor_added_one(old(run).trace(), run.trace());
                    lemma_told_none(*old(run), *run);
                }
                Err(e)
            },
        }
    }

    /// The error of a request that did not get through.
    pub open spec fn transport_failure(why: Seq<char>) -> Seq<char> {
        "Failed to make LLM request: "@ + why
    }

    /// The error of a request that the provider refused.
    pub open spec fn status_failure(status: Seq<char>, body: Seq<char>) -> Seq<char> {
        "LLM API request failed with status "@ + status + ": "@ + body
    }

    /// The answer of the model that the outcome of the request holds: the
    /// document of the body of a successful answer. A request that did not
    /// get through, an answer with another status and a body that is no
    /// document are errors; the last begins with `Failed to parse LLM
    /// response: ` and goes on with what the parser said.
    pub fn read_response(outcome: HttpOutcome) -> (r: Result<Json, String>)
        ensures
            match outcome {
                HttpOutcome::TransportError(why) => r matches Err(e) && e@
                    == Self::transport_failure(why@),
                HttpOutcome::Status { success, status, body } => if !success {
                    r matches Err(e) && e@ == Self::status_failure(status@, body@)
                } else {
                    match json_parse(body@) {
                        Some(doc) => r matches Ok(j) && j@ == doc,
                        None => r matches Err(e) && matches_at(
                            e@,
                            "Failed to parse LLM response: "@,
                            0,
                        ),
                    }
                },
            },
    {
        match outcome {
            HttpOutcome::TransportError(why) => Err(
                concat2("Failed to make LLM request: ", why.as_str()),
            ),
            HttpOutcome::Status { success, status, body } => {
                if !success {
                    let head = concat3("LLM API request failed with status ", status.as_str(), ": ");
                    Err(concat2(head.as_str(), body.as_str()))
                } else {
                    match Json::parse(body.as_str()) {
                        Ok(doc) => Ok(doc),
                        Err(e) => {
                            let text = concat2("Failed to parse LLM response: ", e.as_str());
                            assert(text@.subrange(0, "Failed to parse LLM response: "@.len() as int)
                                =~= "Failed to parse LLM response: "@);
                            Err(text)
                        },
                    }
                }
            },
        }
    }

    /// The same as `execute_large_context_fetch_with_result`, without the
    /// result.
    pub fn execute_large_context_fetch(&self, run: &mut ToolRun, response: &Json) -> (r: Result<
        (),
        String,
    >)
        requires
            old(run).well_formed(),
        ensures
            final(run).well_formed(),
            r is Ok <==> selection(response@) is Ok,
            match selection(response@) {
                Ok(doc) => reported(*old(run), *final(run), Seq::empty(), doc),
                Err(why) => r matches Err(e) && matches_at(e@, why, 0) && told(
                    *old(run),
                    *final(run),
                    Seq::empty(),
                ),
            },
    {
        match self.execute_large_context_fetch_with_result(run, response) {
            Ok(_) => Ok(()),
            Err(e) => Err(e),
        }
    }
}

} // verus!
