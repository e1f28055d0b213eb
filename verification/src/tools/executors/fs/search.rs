//! Searching the lines of files.

use vstd::prelude::*;
use vstd::string::StringExecFns;
use crate::text::{
    chars_to_string, concat2, concat3, contains, contains_sub, lines, lines_spec, matches_at,
    str_chars, str_eq, string_views, to_lowercase, unicode_lowercase, views,
};
use crate::tools::executors::fs::matching::{
    build_glob_set, build_regex, extension_of, glob_compiles, glob_error_text, glob_pattern,
    glob_patterns, glob_set_builds, glob_set_is_match, glob_set_matches, glob_set_patterns, new_glob,
    path_extension, path_glob, regex_compiles, regex_error_text, regex_is_match, regex_matches,
    regex_options, regex_pattern, to_path_glob,
};
use crate::tools::types::{FsSearchArgs, FsSearchResult, SearchLine, SearchMatch};

verus! {

/// The number of matching lines a search finds at most where the
/// arguments do not say.
pub const DEFAULT_MAX_RESULTS: usize = 100;

/// How a line is tested.
pub enum LineRule {
    /// The regular expression of the pattern and the options matches in
    /// the line.
    Regex(Seq<char>, Seq<bool>),
    /// The lowercase form of the line holds the lowercase form of the
    /// query.
    Folded(Seq<char>),
    /// The line holds the query.
    Plain(Seq<char>),
}

/// Whether a line passes the test.
pub open spec fn line_matches(rule: LineRule, line: Seq<char>) -> bool {
    match rule {
        LineRule::Regex(pattern, options) => regex_matches(pattern, options, line),
        LineRule::Folded(query) => contains_sub(unicode_lowercase(line), unicode_lowercase(query)),
        LineRule::Plain(query) => contains_sub(line, query),
    }
}

/// The matching lines among the first `n` lines, with their numbers from
/// 1, as far as the budget goes.
pub open spec fn line_hits(lines: Seq<Seq<char>>, rule: LineRule, n: nat, budget: nat) -> Seq<
    (u64, Seq<char>),
>
    decreases n,
{
    if n == 0 || n > lines.len() {
        Seq::empty()
    } else {
        let before = line_hits(lines, rule, (n - 1) as nat, budget);
        if before.len() < budget && line_matches(rule, lines[n - 1]) {
            before.push((n as u64, lines[n - 1]))
        } else {
            before
        }
    }
}

/// Whether files with the extension hold no text to search.
pub open spec fn is_binary_extension(ext: Seq<char>) -> bool {
    ext == "exe"@ || ext == "dll"@ || ext == "so"@ || ext == "dylib"@ || ext == "bin"@ || ext
        == "png"@ || ext == "jpg"@ || ext == "jpeg"@ || ext == "gif"@ || ext == "pdf"@
}

/// Tests whether files with the extension hold no text to search.
pub fn binary_extension(ext: &str) -> (b: bool)
    ensures
        b == is_binary_extension(ext@),
{
    str_eq(ext, "exe") || str_eq(ext, "dll") || str_eq(ext, "so") || str_eq(ext, "dylib") || str_eq(
        ext,
        "bin",
    ) || str_eq(ext, "png") || str_eq(ext, "jpg") || str_eq(ext, "jpeg") || str_eq(ext, "gif")
        || str_eq(ext, "pdf")
}

/// The value of a matching line.
pub open spec fn hit_view(line: SearchLine) -> (u64, Seq<char>) {
    (line.ln, line.text@)
}

/// The values of matching lines.
pub open spec fn hits_view(lines: Seq<SearchLine>) -> Seq<(u64, Seq<char>)> {
    Seq::new(lines.len(), |i: int| hit_view(lines[i]))
}

/// The value of the matches of a file.
pub open spec fn match_view(m: SearchMatch) -> (Seq<char>, Seq<(u64, Seq<char>)>) {
    (m.path@, hits_view(m.lines@))
}

/// The values of the matches of files.
pub open spec fn matches_view(ms: Seq<SearchMatch>) -> Seq<(Seq<char>, Seq<(u64, Seq<char>)>)> {
    Seq::new(ms.len(), |i: int| match_view(ms[i]))
}

/// The globs on paths for the patterns of a search.
pub open spec fn path_globs(patterns: Seq<Seq<char>>) -> Seq<Seq<char>> {
    Seq::new(patterns.len(), |i: int| path_glob(patterns[i]))
}

/// A search in progress: which lines count, which paths count, and what
/// was found so far.
pub struct FsSearch {
    regex: Option<regex::Regex>,
    globs: Option<globset::GlobSet>,
    query: String,
    case_insensitive: bool,
    max_results: usize,
    total: usize,
    matches: Vec<SearchMatch>,
}

impl FsSearch {
    /// How the search tests a line.
    pub closed spec fn rule(&self) -> LineRule {
        match self.regex {
            Some(re) => LineRule::Regex(regex_pattern(re), regex_options(re)),
            None => if self.case_insensitive {
                LineRule::Folded(self.query@)
            } else {
                LineRule::Plain(self.query@)
            },
        }
    }

    /// The globs of which a path must match one, where the search has
    /// any.
    pub closed spec fn scope(&self) -> Option<Seq<Seq<char>>> {
        match self.globs {
            Some(set) => Some(glob_set_patterns(set)),
            None => None,
        }
    }

    /// The number of matching lines that the search finds at most.
    pub closed spec fn limit(&self) -> nat {
        self.max_results as nat
    }

    /// The number of matching lines found so far.
    pub closed spec fn found(&self) -> nat {
        self.total as nat
    }

    /// The matches found so far, file by file.
    pub closed spec fn matches_spec(&self) -> Seq<(Seq<char>, Seq<(u64, Seq<char>)>)> {
        matches_view(self.matches@)
    }

    /// The search keeps within its limit.
    pub closed spec fn well_formed(&self) -> bool {
        self.total <= self.max_results
    }

    /// Sets a search up: compiles the regular expression where the query
    /// is one, and the globs where there are any. A pattern that does not
    /// compile is an error.
    #[verifier::loop_isolation(false)]
    pub fn new(args: &FsSearchArgs) -> (r: Result<FsSearch, String>)
        ensures
            match r {
                Ok(s) => {
                    &&& args.regex ==> regex_compiles(
                        args.query@,
                        Seq::empty().push(args.case_insensitive).push(args.multiline),
                    )
                    &&& match args.globs {
                        Some(globs) => globs@.len() > 0 ==> glob_set_builds(
                            path_globs(string_views(globs@)),
                        ) && forall|i: int|
                            0 <= i < globs@.len() ==> glob_compiles(
                                path_glob(#[trigger] globs@[i]@),
                            ),
                        None => true,
                    }
                    &&& s.well_formed()
                    &&& s.found() == 0
                    &&& s.matches_spec().len() == 0
                    &&& s.limit() == (match args.max_results {
                        Some(n) => n as nat,
                        None => DEFAULT_MAX_RESULTS as nat,
                    })
                    &&& s.rule() == (if args.regex {
                        LineRule::Regex(
                            args.query@,
                            Seq::empty().push(args.case_insensitive).push(args.multiline),
                        )
                    } else if args.case_insensitive {
                        LineRule::Folded(args.query@)
                    } else {
                        LineRule::Plain(args.query@)
                    })
                    &&& s.scope() == (match args.globs {
                        Some(globs) => if globs@.len() == 0 {
                            None
                        } else {
                            Some(path_globs(string_views(globs@)))
                        },
                        None => None,
                    })
                },
                Err(e) => {
                    ||| args.regex && !regex_compiles(
                        args.query@,
                        Seq::empty().push(args.case_insensitive).push(args.multiline),
                    ) && matches_at(e@, "Invalid regex: "@, 0)
                    ||| args.globs matches Some(globs) && (exists|i: int|
                        0 <= i < globs@.len() && !glob_compiles(path_glob(#[trigger] globs@[i]@)))
                        && matches_at(e@, "Invalid glob pattern "@, 0)
                    ||| args.globs matches Some(globs) && !glob_set_builds(
                        path_globs(string_views(globs@)),
                    ) && matches_at(e@, "Failed to build globset: "@, 0)
                },
            },
    {
        let regex = if args.regex {
            match build_regex(args.query.as_str(), args.case_insensitive, args.multiline) {
                Ok(re) => Some(re),
                Err(e) => {
                    let detail = regex_error_text(&e);
                    let text = concat2("Invalid regex: ", detail.as_str());
                    proof {
                        assert(text@.subrange(0, "Invalid regex: "@.len() as int)
                            =~= "Invalid regex: "@);
                    }
                    return Err(text);
                },
            }
        } else {
            None
        };
        let globs = match &args.globs {
            None => None,
            Some(patterns) => {
                if patterns.len() == 0 {
                    None
                } else {
                    let ghost pv = string_views(patterns@);
                    let mut compiled: Vec<globset::Glob> = Vec::new();
                    let mut i: usize = 0;
                    while i < patterns.len()
                        invariant
                            i <= patterns.len(),
                            pv == string_views(patterns@),
                            compiled@.len() == i,
                            forall|k: int|
                                0 <= k < i ==> glob_pattern(#[trigger] compiled@[k]) == path_glob(
                                    pv[k],
                                ),
                            forall|k: int|
                                0 <= k < i ==> glob_compiles(path_glob(#[trigger] patterns@[k]@)),
                        decreases patterns.len() - i,
                    {
                        let pattern = to_path_glob(patterns[i].as_str());
                        match new_glob(pattern.as_str()) {
                            Ok(g) => {
                                compiled.push(g);
                            },
                            Err(e) => {
                                let detail = glob_error_text(&e);
                                let head = concat3(
                                    "Invalid glob pattern ",
                                    patterns[i].as_str(),
                                    ": ",
                                );
                                let text = concat2(head.as_str(), detail.as_str());
                                proof {
                                    assert(text@.subrange(
                                        0,
                                        "Invalid glob pattern "@.len() as int,
                                    ) =~= "Invalid glob pattern "@);
                                    assert(!glob_compiles(path_glob(patterns@[i as int]@)));
                                }
                                return Err(text);
                            },
                        }
                        i += 1;
                    }
                    assert(glob_patterns(compiled@) =~= path_globs(pv));
                    match build_glob_set(compiled) {
                        Ok(set) => Some(set),
                        Err(e) => {
                            let detail = glob_error_text(&e);
                            let text = concat2("Failed to build globset: ", detail.as_str());
                            proof {
                                assert(text@.subrange(
                                    0,
                                    "Failed to build globset: "@.len() as int,
                                ) =~= "Failed to build globset: "@);
                            }
                            return Err(text);
                        },
                    }
                }
            },
        };
        let max_results: usize = match args.max_results {
            Some(n) => n as usize,
            None => DEFAULT_MAX_RESULTS,
        };
        let s = FsSearch {
            regex,
            globs,
            query: args.query.clone(),
            case_insensitive: args.case_insensitive,
            max_results,
            total: 0,
            matches: Vec::new(),
        };
        assert(matches_view(s.matches@) =~= Seq::empty());
        Ok(s)
    }

    /// Whether the search has found as many lines as it may.
    pub fn is_done(&self) -> (b: bool)
        ensures
            b == (self.found() >= self.limit()),
    {
        self.total >= self.max_results
    }

    /// Whether the file at the path is to be searched: it matches one of
    /// the globs, where the search has any, and its extension is not one
    /// of a binary file.
    pub fn accepts(&self, path: &str) -> (b: bool)
        ensures
            b == ((match self.scope() {
                Some(globs) => glob_set_matches(globs, path@),
                None => true,
            }) && (match extension_of(path@) {
                Some(ext) => !is_binary_extension(unicode_lowercase(ext)),
                None => true,
            })),
    {
        let in_scope = match &self.globs {
            Some(set) => glob_set_is_match(set, path),
            None => true,
        };
        if !in_scope {
            return false;
        }
        match path_extension(path) {
            Some(ext) => {
                let lower = to_lowercase(ext.as_str());
                !binary_extension(lower.as_str())
            },
            None => true,
        }
    }

    fn test_line(&self, line: &[char], folded_query: &[char]) -> (b: bool)
        requires
            folded_query@ == unicode_lowercase(self.query@),
        ensures
            b == line_matches(self.rule(), line@),
    {
        match &self.regex {
            Some(re) => {
                let text = chars_to_string(line);
                regex_is_match(re, text.as_str())
            },
            None => {
                if self.case_insensitive {
                    let text = chars_to_string(line);
                    let lower = to_lowercase(text.as_str());
                    let lower_chars = str_chars(lower.as_str());
                    contains(lower_chars.as_slice(), folded_query)
                } else {
                    let query = str_chars(self.query.as_str());
                    contains(line, query.as_slice())
                }
            },
        }
    }

    /// Searches the contents of one file: its matching lines, as far as
    /// the limit of the search goes, are recorded under the path.
    pub fn scan(&mut self, path: &str, content: &str)
        requires
            old(self).well_formed(),
        ensures
            final(self).well_formed(),
            final(self).rule() == old(self).rule(),
            final(self).scope() == old(self).scope(),
            final(self).limit() == old(self).limit(),
            ({
                let all = lines_spec(content@);
                let hits = line_hits(
                    all,
                    old(self).rule(),
                    all.len(),
                    (old(self).limit() - old(self).found()) as nat,
                );
                &&& final(self).found() == old(self).found() + hits.len()
                &&& final(self).matches_spec() == if hits.len() > 0 {
                    old(self).matches_spec().push((path@, hits))
                } else {
                    old(self).matches_spec()
                }
            }),
    {
        let chars = str_chars(content);
        let all = lines(chars.as_slice());
        let folded = to_lowercase(self.query.as_str());
        let folded_query = str_chars(folded.as_str());
        let budget: usize = self.max_results - self.total;
        let ghost lv = lines_spec(content@);
        let ghost rule = self.rule();
        let mut found: Vec<SearchLine> = Vec::new();
        let mut i: usize = 0;
        assert(hits_view(found@) =~= Seq::empty());
        assert(views(all@).len() == all@.len());
        while i < all.len()
            invariant
                i <= all.len(),
                lv == views(all@),
                rule == self.rule(),
                folded_query@ == unicode_lowercase(self.query@),
                hits_view(found@) == line_hits(lv, rule, i as nat, budget as nat),
                found@.len() <= budget,
            decreases all.len() - i,
        {
            let ghost before = hits_view(found@);
            assert(lv[i as int] == all@[i as int]@);
            if found.len() < budget && self.test_line(all[i].as_slice(), folded_query.as_slice()) {
                let line = SearchLine {
                    ln: (i + 1) as u64,
                    text: chars_to_string(all[i].as_slice()),
                };
                found.push(line);
                assert(hits_view(found@) =~= before.push(((i + 1) as u64, lv[i as int])));
            }
            i += 1;
        }
        if found.len() > 0 {
            let ghost before = matches_view(self.matches@);
            self.total = self.total + found.len();
            let m = SearchMatch { path: String::from_str(path), lines: found };
            self.matches.push(m);
            assert(matches_view(self.matches@) =~= before.push(match_view(m)));
        }
    }

    /// Ends the search: what was found, file by file.
    pub fn finish(self) -> (r: FsSearchResult)
        ensures
            matches_view(r.matches@) == self.matches_spec(),
    {
        FsSearchResult { matches: self.matches }
    }
}

} // verus!
