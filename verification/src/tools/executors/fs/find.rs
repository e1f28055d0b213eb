//! Looking for files and directories by name.

use vstd::prelude::*;
use vstd::string::StringExecFns;
use crate::text::{
    contains, contains_sub, str_chars, str_eq, string_views, to_lowercase, unicode_lowercase,
};
use crate::tools::executors::fs::matching::{
    build_glob_set, file_name_of, glob_compiles, glob_patterns, glob_set_builds, glob_set_is_match,
    glob_set_matches, glob_set_patterns, new_glob, path_file_name, path_glob, to_path_glob,
};
use crate::tools::executors::fs::{calculate_fuzzy_score, fuzzy_match, fuzzy_score, is_subsequence};
use crate::tools::types::{FileMatch, FsFindArgs, FsFindResult, MatchScore};

verus! {

/// The number of matches a look for names finds at most where the
/// arguments do not say.
pub const DEFAULT_MAX_MATCHES: usize = 50;

/// The relevance of a score as a fraction: numerator and denominator.
pub open spec fn score_fraction(score: Option<MatchScore>) -> (int, int) {
    match score {
        Some(MatchScore::Exact) => (100, 100),
        Some(MatchScore::Prefix) => (95, 100),
        Some(MatchScore::Glob) => (90, 100),
        Some(MatchScore::Contains) => (80, 100),
        Some(MatchScore::Subsequence { pattern_len, text_len }) => (
            6 * pattern_len,
            10 * (if text_len == 0 {
                1
            } else {
                text_len as int
            }),
        ),
        Some(MatchScore::Zero) => (0, 100),
        None => (-1, 100),
    }
}

/// `a` is less relevant than `b`. A match without a score is less relevant
/// than any with one.
pub open spec fn ranks_below(a: Option<MatchScore>, b: Option<MatchScore>) -> bool {
    score_fraction(a).0 * score_fraction(b).1 < score_fraction(b).0 * score_fraction(a).1
}

fn fraction(score: &Option<MatchScore>) -> (r: (i128, i128))
    ensures
        (r.0 as int, r.1 as int) == score_fraction(*score),
        -1 <= r.0 <= 6 * u32::MAX,
        1 <= r.1 <= 10 * u32::MAX,
{
    match score {
        Some(MatchScore::Exact) => (100, 100),
        Some(MatchScore::Prefix) => (95, 100),
        Some(MatchScore::Glob) => (90, 100),
        Some(MatchScore::Contains) => (80, 100),
        Some(MatchScore::Subsequence { pattern_len, text_len }) => {
            let p: i128 = *pattern_len as i128;
            let t: i128 = if *text_len == 0 {
                1
            } else {
                *text_len as i128
            };
            (6 * p, 10 * t)
        },
        Some(MatchScore::Zero) => (0, 100),
        None => (-1, 100),
    }
}

/// Tests whether `a` is less relevant than `b`.
pub fn is_below(a: &Option<MatchScore>, b: &Option<MatchScore>) -> (r: bool)
    ensures
        r == ranks_below(*a, *b),
{
    let x = fraction(a);
    let y = fraction(b);
    assert(-(10 * u32::MAX) <= x.0 * y.1 <= 6 * u32::MAX * (10 * u32::MAX)) by (nonlinear_arith)
        requires
            -1 <= x.0 <= 6 * u32::MAX,
            1 <= y.1 <= 10 * u32::MAX,
    ;
    assert(-(10 * u32::MAX) <= y.0 * x.1 <= 6 * u32::MAX * (10 * u32::MAX)) by (nonlinear_arith)
        requires
            -1 <= y.0 <= 6 * u32::MAX,
            1 <= x.1 <= 10 * u32::MAX,
    ;
    x.0 * y.1 < y.0 * x.1
}

/// The value of a match: its path, its score and the kind of match.
pub type FoundView = (Seq<char>, Option<MatchScore>, Seq<char>);

/// The value of a match.
pub open spec fn found_view(m: FileMatch) -> FoundView {
    (m.path@, m.score, m.match_type@)
}

/// The values of matches.
pub open spec fn founds_view(ms: Seq<FileMatch>) -> Seq<FoundView> {
    Seq::new(ms.len(), |i: int| found_view(ms[i]))
}

/// Where a match goes among matches in order of relevance: before the
/// first that is less relevant than it.
pub open spec fn rank_slot(sorted: Seq<FoundView>, m: FoundView) -> nat
    decreases sorted.len(),
{
    if sorted.len() == 0 || ranks_below(sorted[0].1, m.1) {
        0
    } else {
        1 + rank_slot(sorted.skip(1), m)
    }
}

/// The slot of a match lies behind every match that is at least as
/// relevant and before one that is less relevant.
pub proof fn lemma_rank_slot(sorted: Seq<FoundView>, m: FoundView)
    ensures
        rank_slot(sorted, m) <= sorted.len(),
        forall|i: int| 0 <= i < rank_slot(sorted, m) ==> !ranks_below(#[trigger] sorted[i].1, m.1),
        rank_slot(sorted, m) < sorted.len() ==> ranks_below(
            sorted[rank_slot(sorted, m) as int].1,
            m.1,
        ),
    decreases sorted.len(),
{
    if sorted.len() == 0 || ranks_below(sorted[0].1, m.1) {
    } else {
        let rest = sorted.skip(1);
        lemma_rank_slot(rest, m);
        assert forall|i: int| 0 <= i < rank_slot(sorted, m) implies !ranks_below(
            #[trigger] sorted[i].1,
            m.1,
        ) by {
            if i > 0 {
                assert(rest[i - 1] == sorted[i]);
            }
        }
        if rank_slot(sorted, m) < sorted.len() {
            assert(rest[rank_slot(rest, m) as int] == sorted[rank_slot(sorted, m) as int]);
        }
    }
}

/// What is at most as relevant as something less relevant than a match is
/// not more relevant than that match.
pub proof fn lemma_rank_chain(x: Option<MatchScore>, y: Option<MatchScore>, z: Option<MatchScore>)
    requires
        !ranks_below(y, x),
        ranks_below(y, z),
    ensures
        !ranks_below(z, x),
{
    let (xn, xd) = score_fraction(x);
    let (yn, yd) = score_fraction(y);
    let (zn, zd) = score_fraction(z);
    assert(xd > 0 && yd > 0 && zd > 0);
    assert(xn * yd <= yn * xd);
    assert(yn * zd < zn * yd);
    assert(xn * zd <= zn * xd) by (nonlinear_arith)
        requires
            xd > 0,
            yd > 0,
            zd > 0,
            xn * yd <= yn * xd,
            yn * zd < zn * yd,
    ;
}

/// No match of the sequence is less relevant than a later one.
pub open spec fn in_rank_order(s: Seq<FoundView>) -> bool {
    forall|i: int, j: int| 0 <= i < j < s.len() ==> !ranks_below(#[trigger] s[i].1, #[trigger] s[j].1)
}

/// The first `n` matches in order of relevance, the most relevant first;
/// matches of equal relevance keep their order.
pub open spec fn ranked(ms: Seq<FoundView>, n: nat) -> Seq<FoundView>
    decreases n,
{
    if n == 0 || n > ms.len() {
        Seq::empty()
    } else {
        let before = ranked(ms, (n - 1) as nat);
        before.insert(rank_slot(before, ms[n - 1]) as int, ms[n - 1])
    }
}

/// Ranking puts the matches in order of relevance and neither drops nor
/// adds any.
pub proof fn law_ranked(ms: Seq<FoundView>, n: nat)
    requires
        n <= ms.len(),
    ensures
        in_rank_order(ranked(ms, n)),
        ranked(ms, n).len() == n,
        ranked(ms, n).to_multiset() == ms.take(n as int).to_multiset(),
    decreases n,
{
    if n == 0 {
        assert(ms.take(0) =~= Seq::empty());
    } else {
        law_ranked(ms, (n - 1) as nat);
        let before = ranked(ms, (n - 1) as nat);
        let m = ms[n - 1];
        let k = rank_slot(before, m) as int;
        lemma_rank_slot(before, m);
        let after = before.insert(k, m);
        assert forall|i: int, j: int| 0 <= i < j < after.len() implies !ranks_below(
            #[trigger] after[i].1,
            #[trigger] after[j].1,
        ) by {
            if j < k {
                assert(after[i] == before[i] && after[j] == before[j]);
            } else if j == k {
                assert(after[i] == before[i]);
            } else if i == k {
                assert(after[j] == before[j - 1]);
                if j - 1 > k {
                    assert(!ranks_below(before[k].1, before[j - 1].1));
                }
                if j - 1 == k {
                    assert(ranks_below(before[k].1, m.1));
                    assert(!ranks_below(before[k].1, before[k].1));
                }
                lemma_rank_chain(before[j - 1].1, before[k].1, m.1);
            } else if i < k {
                assert(after[i] == before[i] && after[j] == before[j - 1]);
            } else {
                assert(after[i] == before[i - 1] && after[j] == before[j - 1]);
            }
        }
        vstd::seq_lib::to_multiset_insert(before, k, m);
        assert(ms.take(n as int) == ms.take(n - 1).push(m));
        vstd::seq_lib::to_multiset_build(ms.take(n - 1), m);
    }
}

/// Whether an entry of the kind is looked for.
pub open spec fn kind_included(file_type: Seq<char>, is_dir: bool) -> bool {
    if file_type == "file"@ {
        !is_dir
    } else if file_type == "dir"@ {
        is_dir
    } else {
        true
    }
}

/// Whether one of the patterns occurs in the path or in the name.
pub open spec fn is_ignored(path: Seq<char>, name: Option<Seq<char>>, patterns: Seq<Seq<char>>)
    -> bool {
    exists|i: int|
        0 <= i < patterns.len() && (contains_sub(path, #[trigger] patterns[i]) || (name is Some
            && contains_sub(name->Some_0, patterns[i])))
}

/// What a name amounts to for a pattern: the kind of match and its score,
/// or nothing.
pub open spec fn verdict(
    fuzzy: bool,
    pattern: Seq<char>,
    name: Seq<char>,
    glob: Option<Seq<Seq<char>>>,
    path: Seq<char>,
) -> Option<(Seq<char>, MatchScore)> {
    if fuzzy {
        if is_subsequence(pattern, name) {
            Some(("fuzzy"@, fuzzy_score(pattern, name)))
        } else if contains_sub(name, pattern) {
            Some(("partial"@, MatchScore::Contains))
        } else {
            None
        }
    } else {
        if glob is Some && glob_set_matches(glob->Some_0, path) {
            if name == pattern {
                Some(("exact"@, MatchScore::Exact))
            } else {
                Some(("partial"@, MatchScore::Glob))
            }
        } else if contains_sub(name, pattern) {
            Some(("partial"@, MatchScore::Glob))
        } else {
            None
        }
    }
}

/// The characters of an optional vector.
pub open spec fn opt_chars(v: Option<Vec<char>>) -> Option<Seq<char>> {
    match v {
        Some(c) => Some(c@),
        None => None,
    }
}

/// A look for names in progress.
pub struct FsFind {
    pattern: String,
    fuzzy: bool,
    case_sensitive: bool,
    file_type: String,
    max_results: usize,
    ignore_patterns: Option<Vec<String>>,
    glob: Option<globset::GlobSet>,
    count: usize,
    matches: Vec<FileMatch>,
}

/// The pattern as names are held against it: folded to lower case unless
/// case counts.
pub open spec fn folded(text: Seq<char>, case_sensitive: bool) -> Seq<char> {
    if case_sensitive {
        text
    } else {
        unicode_lowercase(text)
    }
}

/// The glob that stands for a pattern where fuzzy matching is off, if
/// the pattern compiles to one.
pub open spec fn pattern_globs(fuzzy: bool, pattern: Seq<char>) -> Option<Seq<Seq<char>>> {
    let one = Seq::empty().push(path_glob(pattern));
    if !fuzzy && glob_compiles(path_glob(pattern)) && glob_set_builds(one) {
        Some(one)
    } else {
        None
    }
}

impl FsFind {
    /// The pattern as names are held against it.
    pub closed spec fn pattern_spec(&self) -> Seq<char> {
        self.pattern@
    }

    /// Whether matching is fuzzy.
    pub closed spec fn fuzzy_spec(&self) -> bool {
        self.fuzzy
    }

    /// Whether case counts.
    pub closed spec fn case_sensitive_spec(&self) -> bool {
        self.case_sensitive
    }

    /// `"file"`, `"dir"` or anything else for both.
    pub closed spec fn file_type_spec(&self) -> Seq<char> {
        self.file_type@
    }

    /// The number of matches that are found at most.
    pub closed spec fn limit(&self) -> nat {
        self.max_results as nat
    }

    /// The patterns that exclude an entry.
    pub closed spec fn ignore_spec(&self) -> Seq<Seq<char>> {
        match self.ignore_patterns {
            Some(p) => string_views(p@),
            None => Seq::empty(),
        }
    }

    /// The glob of the pattern, where there is one.
    pub closed spec fn glob_spec(&self) -> Option<Seq<Seq<char>>> {
        match self.glob {
            Some(set) => Some(glob_set_patterns(set)),
            None => None,
        }
    }

    /// The matches found so far, in the order in which they were found.
    pub closed spec fn matches_spec(&self) -> Seq<FoundView> {
        founds_view(self.matches@)
    }

    /// The number of matches is the number of matches found, and no more
    /// than may be found.
    pub closed spec fn well_formed(&self) -> bool {
        self.count == self.matches@.len() && self.count <= self.max_results
    }

    /// Sets a look for names up. Matching is fuzzy, case does not count
    /// and files and directories are both looked for unless the arguments
    /// say otherwise.
    pub fn new(args: &FsFindArgs) -> (r: FsFind)
        ensures
            r.well_formed(),
            r.matches_spec().len() == 0,
            r.fuzzy_spec() == (match args.fuzzy {
                Some(f) => f,
                None => true,
            }),
            r.case_sensitive_spec() == (match args.case_sensitive {
                Some(c) => c,
                None => false,
            }),
            r.pattern_spec() == folded(args.pattern@, r.case_sensitive_spec()),
            r.file_type_spec() == (match args.file_type {
                Some(t) => t@,
                None => "both"@,
            }),
            r.limit() == (match args.max_results {
                Some(n) => n as nat,
                None => DEFAULT_MAX_MATCHES as nat,
            }),
            r.ignore_spec() == (match args.ignore_patterns {
                Some(p) => string_views(p@),
                None => Seq::empty(),
            }),
            r.glob_spec() == pattern_globs(r.fuzzy_spec(), r.pattern_spec()),
    {
        let fuzzy = match args.fuzzy {
            Some(f) => f,
            None => true,
        };
        let case_sensitive = match args.case_sensitive {
            Some(c) => c,
            None => false,
        };
        let pattern = if case_sensitive {
            args.pattern.clone()
        } else {
            to_lowercase(args.pattern.as_str())
        };
        let glob = if fuzzy {
            None
        } else {
            let text = to_path_glob(pattern.as_str());
            match new_glob(text.as_str()) {
                Ok(g) => {
                    let mut one: Vec<globset::Glob> = Vec::new();
                    one.push(g);
                    assert(glob_patterns(one@) =~= Seq::empty().push(path_glob(pattern@)));
                    match build_glob_set(one) {
                        Ok(set) => Some(set),
                        Err(_) => None,
                    }
                },
                Err(_) => None,
            }
        };
        let ignore_patterns = match &args.ignore_patterns {
            Some(p) => Some(p.clone()),
            None => None,
        };
        let r = FsFind {
            pattern,
            fuzzy,
            case_sensitive,
            file_type: match &args.file_type {
                Some(t) => t.clone(),
                None => String::from_str("both"),
            },
            max_results: match args.max_results {
                Some(n) => n as usize,
                None => DEFAULT_MAX_MATCHES,
            },
            ignore_patterns,
            glob,
            count: 0,
            matches: Vec::new(),
        };
        assert(founds_view(r.matches@) =~= Seq::empty());
        r
    }

    /// Whether as many matches are found as may be.
    pub fn is_done(&self) -> (b: bool)
        requires
            self.well_formed(),
        ensures
            b == (self.matches_spec().len() >= self.limit()),
    {
        self.count >= self.max_results
    }

    #[verifier::loop_isolation(false)]
    fn ignores(&self, path: &[char], name: &Option<Vec<char>>) -> (b: bool)
        ensures
            b == is_ignored(path@, opt_chars(*name), self.ignore_spec()),
    {
        match &self.ignore_patterns {
            None => false,
            Some(patterns) => {
                let ghost pv = string_views(patterns@);
                let ghost nv: Option<Seq<char>> = opt_chars(*name);
                let mut i: usize = 0;
                while i < patterns.len()
                    invariant
                        i <= patterns.len(),
                        pv == string_views(patterns@),
                        nv == opt_chars(*name),
                        forall|k: int|
                            0 <= k < i ==> !(contains_sub(path@, #[trigger] pv[k]) || (nv is Some
                                && contains_sub(nv->Some_0, pv[k]))),
                    decreases patterns.len() - i,
                {
                    let p = str_chars(patterns[i].as_str());
                    assert(pv[i as int] == p@);
                    let in_name = match name {
                        Some(n) => contains(n.as_slice(), p.as_slice()),
                        None => false,
                    };
                    if contains(path, p.as_slice()) || in_name {
                        assert(contains_sub(path@, pv[i as int]) || (nv is Some && contains_sub(
                            nv->Some_0,
                            pv[i as int],
                        )));
                        return true;
                    }
                    i += 1;
                }
                false
            },
        }
    }

    /// What an entry amounts to for the look: nothing where its kind is
    /// not looked for or a pattern excludes it, else the verdict on its
    /// name.
    pub closed spec fn entry_verdict(&self, path: Seq<char>, is_dir: bool) -> Option<
        (Seq<char>, MatchScore),
    > {
        let name = file_name_of(path);
        if !kind_included(self.file_type@, is_dir) || is_ignored(path, name, self.ignore_spec()) {
            None
        } else {
            verdict(
                self.fuzzy,
                self.pattern@,
                folded(
                    match name {
                        Some(n) => n,
                        None => Seq::empty(),
                    },
                    self.case_sensitive,
                ),
                self.glob_spec(),
                path,
            )
        }
    }

    /// Holds one entry of the walk against the pattern and records it
    /// where it matches. Once as many matches are found as may be nothing
    /// more is recorded.
    pub fn offer(&mut self, path: &str, is_dir: bool)
        requires
            old(self).well_formed(),
        ensures
            final(self).well_formed(),
            final(self).pattern_spec() == old(self).pattern_spec(),
            final(self).fuzzy_spec() == old(self).fuzzy_spec(),
            final(self).case_sensitive_spec() == old(self).case_sensitive_spec(),
            final(self).file_type_spec() == old(self).file_type_spec(),
            final(self).limit() == old(self).limit(),
            final(self).ignore_spec() == old(self).ignore_spec(),
            final(self).glob_spec() == old(self).glob_spec(),
            final(self).matches_spec() == (if old(self).matches_spec().len() >= old(self).limit() {
                old(self).matches_spec()
            } else {
                match old(self).entry_verdict(path@, is_dir) {
                    Some((kind, score)) => old(self).matches_spec().push((path@, Some(score), kind)),
                    None => old(self).matches_spec(),
                }
            }),
    {
        if self.count >= self.max_results {
            return ;
        }
        let included = if str_eq(self.file_type.as_str(), "file") {
            !is_dir
        } else if str_eq(self.file_type.as_str(), "dir") {
            is_dir
        } else {
            true
        };
        if !included {
            return ;
        }
        let path_chars = str_chars(path);
        let name = path_file_name(path);
        let name_chars: Option<Vec<char>> = match &name {
            Some(n) => Some(str_chars(n.as_str())),
            None => None,
        };
        if self.ignores(path_chars.as_slice(), &name_chars) {
            return ;
        }
        let plain: &str = match &name {
            Some(n) => n.as_str(),
            None => "",
        };
        proof {
            reveal_strlit("");
            assert(""@ =~= Seq::<char>::empty());
        }
        let held = if self.case_sensitive {
            String::from_str(plain)
        } else {
            to_lowercase(plain)
        };
        let held_chars = str_chars(held.as_str());
        let pattern_chars = str_chars(self.pattern.as_str());
        let holds = contains(held_chars.as_slice(), pattern_chars.as_slice());
        let found: Option<(&str, MatchScore)> = if self.fuzzy {
            if fuzzy_match(self.pattern.as_str(), held.as_str()) {
                Some(("fuzzy", calculate_fuzzy_score(self.pattern.as_str(), held.as_str())))
            } else if holds {
                Some(("partial", MatchScore::Contains))
            } else {
                None
            }
        } else {
            let by_glob = match &self.glob {
                Some(set) => glob_set_is_match(set, path),
                None => false,
            };
            if by_glob {
                if str_eq(held.as_str(), self.pattern.as_str()) {
                    Some(("exact", MatchScore::Exact))
                } else {
                    Some(("partial", MatchScore::Glob))
                }
            } else if holds {
                Some(("partial", MatchScore::Glob))
            } else {
                None
            }
        };
        match found {
            Some((kind, score)) => {
                let ghost before = founds_view(self.matches@);
                let m = FileMatch {
                    path: String::from_str(path),
                    score: Some(score),
                    match_type: String::from_str(kind),
                };
                self.matches.push(m);
                self.count = self.count + 1;
                assert(founds_view(self.matches@) =~= before.push((path@, Some(score), kind@)));
            },
            None => {},
        }
    }

    /// Ends the look: the matches, by relevance where matching is fuzzy,
    /// and the time the look took. There are no more matches than were to
    /// be found at most.
    pub fn finish(self, search_time_ms: u64) -> (r: FsFindResult)
        ensures
            r.search_time_ms == search_time_ms,
            founds_view(r.matches@) == (if self.fuzzy_spec() {
                ranked(self.matches_spec(), self.matches_spec().len())
            } else {
                self.matches_spec()
            }),
            r.matches@.len() == self.matches_spec().len(),
            self.well_formed() ==> r.matches@.len() <= self.limit(),
    {
        proof {
            law_ranked(founds_view(self.matches@), self.matches@.len());
        }
        if !self.fuzzy {
            return FsFindResult { matches: self.matches, search_time_ms };
        }
        let ghost all = founds_view(self.matches@);
        let mut sorted: Vec<FileMatch> = Vec::new();
        let mut i: usize = 0;
        assert(founds_view(sorted@) =~= Seq::empty());
        while i < self.matches.len()
            invariant
                i <= self.matches@.len(),
                all == founds_view(self.matches@),
                founds_view(sorted@) == ranked(all, i as nat),
            decreases self.matches.len() - i,
        {
            let m = &self.matches[i];
            let ghost sv = founds_view(sorted@);
            let ghost mv = found_view(*m);
            assert(all[i as int] == mv);
            let mut at: usize = 0;
            assert(sv.skip(0) == sv);
            while at < sorted.len() && !is_below(&sorted[at].score, &m.score)
                invariant
                    at <= sorted.len(),
                    sv == founds_view(sorted@),
                    mv == found_view(*m),
                    rank_slot(sv, mv) == at + rank_slot(sv.skip(at as int), mv),
                decreases sorted.len() - at,
            {
                proof {
                    assert(sv.skip(at as int)[0] == sv[at as int]);
                    assert(sv.skip(at as int).skip(1) == sv.skip(at + 1));
                }
                at += 1;
            }
            proof {
                if at < sorted.len() {
                    assert(sv.skip(at as int)[0] == sv[at as int]);
                }
            }
            let copy = FileMatch {
                path: m.path.clone(),
                score: m.score,
                match_type: m.match_type.clone(),
            };
            sorted.insert(at, copy);
            assert(founds_view(sorted@) =~= sv.insert(at as int, mv));
            i += 1;
        }
        FsFindResult { matches: sorted, search_time_ms }
    }
}

} // verus!
