//! The edit planner: an ordered list of edit operations is first applied to
//! an in-memory plan of the files it names, and only a finished plan is
//! turned into actions on the disk.

use vstd::prelude::*;
use vstd::string::StringExecFns;
use crate::tools::types::SimpleEditOp;
use crate::ordered::{
    has_text, insert_sorted, law_insert_sorted, law_without, lex_lt, set_insert, set_remove, slot,
    strictly_sorted, without,
};
use crate::text::{
    byte_len, byte_length, chars_to_string, concat2, concat3, extend_chars, find_from, first_match_from,
    join, join_spec, lemma_first_match, matches_at, normalize_newlines, normalize_newlines_spec,
    occurrences, opt_text, str_chars, str_eq, string_views, sub_vec, u64_to_string, decimal,
};

verus! {

/// What reading a path gave.
#[derive(Debug)]
pub enum ReadOutcome {
    /// Nothing is there.
    Missing,
    /// The text of the file.
    Contents(String),
    /// Reading failed for another reason, given as text.
    Failed(String),
}

/// What inspecting a path gave.
#[derive(Debug)]
pub enum StatOutcome {
    Missing,
    Exists,
    /// Inspecting failed for another reason, given as text.
    Failed(String),
}

/// What the disk holds at one path.
#[derive(Debug)]
pub struct DiskEntry {
    pub path: String,
    pub contents: ReadOutcome,
    pub exists: StatOutcome,
}

/// What the disk holds at the paths that a list of operations names. A path
/// without an entry counts as missing.
#[derive(Debug)]
pub struct DiskSnapshot {
    pub entries: Vec<DiskEntry>,
}

/// The position of the first entry for `path`.
pub open spec fn disk_pos(entries: Seq<DiskEntry>, path: Seq<char>) -> Option<int>
    decreases entries.len(),
{
    if entries.len() == 0 {
        None
    } else if entries[0].path@ == path {
        Some(0)
    } else {
        match disk_pos(entries.skip(1), path) {
            Some(i) => Some(i + 1),
            None => None,
        }
    }
}

/// What the disk holds, as the planner sees it.
pub enum Seen {
    Missing,
    /// The text of the file with its line endings normalized.
    Text(Seq<char>),
    /// The message of the failure.
    Failed(Seq<char>),
}

impl DiskSnapshot {
    /// The planner's view of the contents of `path`.
    pub open spec fn seen(self, path: Seq<char>) -> Seen {
        match disk_pos(self.entries@, path) {
            None => Seen::Missing,
            Some(i) => match self.entries@[i].contents {
                ReadOutcome::Missing => Seen::Missing,
                ReadOutcome::Contents(text) => Seen::Text(normalize_newlines_spec(text@)),
                ReadOutcome::Failed(e) => Seen::Failed(
                    "Failed to read file "@ + path + ": "@ + e@,
                ),
            },
        }
    }

    /// Whether something exists at `path`, or the message of the failure.
    pub open spec fn present(self, path: Seq<char>) -> Result<bool, Seq<char>> {
        match disk_pos(self.entries@, path) {
            None => Ok(false),
            Some(i) => match self.entries@[i].exists {
                StatOutcome::Missing => Ok(false),
                StatOutcome::Exists => Ok(true),
                StatOutcome::Failed(e) => Err("Failed to inspect "@ + path + ": "@ + e@),
            },
        }
    }

    fn find(&self, path: &str) -> (r: Option<usize>)
        ensures
            match r {
                Some(i) => disk_pos(self.entries@, path@) == Some(i as int) && i
                    < self.entries@.len(),
                None => disk_pos(self.entries@, path@) is None,
            },
    {
        let mut i: usize = 0;
        assert(self.entries@.skip(0) == self.entries@);
        while i < self.entries.len()
            invariant
                i <= self.entries@.len(),
                disk_pos(self.entries@, path@) == match disk_pos(
                    self.entries@.skip(i as int),
                    path@,
                ) {
                    Some(k) => Some(k + i),
                    None => None,
                },
            decreases self.entries.len() - i,
        {
            if str_eq(self.entries[i].path.as_str(), path) {
                return Some(i);
            }
            proof {
                assert(self.entries@.skip(i as int).skip(1) == self.entries@.skip(i + 1));
            }
            i += 1;
        }
        None
    }
}

/// The planned state of one file.
#[derive(Debug)]
pub struct PlannedFile {
    /// What the disk held when the plan first touched the file.
    pub original: Option<String>,
    /// What the file shall hold; `None` where it shall not exist.
    pub current: Option<String>,
}

/// The planned state of one file, as texts.
pub struct FileView {
    pub original: Option<Seq<char>>,
    pub current: Option<Seq<char>>,
}

impl View for PlannedFile {
    type V = FileView;

    open spec fn view(&self) -> FileView {
        FileView { original: opt_text(self.original), current: opt_text(self.current) }
    }
}

impl PlannedFile {
    /// A file that exists on disk with the given contents.
    pub fn existing(content: String) -> (r: Self)
        ensures
            r@ == (FileView { original: Some(content@), current: Some(content@) }),
    {
        Self { original: Some(content.clone()), current: Some(content) }
    }

    /// A file that does not exist on disk.
    pub fn new_missing() -> (r: Self)
        ensures
            r@ == (FileView { original: None, current: None }),
    {
        Self { original: None, current: None }
    }
}

/// The files of a plan: each path with its planned state, in path order.
pub type FilesView = Seq<(Seq<char>, FileView)>;

/// The paths of the planned files.
pub open spec fn keys(files: FilesView) -> Seq<Seq<char>> {
    files.map_values(|e: (Seq<char>, FileView)| e.0)
}

/// The position of the entry for `path`.
pub open spec fn key_pos(files: FilesView, path: Seq<char>) -> Option<int>
    decreases files.len(),
{
    if files.len() == 0 {
        None
    } else if files[0].0 == path {
        Some(0)
    } else {
        match key_pos(files.skip(1), path) {
            Some(i) => Some(i + 1),
            None => None,
        }
    }
}

/// The position that is found holds the first entry for the path; where
/// none is found no entry is for the path.
pub proof fn lemma_key_pos(files: FilesView, path: Seq<char>)
    ensures
        match key_pos(files, path) {
            Some(i) => 0 <= i < files.len() && files[i].0 == path && forall|j: int|
                0 <= j < i ==> files[j].0 != path,
            None => forall|j: int| 0 <= j < files.len() ==> files[j].0 != path,
        },
    decreases files.len(),
{
    if files.len() > 0 && files[0].0 != path {
        lemma_key_pos(files.skip(1), path);
        match key_pos(files.skip(1), path) {
            Some(i) => {
                assert forall|j: int| 0 <= j < i + 1 implies files[j].0 != path by {
                    if j > 0 {
                        assert(files.skip(1)[j - 1] == files[j]);
                    }
                }
            },
            None => {
                assert forall|j: int| 0 <= j < files.len() implies files[j].0 != path by {
                    if j > 0 {
                        assert(files.skip(1)[j - 1] == files[j]);
                    }
                }
            },
        }
    }
}

/// The planned state of `path`, where the plan has one.
pub open spec fn file_of(files: FilesView, path: Seq<char>) -> Option<FileView> {
    match key_pos(files, path) {
        Some(i) => Some(files[i].1),
        None => None,
    }
}

/// The files with a new entry at its place in path order.
pub open spec fn with_entry(files: FilesView, path: Seq<char>, file: FileView) -> FilesView {
    files.insert(slot(keys(files), path) as int, (path, file))
}

/// A byte counter raised by `n`, held at the largest `u64`.
pub open spec fn raised(counter: nat, n: nat) -> nat {
    if counter + n > u64::MAX {
        u64::MAX as nat
    } else {
        counter + n
    }
}

/// The value of a plan.
pub struct PlanView {
    pub dry_run: bool,
    pub files: FilesView,
    pub renames: Seq<(Seq<char>, Seq<char>, bool)>,
    pub created: Seq<Seq<char>>,
    pub modified: Seq<Seq<char>>,
    pub deleted: Seq<Seq<char>>,
    pub descriptions: Seq<Seq<char>>,
    pub bytes_added: nat,
    pub bytes_removed: nat,
}

impl PlanView {
    /// The empty plan.
    pub open spec fn empty(dry_run: bool) -> PlanView {
        PlanView {
            dry_run,
            files: Seq::empty(),
            renames: Seq::empty(),
            created: Seq::empty(),
            modified: Seq::empty(),
            deleted: Seq::empty(),
            descriptions: Seq::empty(),
            bytes_added: 0,
            bytes_removed: 0,
        }
    }

    /// The planned contents of `path`: an error where the plan has no entry
    /// or the file is planned away.
    pub open spec fn current_string(self, path: Seq<char>) -> Result<Seq<char>, Seq<char>> {
        match file_of(self.files, path) {
            None => Err("File state missing: "@ + path),
            Some(f) => match f.current {
                Some(c) => Ok(c),
                None => Err("File has been deleted: "@ + path),
            },
        }
    }

    /// The plan with `path` classified as created.
    pub open spec fn mark_created(self, path: Seq<char>) -> PlanView {
        PlanView {
            created: insert_sorted(self.created, path),
            modified: without(self.modified, path),
            deleted: without(self.deleted, path),
            ..self
        }
    }

    /// The plan with `path` classified as modified, unless the plan
    /// created it.
    pub open spec fn mark_modified(self, path: Seq<char>) -> PlanView {
        PlanView {
            modified: if self.created.contains(path) {
                self.modified
            } else {
                insert_sorted(self.modified, path)
            },
            deleted: without(self.deleted, path),
            ..self
        }
    }

    /// The plan with `path` classified as deleted.
    pub open spec fn mark_deleted(self, path: Seq<char>) -> PlanView {
        PlanView {
            created: without(self.created, path),
            modified: without(self.modified, path),
            deleted: insert_sorted(self.deleted, path),
            ..self
        }
    }

    /// The classification of `from` carried over to `to`.
    pub open spec fn reassign_path(self, from: Seq<char>, to: Seq<char>) -> PlanView {
        PlanView {
            created: moved(self.created, from, to),
            modified: moved(self.modified, from, to),
            deleted: moved(self.deleted, from, to),
            ..self
        }
    }

    /// The byte counters after a change of length by `delta`.
    pub open spec fn record_delta(self, delta: int) -> PlanView {
        if delta > 0 {
            PlanView { bytes_added: raised(self.bytes_added, delta as nat), ..self }
        } else if delta < 0 {
            PlanView { bytes_removed: raised(self.bytes_removed, (-delta) as nat), ..self }
        } else {
            self
        }
    }

    /// The plan with the contents of `path` set.
    pub open spec fn set_current(self, path: Seq<char>, content: Seq<char>) -> Result<
        PlanView,
        Seq<char>,
    > {
        match key_pos(self.files, path) {
            None => Err("File state missing: "@ + path),
            Some(i) => {
                let f = self.files[i].1;
                let prev_len = match f.current {
                    Some(c) => byte_len(c),
                    None => 0,
                };
                let files = self.files.update(
                    i,
                    (path, FileView { original: f.original, current: Some(content) }),
                );
                let plan = (PlanView { files, ..self }).record_delta(byte_len(content) - prev_len);
                if f.original is None {
                    Ok(plan.mark_created(path))
                } else {
                    Ok(plan.mark_modified(path))
                }
            },
        }
    }

    /// The plan with `path` planned away.
    pub open spec fn delete_current(self, path: Seq<char>) -> Result<PlanView, Seq<char>> {
        match key_pos(self.files, path) {
            None => Err("File state missing: "@ + path),
            Some(i) => {
                let f = self.files[i].1;
                match f.current {
                    None => Err("File already deleted: "@ + path),
                    Some(c) => {
                        let files = self.files.update(
                            i,
                            (path, FileView { original: f.original, current: None }),
                        );
                        let plan = (PlanView { files, ..self }).record_delta(-byte_len(c));
                        if f.original is Some {
                            Ok(plan.mark_deleted(path))
                        } else {
                            Ok(
                                PlanView {
                                    created: without(plan.created, path),
                                    modified: without(plan.modified, path),
                                    ..plan
                                },
                            )
                        }
                    },
                }
            },
        }
    }

    /// The plan with an entry for `path`, read from the disk where the plan
    /// had none. A missing file is an error unless `allow_new`.
    pub open spec fn ensure_entry(self, path: Seq<char>, disk: DiskSnapshot, allow_new: bool)
        -> Result<PlanView, Seq<char>> {
        if key_pos(self.files, path) is Some {
            Ok(self)
        } else {
            match disk.seen(path) {
                Seen::Failed(e) => Err(e),
                Seen::Text(t) => Ok(
                    PlanView {
                        files: with_entry(
                            self.files,
                            path,
                            FileView { original: Some(t), current: Some(t) },
                        ),
                        ..self
                    },
                ),
                Seen::Missing => if allow_new {
                    Ok(
                        PlanView {
                            files: with_entry(
                                self.files,
                                path,
                                FileView { original: None, current: None },
                            ),
                            ..self
                        },
                    )
                } else {
                    Err("File not found: "@ + path)
                },
            }
        }
    }

    /// The plan with a line added to its record of operations.
    pub open spec fn described(self, line: Seq<char>) -> PlanView {
        PlanView { descriptions: self.descriptions.push(line), ..self }
    }

    /// The plan after an edit that is anchored at the one occurrence of
    /// `anchor` in the planned contents of `path`: the text from `skip`
    /// characters after the start of the anchor on is kept behind `insert`,
    /// which goes in `offset` characters after the start of the anchor.
    pub open spec fn anchored(
        self,
        path: Seq<char>,
        anchor: Seq<char>,
        insert: Seq<char>,
        offset: int,
        skip: int,
        label: Seq<char>,
    ) -> Result<PlanView, Seq<char>> {
        match self.current_string(path) {
            Err(e) => Err(e),
            Ok(current) => {
                let needle = normalize_newlines_spec(anchor);
                let n = occurrences(current, needle);
                if n == 0 {
                    Err("anchor not found"@)
                } else if n > 1 {
                    Err("anchor ambiguous (found >1)"@)
                } else {
                    let at = first_match_from(current, needle, 0)->Some_0;
                    let text = current.take(at + offset) + normalize_newlines_spec(insert)
                        + current.skip(at + offset + skip);
                    match self.set_current(path, text) {
                        Err(e) => Err(e),
                        Ok(plan) => Ok(plan.described(label + path)),
                    }
                }
            },
        }
    }

    /// The plan after a look at a path: with the entry of the path where
    /// the look succeeded, and as it was where it failed.
    pub open spec fn looked(self, path: Seq<char>, disk: DiskSnapshot, allow_new: bool) -> PlanView {
        match self.ensure_entry(path, disk, allow_new) {
            Ok(plan) => plan,
            Err(_) => self,
        }
    }

    /// The plan after a rename that failed. A rename onto itself and one
    /// whose source cannot be looked at leave the plan as it was; else the
    /// plan holds the entry of the source and is otherwise as it was.
    pub open spec fn rename_failure(self, path: Seq<char>, to: Seq<char>, disk: DiskSnapshot)
        -> PlanView {
        if path == to {
            self
        } else {
            let plan = self.looked(path, disk, false);
            let source = file_of(plan.files, path);
            if self.ensure_entry(path, disk, false) is Err || source is None
                || source->Some_0.current is None {
                plan
            } else {
                match plan.clear_target(to, disk) {
                    Err(_) => plan,
                    Ok(cleared) => cleared,
                }
            }
        }
    }

    /// The plan after an operation that failed: it holds the entry of the
    /// file that the operation works on where the look at that file
    /// succeeded, with the contents that it had, and is otherwise as it
    /// was. No content, class, count or description has changed.
    pub open spec fn after_failure(self, op: SimpleEditOp, disk: DiskSnapshot) -> PlanView {
        match op {
            SimpleEditOp::SetFile { path, .. } => self.looked(path@, disk, true),
            SimpleEditOp::ReplaceOnce { path, .. } => self.looked(path@, disk, false),
            SimpleEditOp::InsertBefore { path, .. } => self.looked(path@, disk, false),
            SimpleEditOp::InsertAfter { path, .. } => self.looked(path@, disk, false),
            SimpleEditOp::DeleteFile { path } => self.looked(path@, disk, false),
            SimpleEditOp::RenameFile { path, to } => self.rename_failure(path@, to@, disk),
        }
    }

    /// The plan after one operation, or the reason why it fails.
    pub open spec fn step(self, op: SimpleEditOp, disk: DiskSnapshot) -> Result<
        PlanView,
        Seq<char>,
    > {
        match op {
            SimpleEditOp::SetFile { path, contents } => match self.ensure_entry(
                path@,
                disk,
                true,
            ) {
                Err(e) => Err(e),
                Ok(plan) => match plan.set_current(path@, normalize_newlines_spec(contents@)) {
                    Err(e) => Err(e),
                    Ok(plan) => Ok(plan.described("set_file "@ + path@)),
                },
            },
            SimpleEditOp::ReplaceOnce { path, find, replace } => match self.ensure_entry(
                path@,
                disk,
                false,
            ) {
                Err(e) => Err(e),
                Ok(plan) => plan.anchored(
                    path@,
                    find@,
                    replace@,
                    0,
                    normalize_newlines_spec(find@).len() as int,
                    "replace_once "@,
                ),
            },
            SimpleEditOp::InsertBefore { path, anchor, insert } => match self.ensure_entry(
                path@,
                disk,
                false,
            ) {
                Err(e) => Err(e),
                Ok(plan) => plan.anchored(path@, anchor@, insert@, 0, 0, "insert_before "@),
            },
            SimpleEditOp::InsertAfter { path, anchor, insert } => match self.ensure_entry(
                path@,
                disk,
                false,
            ) {
                Err(e) => Err(e),
                Ok(plan) => plan.anchored(
                    path@,
                    anchor@,
                    insert@,
                    normalize_newlines_spec(anchor@).len() as int,
                    0,
                    "insert_after "@,
                ),
            },
            SimpleEditOp::DeleteFile { path } => match self.ensure_entry(path@, disk, false) {
                Err(e) => Err(e),
                Ok(plan) => match plan.delete_current(path@) {
                    Err(e) => Err(e),
                    Ok(plan) => Ok(plan.described("delete_file "@ + path@)),
                },
            },
            SimpleEditOp::RenameFile { path, to } => self.rename(path@, to@, disk),
        }
    }

    /// The plan after moving `path` to `to`, or the reason why it fails.
    pub open spec fn rename(self, path: Seq<char>, to: Seq<char>, disk: DiskSnapshot) -> Result<
        PlanView,
        Seq<char>,
    > {
        if path == to {
            Err("Source and destination paths are the same"@)
        } else {
            match self.ensure_entry(path, disk, false) {
                Err(e) => Err(e),
                Ok(plan) => {
                    let source = file_of(plan.files, path);
                    if source is None || source->Some_0.current is None {
                        Err("File not found: "@ + path)
                    } else {
                        match plan.clear_target(to, disk) {
                            Err(e) => Err(e),
                            Ok(cleared) => {
                                let i = key_pos(cleared.files, path);
                                if i is None {
                                    Err("File state missing: "@ + path)
                                } else {
                                    let entry = cleared.files[i->Some_0].1;
                                    let files = with_entry(
                                        cleared.files.remove(i->Some_0),
                                        to,
                                        entry,
                                    );
                                    let moved = (PlanView { files, ..cleared }).reassign_path(
                                        path,
                                        to,
                                    );
                                    Ok(
                                        PlanView {
                                            renames: moved.renames.push(
                                                (path, to, entry.original is Some),
                                            ),
                                            descriptions: moved.descriptions.push(
                                                "rename_file "@ + path + " -> "@ + to,
                                            ),
                                            ..moved
                                        },
                                    )
                                }
                            },
                        }
                    }
                },
            }
        }
    }

    /// The plan with the target of a rename made free: an entry that is
    /// planned away is dropped; a planned or existing file is an error.
    pub open spec fn clear_target(self, to: Seq<char>, disk: DiskSnapshot) -> Result<
        PlanView,
        Seq<char>,
    > {
        match key_pos(self.files, to) {
            Some(i) => if self.files[i].1.current is Some {
                Err("Target already exists: "@ + to)
            } else {
                Ok(
                    PlanView {
                        files: self.files.remove(i),
                        created: without(self.created, to),
                        modified: without(self.modified, to),
                        deleted: without(self.deleted, to),
                        ..self
                    },
                )
            },
            None => match disk.present(to) {
                Err(e) => Err(e),
                Ok(true) => Err("Target already exists: "@ + to),
                Ok(false) => Ok(self),
            },
        }
    }
}

/// An ordered set in which `to` takes the place of `from`, where `from` is a
/// member.
pub open spec fn moved(s: Seq<Seq<char>>, from: Seq<char>, to: Seq<char>) -> Seq<Seq<char>> {
    if s.contains(from) {
        insert_sorted(without(s, from), to)
    } else {
        s
    }
}

// ---------------------------------------------------------------------------
// The planner
// ---------------------------------------------------------------------------

/// The texts and states of the entries of a plan.
pub open spec fn files_view(files: Seq<(String, PlannedFile)>) -> FilesView {
    Seq::new(files.len(), |i: int| (files[i].0@, files[i].1@))
}

/// The texts of the recorded renames.
pub open spec fn renames_view(renames: Seq<(String, String, bool)>) -> Seq<
    (Seq<char>, Seq<char>, bool),
> {
    Seq::new(renames.len(), |i: int| (renames[i].0@, renames[i].1@, renames[i].2))
}

fn files_insert(files: &mut Vec<(String, PlannedFile)>, i: usize, key: String, file: PlannedFile)
    requires
        i <= old(files)@.len(),
    ensures
        files_view(final(files)@) == files_view(old(files)@).insert(i as int, (key@, file@)),
        final(files)@.len() == old(files)@.len() + 1,
{
    files.insert(i, (key, file));
    assert(files_view(files@) =~= files_view(old(files)@).insert(i as int, (key@, file@)));
}

fn files_remove(files: &mut Vec<(String, PlannedFile)>, i: usize) -> (e: (String, PlannedFile))
    requires
        i < old(files)@.len(),
    ensures
        files_view(final(files)@) == files_view(old(files)@).remove(i as int),
        (e.0@, e.1@) == files_view(old(files)@)[i as int],
        final(files)@.len() == old(files)@.len() - 1,
{
    let e = files.remove(i);
    assert(files_view(files@) =~= files_view(old(files)@).remove(i as int));
    e
}

fn files_slot(files: &Vec<(String, PlannedFile)>, key: &str) -> (i: usize)
    ensures
        i == slot(keys(files_view(files@)), key@),
        i <= files@.len(),
{
    let ghost ks = keys(files_view(files@));
    let key_chars = str_chars(key);
    let mut i: usize = 0;
    assert(ks.skip(0) == ks);
    while i < files.len()
        invariant
            i <= files@.len(),
            ks == keys(files_view(files@)),
            key_chars@ == key@,
            slot(ks, key@) == i + slot(ks.skip(i as int), key@),
        decreases files.len() - i,
    {
        let cur = str_chars(files[i].0.as_str());
        assert(ks.skip(i as int)[0] == files@[i as int].0@);
        if crate::text::chars_eq(cur.as_slice(), key_chars.as_slice()) || crate::ordered::chars_lt(
            key_chars.as_slice(),
            cur.as_slice(),
        ) {
            return i;
        }
        proof {
            assert(ks.skip(i as int).skip(1) == ks.skip(i + 1));
        }
        i += 1;
    }
    i
}

fn files_find(files: &Vec<(String, PlannedFile)>, path: &str) -> (r: Option<usize>)
    ensures
        match r {
            Some(i) => key_pos(files_view(files@), path@) == Some(i as int) && i < files@.len(),
            None => key_pos(files_view(files@), path@) is None,
        },
{
    let ghost fv = files_view(files@);
    let mut i: usize = 0;
    assert(fv.skip(0) == fv);
    while i < files.len()
        invariant
            i <= files@.len(),
            fv == files_view(files@),
            key_pos(fv, path@) == match key_pos(fv.skip(i as int), path@) {
                Some(k) => Some(k + i),
                None => None,
            },
        decreases files.len() - i,
    {
        assert(fv.skip(i as int)[0] == fv[i as int]);
        if str_eq(files[i].0.as_str(), path) {
            return Some(i);
        }
        proof {
            assert(fv.skip(i as int).skip(1) == fv.skip(i + 1));
        }
        i += 1;
    }
    None
}

/// The position of the one occurrence of `needle` in `haystack`, counted
/// in characters from the start, not in bytes; an error where it occurs
/// nowhere or more than once. Occurrences that overlap count each.
pub fn exactly_once(haystack: &str, needle: &str) -> (r: Result<usize, String>)
    ensures
        match r {
            Ok(i) => occurrences(haystack@, needle@) == 1 && first_match_from(
                haystack@,
                needle@,
                0,
            ) == Some(i as int),
            Err(e) => if occurrences(haystack@, needle@) == 0 {
                e@ == "anchor not found"@
            } else {
                occurrences(haystack@, needle@) > 1 && e@ == "anchor ambiguous (found >1)"@
            },
        },
{
    let hay = str_chars(haystack);
    let pin = str_chars(needle);
    proof {
        lemma_first_match(hay@, pin@, 0);
    }
    match find_from(hay.as_slice(), pin.as_slice(), 0) {
        None => Err(String::from_str("anchor not found")),
        Some(i) => {
            proof {
                lemma_first_match(hay@, pin@, i + 1);
            }
            if i < hay.len() {
                match find_from(hay.as_slice(), pin.as_slice(), i + 1) {
                    None => Ok(i),
                    Some(_) => Err(String::from_str("anchor ambiguous (found >1)")),
                }
            } else {
                Ok(i)
            }
        },
    }
}

/// Plans a list of edit operations file by file before anything is written.
pub struct SimpleEditPlanner {
    dry_run: bool,
    files: Vec<(String, PlannedFile)>,
    renames: Vec<(String, String, bool)>,
    created: Vec<String>,
    modified: Vec<String>,
    deleted: Vec<String>,
    descriptions: Vec<String>,
    bytes_added: u64,
    bytes_removed: u64,
}

impl View for SimpleEditPlanner {
    type V = PlanView;

    closed spec fn view(&self) -> PlanView {
        PlanView {
            dry_run: self.dry_run,
            files: files_view(self.files@),
            renames: renames_view(self.renames@),
            created: string_views(self.created@),
            modified: string_views(self.modified@),
            deleted: string_views(self.deleted@),
            descriptions: string_views(self.descriptions@),
            bytes_added: self.bytes_added as nat,
            bytes_removed: self.bytes_removed as nat,
        }
    }
}

impl SimpleEditPlanner {
    /// An empty plan.
    pub fn new(dry_run: bool) -> (r: Self)
        ensures
            r@ == PlanView::empty(dry_run),
    {
        let r = Self {
            dry_run,
            files: Vec::new(),
            renames: Vec::new(),
            created: Vec::new(),
            modified: Vec::new(),
            deleted: Vec::new(),
            descriptions: Vec::new(),
            bytes_added: 0,
            bytes_removed: 0,
        };
        proof {
            assert(files_view(r.files@) =~= Seq::empty());
            assert(renames_view(r.renames@) =~= Seq::empty());
            assert(string_views(r.created@) =~= Seq::empty());
            assert(string_views(r.descriptions@) =~= Seq::empty());
        }
        r
    }

    /// Whether the plan is only to be reported, not written.
    pub fn is_dry_run(&self) -> (b: bool)
        ensures
            b == self@.dry_run,
    {
        self.dry_run
    }

    /// The planned contents of `path`.
    pub fn current_string(&self, path: &str) -> (r: Result<String, String>)
        ensures
            match r {
                Ok(s) => self@.current_string(path@) == Ok::<Seq<char>, Seq<char>>(s@),
                Err(e) => self@.current_string(path@) == Err::<Seq<char>, Seq<char>>(e@),
            },
    {
        match files_find(&self.files, path) {
            None => Err(concat2("File state missing: ", path)),
            Some(i) => {
                assert(files_view(self.files@)[i as int].1 == self.files@[i as int].1@);
                match &self.files[i].1.current {
                    Some(current) => Ok(current.clone()),
                    None => Err(concat2("File has been deleted: ", path)),
                }
            },
        }
    }

    /// Classifies `path` as created.
    pub fn mark_created(&mut self, path: &str)
        ensures
            final(self)@ == old(self)@.mark_created(path@),
    {
        set_insert(&mut self.created, path);
        set_remove(&mut self.modified, path);
        set_remove(&mut self.deleted, path);
    }

    /// Classifies `path` as modified, unless the plan created it.
    pub fn mark_modified(&mut self, path: &str)
        ensures
            final(self)@ == old(self)@.mark_modified(path@),
    {
        if !has_text(&self.created, path) {
            set_insert(&mut self.modified, path);
        }
        set_remove(&mut self.deleted, path);
    }

    /// Classifies `path` as deleted.
    pub fn mark_deleted(&mut self, path: &str)
        ensures
            final(self)@ == old(self)@.mark_deleted(path@),
    {
        set_remove(&mut self.created, path);
        set_remove(&mut self.modified, path);
        set_insert(&mut self.deleted, path);
    }

    /// Carries the classification of `from` over to `to`.
    pub fn reassign_path(&mut self, from: &str, to: &str)
        ensures
            final(self)@ == old(self)@.reassign_path(from@, to@),
    {
        if set_remove(&mut self.created, from) {
            set_insert(&mut self.created, to);
        } else {
            proof {
                lemma_without_absent(string_views(old(self).created@), from@);
            }
        }
        if set_remove(&mut self.modified, from) {
            set_insert(&mut self.modified, to);
        } else {
            proof {
                lemma_without_absent(string_views(old(self).modified@), from@);
            }
        }
        if set_remove(&mut self.deleted, from) {
            set_insert(&mut self.deleted, to);
        } else {
            proof {
                lemma_without_absent(string_views(old(self).deleted@), from@);
            }
        }
    }

    /// Counts a change of length by `delta` bytes.
    pub fn record_delta(&mut self, delta: i64)
        ensures
            final(self)@ == old(self)@.record_delta(delta as int),
    {
        if delta > 0 {
            self.bytes_added = self.bytes_added.saturating_add(delta as u64);
        } else if delta < 0 {
            let n: u64 = if delta == i64::MIN {
                9223372036854775808u64
            } else {
                (-delta) as u64
            };
            self.bytes_removed = self.bytes_removed.saturating_add(n);
        }
    }

    fn record_change(&mut self, prev_len: usize, new_len: usize)
        ensures
            final(self)@ == old(self)@.record_delta(new_len - prev_len),
    {
        if new_len > prev_len {
            self.bytes_added = self.bytes_added.saturating_add((new_len - prev_len) as u64);
        } else if new_len < prev_len {
            self.bytes_removed = self.bytes_removed.saturating_add((prev_len - new_len) as u64);
        }
    }

    /// Sets the planned contents of `path`.
    pub fn set_current(&mut self, path: &str, new_content: String) -> (r: Result<(), String>)
        ensures
            match r {
                Ok(_) => old(self)@.set_current(path@, new_content@) == Ok::<PlanView, Seq<char>>(
                    final(self)@,
                ),
                Err(e) => old(self)@.set_current(path@, new_content@) == Err::<
                    PlanView,
                    Seq<char>,
                >(e@) && final(self)@ == old(self)@,
            },
    {
        let i = match files_find(&self.files, path) {
            None => {
                return Err(concat2("File state missing: ", path));
            },
            Some(i) => i,
        };
        let ghost fv = files_view(self.files@);
        let (key, file) = files_remove(&mut self.files, i);
        let prev_len: usize = match &file.current {
            Some(c) => byte_length(c.as_str()),
            None => 0,
        };
        let new_len: usize = byte_length(new_content.as_str());
        let original_is_none = file.original.is_none();
        let updated = PlannedFile { original: file.original, current: Some(new_content) };
        files_insert(&mut self.files, i, key, updated);
        proof {
            lemma_key_pos(fv, path@);
            assert(files_view(self.files@) =~= fv.update(
                i as int,
                (path@, FileView { original: fv[i as int].1.original, current: Some(new_content@) }),
            ));
        }
        self.record_change(prev_len, new_len);
        if original_is_none {
            self.mark_created(path);
        } else {
            self.mark_modified(path);
        }
        Ok(())
    }

    /// Plans `path` away.
    pub fn delete_current(&mut self, path: &str) -> (r: Result<(), String>)
        ensures
            match r {
                Ok(_) => old(self)@.delete_current(path@) == Ok::<PlanView, Seq<char>>(
                    final(self)@,
                ),
                Err(e) => old(self)@.delete_current(path@) == Err::<PlanView, Seq<char>>(e@)
                    && final(self)@ == old(self)@,
            },
    {
        let i = match files_find(&self.files, path) {
            None => {
                return Err(concat2("File state missing: ", path));
            },
            Some(i) => i,
        };
        let ghost fv = files_view(self.files@);
        assert(fv[i as int].1 == self.files@[i as int].1@);
        if self.files[i].1.current.is_none() {
            return Err(concat2("File already deleted: ", path));
        }
        let (key, file) = files_remove(&mut self.files, i);
        let prev_len: usize = match &file.current {
            Some(c) => byte_length(c.as_str()),
            None => 0,
        };
        let original_is_some = file.original.is_some();
        let updated = PlannedFile { original: file.original, current: None };
        files_insert(&mut self.files, i, key, updated);
        proof {
            lemma_key_pos(fv, path@);
            assert(files_view(self.files@) =~= fv.update(
                i as int,
                (path@, FileView { original: fv[i as int].1.original, current: None }),
            ));
        }
        self.record_change(prev_len, 0);
        if original_is_some {
            self.mark_deleted(path);
        } else {
            set_remove(&mut self.created, path);
            set_remove(&mut self.modified, path);
        }
        Ok(())
    }

    fn load_entry(&mut self, path: &str, disk: &DiskSnapshot, allow_new: bool) -> (r: Result<
        (),
        String,
    >)
        ensures
            match r {
                Ok(_) => old(self)@.ensure_entry(path@, *disk, allow_new) == Ok::<
                    PlanView,
                    Seq<char>,
                >(final(self)@),
                Err(e) => old(self)@.ensure_entry(path@, *disk, allow_new) == Err::<
                    PlanView,
                    Seq<char>,
                >(e@) && final(self)@ == old(self)@,
            },
    {
        if files_find(&self.files, path).is_some() {
            return Ok(());
        }
        let file = match disk.find(path) {
            None => None,
            Some(k) => match &disk.entries[k].contents {
                ReadOutcome::Missing => None,
                ReadOutcome::Contents(text) => Some(
                    PlannedFile::existing(normalize_newlines(text.as_str())),
                ),
                ReadOutcome::Failed(e) => {
                    let head = concat3("Failed to read file ", path, ": ");
                    return Err(concat2(head.as_str(), e.as_str()));
                },
            },
        };
        let file = match file {
            Some(f) => f,
            None => {
                if !allow_new {
                    return Err(concat2("File not found: ", path));
                }
                PlannedFile::new_missing()
            },
        };
        let i = files_slot(&self.files, path);
        files_insert(&mut self.files, i, String::from_str(path), file);
        Ok(())
    }

    /// Makes sure that the plan has an entry for an existing file.
    pub fn ensure_entry(&mut self, path: &str, disk: &DiskSnapshot) -> (r: Result<(), String>)
        ensures
            match r {
                Ok(_) => old(self)@.ensure_entry(path@, *disk, false) == Ok::<PlanView, Seq<char>>(
                    final(self)@,
                ),
                Err(e) => old(self)@.ensure_entry(path@, *disk, false) == Err::<
                    PlanView,
                    Seq<char>,
                >(e@) && final(self)@ == old(self)@,
            },
    {
        self.load_entry(path, disk, false)
    }

    /// Makes sure that the plan has an entry for a file that may be new.
    pub fn ensure_entry_allow_new(&mut self, path: &str, disk: &DiskSnapshot) -> (r: Result<
        (),
        String,
    >)
        ensures
            match r {
                Ok(_) => old(self)@.ensure_entry(path@, *disk, true) == Ok::<PlanView, Seq<char>>(
                    final(self)@,
                ),
                Err(e) => old(self)@.ensure_entry(path@, *disk, true) == Err::<
                    PlanView,
                    Seq<char>,
                >(e@) && final(self)@ == old(self)@,
            },
    {
        self.load_entry(path, disk, true)
    }

    fn describe(&mut self, line: String)
        ensures
            final(self)@ == old(self)@.described(line@),
    {
        self.descriptions.push(line);
        assert(string_views(self.descriptions@) =~= string_views(old(self).descriptions@).push(
            line@,
        ));
    }
}

impl SimpleEditPlanner {
    fn apply_anchored(
        &mut self,
        path: &str,
        anchor: &str,
        insert: &str,
        after: bool,
        replace: bool,
        label: &str,
    ) -> (r: Result<(), String>)
        requires
            !(after && replace),
        ensures
            match r {
                Ok(_) => old(self)@.anchored(
                    path@,
                    anchor@,
                    insert@,
                    if after {
                        normalize_newlines_spec(anchor@).len() as int
                    } else {
                        0
                    },
                    if replace {
                        normalize_newlines_spec(anchor@).len() as int
                    } else {
                        0
                    },
                    label@,
                ) == Ok::<PlanView, Seq<char>>(final(self)@),
                Err(e) => old(self)@.anchored(
                    path@,
                    anchor@,
                    insert@,
                    if after {
                        normalize_newlines_spec(anchor@).len() as int
                    } else {
                        0
                    },
                    if replace {
                        normalize_newlines_spec(anchor@).len() as int
                    } else {
                        0
                    },
                    label@,
                ) == Err::<PlanView, Seq<char>>(e@) && final(self)@ == old(self)@,
            },
    {
        let current = match self.current_string(path) {
            Ok(c) => c,
            Err(e) => {
                return Err(e);
            },
        };
        let needle = normalize_newlines(anchor);
        let insertion = normalize_newlines(insert);
        let at = match exactly_once(current.as_str(), needle.as_str()) {
            Ok(i) => i,
            Err(e) => {
                return Err(e);
            },
        };
        let cur = str_chars(current.as_str());
        let pin = str_chars(needle.as_str());
        let ins = str_chars(insertion.as_str());
        let total: usize = cur.len();
        let width: usize = pin.len();
        proof {
            lemma_first_match(cur@, pin@, 0);
            assert(matches_at(cur@, pin@, at as int));
            assert(at + width <= total);
        }
        let offset: usize = if after {
            pin.len()
        } else {
            0
        };
        let skip: usize = if replace {
            pin.len()
        } else {
            0
        };
        let mut out = sub_vec(cur.as_slice(), 0, at + offset);
        extend_chars(&mut out, ins.as_slice());
        let tail = sub_vec(cur.as_slice(), at + offset + skip, cur.len());
        extend_chars(&mut out, tail.as_slice());
        proof {
            assert(cur@.subrange(0, at + offset) == cur@.take(at + offset));
            assert(cur@.subrange(at + offset + skip, cur@.len() as int) == cur@.skip(
                at + offset + skip,
            ));
        }
        let text = chars_to_string(out.as_slice());
        match self.set_current(path, text) {
            Ok(_) => {},
            Err(e) => {
                return Err(e);
            },
        }
        self.describe(concat2(label, path));
        Ok(())
    }

    fn clear_target(&mut self, to: &str, disk: &DiskSnapshot) -> (r: Result<(), String>)
        ensures
            match r {
                Ok(_) => old(self)@.clear_target(to@, *disk) == Ok::<PlanView, Seq<char>>(
                    final(self)@,
                ),
                Err(e) => old(self)@.clear_target(to@, *disk) == Err::<PlanView, Seq<char>>(e@)
                    && final(self)@ == old(self)@,
            },
    {
        match files_find(&self.files, to) {
            Some(j) => {
                assert(files_view(self.files@)[j as int].1 == self.files@[j as int].1@);
                if self.files[j].1.current.is_some() {
                    return Err(concat2("Target already exists: ", to));
                }
                let _ = files_remove(&mut self.files, j);
                set_remove(&mut self.created, to);
                set_remove(&mut self.modified, to);
                set_remove(&mut self.deleted, to);
                Ok(())
            },
            None => match disk.find(to) {
                None => Ok(()),
                Some(k) => match &disk.entries[k].exists {
                    StatOutcome::Missing => Ok(()),
                    StatOutcome::Exists => Err(concat2("Target already exists: ", to)),
                    StatOutcome::Failed(e) => {
                        let head = concat3("Failed to inspect ", to, ": ");
                        Err(concat2(head.as_str(), e.as_str()))
                    },
                },
            },
        }
    }

    fn apply_rename(&mut self, path: &str, to: &str, disk: &DiskSnapshot) -> (r: Result<
        (),
        String,
    >)
        ensures
            match r {
                Ok(_) => old(self)@.rename(path@, to@, *disk) == Ok::<PlanView, Seq<char>>(
                    final(self)@,
                ),
                Err(e) => old(self)@.rename(path@, to@, *disk) == Err::<PlanView, Seq<char>>(e@)
                    && final(self)@ == old(self)@.rename_failure(path@, to@, *disk),
            },
    {
        if str_eq(path, to) {
            return Err(String::from_str("Source and destination paths are the same"));
        }
        match self.ensure_entry(path, disk) {
            Ok(_) => {},
            Err(e) => {
                return Err(e);
            },
        }
        match files_find(&self.files, path) {
            None => {
                return Err(concat2("File not found: ", path));
            },
            Some(i) => {
                assert(files_view(self.files@)[i as int].1 == self.files@[i as int].1@);
                if self.files[i].1.current.is_none() {
                    return Err(concat2("File not found: ", path));
                }
            },
        }
        match self.clear_target(to, disk) {
            Ok(_) => {},
            Err(e) => {
                return Err(e);
            },
        }
        let i = match files_find(&self.files, path) {
            None => {
                return Err(concat2("File state missing: ", path));
            },
            Some(i) => i,
        };
        let (_, entry) = files_remove(&mut self.files, i);
        let should_rename = entry.original.is_some();
        let at = files_slot(&self.files, to);
        files_insert(&mut self.files, at, String::from_str(to), entry);
        self.reassign_path(path, to);
        let ghost before = renames_view(self.renames@);
        self.renames.push((String::from_str(path), String::from_str(to), should_rename));
        assert(renames_view(self.renames@) =~= before.push((path@, to@, should_rename)));
        let head = concat3("rename_file ", path, " -> ");
        self.describe(concat2(head.as_str(), to));
        Ok(())
    }

    /// Applies one operation to the plan. The disk is consulted only for
    /// paths that the plan does not yet hold. An operation that fails
    /// changes no planned content: the plan then holds at most the entry
    /// of the file that was looked at, as the disk has it.
    pub fn apply_op(&mut self, op: &SimpleEditOp, disk: &DiskSnapshot) -> (r: Result<(), String>)
        ensures
            match r {
                Ok(_) => old(self)@.step(*op, *disk) == Ok::<PlanView, Seq<char>>(final(self)@),
                Err(e) => old(self)@.step(*op, *disk) == Err::<PlanView, Seq<char>>(e@)
                    && final(self)@ == old(self)@.after_failure(*op, *disk),
            },
    {
        match op {
            SimpleEditOp::SetFile { path, contents } => {
                match self.ensure_entry_allow_new(path.as_str(), disk) {
                    Ok(_) => {},
                    Err(e) => {
                        return Err(e);
                    },
                }
                let normalized = normalize_newlines(contents.as_str());
                match self.set_current(path.as_str(), normalized) {
                    Ok(_) => {},
                    Err(e) => {
                        return Err(e);
                    },
                }
                self.describe(concat2("set_file ", path.as_str()));
                Ok(())
            },
            SimpleEditOp::ReplaceOnce { path, find, replace } => {
                match self.ensure_entry(path.as_str(), disk) {
                    Ok(_) => {},
                    Err(e) => {
                        return Err(e);
                    },
                }
                self.apply_anchored(
                    path.as_str(),
                    find.as_str(),
                    replace.as_str(),
                    false,
                    true,
                    "replace_once ",
                )
            },
            SimpleEditOp::InsertBefore { path, anchor, insert } => {
                match self.ensure_entry(path.as_str(), disk) {
                    Ok(_) => {},
                    Err(e) => {
                        return Err(e);
                    },
                }
                self.apply_anchored(
                    path.as_str(),
                    anchor.as_str(),
                    insert.as_str(),
                    false,
                    false,
                    "insert_before ",
                )
            },
            SimpleEditOp::InsertAfter { path, anchor, insert } => {
                match self.ensure_entry(path.as_str(), disk) {
                    Ok(_) => {},
                    Err(e) => {
                        return Err(e);
                    },
                }
                self.apply_anchored(
                    path.as_str(),
                    anchor.as_str(),
                    insert.as_str(),
                    true,
                    false,
                    "insert_after ",
                )
            },
            SimpleEditOp::DeleteFile { path } => {
                match self.ensure_entry(path.as_str(), disk) {
                    Ok(_) => {},
                    Err(e) => {
                        return Err(e);
                    },
                }
                match self.delete_current(path.as_str()) {
                    Ok(_) => {},
                    Err(e) => {
                        return Err(e);
                    },
                }
                self.describe(concat2("delete_file ", path.as_str()));
                Ok(())
            },
            SimpleEditOp::RenameFile { path, to } => self.apply_rename(
                path.as_str(),
                to.as_str(),
                disk,
            ),
        }
    }
}

// ---------------------------------------------------------------------------
// The summary
// ---------------------------------------------------------------------------

/// One line per rename: the old path, an arrow, the new path.
pub open spec fn rename_lines(renames: Seq<(Seq<char>, Seq<char>, bool)>) -> Seq<Seq<char>> {
    renames.map_values(|r: (Seq<char>, Seq<char>, bool)| "  "@ + r.0 + " -> "@ + r.1)
}

/// One line per recorded operation.
pub open spec fn operation_lines(descriptions: Seq<Seq<char>>) -> Seq<Seq<char>> {
    descriptions.map_values(|d: Seq<char>| "  - "@ + d)
}

/// `lines` with a line that lists the members of `set` behind `label`,
/// where there are any.
pub open spec fn with_listing(lines: Seq<Seq<char>>, label: Seq<char>, set: Seq<Seq<char>>) -> Seq<
    Seq<char>,
> {
    if set.len() > 0 {
        lines.push(label + join_spec(set, ", "@))
    } else {
        lines
    }
}

/// `lines` with a heading and the lines under it, where there are any.
pub open spec fn with_section(lines: Seq<Seq<char>>, heading: Seq<char>, body: Seq<Seq<char>>)
    -> Seq<Seq<char>> {
    if body.len() > 0 {
        lines.push(heading) + body
    } else {
        lines
    }
}

/// The lines of the summary of a plan.
pub open spec fn summary_lines(plan: PlanView) -> Seq<Seq<char>> {
    let l0 = Seq::empty().push(
        if plan.dry_run {
            "Dry run: no changes were written."@
        } else {
            "Edits applied successfully."@
        },
    );
    let l1 = with_listing(l0, "Created files: "@, plan.created);
    let l2 = with_listing(l1, "Modified files: "@, plan.modified);
    let l3 = with_listing(l2, "Deleted files: "@, plan.deleted);
    let l4 = with_section(l3, "Renamed files:"@, rename_lines(plan.renames));
    let l5 = with_section(l4, "Operations:"@, operation_lines(plan.descriptions));
    l5.push("Bytes added: "@ + decimal(plan.bytes_added)).push(
        "Bytes removed: "@ + decimal(plan.bytes_removed),
    )
}

/// The summary of a plan: its lines joined by line feeds.
pub open spec fn summary_text(plan: PlanView) -> Seq<char> {
    join_spec(summary_lines(plan), "\n"@)
}

fn push_line(lines: &mut Vec<String>, line: String)
    ensures
        string_views(final(lines)@) == string_views(old(lines)@).push(line@),
{
    lines.push(line);
    assert(string_views(lines@) =~= string_views(old(lines)@).push(line@));
}

fn push_listing(lines: &mut Vec<String>, label: &str, set: &Vec<String>)
    ensures
        string_views(final(lines)@) == with_listing(
            string_views(old(lines)@),
            label@,
            string_views(set@),
        ),
{
    if set.len() > 0 {
        let listed = join(set, ", ");
        push_line(lines, concat2(label, listed.as_str()));
    }
}

// ---------------------------------------------------------------------------
// The commit
// ---------------------------------------------------------------------------

/// One action on the disk.
#[derive(Debug)]
pub enum CommitAction {
    /// Move `from` to `to`, creating the parent directories of `to`.
    Rename { from: String, to: String },
    /// Write the contents to the path, creating its parent directories.
    Write { path: String, contents: String },
    /// Remove the file; that it is gone already is no failure.
    Remove { path: String },
}

/// One action on the disk, as texts.
pub enum ActionView {
    Rename { from: Seq<char>, to: Seq<char> },
    Write { path: Seq<char>, contents: Seq<char> },
    Remove { path: Seq<char> },
}

impl View for CommitAction {
    type V = ActionView;

    open spec fn view(&self) -> ActionView {
        match self {
            CommitAction::Rename { from, to } => ActionView::Rename { from: from@, to: to@ },
            CommitAction::Write { path, contents } => ActionView::Write {
                path: path@,
                contents: contents@,
            },
            CommitAction::Remove { path } => ActionView::Remove { path: path@ },
        }
    }
}

/// The views of a list of actions.
pub open spec fn actions_view(actions: Seq<CommitAction>) -> Seq<ActionView> {
    actions.map_values(|a: CommitAction| a@)
}

/// The renames to perform: those of files that exist on disk, in the order
/// in which they were planned.
pub open spec fn rename_actions(renames: Seq<(Seq<char>, Seq<char>, bool)>) -> Seq<ActionView>
    decreases renames.len(),
{
    if renames.len() == 0 {
        Seq::empty()
    } else {
        let r = renames.last();
        let before = rename_actions(renames.drop_last());
        if r.2 && r.0 != r.1 {
            before.push(ActionView::Rename { from: r.0, to: r.1 })
        } else {
            before
        }
    }
}

/// What is to be done for one planned file: written where its contents are
/// new or changed, removed where it existed and is planned away.
pub open spec fn file_action(path: Seq<char>, file: FileView) -> Option<ActionView> {
    match file.current {
        Some(c) => if file.original != file.current {
            Some(ActionView::Write { path, contents: c })
        } else {
            None
        },
        None => if file.original is Some {
            Some(ActionView::Remove { path })
        } else {
            None
        },
    }
}

/// The writes and removals to perform, in path order.
pub open spec fn file_actions(files: FilesView) -> Seq<ActionView>
    decreases files.len(),
{
    if files.len() == 0 {
        Seq::empty()
    } else {
        let before = file_actions(files.drop_last());
        match file_action(files.last().0, files.last().1) {
            Some(a) => before.push(a),
            None => before,
        }
    }
}

/// The actions that commit a plan: none for a dry run, else the renames and
/// then the writes and removals.
pub open spec fn commit_actions_spec(plan: PlanView) -> Seq<ActionView> {
    if plan.dry_run {
        Seq::empty()
    } else {
        rename_actions(plan.renames) + file_actions(plan.files)
    }
}

impl CommitAction {
    /// The message for a failure of the action itself.
    pub open spec fn failure_spec(self, error: Seq<char>) -> Seq<char> {
        match self {
            CommitAction::Rename { from, to } => "Failed to rename "@ + from@ + " to "@ + to@
                + ": "@ + error,
            CommitAction::Write { path, .. } => "Failed to write file "@ + path@ + ": "@ + error,
            CommitAction::Remove { path } => "Failed to delete file "@ + path@ + ": "@ + error,
        }
    }

    /// The message for a failure of the action itself, given the system's
    /// error text.
    pub fn failure(&self, error: &str) -> (s: String)
        ensures
            s@ == self.failure_spec(error@),
    {
        match self {
            CommitAction::Rename { from, to } => {
                let mut s = concat3("Failed to rename ", from.as_str(), " to ");
                s.append(to.as_str());
                s.append(": ");
                s.append(error);
                s
            },
            CommitAction::Write { path, .. } => {
                let mut s = concat3("Failed to write file ", path.as_str(), ": ");
                s.append(error);
                s
            },
            CommitAction::Remove { path } => {
                let mut s = concat3("Failed to delete file ", path.as_str(), ": ");
                s.append(error);
                s
            },
        }
    }

    /// The path whose parent directories the action needs, if it needs any.
    pub fn needs_parent_of(&self) -> (r: Option<&str>)
        ensures
            match *self {
                CommitAction::Rename { from, to } => r matches Some(p) && p@ == to@,
                CommitAction::Write { path, contents } => r matches Some(p) && p@ == path@,
                CommitAction::Remove { path } => r is None,
            },
    {
        match self {
            CommitAction::Rename { to, .. } => Some(to.as_str()),
            CommitAction::Write { path, .. } => Some(path.as_str()),
            CommitAction::Remove { .. } => None,
        }
    }

    /// The message for a failure to create the parent directories of
    /// `path`.
    pub fn parent_failure(path: &str, error: &str) -> (s: String)
        ensures
            s@ == "Failed to create parent directories for "@ + path@ + ": "@ + error@,
    {
        let mut s = concat3("Failed to create parent directories for ", path, ": ");
        s.append(error);
        s
    }

    /// Whether the action counts as done where its file is not found.
    pub fn tolerates_missing(&self) -> (b: bool)
        ensures
            b == (*self is Remove),
    {
        match self {
            CommitAction::Remove { .. } => true,
            _ => false,
        }
    }
}

impl SimpleEditPlanner {
    /// The summary of the plan: what was created, modified, deleted and
    /// renamed, the operations, and the byte counts.
    pub fn build_summary(&self) -> (s: String)
        ensures
            s@ == summary_text(self@),
    {
        let mut lines: Vec<String> = Vec::new();
        assert(string_views(lines@) =~= Seq::<Seq<char>>::empty());
        if self.dry_run {
            push_line(&mut lines, String::from_str("Dry run: no changes were written."));
        } else {
            push_line(&mut lines, String::from_str("Edits applied successfully."));
        }
        push_listing(&mut lines, "Created files: ", &self.created);
        push_listing(&mut lines, "Modified files: ", &self.modified);
        push_listing(&mut lines, "Deleted files: ", &self.deleted);
        if self.renames.len() > 0 {
            let ghost head = string_views(lines@).push("Renamed files:"@);
            let ghost all = rename_lines(renames_view(self.renames@));
            push_line(&mut lines, String::from_str("Renamed files:"));
            let mut i: usize = 0;
            assert(head + all.take(0) =~= head);
            while i < self.renames.len()
                invariant
                    i <= self.renames@.len(),
                    all == rename_lines(renames_view(self.renames@)),
                    string_views(lines@) == head + all.take(i as int),
                decreases self.renames.len() - i,
            {
                let mut line = concat3("  ", self.renames[i].0.as_str(), " -> ");
                line.append(self.renames[i].1.as_str());
                push_line(&mut lines, line);
                proof {
                    assert(all[i as int] == line@);
                    assert(head + all.take(i + 1) =~= (head + all.take(i as int)).push(line@));
                }
                i += 1;
            }
            assert(all.take(all.len() as int) == all);
        }
        if self.descriptions.len() > 0 {
            let ghost head = string_views(lines@).push("Operations:"@);
            let ghost all = operation_lines(string_views(self.descriptions@));
            push_line(&mut lines, String::from_str("Operations:"));
            let mut i: usize = 0;
            assert(head + all.take(0) =~= head);
            while i < self.descriptions.len()
                invariant
                    i <= self.descriptions@.len(),
                    all == operation_lines(string_views(self.descriptions@)),
                    string_views(lines@) == head + all.take(i as int),
                decreases self.descriptions.len() - i,
            {
                let line = concat2("  - ", self.descriptions[i].as_str());
                push_line(&mut lines, line);
                proof {
                    assert(all[i as int] == line@);
                    assert(head + all.take(i + 1) =~= (head + all.take(i as int)).push(line@));
                }
                i += 1;
            }
            assert(all.take(all.len() as int) == all);
        }
        let added = u64_to_string(self.bytes_added);
        push_line(&mut lines, concat2("Bytes added: ", added.as_str()));
        let removed = u64_to_string(self.bytes_removed);
        push_line(&mut lines, concat2("Bytes removed: ", removed.as_str()));
        join(&lines, "\n")
    }

    /// The actions that bring the disk to the planned state: none for a dry
    /// run, else the renames, then the writes and removals in path order.
    pub fn commit_actions(&self) -> (actions: Vec<CommitAction>)
        ensures
            actions_view(actions@) == commit_actions_spec(self@),
    {
        let mut actions: Vec<CommitAction> = Vec::new();
        assert(actions_view(actions@) =~= Seq::<ActionView>::empty());
        if self.dry_run {
            return actions;
        }
        let ghost rv = renames_view(self.renames@);
        let mut i: usize = 0;
        assert(rv.take(0) =~= Seq::empty());
        while i < self.renames.len()
            invariant
                i <= self.renames@.len(),
                rv == renames_view(self.renames@),
                actions_view(actions@) == rename_actions(rv.take(i as int)),
            decreases self.renames.len() - i,
        {
            proof {
                assert(rv.take(i + 1).drop_last() == rv.take(i as int));
                assert(rv.take(i + 1).last() == rv[i as int]);
            }
            let ghost before = actions_view(actions@);
            if self.renames[i].2 && !str_eq(self.renames[i].0.as_str(), self.renames[i].1.as_str()) {
                let a = CommitAction::Rename {
                    from: self.renames[i].0.clone(),
                    to: self.renames[i].1.clone(),
                };
                actions.push(a);
                assert(actions_view(actions@) =~= before.push(a@));
            }
            i += 1;
        }
        assert(rv.take(rv.len() as int) == rv);
        let ghost renamed = actions_view(actions@);
        let ghost fv = files_view(self.files@);
        let mut k: usize = 0;
        proof {
            assert(fv.take(0) =~= Seq::empty());
            assert(renamed + Seq::<ActionView>::empty() =~= renamed);
        }
        while k < self.files.len()
            invariant
                k <= self.files@.len(),
                fv == files_view(self.files@),
                actions_view(actions@) == renamed + file_actions(fv.take(k as int)),
            decreases self.files.len() - k,
        {
            proof {
                assert(fv.take(k + 1).drop_last() == fv.take(k as int));
                assert(fv.take(k + 1).last() == fv[k as int]);
                assert(fv[k as int] == (self.files@[k as int].0@, self.files@[k as int].1@));
            }
            let ghost before = actions_view(actions@);
            let path = &self.files[k].0;
            let file = &self.files[k].1;
            match &file.current {
                Some(content) => {
                    let unchanged = match &file.original {
                        Some(original) => str_eq(original.as_str(), content.as_str()),
                        None => false,
                    };
                    if !unchanged {
                        let a = CommitAction::Write {
                            path: path.clone(),
                            contents: content.clone(),
                        };
                        actions.push(a);
                        proof {
                            assert(actions_view(actions@) =~= before.push(a@));
                            assert((renamed + file_actions(fv.take(k as int))).push(a@) =~= renamed
                                + file_actions(fv.take(k as int)).push(a@));
                        }
                    }
                },
                None => {
                    if file.original.is_some() {
                        let a = CommitAction::Remove { path: path.clone() };
                        actions.push(a);
                        proof {
                            assert(actions_view(actions@) =~= before.push(a@));
                            assert((renamed + file_actions(fv.take(k as int))).push(a@) =~= renamed
                                + file_actions(fv.take(k as int)).push(a@));
                        }
                    }
                },
            }
            k += 1;
        }
        assert(fv.take(fv.len() as int) == fv);
        actions
    }

    /// Ends the planning. `committed` says how performing the actions of
    /// `commit_actions` went; a dry run has none and always succeeds.
    pub fn finish(self, committed: Result<(), String>) -> (r: Result<String, String>)
        ensures
            match r {
                Ok(s) => s@ == summary_text(self@) && (self@.dry_run || committed is Ok),
                Err(e) => !self@.dry_run && committed == Err::<(), String>(e),
            },
    {
        if !self.dry_run {
            match committed {
                Ok(_) => {},
                Err(e) => {
                    return Err(e);
                },
            }
        }
        Ok(self.build_summary())
    }
}

// ---------------------------------------------------------------------------
// Whole lists of operations
// ---------------------------------------------------------------------------

/// The plan after the operations `ops[from..]` in order, or the reason why
/// the first failing one fails.
pub open spec fn run_from(plan: PlanView, ops: Seq<SimpleEditOp>, from: int, disk: DiskSnapshot)
    -> Result<PlanView, Seq<char>>
    decreases ops.len() - from,
{
    if from < 0 || from >= ops.len() {
        Ok(plan)
    } else {
        match plan.step(ops[from], disk) {
            Err(e) => Err(e),
            Ok(next) => run_from(next, ops, from + 1, disk),
        }
    }
}

/// The plan that a list of operations makes from nothing.
pub open spec fn run(dry_run: bool, ops: Seq<SimpleEditOp>, disk: DiskSnapshot) -> Result<
    PlanView,
    Seq<char>,
> {
    run_from(PlanView::empty(dry_run), ops, 0, disk)
}

/// Plans a list of operations in order. The first failure fails the whole
/// list.
pub fn plan_edits(dry_run: bool, ops: &Vec<SimpleEditOp>, disk: &DiskSnapshot) -> (r: Result<
    SimpleEditPlanner,
    String,
>)
    ensures
        match r {
            Ok(planner) => run(dry_run, ops@, *disk) == Ok::<PlanView, Seq<char>>(planner@),
            Err(e) => run(dry_run, ops@, *disk) == Err::<PlanView, Seq<char>>(e@),
        },
{
    let mut planner = SimpleEditPlanner::new(dry_run);
    let mut i: usize = 0;
    while i < ops.len()
        invariant
            i <= ops@.len(),
            run(dry_run, ops@, *disk) == run_from(planner@, ops@, i as int, *disk),
        decreases ops.len() - i,
    {
        match planner.apply_op(&ops[i], disk) {
            Ok(_) => {},
            Err(e) => {
                return Err(e);
            },
        }
        i += 1;
    }
    Ok(planner)
}

// ---------------------------------------------------------------------------
// Laws
// ---------------------------------------------------------------------------

/// No step changes whether a plan is a dry run.
pub proof fn lemma_step_keeps_mode(plan: PlanView, op: SimpleEditOp, disk: DiskSnapshot)
    ensures
        plan.step(op, disk) matches Ok(next) ==> next.dry_run == plan.dry_run,
{
}

/// No list of operations changes whether a plan is a dry run.
pub proof fn lemma_run_keeps_mode(
    plan: PlanView,
    ops: Seq<SimpleEditOp>,
    from: int,
    disk: DiskSnapshot,
)
    ensures
        run_from(plan, ops, from, disk) matches Ok(last) ==> last.dry_run == plan.dry_run,
    decreases ops.len() - from,
{
    if 0 <= from < ops.len() {
        lemma_step_keeps_mode(plan, ops[from], disk);
        match plan.step(ops[from], disk) {
            Ok(next) => lemma_run_keeps_mode(next, ops, from + 1, disk),
            Err(_) => {},
        }
    }
}

/// A dry run never changes the filesystem: whatever the operations and
/// whatever the disk holds, the finished plan has no action to commit.
pub proof fn law_dry_run_commits_nothing(ops: Seq<SimpleEditOp>, disk: DiskSnapshot)
    ensures
        run(true, ops, disk) matches Ok(plan) ==> plan.dry_run && commit_actions_spec(plan)
            == Seq::<ActionView>::empty(),
{
    lemma_run_keeps_mode(PlanView::empty(true), ops, 0, disk);
}

/// Anchor uniqueness: an edit anchored in a file that the plan holds with
/// contents fails if and only if the anchor does not occur exactly once in
/// those contents.
pub proof fn law_anchor_uniqueness(
    plan: PlanView,
    path: Seq<char>,
    anchor: Seq<char>,
    insert: Seq<char>,
    offset: int,
    skip: int,
    label: Seq<char>,
)
    requires
        plan.current_string(path) is Ok,
    ensures
        plan.anchored(path, anchor, insert, offset, skip, label) is Err <==> occurrences(
            plan.current_string(path)->Ok_0,
            normalize_newlines_spec(anchor),
        ) != 1,
{
}

/// The contents that an operation on `path` finds planned: those that the
/// plan holds, or else those that the disk holds.
pub open spec fn planned_contents(plan: PlanView, path: Seq<char>, disk: DiskSnapshot) -> Option<
    Seq<char>,
> {
    match plan.ensure_entry(path, disk, false) {
        Ok(p) => match p.current_string(path) {
            Ok(c) => Some(c),
            Err(_) => None,
        },
        Err(_) => None,
    }
}

/// The anchor of an anchored operation.
pub open spec fn anchor_of(op: SimpleEditOp) -> Seq<char> {
    match op {
        SimpleEditOp::ReplaceOnce { find, .. } => find@,
        SimpleEditOp::InsertBefore { anchor, .. } => anchor@,
        SimpleEditOp::InsertAfter { anchor, .. } => anchor@,
        _ => Seq::empty(),
    }
}

/// Anchor uniqueness for the three anchored operations: where the file has
/// planned contents, the operation fails if and only if its anchor does not
/// occur exactly once in them, and after the failure the plan still holds
/// those contents for the file.
pub proof fn law_anchored_ops(plan: PlanView, op: SimpleEditOp, disk: DiskSnapshot)
    requires
        op is ReplaceOnce || op is InsertBefore || op is InsertAfter,
        planned_contents(plan, op.path_spec(), disk) is Some,
    ensures
        plan.step(op, disk) is Err <==> occurrences(
            planned_contents(plan, op.path_spec(), disk)->Some_0,
            normalize_newlines_spec(anchor_of(op)),
        ) != 1,
        plan.step(op, disk) is Err ==> plan.after_failure(op, disk).current_string(op.path_spec())
            == Ok::<Seq<char>, Seq<char>>(planned_contents(plan, op.path_spec(), disk)->Some_0),
{
}

// ---------------------------------------------------------------------------
// The order of a plan
// ---------------------------------------------------------------------------

/// The files of the plan and its three classes are sets in path order.
pub open spec fn in_order(plan: PlanView) -> bool {
    &&& strictly_sorted(keys(plan.files))
    &&& strictly_sorted(plan.created)
    &&& strictly_sorted(plan.modified)
    &&& strictly_sorted(plan.deleted)
}

proof fn lemma_moved_order(s: Seq<Seq<char>>, from: Seq<char>, to: Seq<char>)
    requires
        strictly_sorted(s),
    ensures
        strictly_sorted(moved(s, from, to)),
{
    law_without(s, from);
    law_insert_sorted(without(s, from), to);
}

proof fn lemma_marks_order(plan: PlanView, path: Seq<char>)
    requires
        strictly_sorted(plan.created),
        strictly_sorted(plan.modified),
        strictly_sorted(plan.deleted),
    ensures
        strictly_sorted(plan.mark_created(path).created),
        strictly_sorted(plan.mark_created(path).modified),
        strictly_sorted(plan.mark_created(path).deleted),
        strictly_sorted(plan.mark_modified(path).created),
        strictly_sorted(plan.mark_modified(path).modified),
        strictly_sorted(plan.mark_modified(path).deleted),
        strictly_sorted(plan.mark_deleted(path).created),
        strictly_sorted(plan.mark_deleted(path).modified),
        strictly_sorted(plan.mark_deleted(path).deleted),
        strictly_sorted(without(plan.created, path)),
        strictly_sorted(without(plan.modified, path)),
        strictly_sorted(without(plan.deleted, path)),
{
    law_without(plan.created, path);
    law_without(plan.modified, path);
    law_without(plan.deleted, path);
    law_insert_sorted(plan.created, path);
    law_insert_sorted(plan.modified, path);
    law_insert_sorted(plan.deleted, path);
}

proof fn lemma_keys_update(files: FilesView, i: int, file: FileView)
    requires
        0 <= i < files.len(),
    ensures
        keys(files.update(i, (files[i].0, file))) == keys(files),
{
    assert(keys(files.update(i, (files[i].0, file))) =~= keys(files));
}

proof fn lemma_keys_remove(files: FilesView, i: int)
    requires
        0 <= i < files.len(),
        strictly_sorted(keys(files)),
    ensures
        keys(files.remove(i)) == keys(files).remove(i),
        strictly_sorted(keys(files.remove(i))),
        forall|k: Seq<char>|
            keys(files.remove(i)).contains(k) <==> (keys(files).contains(k) && k != files[i].0),
{
    let ks = keys(files);
    let rs = keys(files.remove(i));
    assert(rs =~= ks.remove(i));
    assert forall|a: int, b: int| 0 <= a < b < rs.len() implies lex_lt(
        #[trigger] rs[a],
        #[trigger] rs[b],
    ) by {
        let a2 = if a < i {
            a
        } else {
            a + 1
        };
        let b2 = if b < i {
            b
        } else {
            b + 1
        };
        assert(rs[a] == ks[a2] && rs[b] == ks[b2]);
    }
    assert forall|k: Seq<char>| rs.contains(k) <==> (ks.contains(k) && k != files[i].0) by {
        if rs.contains(k) {
            let a = choose|a: int| 0 <= a < rs.len() && rs[a] == k;
            let a2 = if a < i {
                a
            } else {
                a + 1
            };
            assert(ks[a2] == k);
            if a2 < i {
                assert(lex_lt(ks[a2], ks[i]));
            } else {
                assert(lex_lt(ks[i], ks[a2]));
            }
            crate::ordered::lemma_lex_irreflexive(k);
        }
        if ks.contains(k) && k != files[i].0 {
            let a = choose|a: int| 0 <= a < ks.len() && ks[a] == k;
            assert(ks[i] == files[i].0);
            if a < i {
                assert(rs[a] == k);
            } else {
                assert(rs[a - 1] == k);
            }
        }
    }
}

proof fn lemma_with_entry_order(files: FilesView, path: Seq<char>, file: FileView)
    requires
        strictly_sorted(keys(files)),
        !keys(files).contains(path),
    ensures
        strictly_sorted(keys(with_entry(files, path, file))),
        forall|k: Seq<char>|
            keys(with_entry(files, path, file)).contains(k) <==> (keys(files).contains(k) || k
                == path),
{
    let ks = keys(files);
    crate::ordered::lemma_slot(ks, path);
    let at = slot(ks, path) as int;
    if at < ks.len() {
        assert(ks.contains(ks[at]));
    }
    assert(keys(with_entry(files, path, file)) =~= ks.insert(at, path));
    law_insert_sorted(ks, path);
}

proof fn lemma_key_pos_contains(files: FilesView, path: Seq<char>)
    ensures
        key_pos(files, path) is Some <==> keys(files).contains(path),
{
    lemma_key_pos(files, path);
    let ks = keys(files);
    match key_pos(files, path) {
        Some(i) => {
            assert(ks[i] == path);
        },
        None => {
            if ks.contains(path) {
                let i = choose|i: int| 0 <= i < ks.len() && ks[i] == path;
                assert(files[i].0 == path);
            }
        },
    }
}

proof fn lemma_set_current_order(plan: PlanView, path: Seq<char>, content: Seq<char>)
    requires
        in_order(plan),
    ensures
        plan.set_current(path, content) matches Ok(next) ==> in_order(next) && keys(next.files)
            == keys(plan.files),
{
    lemma_key_pos(plan.files, path);
    match key_pos(plan.files, path) {
        Some(i) => {
            let f = plan.files[i].1;
            lemma_keys_update(plan.files, i, FileView { original: f.original, current: Some(content) });
            lemma_marks_order(plan, path);
        },
        None => {},
    }
}

proof fn lemma_delete_current_order(plan: PlanView, path: Seq<char>)
    requires
        in_order(plan),
    ensures
        plan.delete_current(path) matches Ok(next) ==> in_order(next),
{
    lemma_key_pos(plan.files, path);
    match key_pos(plan.files, path) {
        Some(i) => {
            let f = plan.files[i].1;
            lemma_keys_update(plan.files, i, FileView { original: f.original, current: None });
            lemma_marks_order(plan, path);
        },
        None => {},
    }
}

proof fn lemma_ensure_entry_order(plan: PlanView, path: Seq<char>, disk: DiskSnapshot, allow: bool)
    requires
        in_order(plan),
    ensures
        plan.ensure_entry(path, disk, allow) matches Ok(next) ==> in_order(next),
{
    lemma_key_pos_contains(plan.files, path);
    if key_pos(plan.files, path) is None {
        match disk.seen(path) {
            Seen::Text(t) => {
                lemma_with_entry_order(
                    plan.files,
                    path,
                    FileView { original: Some(t), current: Some(t) },
                );
            },
            Seen::Missing => {
                lemma_with_entry_order(plan.files, path, FileView { original: None, current: None });
            },
            Seen::Failed(_) => {},
        }
    }
}

proof fn lemma_clear_target_order(plan: PlanView, to: Seq<char>, disk: DiskSnapshot)
    requires
        in_order(plan),
    ensures
        plan.clear_target(to, disk) matches Ok(next) ==> in_order(next) && !keys(
            next.files,
        ).contains(to),
{
    lemma_key_pos(plan.files, to);
    lemma_key_pos_contains(plan.files, to);
    match key_pos(plan.files, to) {
        Some(i) => {
            lemma_keys_remove(plan.files, i);
            lemma_marks_order(plan, to);
        },
        None => {},
    }
}

proof fn lemma_rename_order(plan: PlanView, path: Seq<char>, to: Seq<char>, disk: DiskSnapshot)
    requires
        in_order(plan),
    ensures
        plan.rename(path, to, disk) matches Ok(next) ==> in_order(next),
{
    if path != to {
        lemma_ensure_entry_order(plan, path, disk, false);
        match plan.ensure_entry(path, disk, false) {
            Ok(loaded) => {
                lemma_clear_target_order(loaded, to, disk);
                match loaded.clear_target(to, disk) {
                    Ok(cleared) => {
                        lemma_key_pos(cleared.files, path);
                        match key_pos(cleared.files, path) {
                            Some(i) => {
                                lemma_keys_remove(cleared.files, i);
                                let rest = cleared.files.remove(i);
                                lemma_with_entry_order(rest, to, cleared.files[i].1);
                                lemma_moved_order(cleared.created, path, to);
                                lemma_moved_order(cleared.modified, path, to);
                                lemma_moved_order(cleared.deleted, path, to);
                            },
                            None => {},
                        }
                    },
                    Err(_) => {},
                }
            },
            Err(_) => {},
        }
    }
}

proof fn lemma_anchored_order(
    plan: PlanView,
    path: Seq<char>,
    anchor: Seq<char>,
    insert: Seq<char>,
    offset: int,
    skip: int,
    label: Seq<char>,
)
    requires
        in_order(plan),
    ensures
        plan.anchored(path, anchor, insert, offset, skip, label) matches Ok(next) ==> in_order(next),
{
    match plan.current_string(path) {
        Ok(current) => {
            let needle = normalize_newlines_spec(anchor);
            if occurrences(current, needle) == 1 {
                let at = first_match_from(current, needle, 0)->Some_0;
                let text = current.take(at + offset) + normalize_newlines_spec(insert) + current.skip(
                    at + offset + skip,
                );
                lemma_set_current_order(plan, path, text);
            }
        },
        Err(_) => {},
    }
}

/// Every step keeps the files and the classes of a plan in path order.
pub proof fn law_step_keeps_order(plan: PlanView, op: SimpleEditOp, disk: DiskSnapshot)
    requires
        in_order(plan),
    ensures
        plan.step(op, disk) matches Ok(next) ==> in_order(next),
{
    match op {
        SimpleEditOp::SetFile { path, contents } => {
            lemma_ensure_entry_order(plan, path@, disk, true);
            match plan.ensure_entry(path@, disk, true) {
                Ok(loaded) => lemma_set_current_order(
                    loaded,
                    path@,
                    normalize_newlines_spec(contents@),
                ),
                Err(_) => {},
            }
        },
        SimpleEditOp::ReplaceOnce { path, find, replace } => {
            lemma_ensure_entry_order(plan, path@, disk, false);
            match plan.ensure_entry(path@, disk, false) {
                Ok(loaded) => lemma_anchored_order(
                    loaded,
                    path@,
                    find@,
                    replace@,
                    0,
                    normalize_newlines_spec(find@).len() as int,
                    "replace_once "@,
                ),
                Err(_) => {},
            }
        },
        SimpleEditOp::InsertBefore { path, anchor, insert } => {
            lemma_ensure_entry_order(plan, path@, disk, false);
            match plan.ensure_entry(path@, disk, false) {
                Ok(loaded) => lemma_anchored_order(
                    loaded,
                    path@,
                    anchor@,
                    insert@,
                    0,
                    0,
                    "insert_before "@,
                ),
                Err(_) => {},
            }
        },
        SimpleEditOp::InsertAfter { path, anchor, insert } => {
            lemma_ensure_entry_order(plan, path@, disk, false);
            match plan.ensure_entry(path@, disk, false) {
                Ok(loaded) => lemma_anchored_order(
                    loaded,
                    path@,
                    anchor@,
                    insert@,
                    normalize_newlines_spec(anchor@).len() as int,
                    0,
                    "insert_after "@,
                ),
                Err(_) => {},
            }
        },
        SimpleEditOp::DeleteFile { path } => {
            lemma_ensure_entry_order(plan, path@, disk, false);
            match plan.ensure_entry(path@, disk, false) {
                Ok(loaded) => lemma_delete_current_order(loaded, path@),
                Err(_) => {},
            }
        },
        SimpleEditOp::RenameFile { path, to } => {
            lemma_rename_order(plan, path@, to@, disk);
        },
    }
}

proof fn lemma_run_keeps_order(plan: PlanView, ops: Seq<SimpleEditOp>, from: int, disk: DiskSnapshot)
    requires
        in_order(plan),
    ensures
        run_from(plan, ops, from, disk) matches Ok(last) ==> in_order(last),
    decreases ops.len() - from,
{
    if 0 <= from < ops.len() {
        law_step_keeps_order(plan, ops[from], disk);
        match plan.step(ops[from], disk) {
            Ok(next) => lemma_run_keeps_order(next, ops, from + 1, disk),
            Err(_) => {},
        }
    }
}

/// Whatever the operations, the files and the classes of the plan that
/// they make are sets in path order: no path stands twice among the files
/// or within a class, and the summary and the commit go by path.
pub proof fn law_plans_are_in_order(dry_run: bool, ops: Seq<SimpleEditOp>, disk: DiskSnapshot)
    ensures
        run(dry_run, ops, disk) matches Ok(plan) ==> in_order(plan),
{
    assert(keys(PlanView::empty(dry_run).files) =~= Seq::<Seq<char>>::empty());
    lemma_run_keeps_order(PlanView::empty(dry_run), ops, 0, disk);
}

// ---------------------------------------------------------------------------
// The classes of a plan
// ---------------------------------------------------------------------------

/// A path stands in at most one of the three classes of the plan, and only
/// where the plan holds an entry for it.
pub open spec fn classed_once(plan: PlanView, p: Seq<char>) -> bool {
    &&& !(plan.created.contains(p) && plan.modified.contains(p))
    &&& !(plan.created.contains(p) && plan.deleted.contains(p))
    &&& !(plan.modified.contains(p) && plan.deleted.contains(p))
    &&& plan.created.contains(p) || plan.modified.contains(p) || plan.deleted.contains(p)
        ==> keys(plan.files).contains(p)
}

/// The classes created, modified and deleted share no path, and hold
/// paths of the plan only.
pub open spec fn classes_apart(plan: PlanView) -> bool {
    forall|p: Seq<char>| #[trigger] classed_once(plan, p)
}

proof fn lemma_apart_carries(a: PlanView, b: PlanView)
    requires
        classes_apart(a),
        b.created == a.created,
        b.modified == a.modified,
        b.deleted == a.deleted,
        forall|k: Seq<char>| keys(a.files).contains(k) ==> keys(b.files).contains(k),
    ensures
        classes_apart(b),
{
    assert forall|p: Seq<char>| #[trigger] classed_once(b, p) by {
        assert(classed_once(a, p));
    }
}

proof fn lemma_marks_apart(plan: PlanView, path: Seq<char>)
    requires
        in_order(plan),
        classes_apart(plan),
        keys(plan.files).contains(path),
    ensures
        classes_apart(plan.mark_created(path)),
        classes_apart(plan.mark_modified(path)),
        classes_apart(plan.mark_deleted(path)),
        classes_apart(
            PlanView {
                created: without(plan.created, path),
                modified: without(plan.modified, path),
                ..plan
            },
        ),
{
    law_without(plan.created, path);
    law_without(plan.modified, path);
    law_without(plan.deleted, path);
    law_insert_sorted(plan.created, path);
    law_insert_sorted(plan.modified, path);
    law_insert_sorted(plan.deleted, path);
    assert forall|p: Seq<char>| #[trigger] classed_once(plan.mark_created(path), p) by {
        assert(classed_once(plan, p));
    }
    assert forall|p: Seq<char>| #[trigger] classed_once(plan.mark_modified(path), p) by {
        assert(classed_once(plan, p));
    }
    assert forall|p: Seq<char>| #[trigger] classed_once(plan.mark_deleted(path), p) by {
        assert(classed_once(plan, p));
    }
    let cut = PlanView {
        created: without(plan.created, path),
        modified: without(plan.modified, path),
        ..plan
    };
    assert forall|p: Seq<char>| #[trigger] classed_once(cut, p) by {
        assert(classed_once(plan, p));
    }
}

proof fn lemma_set_current_apart(plan: PlanView, path: Seq<char>, content: Seq<char>)
    requires
        in_order(plan),
        classes_apart(plan),
    ensures
        plan.set_current(path, content) matches Ok(next) ==> classes_apart(next),
{
    lemma_key_pos(plan.files, path);
    lemma_key_pos_contains(plan.files, path);
    match key_pos(plan.files, path) {
        Some(i) => {
            let f = plan.files[i].1;
            let prev_len = match f.current {
                Some(c) => byte_len(c),
                None => 0,
            };
            let files = plan.files.update(
                i,
                (path, FileView { original: f.original, current: Some(content) }),
            );
            lemma_keys_update(plan.files, i, FileView { original: f.original, current: Some(content) });
            let base = (PlanView { files, ..plan }).record_delta(byte_len(content) - prev_len);
            lemma_apart_carries(plan, base);
            lemma_marks_apart(base, path);
        },
        None => {},
    }
}

proof fn lemma_delete_current_apart(plan: PlanView, path: Seq<char>)
    requires
        in_order(plan),
        classes_apart(plan),
    ensures
        plan.delete_current(path) matches Ok(next) ==> classes_apart(next),
{
    lemma_key_pos(plan.files, path);
    lemma_key_pos_contains(plan.files, path);
    match key_pos(plan.files, path) {
        Some(i) => {
            let f = plan.files[i].1;
            match f.current {
                Some(c) => {
                    let files = plan.files.update(
                        i,
                        (path, FileView { original: f.original, current: None }),
                    );
                    lemma_keys_update(
                        plan.files,
                        i,
                        FileView { original: f.original, current: None },
                    );
                    let base = (PlanView { files, ..plan }).record_delta(-byte_len(c));
                    lemma_apart_carries(plan, base);
                    lemma_marks_apart(base, path);
                },
                None => {},
            }
        },
        None => {},
    }
}

proof fn lemma_ensure_entry_apart(plan: PlanView, path: Seq<char>, disk: DiskSnapshot, allow: bool)
    requires
        in_order(plan),
        classes_apart(plan),
    ensures
        plan.ensure_entry(path, disk, allow) matches Ok(next) ==> classes_apart(next),
{
    lemma_key_pos_contains(plan.files, path);
    if key_pos(plan.files, path) is None {
        match disk.seen(path) {
            Seen::Text(t) => {
                lemma_with_entry_order(
                    plan.files,
                    path,
                    FileView { original: Some(t), current: Some(t) },
                );
                lemma_apart_carries(plan, plan.ensure_entry(path, disk, allow)->Ok_0);
            },
            Seen::Missing => {
                lemma_with_entry_order(plan.files, path, FileView { original: None, current: None });
                if allow {
                    lemma_apart_carries(plan, plan.ensure_entry(path, disk, allow)->Ok_0);
                }
            },
            Seen::Failed(_) => {},
        }
    }
}

proof fn lemma_clear_target_apart(plan: PlanView, to: Seq<char>, disk: DiskSnapshot)
    requires
        in_order(plan),
        classes_apart(plan),
    ensures
        plan.clear_target(to, disk) matches Ok(next) ==> classes_apart(next) && !next.created.contains(
            to,
        ) && !next.modified.contains(to) && !next.deleted.contains(to),
{
    lemma_key_pos(plan.files, to);
    lemma_key_pos_contains(plan.files, to);
    assert(classed_once(plan, to));
    match key_pos(plan.files, to) {
        Some(i) => {
            if plan.files[i].1.current is None {
                lemma_keys_remove(plan.files, i);
                law_without(plan.created, to);
                law_without(plan.modified, to);
                law_without(plan.deleted, to);
                let next = plan.clear_target(to, disk)->Ok_0;
                assert forall|p: Seq<char>| #[trigger] classed_once(next, p) by {
                    assert(classed_once(plan, p));
                }
            }
        },
        None => {},
    }
}

proof fn lemma_moved_members(s: Seq<Seq<char>>, from: Seq<char>, to: Seq<char>)
    requires
        strictly_sorted(s),
    ensures
        forall|y: Seq<char>|
            #[trigger] moved(s, from, to).contains(y) <==> (if s.contains(from) {
                (s.contains(y) && y != from) || y == to
            } else {
                s.contains(y)
            }),
{
    law_without(s, from);
    law_insert_sorted(without(s, from), to);
}

proof fn lemma_rename_apart(plan: PlanView, path: Seq<char>, to: Seq<char>, disk: DiskSnapshot)
    requires
        in_order(plan),
        classes_apart(plan),
    ensures
        plan.rename(path, to, disk) matches Ok(next) ==> classes_apart(next),
{
    if path != to {
        lemma_ensure_entry_order(plan, path, disk, false);
        lemma_ensure_entry_apart(plan, path, disk, false);
        match plan.ensure_entry(path, disk, false) {
            Ok(loaded) => {
                lemma_clear_target_order(loaded, to, disk);
                lemma_clear_target_apart(loaded, to, disk);
                match loaded.clear_target(to, disk) {
                    Ok(cleared) => {
                        lemma_key_pos(cleared.files, path);
                        match key_pos(cleared.files, path) {
                            Some(i) => {
                                lemma_keys_remove(cleared.files, i);
                                let rest = cleared.files.remove(i);
                                let entry = cleared.files[i].1;
                                lemma_with_entry_order(rest, to, entry);
                                lemma_moved_members(cleared.created, path, to);
                                lemma_moved_members(cleared.modified, path, to);
                                lemma_moved_members(cleared.deleted, path, to);
                                let files = with_entry(rest, to, entry);
                                let shifted = (PlanView { files, ..cleared }).reassign_path(
                                    path,
                                    to,
                                );
                                assert(classed_once(cleared, path));
                                assert forall|p: Seq<char>| #[trigger] classed_once(shifted, p) by {
                                    assert(classed_once(cleared, p));
                                }
                                if plan.rename(path, to, disk) is Ok {
                                    let next = plan.rename(path, to, disk)->Ok_0;
                                    lemma_apart_carries(shifted, next);
                                }
                            },
                            None => {},
                        }
                    },
                    Err(_) => {},
                }
            },
            Err(_) => {},
        }
    }
}

proof fn lemma_anchored_apart(
    plan: PlanView,
    path: Seq<char>,
    anchor: Seq<char>,
    insert: Seq<char>,
    offset: int,
    skip: int,
    label: Seq<char>,
)
    requires
        in_order(plan),
        classes_apart(plan),
    ensures
        plan.anchored(path, anchor, insert, offset, skip, label) matches Ok(next)
            ==> classes_apart(next),
{
    match plan.current_string(path) {
        Ok(current) => {
            let needle = normalize_newlines_spec(anchor);
            if occurrences(current, needle) == 1 {
                let at = first_match_from(current, needle, 0)->Some_0;
                let text = current.take(at + offset) + normalize_newlines_spec(insert) + current.skip(
                    at + offset + skip,
                );
                lemma_set_current_apart(plan, path, text);
                match plan.set_current(path, text) {
                    Ok(set) => lemma_apart_carries(set, set.described(label + path)),
                    Err(_) => {},
                }
            }
        },
        Err(_) => {},
    }
}

/// Every step keeps the classes of a plan apart: after it no path is at
/// once created and modified, created and deleted, or modified and
/// deleted, and every classified path is a path of the plan.
pub proof fn law_step_keeps_classes_apart(plan: PlanView, op: SimpleEditOp, disk: DiskSnapshot)
    requires
        in_order(plan),
        classes_apart(plan),
    ensures
        plan.step(op, disk) matches Ok(next) ==> classes_apart(next),
{
    match op {
        SimpleEditOp::SetFile { path, contents } => {
            lemma_ensure_entry_order(plan, path@, disk, true);
            lemma_ensure_entry_apart(plan, path@, disk, true);
            match plan.ensure_entry(path@, disk, true) {
                Ok(loaded) => {
                    lemma_set_current_apart(loaded, path@, normalize_newlines_spec(contents@));
                    match loaded.set_current(path@, normalize_newlines_spec(contents@)) {
                        Ok(set) => lemma_apart_carries(set, set.described("set_file "@ + path@)),
                        Err(_) => {},
                    }
                },
                Err(_) => {},
            }
        },
        SimpleEditOp::ReplaceOnce { path, find, replace } => {
            lemma_ensure_entry_order(plan, path@, disk, false);
            lemma_ensure_entry_apart(plan, path@, disk, false);
            match plan.ensure_entry(path@, disk, false) {
                Ok(loaded) => lemma_anchored_apart(
                    loaded,
                    path@,
                    find@,
                    replace@,
                    0,
                    normalize_newlines_spec(find@).len() as int,
                    "replace_once "@,
                ),
                Err(_) => {},
            }
        },
        SimpleEditOp::InsertBefore { path, anchor, insert } => {
            lemma_ensure_entry_order(plan, path@, disk, false);
            lemma_ensure_entry_apart(plan, path@, disk, false);
            match plan.ensure_entry(path@, disk, false) {
                Ok(loaded) => lemma_anchored_apart(
                    loaded,
                    path@,
                    anchor@,
                    insert@,
                    0,
                    0,
                    "insert_before "@,
                ),
                Err(_) => {},
            }
        },
        SimpleEditOp::InsertAfter { path, anchor, insert } => {
            lemma_ensure_entry_order(plan, path@, disk, false);
            lemma_ensure_entry_apart(plan, path@, disk, false);
            match plan.ensure_entry(path@, disk, false) {
                Ok(loaded) => lemma_anchored_apart(
                    loaded,
                    path@,
                    anchor@,
                    insert@,
                    normalize_newlines_spec(anchor@).len() as int,
                    0,
                    "insert_after "@,
                ),
                Err(_) => {},
            }
        },
        SimpleEditOp::DeleteFile { path } => {
            lemma_ensure_entry_order(plan, path@, disk, false);
            lemma_ensure_entry_apart(plan, path@, disk, false);
            match plan.ensure_entry(path@, disk, false) {
                Ok(loaded) => {
                    lemma_delete_current_apart(loaded, path@);
                    match loaded.delete_current(path@) {
                        Ok(gone) => lemma_apart_carries(
                            gone,
                            gone.described("delete_file "@ + path@),
                        ),
                        Err(_) => {},
                    }
                },
                Err(_) => {},
            }
        },
        SimpleEditOp::RenameFile { path, to } => {
            lemma_rename_apart(plan, path@, to@, disk);
        },
    }
}

proof fn lemma_run_keeps_classes_apart(
    plan: PlanView,
    ops: Seq<SimpleEditOp>,
    from: int,
    disk: DiskSnapshot,
)
    requires
        in_order(plan),
        classes_apart(plan),
    ensures
        run_from(plan, ops, from, disk) matches Ok(last) ==> classes_apart(last),
    decreases ops.len() - from,
{
    if 0 <= from < ops.len() {
        law_step_keeps_order(plan, ops[from], disk);
        law_step_keeps_classes_apart(plan, ops[from], disk);
        match plan.step(ops[from], disk) {
            Ok(next) => lemma_run_keeps_classes_apart(next, ops, from + 1, disk),
            Err(_) => {},
        }
    }
}

/// Whatever the operations, the plan that they make classifies each path
/// at most once: what it created it neither modified nor deleted, and
/// what it modified it did not delete.
pub proof fn law_plans_keep_classes_apart(dry_run: bool, ops: Seq<SimpleEditOp>, disk: DiskSnapshot)
    ensures
        run(dry_run, ops, disk) matches Ok(plan) ==> classes_apart(plan),
{
    let empty = PlanView::empty(dry_run);
    assert(keys(empty.files) =~= Seq::<Seq<char>>::empty());
    assert forall|p: Seq<char>| #[trigger] classed_once(empty, p) by {}
    lemma_run_keeps_classes_apart(empty, ops, 0, disk);
}

/// Filtering out a text that is no member changes nothing.
pub proof fn lemma_without_absent(s: Seq<Seq<char>>, x: Seq<char>)
    requires
        !s.contains(x),
    ensures
        without(s, x) == s,
    decreases s.len(),
{
    if s.len() > 0 {
        let head = s.drop_last();
        assert(s == head.push(s.last()));
        crate::ordered::lemma_contains_push(head, s.last(), x);
        crate::ordered::lemma_without_push(head, s.last(), x);
        lemma_without_absent(head, x);
    } else {
        assert(without(s, x) =~= s);
    }
}

} // verus!
