//! File system tools: what to read and write, what a search or a look for
//! names finds, and how a list of edits is planned.

pub mod find;
pub mod matching;
pub mod search;
pub mod simple_edit;

use vstd::prelude::*;
use vstd::string::{StringExecFns, StringSliceAdditionalSpecFns};
use vstd::utf8::{encode_utf8, is_char_boundary};
use crate::events::{AppEvent, EventSender};
use crate::json::{Json, JsonView};
use crate::text::{
    byte_slice, cut_at_boundary, floor_boundary, byte_len, byte_length, concat2, concat3, contains,
    contains_sub, decimal, matches_at, opt_text, starts_with, str_chars, str_eq, u64_to_string,
};
use crate::tools::executor::{
    lemma_reported_one, lemma_reported_two, lemma_told_one, reported, told, truncate_result,
    truncated, ToolRun,
};
use crate::tools::executors::fs::simple_edit::{
    plan_edits, run, DiskSnapshot, PlanView, SimpleEditPlanner,
};
use crate::tools::types::{
    FsApplyPatchArgs, FsApplyPatchResult, FsReadArgs, FsReadResult, FsWriteArgs, FsWriteResult,
    MatchScore, SimpleEditOp,
};

verus! {

/// The size above which a file is read only in part where no range is
/// asked for: 1 MiB.
pub const MAX_READ_SIZE: usize = 1048576;

/// What looking at the path of a file gave.
#[derive(Debug)]
pub enum FileProbe {
    /// Nothing is there.
    Missing,
    /// Something is there that is no file.
    NotAFile,
    /// The file could not be read; the text says why.
    Unreadable(String),
    /// The text of the file.
    Contents(String),
}

/// What part of a text a read hands out: the bytes from `range.0` up to
/// `range.1`, and whether the text goes on behind them. Without a range it
/// is the whole text, or its first 1 MiB up to a character boundary.
pub open spec fn read_span(bytes: Seq<u8>, range: Option<(u64, u64)>) -> (int, int, bool) {
    match range {
        Some((start, end)) => if start < bytes.len() {
            let stop = if end < bytes.len() {
                end as int
            } else {
                bytes.len() as int
            };
            (start as int, stop, end < bytes.len())
        } else {
            (0, 0, false)
        },
        None => if bytes.len() > MAX_READ_SIZE {
            (0, floor_boundary(bytes, MAX_READ_SIZE as int), true)
        } else {
            (0, bytes.len() as int, false)
        },
    }
}

/// The outcome of a read: the bytes of the contents, the encoding and
/// whether the contents were cut, or the reason of the failure.
pub open spec fn read_outcome(
    path: Seq<char>,
    range: Option<(u64, u64)>,
    encoding: Option<Seq<char>>,
    probe: FileProbe,
) -> Result<(Seq<u8>, Seq<char>, bool), Seq<char>> {
    match probe {
        FileProbe::Missing => Err("File not found: "@ + path),
        FileProbe::NotAFile => Err("Path is not a file: "@ + path),
        FileProbe::Unreadable(e) => Err("Failed to read file "@ + path + ": "@ + e@),
        FileProbe::Contents(text) => {
            let enc = match encoding {
                Some(e) => e,
                None => "utf-8"@,
            };
            let bytes = encode_utf8(text@);
            let span = read_span(bytes, range);
            if enc != "utf-8"@ {
                Err("Unsupported encoding: "@ + enc)
            } else if span.0 > span.1 {
                Err("Invalid range: the start lies behind the end"@)
            } else if !is_char_boundary(bytes, span.0) || !is_char_boundary(bytes, span.1) {
                Err("Invalid range: not on a character boundary"@)
            } else {
                Ok((bytes.subrange(span.0, span.1), enc, span.2))
            }
        },
    }
}

/// How a write went.
#[derive(Debug)]
pub enum WriteOutcome {
    Written,
    /// The parent directories could not be created; the text says why.
    ParentFailed(String),
    /// The file could not be written; the text says why.
    WriteFailed(String),
}

/// What a write has to do first: nothing, or create the parent
/// directories. A file that exists is an error unless it may be
/// overwritten.
pub open spec fn write_plan(path: Seq<char>, create_if_missing: bool, overwrite: bool, exists: bool)
    -> Result<bool, Seq<char>> {
    if exists && !overwrite {
        Err("File already exists and overwrite is false: "@ + path)
    } else {
        Ok(create_if_missing)
    }
}

/// The error of a write that failed.
pub open spec fn write_error(path: Seq<char>, outcome: WriteOutcome) -> Option<Seq<char>> {
    match outcome {
        WriteOutcome::Written => None,
        WriteOutcome::ParentFailed(e) => Some(
            "Failed to create parent directories for "@ + path + ": "@ + e@,
        ),
        WriteOutcome::WriteFailed(e) => Some("Failed to write file "@ + path + ": "@ + e@),
    }
}

/// The result that tells of planned edits: the summary of the plan, or the
/// failure as the one rejected hunk.
pub open spec fn patch_result(outcome: Result<String, String>) -> (bool, Option<Seq<Seq<char>>>, Seq<
    char,
>) {
    match outcome {
        Ok(summary) => (true, None, summary@),
        Err(e) => (false, Some(Seq::empty().push(e@)), "Failed to apply edits: "@ + e@),
    }
}

/// The document of the result that tells of planned edits.
pub open spec fn patch_document(outcome: Result<String, String>) -> JsonView {
    let told = patch_result(outcome);
    JsonView::Object(
        Seq::empty().push(("success"@, JsonView::Bool(told.0))).push(
            (
                "rejected_hunks"@,
                match told.1 {
                    Some(hunks) => crate::tools::types::texts_json(hunks),
                    None => JsonView::Null,
                },
            ),
        ).push(("summary"@, JsonView::Str(told.2))),
    )
}

/// What is said when a read is reported.
pub open spec fn read_messages(path: Seq<char>) -> Seq<Seq<char>> {
    Seq::empty().push("Reading file: "@ + path)
}

/// What is said when a write is reported.
pub open spec fn write_messages(path: Seq<char>) -> Seq<Seq<char>> {
    Seq::empty().push("Writing to file: "@ + path)
}

/// What is said when a search is reported.
pub open spec fn search_messages(query: Seq<char>) -> Seq<Seq<char>> {
    Seq::empty().push("Searching for: "@ + query)
}

/// What is said when a look for names is reported.
pub open spec fn find_messages(pattern: Seq<char>) -> Seq<Seq<char>> {
    Seq::empty().push("Finding files matching: "@ + pattern)
}

/// What is said when edits are reported: how many operations were
/// planned, and that the dry run or the edits are done.
pub open spec fn patch_messages(operations: nat, dry_run: bool) -> Seq<Seq<char>> {
    Seq::empty().push("Planning "@ + decimal(operations) + " edit operation(s)..."@).push(
        if dry_run {
            "Dry run completed"@
        } else {
            "Finished applying edits"@
        },
    )
}

/// File system operations executor.
pub struct FsExecutor {
    event_sender: EventSender,
    max_output_size: usize,
}

impl FsExecutor {
    /// An executor that emits on the given bus and bounds its results.
    pub fn new(event_sender: EventSender, max_output_size: usize) -> (r: Self)
        ensures
            r.max_output_size_spec() == max_output_size,
    {
        Self { event_sender, max_output_size }
    }

    /// The bound on the size of results, in bytes.
    pub closed spec fn max_output_size_spec(&self) -> usize {
        self.max_output_size
    }

    fn emit(&self, event: Option<AppEvent>) {
        match event {
            Some(ev) => {
                let _ = self.event_sender.send(ev);
            },
            None => {},
        }
    }

    /// Emits a progress event for the call.
    pub fn announce(&self, run: &mut ToolRun, message: String)
        requires
            old(run).well_formed(),
        ensures
            final(run).well_formed(),
            crate::tools::executor::executor_added(old(run).trace(), final(run).trace()),
            final(run).id_spec() == old(run).id_spec(),
            final(run).ended_spec() == old(run).ended_spec(),
            final(run).has_result_spec() == old(run).has_result_spec(),
            final(run).tool_spec() == old(run).tool_spec(),
            if old(run).ended_spec() {
                final(run).trace() == old(run).trace()
            } else {
                &&& final(run).trace().len() == old(run).trace().len() + 1
                &&& final(run).trace().drop_last() == old(run).trace()
                &&& final(run).trace().last() matches AppEvent::ToolProgress { id, message: m }
                    && id@ == old(run).id_spec() && m == message
            },
    {
        let event = run.progress(message);
        proof {
            if event is Some {
                assert(run.trace().drop_last() == old(run).trace());
            }
            crate::tools::executor::lemma_executor_added_one(old(run).trace(), run.trace());
        }
        self.emit(event);
    }

    /// Emits the result event with the full payload and hands back the
    /// payload bounded in size.
    pub fn deliver(&self, run: &mut ToolRun, payload: Json) -> (out: Json)
        requires
            old(run).well_formed(),
        ensures
            final(run).well_formed(),
            crate::tools::executor::executor_added(old(run).trace(), final(run).trace()),
            !old(run).ended_spec() ==> final(run).has_result_spec(),
            out@ == truncated(payload@, self.max_output_size_spec() as nat),
            final(run).id_spec() == old(run).id_spec(),
            final(run).ended_spec() == old(run).ended_spec(),
            final(run).tool_spec() == old(run).tool_spec(),
            if old(run).ended_spec() || old(run).has_result_spec() {
                final(run).trace() == old(run).trace() && final(run).has_result_spec() == old(run).has_result_spec()
            } else {
                &&& final(run).has_result_spec()
                &&& final(run).trace().len() == old(run).trace().len() + 1
                &&& final(run).trace().drop_last() == old(run).trace()
                &&& final(run).trace().last() matches AppEvent::ToolResult { id, payload: p }
                    && id@ == old(run).id_spec() && p@ == payload@
            },
    {
        let shown = payload.deep_clone();
        let event = run.result(shown);
        proof {
            if event is Some {
                assert(run.trace().drop_last() == old(run).trace());
            }
            crate::tools::executor::lemma_executor_added_one(old(run).trace(), run.trace());
        }
        self.emit(event);
        truncate_result(payload, self.max_output_size)
    }

    /// What a read hands out, given what looking at the path gave.
    pub fn read_file(args: &FsReadArgs, probe: &FileProbe) -> (r: Result<FsReadResult, String>)
        ensures
            match r {
                Ok(res) => read_outcome(args.path@, args.range, opt_text(args.encoding), *probe)
                    == Ok::<(Seq<u8>, Seq<char>, bool), Seq<char>>(
                    (encode_utf8(res.contents@), res.encoding@, res.truncated),
                ),
                Err(e) => read_outcome(args.path@, args.range, opt_text(args.encoding), *probe)
                    == Err::<(Seq<u8>, Seq<char>, bool), Seq<char>>(e@),
            },
    {
        let path = args.path.as_str();
        let text = match probe {
            FileProbe::Missing => {
                return Err(concat2("File not found: ", path));
            },
            FileProbe::NotAFile => {
                return Err(concat2("Path is not a file: ", path));
            },
            FileProbe::Unreadable(e) => {
                let head = concat3("Failed to read file ", path, ": ");
                return Err(concat2(head.as_str(), e.as_str()));
            },
            FileProbe::Contents(text) => text.as_str(),
        };
        let encoding: &str = match &args.encoding {
            Some(e) => e.as_str(),
            None => "utf-8",
        };
        if !str_eq(encoding, "utf-8") {
            return Err(concat2("Unsupported encoding: ", encoding));
        }
        let len: usize = byte_length(text);
        let (start, stop, cut): (usize, usize, bool) = match args.range {
            Some((start, end)) => {
                if start < len as u64 {
                    let stop: usize = if end < len as u64 {
                        end as usize
                    } else {
                        len
                    };
                    (start as usize, stop, end < len as u64)
                } else {
                    (0, 0, false)
                }
            },
            None => {
                if len > MAX_READ_SIZE {
                    (0, cut_at_boundary(text, MAX_READ_SIZE), true)
                } else {
                    (0, len, false)
                }
            },
        };
        if start > stop {
            return Err(String::from_str("Invalid range: the start lies behind the end"));
        }
        match byte_slice(text, start, stop) {
            Some(contents) => Ok(
                FsReadResult { contents, encoding: String::from_str(encoding), truncated: cut },
            ),
            None => Err(String::from_str("Invalid range: not on a character boundary")),
        }
    }

    /// Reads a file for a call: announces the read, and, where it
    /// succeeds, emits the result and hands it back bounded in size.
    pub fn execute_read_with_result(&self, run: &mut ToolRun, args: &FsReadArgs, probe: &FileProbe)
        -> (r: Result<Json, String>)
        requires
            old(run).well_formed(),
        ensures
            crate::tools::executor::executor_added(old(run).trace(), final(run).trace()),
            r is Ok && !old(run).ended_spec() ==> final(run).has_result_spec(),
            r is Err ==> final(run).has_result_spec() == old(run).has_result_spec(),
            final(run).well_formed(),
            final(run).id_spec() == old(run).id_spec(),
            final(run).ended_spec() == old(run).ended_spec(),
            match r {
                Ok(j) => exists|res: FsReadResult|
                    read_outcome(args.path@, args.range, opt_text(args.encoding), *probe) == Ok::<
                        (Seq<u8>, Seq<char>, bool),
                        Seq<char>,
                    >((encode_utf8(res.contents@), res.encoding@, res.truncated)) && j@
                        == truncated(res.json_spec(), self.max_output_size_spec() as nat)
                        && reported(
                        *old(run),
                        *final(run),
                        read_messages(args.path@),
                        res.json_spec(),
                    ),
                Err(e) => read_outcome(args.path@, args.range, opt_text(args.encoding), *probe)
                    == Err::<(Seq<u8>, Seq<char>, bool), Seq<char>>(e@) && final(run).has_result_spec() == old(run).has_result_spec()
                    && told(*old(run), *final(run), read_messages(args.path@)),
            },
    {
        self.announce(run, concat2("Reading file: ", args.path.as_str()));
        let ghost announced = run.trace();
        proof {
            lemma_told_one(*old(run), *run, "Reading file: "@ + args.path@);
        }
        match Self::read_file(args, probe) {
            Ok(res) => {
                let payload = res.to_json();
                let out = self.deliver(run, payload);
                proof {
                    crate::tools::executor::lemma_executor_added(
                        old(run).trace(),
                        announced,
                        run.trace(),
                    );
                    lemma_reported_one(
                        *old(run),
                        announced,
                        *run,
                        "Reading file: "@ + args.path@,
                        res.json_spec(),
                    );
                }
                Ok(out)
            },
            Err(e) => Err(e),
        }
    }

    /// The same as `execute_read_with_result`, without the result.
    pub fn execute_read(&self, run: &mut ToolRun, args: &FsReadArgs, probe: &FileProbe) -> (r:
        Result<(), String>)
        requires
            old(run).well_formed(),
        ensures
            final(run).well_formed(),
            r is Ok <==> read_outcome(args.path@, args.range, opt_text(args.encoding), *probe)
                is Ok,
            match r {
                Ok(_) => exists|res: FsReadResult|
                    read_outcome(args.path@, args.range, opt_text(args.encoding), *probe) == Ok::<
                        (Seq<u8>, Seq<char>, bool),
                        Seq<char>,
                    >((encode_utf8(res.contents@), res.encoding@, res.truncated)) && reported(
                        *old(run),
                        *final(run),
                        read_messages(args.path@),
                        res.json_spec(),
                    ),
                Err(e) => read_outcome(args.path@, args.range, opt_text(args.encoding), *probe)
                    == Err::<(Seq<u8>, Seq<char>, bool), Seq<char>>(e@) && told(
                    *old(run),
                    *final(run),
                    read_messages(args.path@),
                ),
            },
    {
        match self.execute_read_with_result(run, args, probe) {
            Ok(_) => Ok(()),
            Err(e) => Err(e),
        }
    }

    /// What a write has to do before it writes: whether to create the
    /// parent directories. A file that exists is an error unless it may be
    /// overwritten.
    pub fn plan_write(args: &FsWriteArgs, exists: bool) -> (r: Result<bool, String>)
        ensures
            match r {
                Ok(b) => write_plan(args.path@, args.create_if_missing, args.overwrite, exists)
                    == Ok::<bool, Seq<char>>(b),
                Err(e) => write_plan(args.path@, args.create_if_missing, args.overwrite, exists)
                    == Err::<bool, Seq<char>>(e@),
            },
    {
        if exists && !args.overwrite {
            Err(concat2("File already exists and overwrite is false: ", args.path.as_str()))
        } else {
            Ok(args.create_if_missing)
        }
    }

    /// Ends a write for a call: where the file was written the result
    /// tells the number of bytes; else the error tells what failed.
    pub fn execute_write_with_result(
        &self,
        run: &mut ToolRun,
        args: &FsWriteArgs,
        outcome: &WriteOutcome,
    ) -> (r: Result<Json, String>)
        requires
            old(run).well_formed(),
        ensures
            crate::tools::executor::executor_added(old(run).trace(), final(run).trace()),
            r is Ok && !old(run).ended_spec() ==> final(run).has_result_spec(),
            r is Err ==> final(run).has_result_spec() == old(run).has_result_spec(),
            final(run).well_formed(),
            final(run).id_spec() == old(run).id_spec(),
            final(run).ended_spec() == old(run).ended_spec(),
            match r {
                Ok(j) => *outcome is Written && j@ == truncated(
                    (FsWriteResult { bytes_written: byte_len(args.contents@) as u64 }).json_spec(),
                    self.max_output_size_spec() as nat,
                ) && reported(
                    *old(run),
                    *final(run),
                    write_messages(args.path@),
                    (FsWriteResult { bytes_written: byte_len(args.contents@) as u64 }).json_spec(),
                ),
                Err(e) => write_error(args.path@, *outcome) == Some(e@) && told(
                    *old(run),
                    *final(run),
                    write_messages(args.path@),
                ),
            },
    {
        let path = args.path.as_str();
        self.announce(run, concat2("Writing to file: ", path));
        proof {
            lemma_told_one(*old(run), *run, "Writing to file: "@ + args.path@);
        }
        match outcome {
            WriteOutcome::Written => {
                let ghost announced = run.trace();
                let result = FsWriteResult {
                    bytes_written: byte_length(args.contents.as_str()) as u64,
                };
                let payload = result.to_json();
                let out = self.deliver(run, payload);
                proof {
                    crate::tools::executor::lemma_executor_added(
                        old(run).trace(),
                        announced,
                        run.trace(),
                    );
                    lemma_reported_one(
                        *old(run),
                        announced,
                        *run,
                        "Writing to file: "@ + args.path@,
                        result.json_spec(),
                    );
                }
                Ok(out)
            },
            WriteOutcome::ParentFailed(e) => {
                let head = concat3("Failed to create parent directories for ", path, ": ");
                Err(concat2(head.as_str(), e.as_str()))
            },
            WriteOutcome::WriteFailed(e) => {
                let head = concat3("Failed to write file ", path, ": ");
                Err(concat2(head.as_str(), e.as_str()))
            },
        }
    }

    /// The same as `execute_write_with_result`, without the result.
    pub fn execute_write(&self, run: &mut ToolRun, args: &FsWriteArgs, outcome: &WriteOutcome) -> (r:
        Result<(), String>)
        requires
            old(run).well_formed(),
        ensures
            final(run).well_formed(),
            r is Ok <==> *outcome is Written,
            match r {
                Ok(_) => reported(
                    *old(run),
                    *final(run),
                    write_messages(args.path@),
                    (FsWriteResult { bytes_written: byte_len(args.contents@) as u64 }).json_spec(),
                ),
                Err(e) => write_error(args.path@, *outcome) == Some(e@) && told(
                    *old(run),
                    *final(run),
                    write_messages(args.path@),
                ),
            },
    {
        match self.execute_write_with_result(run, args, outcome) {
            Ok(_) => Ok(()),
            Err(e) => Err(e),
        }
    }

    /// Ends a search for a call: announces it, emits what was found and
    /// hands it back bounded in size.
    pub fn execute_search_with_result(
        &self,
        run: &mut ToolRun,
        query: &str,
        found: &crate::tools::types::FsSearchResult,
    ) -> (r: Result<Json, String>)
        requires
            old(run).well_formed(),
        ensures
            crate::tools::executor::executor_added(old(run).trace(), final(run).trace()),
            r is Ok && !old(run).ended_spec() ==> final(run).has_result_spec(),
            r is Err ==> final(run).has_result_spec() == old(run).has_result_spec(),
            final(run).well_formed(),
            final(run).id_spec() == old(run).id_spec(),
            final(run).ended_spec() == old(run).ended_spec(),
            r matches Ok(j) && j@ == truncated(
                found.json_spec(),
                self.max_output_size_spec() as nat,
            ),
            reported(*old(run), *final(run), search_messages(query@), found.json_spec()),
    {
        self.announce(run, concat2("Searching for: ", query));
        let ghost announced = run.trace();
        let payload = found.to_json();
        let out = self.deliver(run, payload);
        proof {
            crate::tools::executor::lemma_executor_added(old(run).trace(), announced, run.trace());
            lemma_reported_one(
                *old(run),
                announced,
                *run,
                "Searching for: "@ + query@,
                found.json_spec(),
            );
        }
        Ok(out)
    }

    /// The same as `execute_search_with_result`, without the result.
    pub fn execute_search(
        &self,
        run: &mut ToolRun,
        query: &str,
        found: &crate::tools::types::FsSearchResult,
    ) -> (r: Result<(), String>)
        requires
            old(run).well_formed(),
        ensures
            r is Ok,
            reported(*old(run), *final(run), search_messages(query@), found.json_spec()),
    {
        match self.execute_search_with_result(run, query, found) {
            Ok(_) => Ok(()),
            Err(e) => Err(e),
        }
    }

    /// Ends a look for names for a call: announces it, emits the document
    /// of what was found and hands it back bounded in size.
    pub fn execute_find_with_result(&self, run: &mut ToolRun, pattern: &str, found: Json) -> (r:
        Result<Json, String>)
        requires
            old(run).well_formed(),
        ensures
            crate::tools::executor::executor_added(old(run).trace(), final(run).trace()),
            r is Ok && !old(run).ended_spec() ==> final(run).has_result_spec(),
            r is Err ==> final(run).has_result_spec() == old(run).has_result_spec(),
            final(run).well_formed(),
            final(run).id_spec() == old(run).id_spec(),
            final(run).ended_spec() == old(run).ended_spec(),
            r matches Ok(j) && j@ == truncated(found@, self.max_output_size_spec() as nat),
            reported(*old(run), *final(run), find_messages(pattern@), found@),
    {
        self.announce(run, concat2("Finding files matching: ", pattern));
        let ghost announced = run.trace();
        let out = self.deliver(run, found);
        proof {
            crate::tools::executor::lemma_executor_added(old(run).trace(), announced, run.trace());
            lemma_reported_one(
                *old(run),
                announced,
                *run,
                "Finding files matching: "@ + pattern@,
                found@,
            );
        }
        Ok(out)
    }

    /// The same as `execute_find_with_result`, without the result.
    pub fn execute_find(&self, run: &mut ToolRun, pattern: &str, found: Json) -> (r: Result<
        (),
        String,
    >)
        requires
            old(run).well_formed(),
        ensures
            r is Ok,
            reported(*old(run), *final(run), find_messages(pattern@), found@),
    {
        match self.execute_find_with_result(run, pattern, found) {
            Ok(_) => Ok(()),
            Err(e) => Err(e),
        }
    }

    /// Plans the edits of a call against what the disk holds. Planning
    /// writes nothing.
    pub fn apply_simple_edit_spec(&self, spec: &FsApplyPatchArgs, disk: &DiskSnapshot) -> (r: Result<
        SimpleEditPlanner,
        String,
    >)
        ensures
            match r {
                Ok(planner) => run(spec.dry_run, spec.ops@, *disk) == Ok::<PlanView, Seq<char>>(
                    planner@,
                ),
                Err(e) => run(spec.dry_run, spec.ops@, *disk) == Err::<PlanView, Seq<char>>(e@),
            },
    {
        plan_edits(spec.dry_run, &spec.ops, disk)
    }

    /// Ends the edits of a call. `outcome` is the summary of the finished
    /// plan or the error of planning or committing. Either way the call
    /// has a result, which says whether the edits succeeded.
    pub fn execute_apply_patch_with_result(
        &self,
        run: &mut ToolRun,
        spec: &FsApplyPatchArgs,
        outcome: Result<String, String>,
    ) -> (r: Result<Json, String>)
        requires
            old(run).well_formed(),
        ensures
            crate::tools::executor::executor_added(old(run).trace(), final(run).trace()),
            r is Ok && !old(run).ended_spec() ==> final(run).has_result_spec(),
            r is Err ==> final(run).has_result_spec() == old(run).has_result_spec(),
            final(run).well_formed(),
            final(run).id_spec() == old(run).id_spec(),
            final(run).ended_spec() == old(run).ended_spec(),
            r matches Ok(j) && exists|res: FsApplyPatchResult|
                (res.success, crate::json::opt_strings_view(res.rejected_hunks), res.summary@)
                    == patch_result(outcome) && j@ == truncated(
                    res.json_spec(),
                    self.max_output_size_spec() as nat,
                ),
            r matches Ok(j) && j@ == truncated(
                patch_document(outcome),
                self.max_output_size_spec() as nat,
            ),
            reported(
                *old(run),
                *final(run),
                patch_messages(spec.ops@.len(), spec.dry_run),
                patch_document(outcome),
            ),
    {
        let count = u64_to_string(spec.ops.len() as u64);
        self.announce(run, concat3("Planning ", count.as_str(), " edit operation(s)..."));
        let ghost planned = run.trace();
        self.announce(
            run,
            if spec.dry_run {
                String::from_str("Dry run completed")
            } else {
                String::from_str("Finished applying edits")
            },
        );
        let result = match outcome {
            Ok(summary) => FsApplyPatchResult { success: true, rejected_hunks: None, summary },
            Err(e) => {
                let summary = concat2("Failed to apply edits: ", e.as_str());
                let mut hunks: Vec<String> = Vec::new();
                hunks.push(e);
                assert(crate::text::string_views(hunks@) =~= Seq::empty().push(e@));
                FsApplyPatchResult { success: false, rejected_hunks: Some(hunks), summary }
            },
        };
        let ghost finished = run.trace();
        let payload = result.to_json();
        assert(result.json_spec() == patch_document(outcome));
        let out = self.deliver(run, payload);
        proof {
            crate::tools::executor::lemma_executor_added(old(run).trace(), planned, finished);
            crate::tools::executor::lemma_executor_added(old(run).trace(), finished, run.trace());
            lemma_reported_two(
                *old(run),
                planned,
                finished,
                *run,
                patch_messages(spec.ops@.len(), spec.dry_run),
                patch_document(outcome),
            );
        }
        Ok(out)
    }

    /// The same as `execute_apply_patch_with_result`, without the result.
    pub fn execute_apply_patch(
        &self,
        run: &mut ToolRun,
        spec: &FsApplyPatchArgs,
        outcome: Result<String, String>,
    ) -> (r: Result<(), String>)
        requires
            old(run).well_formed(),
        ensures
            r is Ok,
            reported(
                *old(run),
                *final(run),
                patch_messages(spec.ops@.len(), spec.dry_run),
                patch_document(outcome),
            ),
    {
        match self.execute_apply_patch_with_result(run, spec, outcome) {
            Ok(_) => Ok(()),
            Err(e) => Err(e),
        }
    }
}

/// The paths that a list of operations names, in order: for each operation
/// its path and, for a rename, its target.
pub open spec fn named_paths(ops: Seq<SimpleEditOp>) -> Seq<Seq<char>>
    decreases ops.len(),
{
    if ops.len() == 0 {
        Seq::empty()
    } else {
        let before = named_paths(ops.drop_last()).push(ops.last().path_spec());
        match ops.last() {
            SimpleEditOp::RenameFile { path, to } => before.push(to@),
            _ => before,
        }
    }
}

/// The paths that a list of operations names: what the planner may want to
/// know of the disk.
pub fn paths_to_probe(ops: &Vec<SimpleEditOp>) -> (paths: Vec<String>)
    ensures
        crate::text::string_views(paths@) == named_paths(ops@),
{
    let mut out: Vec<String> = Vec::new();
    let mut i: usize = 0;
    proof {
        assert(ops@.take(0) =~= Seq::empty());
        assert(crate::text::string_views(out@) =~= Seq::empty());
    }
    while i < ops.len()
        invariant
            i <= ops.len(),
            crate::text::string_views(out@) == named_paths(ops@.take(i as int)),
        decreases ops.len() - i,
    {
        proof {
            assert(ops@.take(i + 1).drop_last() == ops@.take(i as int));
            assert(ops@.take(i + 1).last() == ops@[i as int]);
        }
        let ghost before = crate::text::string_views(out@);
        let p = String::from_str(ops[i].path());
        out.push(p);
        assert(crate::text::string_views(out@) =~= before.push(ops@[i as int].path_spec()));
        match &ops[i] {
            SimpleEditOp::RenameFile { to, .. } => {
                let ghost mid = crate::text::string_views(out@);
                out.push(to.clone());
                assert(crate::text::string_views(out@) =~= mid.push(to@));
            },
            _ => {},
        }
        i += 1;
    }
    proof {
        assert(ops@.take(ops@.len() as int) == ops@);
    }
    out
}

// ---------------------------------------------------------------------------
// Matching names
// ---------------------------------------------------------------------------

/// The characters of `pattern` occur in `text` in order.
pub open spec fn is_subsequence(pattern: Seq<char>, text: Seq<char>) -> bool
    decreases text.len(),
{
    if pattern.len() == 0 {
        true
    } else if text.len() == 0 {
        false
    } else if pattern[0] == text[0] {
        is_subsequence(pattern.skip(1), text.skip(1))
    } else {
        is_subsequence(pattern, text.skip(1))
    }
}

/// Tests whether the characters of `pattern` occur in `text` in order.
pub fn fuzzy_match(pattern: &str, text: &str) -> (b: bool)
    ensures
        b == is_subsequence(pattern@, text@),
{
    let p = str_chars(pattern);
    let t = str_chars(text);
    let mut pi: usize = 0;
    let mut ti: usize = 0;
    assert(p@.skip(0) == p@ && t@.skip(0) == t@);
    while pi < p.len() && ti < t.len()
        invariant
            pi <= p.len(),
            ti <= t.len(),
            p@ == pattern@,
            t@ == text@,
            is_subsequence(pattern@, text@) == is_subsequence(
                p@.skip(pi as int),
                t@.skip(ti as int),
            ),
        decreases t.len() - ti,
    {
        proof {
            assert(p@.skip(pi as int).skip(1) == p@.skip(pi + 1));
            assert(t@.skip(ti as int).skip(1) == t@.skip(ti + 1));
        }
        if p[pi] == t[ti] {
            pi += 1;
        }
        ti += 1;
    }
    pi == p.len()
}

/// A length in bytes as a number of 32 bits, held at the largest.
pub open spec fn clamp32(n: nat) -> u32 {
    if n > u32::MAX {
        u32::MAX
    } else {
        n as u32
    }
}

/// How well `text` matches `pattern`.
pub open spec fn fuzzy_score(pattern: Seq<char>, text: Seq<char>) -> MatchScore {
    if pattern == text {
        MatchScore::Exact
    } else if matches_at(text, pattern, 0) {
        MatchScore::Prefix
    } else if contains_sub(text, pattern) {
        MatchScore::Contains
    } else if is_subsequence(pattern, text) {
        MatchScore::Subsequence {
            pattern_len: clamp32(byte_len(pattern)),
            text_len: clamp32(byte_len(text)),
        }
    } else {
        MatchScore::Zero
    }
}

fn clamped_len(s: &str) -> (n: u32)
    ensures
        n == clamp32(byte_len(s@)),
{
    let len = byte_length(s);
    if len > 4294967295 {
        4294967295u32
    } else {
        len as u32
    }
}

/// Scores how well `text` matches `pattern`.
pub fn calculate_fuzzy_score(pattern: &str, text: &str) -> (s: MatchScore)
    ensures
        s == fuzzy_score(pattern@, text@),
{
    let p = str_chars(pattern);
    let t = str_chars(text);
    if crate::text::chars_eq(p.as_slice(), t.as_slice()) {
        MatchScore::Exact
    } else if starts_with(t.as_slice(), p.as_slice()) {
        MatchScore::Prefix
    } else if contains(t.as_slice(), p.as_slice()) {
        MatchScore::Contains
    } else if fuzzy_match(pattern, text) {
        MatchScore::Subsequence { pattern_len: clamped_len(pattern), text_len: clamped_len(text) }
    } else {
        MatchScore::Zero
    }
}

/// The language of a file extension, where it is known.
pub open spec fn language_of(extension: Seq<char>) -> Option<Seq<char>> {
    if extension == "rs"@ {
        Some("rust"@)
    } else if extension == "py"@ {
        Some("python"@)
    } else if extension == "js"@ || extension == "jsx"@ {
        Some("javascript"@)
    } else if extension == "ts"@ || extension == "tsx"@ {
        Some("typescript"@)
    } else if extension == "go"@ {
        Some("go"@)
    } else if extension == "java"@ {
        Some("java"@)
    } else if extension == "c"@ || extension == "h"@ || extension == "hpp"@ || extension == "hxx"@ {
        Some("c"@)
    } else if extension == "cpp"@ || extension == "cxx"@ || extension == "cc"@ {
        Some("cpp"@)
    } else if extension == "cs"@ {
        Some("csharp"@)
    } else if extension == "php"@ {
        Some("php"@)
    } else if extension == "rb"@ {
        Some("ruby"@)
    } else if extension == "swift"@ {
        Some("swift"@)
    } else if extension == "kt"@ {
        Some("kotlin"@)
    } else if extension == "scala"@ {
        Some("scala"@)
    } else if extension == "r"@ {
        Some("r"@)
    } else if extension == "m"@ {
        Some("objective-c"@)
    } else if extension == "sh"@ || extension == "bash"@ || extension == "zsh"@ || extension
        == "fish"@ {
        Some("bash"@)
    } else if extension == "sql"@ {
        Some("sql"@)
    } else if extension == "html"@ {
        Some("html"@)
    } else if extension == "css"@ {
        Some("css"@)
    } else if extension == "scss"@ || extension == "sass"@ {
        Some("scss"@)
    } else if extension == "less"@ {
        Some("less"@)
    } else if extension == "vue"@ {
        Some("vue"@)
    } else if extension == "svelte"@ {
        Some("svelte"@)
    } else if extension == "elm"@ {
        Some("elm"@)
    } else if extension == "clj"@ || extension == "cljs"@ {
        Some("clojure"@)
    } else if extension == "hs"@ {
        Some("haskell"@)
    } else if extension == "ml"@ {
        Some("ocaml"@)
    } else if extension == "fs"@ {
        Some("fsharp"@)
    } else if extension == "pl"@ {
        Some("perl"@)
    } else if extension == "lua"@ {
        Some("lua"@)
    } else if extension == "dart"@ {
        Some("dart"@)
    } else if extension == "julia"@ {
        Some("julia"@)
    } else if extension == "nim"@ {
        Some("nim"@)
    } else if extension == "zig"@ {
        Some("zig"@)
    } else {
        None
    }
}

fn named(name: &str) -> (r: Option<String>)
    ensures
        opt_text(r) == Some(name@),
{
    Some(String::from_str(name))
}

/// The language of a file extension, where it is known.
pub fn detect_language(extension: &str) -> (r: Option<String>)
    ensures
        opt_text(r) == language_of(extension@),
{
    if str_eq(extension, "rs") {
        named("rust")
    } else if str_eq(extension, "py") {
        named("python")
    } else if str_eq(extension, "js") || str_eq(extension, "jsx") {
        named("javascript")
    } else if str_eq(extension, "ts") || str_eq(extension, "tsx") {
        named("typescript")
    } else if str_eq(extension, "go") {
        named("go")
    } else if str_eq(extension, "java") {
        named("java")
    } else if str_eq(extension, "c") || str_eq(extension, "h") || str_eq(extension, "hpp")
        || str_eq(extension, "hxx") {
        named("c")
    } else if str_eq(extension, "cpp") || str_eq(extension, "cxx") || str_eq(extension, "cc") {
        named("cpp")
    } else if str_eq(extension, "cs") {
        named("csharp")
    } else if str_eq(extension, "php") {
        named("php")
    } else if str_eq(extension, "rb") {
        named("ruby")
    } else if str_eq(extension, "swift") {
        named("swift")
    } else if str_eq(extension, "kt") {
        named("kotlin")
    } else if str_eq(extension, "scala") {
        named("scala")
    } else if str_eq(extension, "r") {
        named("r")
    } else if str_eq(extension, "m") {
        named("objective-c")
    } else if str_eq(extension, "sh") || str_eq(extension, "bash") || str_eq(extension, "zsh")
        || str_eq(extension, "fish") {
        named("bash")
    } else if str_eq(extension, "sql") {
        named("sql")
    } else if str_eq(extension, "html") {
        named("html")
    } else if str_eq(extension, "css") {
        named("css")
    } else if str_eq(extension, "scss") || str_eq(extension, "sass") {
        named("scss")
    } else if str_eq(extension, "less") {
        named("less")
    } else if str_eq(extension, "vue") {
        named("vue")
    } else if str_eq(extension, "svelte") {
        named("svelte")
    } else if str_eq(extension, "elm") {
        named("elm")
    } else if str_eq(extension, "clj") || str_eq(extension, "cljs") {
        named("clojure")
    } else if str_eq(extension, "hs") {
        named("haskell")
    } else if str_eq(extension, "ml") {
        named("ocaml")
    } else if str_eq(extension, "fs") {
        named("fsharp")
    } else if str_eq(extension, "pl") {
        named("perl")
    } else if str_eq(extension, "lua") {
        named("lua")
    } else if str_eq(extension, "dart") {
        named("dart")
    } else if str_eq(extension, "julia") {
        named("julia")
    } else if str_eq(extension, "nim") {
        named("nim")
    } else if str_eq(extension, "zig") {
        named("zig")
    } else {
        None
    }
}

} // verus!
