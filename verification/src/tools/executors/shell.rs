//! The shell tool: what to run, and what the run amounts to.

use vstd::prelude::*;
use vstd::string::StringExecFns;
use crate::events::EventSender;
use crate::json::Json;
use crate::text::{concat2, i64_to_string, join, join_spec, signed_decimal, string_views};
use crate::tools::executor::{truncate_result, truncated, ToolRun};
use crate::tools::types::{ShellExecArgs, ShellExecResult};

verus! {

/// The time a command may take where the arguments do not say: 30
/// seconds.
pub const DEFAULT_TIMEOUT_MS: u64 = 30000;

/// How the run of a command ended.
#[derive(Debug)]
pub enum ProcessOutcome {
    /// The process could not be started; the text says why.
    SpawnFailed(String),
    /// Waiting for the process failed; the text says why.
    WaitFailed(String),
    /// The process outlived the timeout and was killed.
    TimedOut,
    /// The process exited: its exit code, if it has one, and the time it
    /// took in milliseconds.
    Exited { code: Option<i32>, elapsed_ms: u64 },
}

/// The duration that is reported for a run: at least one millisecond.
pub open spec fn reported_duration(elapsed_ms: u64) -> u64 {
    if elapsed_ms < 1 {
        1
    } else {
        elapsed_ms
    }
}

/// The exit code that is reported: -1 for a process without one.
pub open spec fn reported_code(code: Option<i32>) -> i32 {
    match code {
        Some(c) => c,
        None => -1i32,
    }
}

/// The error of a run that has no result.
pub open spec fn run_error(outcome: ProcessOutcome) -> Option<Seq<char>> {
    match outcome {
        ProcessOutcome::SpawnFailed(e) => Some("Failed to spawn command: "@ + e@),
        ProcessOutcome::WaitFailed(e) => Some("Process wait error: "@ + e@),
        ProcessOutcome::TimedOut => Some("Command timed out"@),
        ProcessOutcome::Exited { .. } => None,
    }
}

/// How a run ended for a command that may take `timeout_ms`: a process
/// whose reported duration is beyond the timeout counts as timed out,
/// though it exited.
pub open spec fn within(outcome: ProcessOutcome, timeout_ms: u64) -> ProcessOutcome {
    match outcome {
        ProcessOutcome::Exited { code, elapsed_ms } => if reported_duration(elapsed_ms)
            > timeout_ms {
            ProcessOutcome::TimedOut
        } else {
            outcome
        },
        _ => outcome,
    }
}

/// The message for a command that exited in failure.
pub open spec fn exit_error(code: i32) -> Seq<char> {
    "Command failed with exit code: "@ + signed_decimal(code as int)
}

/// The text that announces a command.
pub open spec fn announcement(command: Seq<Seq<char>>) -> Seq<char> {
    "Executing: "@ + join_spec(command, " "@)
}

/// Shell execution executor.
pub struct ShellExecutor {
    event_sender: EventSender,
    max_output_size: usize,
}

impl ShellExecutor {
    /// An executor that emits on the given bus and bounds its results.
    pub fn new(event_sender: EventSender, max_output_size: usize) -> (r: Self)
        ensures
            r.max_output_size_spec() == max_output_size,
    {
        Self { event_sender, max_output_size }
    }

    /// The bound on the size of results, in bytes.
    pub closed spec fn max_output_size_spec(&self) -> usize {
        self.max_output_size
    }

    fn emit(&self, event: Option<crate::events::AppEvent>) {
        match event {
            Some(ev) => {
                let _ = self.event_sender.send(ev);
            },
            None => {},
        }
    }

    /// Reads the arguments of a call and announces the command. An empty
    /// command is an error.
    pub fn prepare(&self, run: &mut ToolRun, args: &Json) -> (r: Result<ShellExecArgs, String>)
        requires
            old(run).well_formed(),
        ensures
            final(run).well_formed(),
            final(run).id_spec() == old(run).id_spec(),
            final(run).ended_spec() == old(run).ended_spec(),
            final(run).has_result_spec() == old(run).has_result_spec(),
            match r {
                Ok(a) => {
                    &&& ShellExecArgs::parse_spec(args@) == Ok::<_, Seq<char>>(a.fields())
                    &&& a.command@.len() > 0
                    &&& if old(run).ended_spec() {
                        final(run).trace() == old(run).trace()
                    } else {
                        &&& final(run).trace().len() == old(run).trace().len() + 1
                        &&& final(run).trace().drop_last() == old(run).trace()
                        &&& final(run).trace().last() matches crate::events::AppEvent::ToolProgress {
                            id,
                            message,
                        } && message@ == announcement(string_views(a.command@))
                    }
                },
                Err(e) => {
                    &&& final(run).trace() == old(run).trace()
                    &&& match ShellExecArgs::parse_spec(args@) {
                        Err(d) => e@ == "Invalid ShellExec arguments: "@ + d,
                        Ok(f) => f.0.len() == 0 && e@ == "Empty command"@,
                    }
                },
            },
    {
        let parsed = match ShellExecArgs::from_json(args) {
            Ok(a) => a,
            Err(e) => {
                return Err(e);
            },
        };
        if parsed.command.len() == 0 {
            assert(string_views(parsed.command@).len() == 0);
            return Err(String::from_str("Empty command"));
        }
        let joined = join(&parsed.command, " ");
        let event = run.progress(concat2("Executing: ", joined.as_str()));
        proof {
            if event is Some {
                assert(run.trace().drop_last() == old(run).trace());
            }
        }
        self.emit(event);
        Ok(parsed)
    }

    /// The time that the command may take, in milliseconds.
    pub fn timeout_ms(args: &ShellExecArgs) -> (t: u64)
        ensures
            t == (match args.timeout_ms {
                Some(t) => t,
                None => DEFAULT_TIMEOUT_MS,
            }),
    {
        match args.timeout_ms {
            Some(t) => t,
            None => DEFAULT_TIMEOUT_MS,
        }
    }

    /// Emits one line of standard output, with its line feed, and hands
    /// the chunk back for the collected output.
    pub fn stdout_line(&self, run: &mut ToolRun, line: &str) -> (chunk: String)
        requires
            old(run).well_formed(),
        ensures
            final(run).well_formed(),
            chunk@ == line@ + "\n"@,
            final(run).id_spec() == old(run).id_spec(),
            final(run).ended_spec() == old(run).ended_spec(),
            final(run).has_result_spec() == old(run).has_result_spec(),
            if old(run).ended_spec() {
                final(run).trace() == old(run).trace()
            } else {
                &&& final(run).trace().len() == old(run).trace().len() + 1
                &&& final(run).trace().drop_last() == old(run).trace()
                &&& final(run).trace().last() matches crate::events::AppEvent::ToolStdout {
                    id,
                    chunk: c,
                } && c@ == line@ + "\n"@
            },
    {
        let chunk = concat2(line, "\n");
        let event = run.stdout(chunk.clone());
        proof {
            if event is Some {
                assert(run.trace().drop_last() == old(run).trace());
            }
        }
        self.emit(event);
        chunk
    }

    /// Emits one line of standard error, with its line feed, and hands the
    /// chunk back for the collected output.
    pub fn stderr_line(&self, run: &mut ToolRun, line: &str) -> (chunk: String)
        requires
            old(run).well_formed(),
        ensures
            final(run).well_formed(),
            chunk@ == line@ + "\n"@,
            final(run).id_spec() == old(run).id_spec(),
            final(run).ended_spec() == old(run).ended_spec(),
            final(run).has_result_spec() == old(run).has_result_spec(),
            if old(run).ended_spec() {
                final(run).trace() == old(run).trace()
            } else {
                &&& final(run).trace().len() == old(run).trace().len() + 1
                &&& final(run).trace().drop_last() == old(run).trace()
                &&& final(run).trace().last() matches crate::events::AppEvent::ToolStderr {
                    id,
                    chunk: c,
                } && c@ == line@ + "\n"@
            },
    {
        let chunk = concat2(line, "\n");
        let event = run.stderr(chunk.clone());
        proof {
            if event is Some {
                assert(run.trace().drop_last() == old(run).trace());
            }
        }
        self.emit(event);
        chunk
    }

    /// The result of a command that exited.
    pub fn result_of(code: Option<i32>, elapsed_ms: u64, stdout: String, stderr: String) -> (r:
        ShellExecResult)
        ensures
            r.exit_code == reported_code(code),
            r.duration_ms == reported_duration(elapsed_ms),
            r.stdout == stdout,
            r.stderr == stderr,
    {
        ShellExecResult {
            exit_code: match code {
                Some(c) => c,
                None => -1,
            },
            duration_ms: if elapsed_ms < 1 {
                1
            } else {
                elapsed_ms
            },
            stdout,
            stderr,
        }
    }

    /// What a run amounts to for a command that may take `timeout_ms`. A
    /// run that was not started, not waited for or timed out is an error
    /// and has no result; so is one that exited after more than the
    /// timeout. A run that exited in time has a result, which is emitted
    /// and whose duration is at least one millisecond and at most the
    /// timeout; an exit code other than zero then makes the call an error
    /// all the same.
    pub fn execute_with_result(
        &self,
        run: &mut ToolRun,
        timeout_ms: u64,
        outcome: ProcessOutcome,
        stdout: String,
        stderr: String,
    ) -> (r: Result<Json, String>)
        requires
            old(run).well_formed(),
        ensures
            final(run).well_formed(),
            final(run).id_spec() == old(run).id_spec(),
            final(run).ended_spec() == old(run).ended_spec(),
            match within(outcome, timeout_ms) {
                ProcessOutcome::Exited { code, elapsed_ms } => {
                    let result = ShellExecResult {
                        exit_code: reported_code(code),
                        duration_ms: reported_duration(elapsed_ms),
                        stdout,
                        stderr,
                    };
                    &&& 1 <= result.duration_ms <= timeout_ms
                    &&& if old(run).ended_spec() || old(run).has_result_spec() {
                        final(run).trace() == old(run).trace() && final(run).has_result_spec()
                            == old(run).has_result_spec()
                    } else {
                        &&& final(run).has_result_spec()
                        &&& final(run).trace().len() == old(run).trace().len() + 1
                        &&& final(run).trace().drop_last() == old(run).trace()
                        &&& final(run).trace().last() matches crate::events::AppEvent::ToolResult {
                            id,
                            payload,
                        } && id@ == old(run).id_spec() && payload@ == result.json_spec()
                    }
                    &&& if reported_code(code) == 0 {
                        r matches Ok(j) && j@ == truncated(
                            result.json_spec(),
                            self.max_output_size_spec() as nat,
                        )
                    } else {
                        r matches Err(e) && e@ == exit_error(reported_code(code))
                    }
                },
                _ => {
                    &&& r matches Err(e) && Some(e@) == run_error(within(outcome, timeout_ms))
                    &&& final(run).trace() == old(run).trace()
                    &&& final(run).has_result_spec() == old(run).has_result_spec()
                },
            },
    {
        match outcome {
            ProcessOutcome::SpawnFailed(e) => Err(concat2("Failed to spawn command: ", e.as_str())),
            ProcessOutcome::WaitFailed(e) => Err(concat2("Process wait error: ", e.as_str())),
            ProcessOutcome::TimedOut => Err(String::from_str("Command timed out")),
            ProcessOutcome::Exited { code, elapsed_ms } => {
                let result = Self::result_of(code, elapsed_ms, stdout, stderr);
                if result.duration_ms > timeout_ms {
                    return Err(String::from_str("Command timed out"));
                }
                let payload = result.to_json();
                let shown = payload.deep_clone();
                let event = run.result(shown);
                proof {
                    if event is Some {
                        assert(run.trace().drop_last() == old(run).trace());
                    }
                }
                self.emit(event);
                if result.exit_code != 0 {
                    let code_text = i64_to_string(result.exit_code as i64);
                    return Err(concat2("Command failed with exit code: ", code_text.as_str()));
                }
                Ok(truncate_result(payload, self.max_output_size))
            },
        }
    }

    /// The same as `execute_with_result`, without the result.
    pub fn execute(
        &self,
        run: &mut ToolRun,
        timeout_ms: u64,
        outcome: ProcessOutcome,
        stdout: String,
        stderr: String,
    ) -> (r: Result<(), String>)
        requires
            old(run).well_formed(),
        ensures
            final(run).well_formed(),
            final(run).id_spec() == old(run).id_spec(),
            final(run).ended_spec() == old(run).ended_spec(),
            match within(outcome, timeout_ms) {
                ProcessOutcome::Exited { code, elapsed_ms } => {
                    let result = ShellExecResult {
                        exit_code: reported_code(code),
                        duration_ms: reported_duration(elapsed_ms),
                        stdout,
                        stderr,
                    };
                    &&& 1 <= result.duration_ms <= timeout_ms
                    &&& if old(run).ended_spec() || old(run).has_result_spec() {
                        final(run).trace() == old(run).trace() && final(run).has_result_spec()
                            == old(run).has_result_spec()
                    } else {
                        &&& final(run).has_result_spec()
                        &&& final(run).trace().len() == old(run).trace().len() + 1
                        &&& final(run).trace().drop_last() == old(run).trace()
                        &&& final(run).trace().last() matches crate::events::AppEvent::ToolResult {
                            id,
                            payload,
                        } && id@ == old(run).id_spec() && payload@ == result.json_spec()
                    }
                    &&& !old(run).ended_spec() ==> final(run).has_result_spec()
                    &&& if reported_code(code) == 0 {
                        r is Ok
                    } else {
                        r matches Err(e) && e@ == exit_error(reported_code(code))
                    }
                },
                _ => r matches Err(e) && Some(e@) == run_error(within(outcome, timeout_ms))
                    && final(run).trace() == old(run).trace() && final(run).has_result_spec()
                    == old(run).has_result_spec(),
            },
    {
        match self.execute_with_result(run, timeout_ms, outcome, stdout, stderr) {
            Ok(_) => Ok(()),
            Err(e) => Err(e),
        }
    }
}

/// Shell duration: a run has a result only where it exited within the
/// timeout, and the duration that the result reports is then at least one
/// millisecond and at most the timeout; a command that timed out has an
/// error and no result.
pub proof fn law_shell_duration(outcome: ProcessOutcome, timeout_ms: u64)
    ensures
        within(outcome, timeout_ms) matches ProcessOutcome::Exited { elapsed_ms, .. } ==> 1
            <= reported_duration(elapsed_ms) <= timeout_ms,
        run_error(within(outcome, timeout_ms)) is None <==> within(outcome, timeout_ms) is Exited,
        run_error(ProcessOutcome::TimedOut) == Some("Command timed out"@),
{
}

} // verus!
