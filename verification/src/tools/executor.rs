//! The dispatcher: the life of one tool call from its begin event to its
//! end event, the one-line summary of a call, and the bound on the size of
//! what a tool hands back to the agent.

use vstd::prelude::*;
use vstd::string::StringExecFns;
use crate::events::{AppEvent, EventSender, ToolName};
use crate::json::{json_text, no_fields, push_field, uint_view, Json, JsonView};
use crate::text::{byte_len, byte_length, concat2, join, join_spec};
use crate::tools::types::{
    CodeSymbolsArgs, FsFindArgs, FsReadArgs, FsSearchArgs, FsWriteArgs, ShellExecArgs,
};

verus! {

/// The size above which a result is replaced by a stub, where nothing else
/// is configured: 1 MiB.
pub const DEFAULT_MAX_OUTPUT_SIZE: usize = 1048576;

// ---------------------------------------------------------------------------
// Output truncation
// ---------------------------------------------------------------------------

/// The stub that stands for a result of `original` bytes where only `max`
/// are allowed.
pub open spec fn truncation_stub(original: nat, max: nat) -> JsonView {
    JsonView::Object(
        Seq::empty().push(("truncated"@, JsonView::Bool(true))).push(
            ("original_size_bytes"@, uint_view(original)),
        ).push(("max_allowed_bytes"@, uint_view(max))).push(
            (
                "message"@,
                JsonView::Str(
                    "The tool output was too large and has been truncated. The rest of the output was too long."@,
                ),
            ),
        ).push(
            (
                "note"@,
                JsonView::Str(
                    "Output exceeded the maximum size limit to prevent excessive token usage in the conversation."@,
                ),
            ),
        ),
    )
}

/// The size of a result: the length in bytes of its canonical text.
pub open spec fn result_size(result: JsonView) -> nat {
    byte_len(json_text(result))
}

/// What the agent gets for a result: the result itself where its size is
/// within `max`, else the stub.
pub open spec fn truncated(result: JsonView, max: nat) -> JsonView {
    if result_size(result) <= max {
        result
    } else {
        truncation_stub(result_size(result), max)
    }
}

/// Bounds the size of a result: one whose canonical text is longer than
/// `max_output_size` bytes is replaced by the stub.
pub fn truncate_result(result: Json, max_output_size: usize) -> (out: Json)
    ensures
        out@ == truncated(result@, max_output_size as nat),
        result_size(result@) <= max_output_size ==> out == result,
{
    let text = result.to_text();
    let size = byte_length(text.as_str());
    if size <= max_output_size {
        result
    } else {
        let mut stub = no_fields();
        push_field(&mut stub, "truncated", Json::Bool(true));
        push_field(&mut stub, "original_size_bytes", Json::from_u64(size as u64));
        push_field(&mut stub, "max_allowed_bytes", Json::from_u64(max_output_size as u64));
        push_field(
            &mut stub,
            "message",
            Json::string(
                "The tool output was too large and has been truncated. The rest of the output was too long.",
            ),
        );
        push_field(
            &mut stub,
            "note",
            Json::string(
                "Output exceeded the maximum size limit to prevent excessive token usage in the conversation.",
            ),
        );
        Json::object(stub)
    }
}

/// Output truncation: a result of size `L` above the threshold comes back
/// as a stub with `truncated` true and `original_size_bytes` equal to `L`;
/// one within the threshold comes back unchanged.
pub proof fn law_truncation(result: JsonView, max: nat)
    ensures
        result_size(result) <= max ==> truncated(result, max) == result,
        result_size(result) > max ==> {
            &&& truncated(result, max).get("truncated"@) == Some(JsonView::Bool(true))
            &&& truncated(result, max).get("original_size_bytes"@) == Some(
                uint_view(result_size(result)),
            )
            &&& truncated(result, max).get("max_allowed_bytes"@) == Some(uint_view(max))
        },
{
    if result_size(result) > max {
        reveal_strlit("truncated");
        reveal_strlit("original_size_bytes");
        reveal_strlit("max_allowed_bytes");
        reveal_strlit("message");
        reveal_strlit("note");
        let stub = truncation_stub(result_size(result), max);
        let fields = stub->Object_0;
        assert("truncated"@.len() == 9);
        assert("original_size_bytes"@.len() == 19);
        assert("max_allowed_bytes"@.len() == 17);
        assert("message"@.len() == 7);
        assert("note"@.len() == 4);
        let f4 = fields.drop_last();
        let f3 = f4.drop_last();
        let f2 = f3.drop_last();
        let f1 = f2.drop_last();
        assert(fields.last().0 == "note"@);
        assert(f4.last().0 == "message"@);
        assert(f3.last().0 == "max_allowed_bytes"@);
        assert(f2.last().0 == "original_size_bytes"@);
        assert(f1.last().0 == "truncated"@);
        reveal_with_fuel(crate::json::lookup, 6);
    }
}

// ---------------------------------------------------------------------------
// The summary of a call
// ---------------------------------------------------------------------------

/// The one-line description of a call, from the tool and its arguments.
pub open spec fn tool_summary(tool: ToolName, args: JsonView) -> Seq<char> {
    match tool {
        ToolName::FsRead => match FsReadArgs::parse_spec(args) {
            Ok(a) => "Reading file: "@ + a.0,
            Err(_) => "Reading file"@,
        },
        ToolName::FsSearch => match FsSearchArgs::parse_spec(args) {
            Ok(a) => "Searching for: "@ + a.0,
            Err(_) => "Searching files"@,
        },
        ToolName::FsWrite => match FsWriteArgs::parse_spec(args) {
            Ok(a) => "Writing to file: "@ + a.0,
            Err(_) => "Writing file"@,
        },
        ToolName::FsApplyPatch => "Applying patch"@,
        ToolName::FsFind => match FsFindArgs::parse_spec(args) {
            Ok(a) => "Finding files matching: "@ + a.0,
            Err(_) => "Finding files"@,
        },
        ToolName::ShellExec => match ShellExecArgs::parse_spec(args) {
            Ok(a) => "Executing: "@ + join_spec(a.0, " "@),
            Err(_) => "Executing command"@,
        },
        ToolName::CodeSymbols => match CodeSymbolsArgs::parse_spec(args) {
            Ok(a) => "Analyzing symbols in: "@ + a.0,
            Err(_) => "Analyzing symbols"@,
        },
        ToolName::LargeContextFetch => "Fetching relevant context"@,
    }
}

// ---------------------------------------------------------------------------
// The life of a call
// ---------------------------------------------------------------------------

/// The events of one call form a life: a begin event first, then progress,
/// output and at most one result, then, once the call has ended, the end
/// event last; every event carries the id of the call.
pub open spec fn lifecycle(trace: Seq<AppEvent>, id: Seq<char>, has_result: bool, ended: bool)
    -> bool {
    let body_end = if ended {
        trace.len() - 1
    } else {
        trace.len() as int
    };
    &&& trace.len() >= 1
    &&& trace[0] is ToolBegin
    &&& forall|i: int| 0 <= i < trace.len() ==> (#[trigger] trace[i]).tool_id() == Some(id)
    &&& ended ==> trace.len() >= 2 && trace.last() is ToolEnd
    &&& forall|i: int|
        1 <= i < body_end ==> (#[trigger] trace[i]).is_stream() || trace[i] is ToolResult
    &&& has_result <==> exists|i: int| 1 <= i < body_end && (#[trigger] trace[i]) is ToolResult
    &&& forall|i: int, j: int|
        1 <= i < body_end && 1 <= j < body_end && (#[trigger] trace[i]) is ToolResult && (
        #[trigger] trace[j]) is ToolResult ==> i == j
}

/// What an executor adds to the record of a call: the record as it was
/// stays in front, and behind it stand progress events and result events
/// only.
pub open spec fn executor_added(before: Seq<AppEvent>, after: Seq<AppEvent>) -> bool {
    &&& before.len() <= after.len()
    &&& after.take(before.len() as int) == before
    &&& forall|i: int|
        before.len() <= i < after.len() ==> (#[trigger] after[i]) is ToolProgress || after[i]
            is ToolResult
}

/// What executors add one after the other is what an executor adds.
pub proof fn lemma_executor_added(a: Seq<AppEvent>, b: Seq<AppEvent>, c: Seq<AppEvent>)
    requires
        executor_added(a, b),
        executor_added(b, c),
    ensures
        executor_added(a, c),
{
    assert(c.take(a.len() as int) =~= b.take(a.len() as int)) by {
        assert forall|i: int| 0 <= i < a.len() implies c.take(a.len() as int)[i] == b.take(
            a.len() as int,
        )[i] by {
            assert(c.take(b.len() as int)[i] == b[i]);
        }
    }
    assert forall|i: int| a.len() <= i < c.len() implies (#[trigger] c[i]) is ToolProgress || c[i]
        is ToolResult by {
        if i < b.len() {
            assert(c.take(b.len() as int)[i] == b[i]);
        }
    }
}

/// Nothing added and one progress or result event added are both what an
/// executor adds.
pub proof fn lemma_executor_added_one(before: Seq<AppEvent>, after: Seq<AppEvent>)
    requires
        after == before || (after.len() == before.len() + 1 && after.drop_last() == before && (
        after.last() is ToolProgress || after.last() is ToolResult)),
    ensures
        executor_added(before, after),
{
    if after == before {
        assert(after.take(before.len() as int) =~= before);
    } else {
        assert(after.take(before.len() as int) =~= after.drop_last());
    }
}

/// The event is the progress event of the call `id` with the message.
pub open spec fn is_progress(event: AppEvent, id: Seq<char>, message: Seq<char>) -> bool {
    event matches AppEvent::ToolProgress { id: i, message: m } && i@ == id && m@ == message
}

/// The event is the result event of the call `id` with the payload.
pub open spec fn is_result(event: AppEvent, id: Seq<char>, payload: JsonView) -> bool {
    event matches AppEvent::ToolResult { id: i, payload: p } && i@ == id && p@ == payload
}

/// What an executor does to the record of a call when it reports the
/// messages and then the payload. A call that has ended stays as it is.
/// Else the record grows by one progress event for each message, in
/// order, and by the result event with the payload, unless the call has a
/// result already; the call then has a result.
pub open spec fn reported(
    before: ToolRun,
    after: ToolRun,
    messages: Seq<Seq<char>>,
    payload: JsonView,
) -> bool {
    let n = before.trace().len() as int;
    let k = messages.len() as int;
    &&& after.well_formed()
    &&& after.id_spec() == before.id_spec()
    &&& after.tool_spec() == before.tool_spec()
    &&& after.ended_spec() == before.ended_spec()
    &&& if before.ended_spec() {
        &&& after.trace() == before.trace()
        &&& after.has_result_spec() == before.has_result_spec()
    } else {
        &&& after.has_result_spec()
        &&& after.trace().len() == n + k + (if before.has_result_spec() {
            0int
        } else {
            1int
        })
        &&& after.trace().take(n) == before.trace()
        &&& forall|i: int|
            0 <= i < k ==> is_progress(after.trace()[n + i], before.id_spec(), #[trigger] messages[i])
        &&& !before.has_result_spec() ==> is_result(after.trace()[n + k], before.id_spec(), payload)
    }
}

/// What an executor does to the record of a call when it reports the
/// messages and no result. A call that has ended stays as it is. Else the
/// record grows by one progress event for each message, in order, and by
/// nothing else.
pub open spec fn told(before: ToolRun, after: ToolRun, messages: Seq<Seq<char>>) -> bool {
    let n = before.trace().len() as int;
    let k = messages.len() as int;
    &&& after.well_formed()
    &&& after.id_spec() == before.id_spec()
    &&& after.tool_spec() == before.tool_spec()
    &&& after.ended_spec() == before.ended_spec()
    &&& after.has_result_spec() == before.has_result_spec()
    &&& if before.ended_spec() {
        after.trace() == before.trace()
    } else {
        &&& after.trace().len() == n + k
        &&& after.trace().take(n) == before.trace()
        &&& forall|i: int|
            0 <= i < k ==> is_progress(after.trace()[n + i], before.id_spec(), #[trigger] messages[i])
    }
}

/// A record that grew by the progress event of a message is that of a
/// report of the message.
pub proof fn lemma_told_one(before: ToolRun, after: ToolRun, message: Seq<char>)
    requires
        after.well_formed(),
        after.id_spec() == before.id_spec(),
        after.tool_spec() == before.tool_spec(),
        after.ended_spec() == before.ended_spec(),
        after.has_result_spec() == before.has_result_spec(),
        before.ended_spec() ==> after.trace() == before.trace(),
        !before.ended_spec() ==> after.trace().len() == before.trace().len() + 1
            && after.trace().drop_last() == before.trace() && is_progress(
            after.trace().last(),
            before.id_spec(),
            message,
        ),
    ensures
        told(before, after, Seq::empty().push(message)),
{
    if !before.ended_spec() {
        let n = before.trace().len() as int;
        assert(after.trace().take(n) =~= after.trace().drop_last());
    }
}

/// A record that stayed as it was reports no message.
pub proof fn lemma_told_none(before: ToolRun, after: ToolRun)
    requires
        after.well_formed(),
        after.id_spec() == before.id_spec(),
        after.tool_spec() == before.tool_spec(),
        after.ended_spec() == before.ended_spec(),
        after.has_result_spec() == before.has_result_spec(),
        after.trace() == before.trace(),
    ensures
        told(before, after, Seq::empty()),
{
    assert(after.trace().take(before.trace().len() as int) =~= before.trace());
}

/// A record that grew by the result event where the call had none, and
/// by nothing else, is that of a report of the payload without a message.
pub proof fn lemma_reported_none(before: ToolRun, after: ToolRun, payload: JsonView)
    requires
        after.well_formed(),
        after.id_spec() == before.id_spec(),
        after.tool_spec() == before.tool_spec(),
        after.ended_spec() == before.ended_spec(),
        before.ended_spec() || before.has_result_spec() ==> after.trace() == before.trace()
            && after.has_result_spec() == before.has_result_spec(),
        !before.ended_spec() && !before.has_result_spec() ==> after.has_result_spec()
            && after.trace().len() == before.trace().len() + 1 && after.trace().drop_last()
            == before.trace() && is_result(after.trace().last(), before.id_spec(), payload),
    ensures
        reported(before, after, Seq::empty(), payload),
{
    if !before.ended_spec() {
        let n = before.trace().len() as int;
        if before.has_result_spec() {
            assert(after.trace().take(n) =~= before.trace());
        } else {
            assert(after.trace().take(n) =~= after.trace().drop_last());
        }
    }
}

/// A record that grew by the progress event of a message, and then by
/// the result event where the call had none, is that of a report of the
/// message and the payload.
pub proof fn lemma_reported_one(
    before: ToolRun,
    said: Seq<AppEvent>,
    after: ToolRun,
    message: Seq<char>,
    payload: JsonView,
)
    requires
        !before.ended_spec() ==> said.len() == before.trace().len() + 1 && said.drop_last()
            == before.trace() && is_progress(said.last(), before.id_spec(), message),
        after.well_formed(),
        after.id_spec() == before.id_spec(),
        after.tool_spec() == before.tool_spec(),
        after.ended_spec() == before.ended_spec(),
        before.ended_spec() ==> after.trace() == before.trace() && after.has_result_spec()
            == before.has_result_spec(),
        !before.ended_spec() && before.has_result_spec() ==> after.trace() == said
            && after.has_result_spec(),
        !before.ended_spec() && !before.has_result_spec() ==> after.has_result_spec()
            && after.trace().len() == said.len() + 1 && after.trace().drop_last() == said
            && is_result(after.trace().last(), before.id_spec(), payload),
    ensures
        reported(before, after, Seq::empty().push(message), payload),
{
    if !before.ended_spec() {
        let n = before.trace().len() as int;
        let messages = Seq::empty().push(message);
        assert(after.trace().take(n) =~= before.trace()) by {
            assert forall|i: int| 0 <= i < n implies after.trace()[i] == before.trace()[i] by {
                assert(said.drop_last()[i] == said[i]);
                if !before.has_result_spec() {
                    assert(after.trace().drop_last()[i] == after.trace()[i]);
                }
            }
        }
        assert forall|i: int| 0 <= i < 1 implies is_progress(
            after.trace()[n + i],
            before.id_spec(),
            #[trigger] messages[i],
        ) by {
            if !before.has_result_spec() {
                assert(after.trace().drop_last()[n] == after.trace()[n]);
            }
        }
    }
}

/// The same for a report of two messages.
pub proof fn lemma_reported_two(
    before: ToolRun,
    first: Seq<AppEvent>,
    second: Seq<AppEvent>,
    after: ToolRun,
    messages: Seq<Seq<char>>,
    payload: JsonView,
)
    requires
        messages.len() == 2,
        !before.ended_spec() ==> first.len() == before.trace().len() + 1 && first.drop_last()
            == before.trace() && is_progress(first.last(), before.id_spec(), messages[0]),
        !before.ended_spec() ==> second.len() == first.len() + 1 && second.drop_last() == first
            && is_progress(second.last(), before.id_spec(), messages[1]),
        after.well_formed(),
        after.id_spec() == before.id_spec(),
        after.tool_spec() == before.tool_spec(),
        after.ended_spec() == before.ended_spec(),
        before.ended_spec() ==> after.trace() == before.trace() && after.has_result_spec()
            == before.has_result_spec(),
        !before.ended_spec() && before.has_result_spec() ==> after.trace() == second
            && after.has_result_spec(),
        !before.ended_spec() && !before.has_result_spec() ==> after.has_result_spec()
            && after.trace().len() == second.len() + 1 && after.trace().drop_last() == second
            && is_result(after.trace().last(), before.id_spec(), payload),
    ensures
        reported(before, after, messages, payload),
{
    if !before.ended_spec() {
        let n = before.trace().len() as int;
        assert forall|i: int| 0 <= i < n + 2 implies after.trace()[i] == second[i] by {
            if !before.has_result_spec() {
                assert(after.trace().drop_last()[i] == after.trace()[i]);
            }
        }
        assert forall|i: int| 0 <= i < n + 1 implies second[i] == first[i] by {
            assert(second.drop_last()[i] == second[i]);
        }
        assert(after.trace().take(n) =~= before.trace()) by {
            assert forall|i: int| 0 <= i < n implies after.trace()[i] == before.trace()[i] by {
                assert(first.drop_last()[i] == first[i]);
            }
        }
        assert forall|i: int| 0 <= i < 2 implies is_progress(
            after.trace()[n + i],
            before.id_spec(),
            #[trigger] messages[i],
        ) by {}
    }
}

/// The number of begin events in a trace.
pub open spec fn begins(trace: Seq<AppEvent>) -> nat
    decreases trace.len(),
{
    if trace.len() == 0 {
        0
    } else {
        begins(trace.drop_last()) + if trace.last() is ToolBegin {
            1nat
        } else {
            0nat
        }
    }
}

/// The number of end events in a trace.
pub open spec fn ends(trace: Seq<AppEvent>) -> nat
    decreases trace.len(),
{
    if trace.len() == 0 {
        0
    } else {
        ends(trace.drop_last()) + if trace.last() is ToolEnd {
            1nat
        } else {
            0nat
        }
    }
}

/// The number of result events in a trace.
pub open spec fn results(trace: Seq<AppEvent>) -> nat
    decreases trace.len(),
{
    if trace.len() == 0 {
        0
    } else {
        results(trace.drop_last()) + if trace.last() is ToolResult {
            1nat
        } else {
            0nat
        }
    }
}

/// The life of one tool call: it records what has been emitted for the
/// call and hands out only events that keep the life well formed.
pub struct ToolRun {
    id: String,
    tool: ToolName,
    has_result: bool,
    ended: bool,
    trace: Ghost<Seq<AppEvent>>,
}

impl ToolRun {
    /// The events recorded for the call form a well-formed life.
    pub closed spec fn well_formed(&self) -> bool {
        lifecycle(self.trace@, self.id@, self.has_result, self.ended)
    }

    /// The events emitted for the call so far, in order.
    pub closed spec fn trace(&self) -> Seq<AppEvent> {
        self.trace@
    }

    /// The id of the call.
    pub closed spec fn id_spec(&self) -> Seq<char> {
        self.id@
    }

    /// Whether the end event has been emitted.
    pub closed spec fn ended_spec(&self) -> bool {
        self.ended
    }

    /// Whether the result event has been emitted.
    pub closed spec fn has_result_spec(&self) -> bool {
        self.has_result
    }

    /// The tool that is called.
    pub closed spec fn tool_spec(&self) -> ToolName {
        self.tool
    }

    /// What being well formed means, in terms of what a run shows.
    pub proof fn law_well_formed_life(&self)
        requires
            self.well_formed(),
        ensures
            lifecycle(self.trace(), self.id_spec(), self.has_result_spec(), self.ended_spec()),
    {
    }

    /// Starts the life of a call: the begin event is its first event.
    pub fn begin(id: &str, tool: ToolName, summary: String, args: Option<Json>) -> (r: (
        ToolRun,
        AppEvent,
    ))
        ensures
            r.0.well_formed(),
            r.0.trace() == Seq::<AppEvent>::empty().push(r.1),
            r.0.id_spec() == id@,
            r.0.tool_spec() == tool,
            !r.0.ended_spec(),
            !r.0.has_result_spec(),
            r.1 matches AppEvent::ToolBegin { id: i, tool: t, summary: s, args: a } && i@ == id@
                && t == tool && s == summary && a == args,
    {
        let event = AppEvent::ToolBegin { id: String::from_str(id), tool, summary, args };
        let run = ToolRun {
            id: String::from_str(id),
            tool,
            has_result: false,
            ended: false,
            trace: Ghost(Seq::empty().push(event)),
        };
        (run, event)
    }

    /// The id of the call.
    pub fn id(&self) -> (s: &str)
        ensures
            s@ == self.id_spec(),
    {
        self.id.as_str()
    }

    /// The tool that is called.
    pub fn tool(&self) -> (t: ToolName)
        ensures
            t == self.tool_spec(),
    {
        self.tool
    }

    /// Whether the end event has been emitted.
    pub fn is_ended(&self) -> (b: bool)
        ensures
            b == self.ended_spec(),
    {
        self.ended
    }

    /// Whether the result event has been emitted.
    pub fn has_result(&self) -> (b: bool)
        ensures
            b == self.has_result_spec(),
    {
        self.has_result
    }

    fn record_stream(&mut self, event: &AppEvent)
        requires
            !old(self).ended,
            event.is_stream(),
            event.tool_id() == Some(old(self).id@),
            old(self).well_formed(),
        ensures
            final(self).well_formed(),
            final(self).trace@ == old(self).trace@.push(*event),
            final(self).id == old(self).id,
            final(self).tool == old(self).tool,
            final(self).ended == old(self).ended,
            final(self).has_result == old(self).has_result,
    {
        let ghost before = self.trace@;
        proof {
            self.trace = Ghost(before.push(*event));
        }
        proof {
            let after = self.trace@;
            assert forall|i: int| 0 <= i < after.len() implies (#[trigger] after[i]).tool_id()
                == Some(self.id@) by {
                if i < before.len() {
                    assert(after[i] == before[i]);
                }
            }
            assert forall|i: int| 1 <= i < after.len() implies (#[trigger] after[i]).is_stream()
                || after[i] is ToolResult by {
                if i < before.len() {
                    assert(after[i] == before[i]);
                }
            }
            if self.has_result {
                let w = choose|i: int| 1 <= i < before.len() && (#[trigger] before[i]) is ToolResult;
                assert(after[w] is ToolResult);
            }
            if exists|i: int| 1 <= i < after.len() && (#[trigger] after[i]) is ToolResult {
                let w = choose|i: int| 1 <= i < after.len() && (#[trigger] after[i]) is ToolResult;
                assert(before[w] is ToolResult);
            }
            assert forall|i: int, j: int|
                1 <= i < after.len() && 1 <= j < after.len() && (#[trigger] after[i]) is ToolResult
                    && (#[trigger] after[j]) is ToolResult implies i == j by {
                assert(before[i] is ToolResult);
                assert(before[j] is ToolResult);
            }
        }
    }

    /// The progress event for the call; none once the call has ended.
    pub fn progress(&mut self, message: String) -> (r: Option<AppEvent>)
        requires
            old(self).well_formed(),
        ensures
            final(self).well_formed(),
            final(self).id_spec() == old(self).id_spec(),
            final(self).tool_spec() == old(self).tool_spec(),
            final(self).ended_spec() == old(self).ended_spec(),
            final(self).has_result_spec() == old(self).has_result_spec(),
            match r {
                Some(ev) => {
                    &&& !old(self).ended_spec()
                    &&& final(self).trace() == old(self).trace().push(ev)
                    &&& ev matches AppEvent::ToolProgress { id, message: m } && id@ == old(self).id_spec() && m == message
                },
                None => old(self).ended_spec() && final(self).trace() == old(self).trace(),
            },
    {
        if self.ended {
            return None;
        }
        let event = AppEvent::ToolProgress { id: self.id.clone(), message };
        self.record_stream(&event);
        Some(event)
    }

    /// The event for a chunk of standard output; none once the call has
    /// ended.
    pub fn stdout(&mut self, chunk: String) -> (r: Option<AppEvent>)
        requires
            old(self).well_formed(),
        ensures
            final(self).well_formed(),
            final(self).id_spec() == old(self).id_spec(),
            final(self).tool_spec() == old(self).tool_spec(),
            final(self).ended_spec() == old(self).ended_spec(),
            final(self).has_result_spec() == old(self).has_result_spec(),
            match r {
                Some(ev) => {
                    &&& !old(self).ended_spec()
                    &&& final(self).trace() == old(self).trace().push(ev)
                    &&& ev matches AppEvent::ToolStdout { id, chunk: c } && id@ == old(self).id_spec() && c == chunk
                },
                None => old(self).ended_spec() && final(self).trace() == old(self).trace(),
            },
    {
        if self.ended {
            return None;
        }
        let event = AppEvent::ToolStdout { id: self.id.clone(), chunk };
        self.record_stream(&event);
        Some(event)
    }

    /// The event for a chunk of standard error; none once the call has
    /// ended.
    pub fn stderr(&mut self, chunk: String) -> (r: Option<AppEvent>)
        requires
            old(self).well_formed(),
        ensures
            final(self).well_formed(),
            final(self).id_spec() == old(self).id_spec(),
            final(self).tool_spec() == old(self).tool_spec(),
            final(self).ended_spec() == old(self).ended_spec(),
            final(self).has_result_spec() == old(self).has_result_spec(),
            match r {
                Some(ev) => {
                    &&& !old(self).ended_spec()
                    &&& final(self).trace() == old(self).trace().push(ev)
                    &&& ev matches AppEvent::ToolStderr { id, chunk: c } && id@ == old(self).id_spec() && c == chunk
                },
                None => old(self).ended_spec() && final(self).trace() == old(self).trace(),
            },
    {
        if self.ended {
            return None;
        }
        let event = AppEvent::ToolStderr { id: self.id.clone(), chunk };
        self.record_stream(&event);
        Some(event)
    }

    /// The result event of the call; none once the call has ended or has a
    /// result already.
    pub fn result(&mut self, payload: Json) -> (r: Option<AppEvent>)
        requires
            old(self).well_formed(),
        ensures
            final(self).well_formed(),
            final(self).id_spec() == old(self).id_spec(),
            final(self).tool_spec() == old(self).tool_spec(),
            final(self).ended_spec() == old(self).ended_spec(),
            match r {
                Some(ev) => {
                    &&& !old(self).ended_spec()
                    &&& !old(self).has_result_spec()
                    &&& final(self).has_result_spec()
                    &&& final(self).trace() == old(self).trace().push(ev)
                    &&& ev matches AppEvent::ToolResult { id, payload: p } && id@ == old(self).id_spec() && p == payload
                },
                None => (old(self).ended_spec() || old(self).has_result_spec()) && final(self).trace() == old(self).trace() && final(self).has_result_spec() == old(self).has_result_spec(),
            },
    {
        if self.ended || self.has_result {
            return None;
        }
        let event = AppEvent::ToolResult { id: self.id.clone(), payload };
        let ghost before = self.trace@;
        proof {
            self.trace = Ghost(before.push(event));
        }
        self.has_result = true;
        proof {
            let after = self.trace@;
            assert forall|i: int| 0 <= i < after.len() implies (#[trigger] after[i]).tool_id()
                == Some(self.id@) by {
                if i < before.len() {
                    assert(after[i] == before[i]);
                }
            }
            assert forall|i: int| 1 <= i < after.len() implies (#[trigger] after[i]).is_stream()
                || after[i] is ToolResult by {
                if i < before.len() {
                    assert(after[i] == before[i]);
                }
            }
            assert(after[before.len() as int] is ToolResult);
            assert forall|i: int, j: int|
                1 <= i < after.len() && 1 <= j < after.len() && (#[trigger] after[i]) is ToolResult
                    && (#[trigger] after[j]) is ToolResult implies i == j by {
                if i < before.len() {
                    assert(before[i] is ToolResult);
                }
                if j < before.len() {
                    assert(before[j] is ToolResult);
                }
            }
        }
        Some(event)
    }

    /// The end event of the call; none where the call has ended already.
    pub fn end(&mut self, ok: bool, duration_ms: u64) -> (r: Option<AppEvent>)
        requires
            old(self).well_formed(),
        ensures
            final(self).well_formed(),
            final(self).id_spec() == old(self).id_spec(),
            final(self).tool_spec() == old(self).tool_spec(),
            final(self).ended_spec(),
            final(self).has_result_spec() == old(self).has_result_spec(),
            match r {
                Some(ev) => {
                    &&& !old(self).ended_spec()
                    &&& final(self).trace() == old(self).trace().push(ev)
                    &&& ev matches AppEvent::ToolEnd { id, ok: o, duration_ms: d } && id@ == old(self).id_spec() && o == ok && d == duration_ms
                },
                None => old(self).ended_spec() && final(self).trace() == old(self).trace(),
            },
    {
        if self.ended {
            return None;
        }
        let event = AppEvent::ToolEnd { id: self.id.clone(), ok, duration_ms };
        let ghost before = self.trace@;
        proof {
            self.trace = Ghost(before.push(event));
        }
        self.ended = true;
        proof {
            let after = self.trace@;
            assert forall|i: int| 0 <= i < after.len() implies (#[trigger] after[i]).tool_id()
                == Some(self.id@) by {
                if i < before.len() {
                    assert(after[i] == before[i]);
                }
            }
            assert forall|i: int| 1 <= i < after.len() - 1 implies (
            #[trigger] after[i]).is_stream() || after[i] is ToolResult by {
                assert(after[i] == before[i]);
            }
            if self.has_result {
                let w = choose|i: int| 1 <= i < before.len() && (#[trigger] before[i]) is ToolResult;
                assert(after[w] is ToolResult);
            }
            if exists|i: int| 1 <= i < after.len() - 1 && (#[trigger] after[i]) is ToolResult {
                let w = choose|i: int|
                    1 <= i < after.len() - 1 && (#[trigger] after[i]) is ToolResult;
                assert(before[w] is ToolResult);
            }
            assert forall|i: int, j: int|
                1 <= i < after.len() - 1 && 1 <= j < after.len() - 1 && (
                #[trigger] after[i]) is ToolResult && (#[trigger] after[j]) is ToolResult implies i
                == j by {
                assert(before[i] is ToolResult);
                assert(before[j] is ToolResult);
            }
        }
        Some(event)
    }
}

/// Counting skips events that are none of the counted kind.
proof fn lemma_counts_of_body(trace: Seq<AppEvent>, n: int)
    requires
        1 <= n <= trace.len(),
        trace[0] is ToolBegin,
        forall|i: int| 1 <= i < n ==> (#[trigger] trace[i]).is_stream() || trace[i] is ToolResult,
        forall|i: int, j: int|
            1 <= i < n && 1 <= j < n && (#[trigger] trace[i]) is ToolResult && (
            #[trigger] trace[j]) is ToolResult ==> i == j,
    ensures
        begins(trace.take(n)) == 1,
        ends(trace.take(n)) == 0,
        results(trace.take(n)) <= 1,
        results(trace.take(n)) == 1 <==> exists|i: int|
            1 <= i < n && (#[trigger] trace[i]) is ToolResult,
    decreases n,
{
    let t = trace.take(n);
    assert(t.last() == trace[n - 1]);
    assert(t.drop_last() == trace.take(n - 1));
    if n == 1 {
        assert(t.drop_last().len() == 0);
        assert(begins(t.drop_last()) == 0);
        assert(ends(t.drop_last()) == 0);
        assert(results(t.drop_last()) == 0);
    } else {
        lemma_counts_of_body(trace, n - 1);
        if trace[n - 1] is ToolResult {
            if exists|i: int| 1 <= i < n - 1 && (#[trigger] trace[i]) is ToolResult {
                let w = choose|i: int| 1 <= i < n - 1 && (#[trigger] trace[i]) is ToolResult;
                assert(w == n - 1);
            }
        } else {
            if exists|i: int| 1 <= i < n && (#[trigger] trace[i]) is ToolResult {
                let w = choose|i: int| 1 <= i < n && (#[trigger] trace[i]) is ToolResult;
                assert(w < n - 1);
            }
        }
    }
}

/// The life of a tool call: among the events of a call that has ended
/// there is exactly one begin event, the first, and exactly one end event,
/// the last; what lies between them is progress, output and at most one
/// result.
pub proof fn law_lifecycle(trace: Seq<AppEvent>, id: Seq<char>, has_result: bool)
    requires
        lifecycle(trace, id, has_result, true),
    ensures
        begins(trace) == 1,
        ends(trace) == 1,
        results(trace) <= 1,
        results(trace) == 1 <==> has_result,
        trace[0] is ToolBegin,
        trace.last() is ToolEnd,
        forall|i: int|
            1 <= i < trace.len() - 1 ==> (#[trigger] trace[i]).is_stream() || trace[i] is ToolResult,
        forall|i: int| 0 <= i < trace.len() ==> (#[trigger] trace[i]).tool_id() == Some(id),
{
    let n = trace.len() - 1;
    lemma_counts_of_body(trace, n);
    assert(trace.drop_last() == trace.take(n));
}

/// The life of a dispatched call from its three steps. `begun` is the run
/// as `begin` hands it out; `done` is the run after the executor of the
/// tool, which has a result where the executor succeeded; `ended` is the
/// run as `finish` leaves it, closed by the end event that tells of the
/// success. Then the events of the call hold exactly one begin event, the
/// first, exactly one end event, the last, which says `ok`, and at most
/// one result event, between the two; and a call that succeeded has
/// exactly one.
pub proof fn law_ok_call_has_one_result(begun: ToolRun, done: ToolRun, ended: ToolRun, ok: bool)
    requires
        begun.well_formed(),
        !begun.ended_spec(),
        done.well_formed(),
        done.id_spec() == begun.id_spec(),
        done.ended_spec() == begun.ended_spec(),
        ok ==> done.has_result_spec(),
        ended.well_formed(),
        ended.ended_spec(),
        ended.id_spec() == done.id_spec(),
        ended.has_result_spec() == done.has_result_spec(),
        ended.trace().len() == done.trace().len() + 1,
        ended.trace().drop_last() == done.trace(),
        ended.trace().last() matches AppEvent::ToolEnd { ok: o, .. } && o == ok,
    ensures
        begins(ended.trace()) == 1,
        ends(ended.trace()) == 1,
        results(ended.trace()) <= 1,
        ok ==> results(ended.trace()) == 1,
        ended.trace()[0] is ToolBegin,
        ended.trace().last() matches AppEvent::ToolEnd { ok: o, .. } && o == ok,
        forall|i: int|
            1 <= i < ended.trace().len() - 1 ==> (#[trigger] ended.trace()[i]).is_stream()
                || ended.trace()[i] is ToolResult,
        forall|i: int|
            0 <= i < ended.trace().len() ==> (#[trigger] ended.trace()[i]).tool_id() == Some(
                begun.id_spec(),
            ),
{
    ended.law_well_formed_life();
    law_lifecycle(ended.trace(), ended.id_spec(), ended.has_result_spec());
}

// ---------------------------------------------------------------------------
// The dispatcher
// ---------------------------------------------------------------------------

/// Dispatches tool calls: it opens and closes the life of each call on the
/// event bus and bounds the size of what the agent receives.
pub struct ToolExecutor {
    event_sender: EventSender,
    max_output_size: usize,
}

impl ToolExecutor {
    /// A dispatcher that emits on the given bus and allows results of up
    /// to 1 MiB.
    pub fn new(event_sender: EventSender) -> (r: Self)
        ensures
            r.max_output_size_spec() == DEFAULT_MAX_OUTPUT_SIZE,
    {
        Self { event_sender, max_output_size: DEFAULT_MAX_OUTPUT_SIZE }
    }

    /// The same dispatcher with another bound on the size of results.
    pub fn with_max_output_size(self, max_output_size: usize) -> (r: Self)
        ensures
            r.max_output_size_spec() == max_output_size,
    {
        Self { event_sender: self.event_sender, max_output_size }
    }

    /// The bound on the size of results, in bytes.
    pub closed spec fn max_output_size_spec(&self) -> usize {
        self.max_output_size
    }

    /// The bound on the size of results, in bytes.
    pub fn max_output_size(&self) -> (n: usize)
        ensures
            n == self.max_output_size_spec(),
    {
        self.max_output_size
    }

    /// Another handle on the bus of the dispatcher.
    pub fn sender(&self) -> EventSender {
        self.event_sender.duplicate()
    }

    /// The one-line description of a call.
    pub fn get_tool_summary(&self, tool: &ToolName, args: &Json) -> (s: String)
        ensures
            s@ == tool_summary(*tool, args@),
    {
        match tool {
            ToolName::FsRead => match FsReadArgs::from_json(args) {
                Ok(a) => concat2("Reading file: ", a.path.as_str()),
                Err(_) => String::from_str("Reading file"),
            },
            ToolName::FsSearch => match FsSearchArgs::from_json(args) {
                Ok(a) => concat2("Searching for: ", a.query.as_str()),
                Err(_) => String::from_str("Searching files"),
            },
            ToolName::FsWrite => match FsWriteArgs::from_json(args) {
                Ok(a) => concat2("Writing to file: ", a.path.as_str()),
                Err(_) => String::from_str("Writing file"),
            },
            ToolName::FsApplyPatch => String::from_str("Applying patch"),
            ToolName::FsFind => match FsFindArgs::from_json(args) {
                Ok(a) => concat2("Finding files matching: ", a.pattern.as_str()),
                Err(_) => String::from_str("Finding files"),
            },
            ToolName::ShellExec => match ShellExecArgs::from_json(args) {
                Ok(a) => {
                    let joined = join(&a.command, " ");
                    concat2("Executing: ", joined.as_str())
                },
                Err(_) => String::from_str("Executing command"),
            },
            ToolName::CodeSymbols => match CodeSymbolsArgs::from_json(args) {
                Ok(a) => concat2("Analyzing symbols in: ", a.path.as_str()),
                Err(_) => String::from_str("Analyzing symbols"),
            },
            ToolName::LargeContextFetch => String::from_str("Fetching relevant context"),
        }
    }

    /// Puts an event on the bus, if there is one. A closed bus is no
    /// failure: the consumer is gone.
    pub fn emit(&self, event: Option<AppEvent>) {
        match event {
            Some(ev) => {
                let _ = self.event_sender.send(ev);
            },
            None => {},
        }
    }

    /// Opens the life of a call: derives the summary, emits the begin
    /// event with the id, the tool, the summary and the arguments.
    pub fn begin(&self, id: &str, tool: ToolName, args: &Json) -> (run: ToolRun)
        ensures
            run.well_formed(),
            run.id_spec() == id@,
            run.tool_spec() == tool,
            !run.ended_spec(),
            !run.has_result_spec(),
            run.trace().len() == 1,
            run.trace()[0] matches AppEvent::ToolBegin { id: i, tool: t, summary: s, args: a }
                && i@ == id@ && t == tool && s@ == tool_summary(tool, args@) && (a matches Some(j)
                && j@ == args@),
    {
        let summary = self.get_tool_summary(&tool, args);
        let (run, event) = ToolRun::begin(id, tool, summary, Some(args.deep_clone()));
        self.emit(Some(event));
        run
    }

    /// Emits the result event with the full payload and hands back what
    /// the agent gets: the payload, bounded in size. Where the call has
    /// ended or has a result already nothing is emitted.
    pub fn complete(&self, run: &mut ToolRun, payload: Json) -> (out: Json)
        requires
            old(run).well_formed(),
        ensures
            final(run).well_formed(),
            out@ == truncated(payload@, self.max_output_size_spec() as nat),
            final(run).id_spec() == old(run).id_spec(),
            final(run).tool_spec() == old(run).tool_spec(),
            final(run).ended_spec() == old(run).ended_spec(),
            if old(run).ended_spec() || old(run).has_result_spec() {
                final(run).trace() == old(run).trace() && final(run).has_result_spec() == old(run).has_result_spec()
            } else {
                &&& final(run).has_result_spec()
                &&& final(run).trace().len() == old(run).trace().len() + 1
                &&& final(run).trace().drop_last() == old(run).trace()
                &&& final(run).trace().last() matches AppEvent::ToolResult { id, payload: p }
                    && id@ == old(run).id_spec() && p@ == payload@
            },
    {
        let shown = payload.deep_clone();
        let event = run.result(shown);
        proof {
            if event is Some {
                assert(run.trace().drop_last() == old(run).trace());
            }
        }
        self.emit(event);
        truncate_result(payload, self.max_output_size)
    }

    /// Closes the life of a call: emits the end event, which says whether
    /// the call succeeded and how long it took, and hands the outcome back
    /// as it is. An error of the tool is not raised again.
    pub fn finish(&self, run: &mut ToolRun, outcome: Result<Json, String>, duration_ms: u64) -> (r:
        Result<Json, String>)
        requires
            old(run).well_formed(),
        ensures
            final(run).well_formed(),
            r == outcome,
            final(run).ended_spec(),
            final(run).id_spec() == old(run).id_spec(),
            final(run).has_result_spec() == old(run).has_result_spec(),
            if old(run).ended_spec() {
                final(run).trace() == old(run).trace()
            } else {
                &&& final(run).trace().len() == old(run).trace().len() + 1
                &&& final(run).trace().drop_last() == old(run).trace()
                &&& final(run).trace().last() matches AppEvent::ToolEnd { id, ok, duration_ms: d }
                    && id@ == old(run).id_spec() && ok == (outcome is Ok) && d == duration_ms
            },
    {
        let event = run.end(outcome.is_ok(), duration_ms);
        proof {
            if event is Some {
                assert(run.trace().drop_last() == old(run).trace());
            }
        }
        self.emit(event);
        outcome
    }
}

} // verus!
