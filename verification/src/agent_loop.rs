//! The conversation state machine of an agent.
//!
//! An [`AgentLoop`] owns the history of a conversation and everything that
//! its turns change. It does no work outside itself: [`AgentLoop::step`]
//! takes what has just happened, the event, moves to the next state and
//! says what is to be done next, the action. Whoever drives the loop
//! carries the action out and comes back with the event that it led to.

use vstd::prelude::*;
use crate::args::ArgValue;
use crate::changes::{normalized, ChangeLedger, FileChange, FileOperation};
use crate::conversation::{
    calls_view, display_args, display_value_spec, history_view, prompt_text, prompt_text_spec,
    results_view, CompletionOutcome, Message, MessageView, ToolCall, ToolCallView, ToolResult,
    ToolResultView,
};
use crate::danger::{
    dangerous_command_spec, dangerous_path_spec, is_dangerous_command, is_dangerous_path,
};
use crate::dispatch::{
    depth_exceeded_text, dispatch_fault, dispatch_tool, dispatched, ToolInvocation, MAX_DEPTH,
};
use crate::error::{ToolError, ToolErrorView};
use crate::ids::fresh_id;
use crate::names::NameMap;
use crate::permissions::GrantedPermissions;
use crate::text::{
    chars_of, decimal_spec, extend_str, joined, lowercase_of, push_decimal, str_eq, string_of,
    truncate_spec, truncate_string,
};
use crate::tool_args::{opt_view, SpawnAgentArgs};
use crate::usage::TokenUsage;

verus! {

/// The number of iterations that a turn of the main agent may take where
/// nothing else is set.
pub const DEFAULT_MAX_ITERATIONS: usize = 100;

/// The number of pieces of code that a turn asks the retrieval for.
pub const RETRIEVAL_LIMIT: usize = 3;

/// The number of iterations that a turn of a sub-agent may take where
/// nothing else is set.
pub const DEFAULT_SUBAGENT_MAX_ITERATIONS: usize = 100;

/// The seconds that a sub-agent is given where its call sets no time.
pub const DEFAULT_DELEGATION_TIMEOUT_SECS: u64 = 300;

/// What the user decided on a request to run a tool.
#[derive(Debug, Clone, Copy, PartialEq, Eq, Structural)]
pub enum PermissionDecision {
    ApproveOnce,
    ApproveAll,
    Reject,
}

/// Where a loop stands.
#[derive(Debug, Clone, Copy, PartialEq, Eq, Structural)]
pub enum Phase {
    /// Between turns.
    Idle,
    /// Waiting for what the retrieval found.
    Enriching,
    /// At the top of an iteration, waiting to hear whether the turn was
    /// cancelled.
    CheckingCancel,
    /// Waiting for the model.
    AwaitingCompletion,
    /// About to look at the next tool call.
    Gating,
    /// Waiting for the user's decision on a tool call.
    AwaitingDecision,
    /// Waiting for the user to confirm a dangerous operation.
    AwaitingConfirm,
    /// Waiting for a tool to finish.
    AwaitingTool,
}

/// Why a turn ended without an answer.
#[derive(Debug)]
pub enum TurnError {
    Cancelled,
    IterationLimitExceeded(usize),
    CompletionFailed { streamed: bool, detail: String },
    EmptyResponse,
    PermissionDenied(String),
    RejectedByUser,
    DangerousCommandRejected,
    DangerousWriteRejected,
}

/// The end of a turn without an answer, over character sequences.
pub enum TurnErrorView {
    Cancelled,
    IterationLimitExceeded(usize),
    CompletionFailed { streamed: bool, detail: Seq<char> },
    EmptyResponse,
    PermissionDenied(Seq<char>),
    RejectedByUser,
    DangerousCommandRejected,
    DangerousWriteRejected,
}

impl View for TurnError {
    type V = TurnErrorView;

    open spec fn view(&self) -> TurnErrorView {
        match self {
            TurnError::Cancelled => TurnErrorView::Cancelled,
            TurnError::IterationLimitExceeded(n) => TurnErrorView::IterationLimitExceeded(*n),
            TurnError::CompletionFailed { streamed, detail } => TurnErrorView::CompletionFailed {
                streamed: *streamed,
                detail: detail@,
            },
            TurnError::EmptyResponse => TurnErrorView::EmptyResponse,
            TurnError::PermissionDenied(t) => TurnErrorView::PermissionDenied(t@),
            TurnError::RejectedByUser => TurnErrorView::RejectedByUser,
            TurnError::DangerousCommandRejected => TurnErrorView::DangerousCommandRejected,
            TurnError::DangerousWriteRejected => TurnErrorView::DangerousWriteRejected,
        }
    }
}

impl TurnErrorView {
    /// The text that describes the end of the turn.
    pub open spec fn message(self) -> Seq<char> {
        match self {
            TurnErrorView::Cancelled => "Agent execution cancelled by user interrupt"@,
            TurnErrorView::IterationLimitExceeded(n) => "Maximum iterations ("@ + decimal_spec(
                n as nat,
            ) + ") exceeded. The agent may be stuck in a loop."@,
            TurnErrorView::CompletionFailed { streamed, detail } => (if streamed {
                "Streaming request failed: "@
            } else {
                "Completion request failed: "@
            }) + detail,
            TurnErrorView::EmptyResponse => "Unexpected response: no text or tool calls"@,
            TurnErrorView::PermissionDenied(tool) => "Permission denied: tool '"@ + tool
                + "' not granted. Use --grant "@ + tool + " or --grant-all"@,
            TurnErrorView::RejectedByUser =>
                "Operation cancelled by user. Please provide new instructions."@,
            TurnErrorView::DangerousCommandRejected =>
                "Dangerous command rejected by user. Please provide new instructions."@,
            TurnErrorView::DangerousWriteRejected =>
                "Dangerous write operation rejected by user. Please provide new instructions."@,
        }
    }
}

impl TurnError {
    /// The text that describes the end of the turn.
    pub fn message(&self) -> (r: String)
        ensures
            r@ == self@.message(),
    {
        match self {
            TurnError::Cancelled => "Agent execution cancelled by user interrupt".to_owned(),
            TurnError::IterationLimitExceeded(n) => {
                let mut out = chars_of("Maximum iterations (");
                push_decimal(&mut out, *n as u64);
                extend_str(&mut out, ") exceeded. The agent may be stuck in a loop.");
                string_of(&out)
            },
            TurnError::CompletionFailed { streamed, detail } => {
                if *streamed {
                    joined("Streaming request failed: ", detail.as_str())
                } else {
                    joined("Completion request failed: ", detail.as_str())
                }
            },
            TurnError::EmptyResponse => "Unexpected response: no text or tool calls".to_owned(),
            TurnError::PermissionDenied(tool) => {
                let mut out = chars_of("Permission denied: tool '");
                extend_str(&mut out, tool.as_str());
                extend_str(&mut out, "' not granted. Use --grant ");
                extend_str(&mut out, tool.as_str());
                extend_str(&mut out, " or --grant-all");
                string_of(&out)
            },
            TurnError::RejectedByUser =>
                "Operation cancelled by user. Please provide new instructions.".to_owned(),
            TurnError::DangerousCommandRejected =>
                "Dangerous command rejected by user. Please provide new instructions.".to_owned(),
            TurnError::DangerousWriteRejected =>
                "Dangerous write operation rejected by user. Please provide new instructions.".to_owned(),
        }
    }
}

/// A piece of code that the retrieval found.
#[derive(Debug, Clone)]
pub struct CodeChunk {
    pub file_path: String,
    pub start_line: usize,
    pub end_line: usize,
    pub content: String,
    pub language: String,
}

/// A piece of code with how close it came to the query, as the text that
/// is shown for the score.
#[derive(Debug, Clone)]
pub struct RetrievedChunk {
    pub chunk: CodeChunk,
    pub score: String,
}

/// The block that shows the piece of code at index `index`.
pub open spec fn context_entry(index: nat, c: RetrievedChunk) -> Seq<char> {
    "\n--- Context "@ + decimal_spec(index + 1) + " (similarity: "@ + c.score@ + ") ---\nFile: "@
        + c.chunk.file_path@ + ":"@ + decimal_spec(c.chunk.start_line as nat) + "-"@
        + decimal_spec(c.chunk.end_line as nat) + "\nLanguage: "@ + c.chunk.language@
        + "\n```\n"@ + c.chunk.content@ + "\n```\n"@
}

/// The blocks of the pieces of code, one after the other.
pub open spec fn context_entries(chunks: Seq<RetrievedChunk>) -> Seq<char>
    decreases chunks.len(),
{
    if chunks.len() == 0 {
        Seq::empty()
    } else {
        context_entries(chunks.drop_last()) + context_entry(
            (chunks.len() - 1) as nat,
            chunks.last(),
        )
    }
}

/// The instruction as the model gets it where the retrieval found
/// something: the instruction, a heading, and the pieces of code.
pub open spec fn enriched_spec(input: Seq<char>, retrieved: Option<Seq<RetrievedChunk>>) -> Option<
    Seq<char>,
> {
    match retrieved {
        Some(chunks) => if chunks.len() > 0 {
            Some(
                input + "\n\n[Relevant code context from vector database]:\n"@ + context_entries(
                    chunks,
                ),
            )
        } else {
            None
        },
        None => None,
    }
}

/// The block that shows the piece of code at index `index`.
fn context_entry_text(index: usize, c: &RetrievedChunk) -> (e: Vec<char>)
    requires
        index < usize::MAX,
    ensures
        e@ == context_entry(index as nat, *c),
{
    let mut e = chars_of("\n--- Context ");
    push_decimal(&mut e, (index + 1) as u64);
    extend_str(&mut e, " (similarity: ");
    extend_str(&mut e, c.score.as_str());
    extend_str(&mut e, ") ---\nFile: ");
    extend_str(&mut e, c.chunk.file_path.as_str());
    extend_str(&mut e, ":");
    push_decimal(&mut e, c.chunk.start_line as u64);
    extend_str(&mut e, "-");
    push_decimal(&mut e, c.chunk.end_line as u64);
    extend_str(&mut e, "\nLanguage: ");
    extend_str(&mut e, c.chunk.language.as_str());
    extend_str(&mut e, "\n```\n");
    extend_str(&mut e, c.chunk.content.as_str());
    extend_str(&mut e, "\n```\n");
    e
}

/// The instruction with what the retrieval found, where it found anything.
pub fn enrich(input: &str, retrieved: &Option<Vec<RetrievedChunk>>) -> (r: Option<String>)
    ensures
        opt_view(r) == enriched_spec(
            input@,
            match *retrieved {
                Some(v) => Some(v@),
                None => None,
            },
        ),
{
    match retrieved {
        Some(chunks) => {
            if chunks.len() == 0 {
                return None;
            }
            let mut entries: Vec<char> = Vec::new();
            let mut i: usize = 0;
            assert(chunks@.take(0) =~= Seq::<RetrievedChunk>::empty());
            while i < chunks.len()
                invariant
                    i <= chunks@.len(),
                    entries@ == context_entries(chunks@.take(i as int)),
                decreases chunks@.len() - i,
            {
                let e = context_entry_text(i, &chunks[i]);
                crate::text::extend_chars(&mut entries, &e);
                assert(chunks@.take(i + 1).drop_last() == chunks@.take(i as int));
                assert(chunks@.take(i + 1).last() == chunks@[i as int]);
                i += 1;
            }
            assert(chunks@.take(chunks@.len() as int) == chunks@);
            let mut out = chars_of(input);
            extend_str(&mut out, "\n\n[Relevant code context from vector database]:\n");
            crate::text::extend_chars(&mut out, &entries);
            Some(string_of(&out))
        },
        None => None,
    }
}

/// What has just happened.
#[derive(Debug)]
pub enum LoopEvent {
    /// The user gave an instruction.
    Start { input: String },
    /// The retrieval answered; nothing stands for a retrieval that failed.
    Retrieved(Option<Vec<RetrievedChunk>>),
    /// Whether the turn was cancelled.
    CancelState(bool),
    /// The model answered, or the request failed with the given text.
    Completion(Result<CompletionOutcome, String>),
    /// Nothing happened: the last action asked for nothing.
    Proceed,
    /// The user decided on a tool call; nothing stands for a request that
    /// got no answer.
    Decision(Option<PermissionDecision>),
    /// The user confirmed a dangerous operation or did not; nothing stands
    /// for an answer that could not be read.
    Confirmed(Option<bool>),
    /// The tool finished with `result`. `created` says whether the call
    /// made a file that was not there before; it is false for a call that
    /// wrote no file or wrote over one.
    ToolFinished { result: Result<String, ToolError>, created: bool },
}

/// What is to be done next.
#[derive(Debug)]
pub enum LoopAction {
    /// Ask the retrieval for the best `limit` pieces of code that go with
    /// the instruction.
    Retrieve { query: String, limit: usize },
    /// Find out whether the turn was cancelled.
    CheckCancel,
    /// Ask the model for a completion of the history. Where
    /// `enriched_input` holds a text, it stands in for the instruction of
    /// this turn in the request.
    RequestCompletion { iteration: usize, enriched_input: Option<String> },
    /// Nothing: come back with [`LoopEvent::Proceed`].
    Proceed,
    /// Ask the user whether the tool may run; `args` shows the payload of
    /// the call, which [`AgentLoop::current_call`] gives whole.
    AskPermission { tool: String, args: Vec<(String, String)> },
    /// Ask the user to confirm a dangerous operation.
    Confirm { message: String },
    /// Carry the call out.
    RunTool(ToolInvocation),
    /// The turn is over.
    Finish(Result<String, TurnError>),
    /// The event is none that the loop waits for; nothing changed.
    Unexpected,
}

/// The state of a loop over mathematical values.
#[verifier::ext_equal]
pub struct LoopView {
    pub preamble: Seq<char>,
    pub confirm_dangerous: bool,
    pub streaming: bool,
    pub working_directory: Seq<char>,
    pub interactive: bool,
    pub context_size: usize,
    pub retrieval: bool,
    pub memory: bool,
    pub session_id: Option<Seq<char>>,
    pub depth: usize,
    pub max_iterations: usize,
    pub agent_id: Seq<char>,
    pub model_name: Seq<char>,
    pub grants_all: bool,
    pub skip_confirmations: bool,
    pub dry_run: bool,
    pub granted: Set<Seq<char>>,
    pub history: Seq<MessageView>,
    pub usage: TokenUsage,
    pub changes: Map<Seq<char>, (FileOperation, u64)>,
    pub approved: Set<Seq<char>>,
    pub iteration_count: usize,
    pub phase: Phase,
    pub iterations: usize,
    pub turn_start: usize,
    pub cursor: usize,
    pub results: Seq<ToolResultView>,
    pub pending_input: Seq<char>,
    pub enriched: Option<Seq<char>>,
}

/// A request to call tools and the message that answers it: one result
/// for each call, in the order of the calls.
pub open spec fn is_exchange(request: MessageView, answer: MessageView) -> bool {
    &&& request matches MessageView::AssistantToolCalls { calls, .. }
    &&& answer matches MessageView::ToolResults(results)
    &&& calls.len() > 0
    &&& results.len() == calls.len()
    &&& forall|j: int| 0 <= j < calls.len() ==> (#[trigger] results[j]).call_id == calls[j].id
}

/// The messages of a turn that waits for the model: the instruction, and
/// after it requests to call tools, each with its answer.
#[verifier::opaque]
pub open spec fn open_turn(segment: Seq<MessageView>) -> bool {
    &&& segment.len() >= 1
    &&& segment.len() % 2 == 1
    &&& segment[0] is UserText
    &&& forall|i: int|
        1 <= i < segment.len() && i % 2 == 0 ==> is_exchange(segment[i - 1], #[trigger] segment[i])
}

/// The messages of a turn that ended with an answer in text.
pub open spec fn completed_turn(segment: Seq<MessageView>) -> bool {
    &&& segment.len() >= 2
    &&& open_turn(segment.drop_last())
    &&& segment.last() is AssistantText
}

/// The messages of a turn whose last request to call tools is being
/// worked on.
pub open spec fn gathering_turn(segment: Seq<MessageView>) -> bool {
    &&& segment.len() >= 2
    &&& open_turn(segment.drop_last())
    &&& segment.last() matches MessageView::AssistantToolCalls { calls, .. }
    &&& calls.len() > 0
}

impl LoopView {
    /// Whether the grants let the tool `name` run.
    pub open spec fn authorizes(self, name: Seq<char>) -> bool {
        self.grants_all || self.granted.contains(lowercase_of(name))
    }

    /// The tool calls that are being worked on.
    pub open spec fn calls(self) -> Seq<ToolCallView> {
        match self.history.last() {
            MessageView::AssistantToolCalls { calls, .. } => calls,
            _ => Seq::empty(),
        }
    }

    /// The tool call that is being worked on.
    pub open spec fn call(self) -> ToolCallView {
        self.calls()[self.cursor as int]
    }

    /// The messages of the turn at hand, or of the last turn.
    pub open spec fn segment(self) -> Seq<MessageView> {
        self.history.subrange(self.turn_start as int, self.history.len() as int)
    }

    /// Whether the loop is working on tool calls.
    pub open spec fn handling_calls(self) -> bool {
        self.phase is Gating || self.phase is AwaitingDecision || self.phase is AwaitingConfirm
            || self.phase is AwaitingTool
    }

    /// What holds of the history in each phase of a turn.
    pub open spec fn inv(self) -> bool {
        &&& self.history.len() <= usize::MAX
        &&& self.phase is Enriching ==> self.turn_start == self.history.len()
        &&& self.phase is CheckingCancel || self.phase is AwaitingCompletion ==> self.turn_start
            < self.history.len() && open_turn(self.segment())
        &&& self.handling_calls() ==> {
            &&& self.turn_start < self.history.len()
            &&& gathering_turn(self.segment())
            &&& self.cursor < self.calls().len()
            &&& self.results.len() == self.cursor
            &&& forall|j: int|
                0 <= j < self.cursor ==> (#[trigger] self.results[j]).call_id == self.calls()[j].id
        }
    }

    /// The state once the turn is over: between turns, with nothing left
    /// of the work on the turn.
    pub open spec fn closed(self) -> LoopView {
        LoopView {
            phase: Phase::Idle,
            enriched: None,
            results: Seq::empty(),
            cursor: 0,
            pending_input: Seq::empty(),
            ..self
        }
    }
}

/// How the arguments of a payload are shown: each field of an object with
/// the text for its value, in the order of the fields.
pub open spec fn shows(shown: Seq<(String, String)>, payload: ArgValue) -> bool {
    match payload {
        ArgValue::Object(entries) => shown.len() == entries@.len() && forall|i: int|
            0 <= i < shown.len() ==> (#[trigger] shown[i]).0@ == entries@[i].0@ && shown[i].1@
                == display_value_spec(entries@[i].1),
        _ => shown.len() == 0,
    }
}

/// The question that asks to confirm a dangerous command.
pub open spec fn command_warning(pattern: Seq<char>, command: Seq<char>) -> Seq<char> {
    "Dangerous command detected ("@ + pattern + "): "@ + truncate_spec(command, 50)
}

/// The question that asks to confirm a write to a sensitive path.
pub open spec fn path_warning(pattern: Seq<char>, path: Seq<char>) -> Seq<char> {
    "Writing to sensitive path ("@ + pattern + "): "@ + path
}

/// What stands in for the output of a tool that is only simulated, where
/// `json` is the text of its payload.
pub open spec fn dry_run_note_spec(name: Seq<char>, json: Seq<char>) -> Seq<char> {
    "[DRY RUN] Would execute tool '"@ + name + "' with arguments:\n"@ + json
}

/// What stands in for the output of a tool that is only simulated: the
/// mark of a simulation, the name of the tool, and its payload as JSON
/// over several lines.
pub open spec fn dry_run_text(name: Seq<char>, arguments: ArgValue) -> Seq<char> {
    dry_run_note_spec(name, crate::args::pretty_json_of(arguments))
}

/// What stands in for the output of a tool that is only simulated, where
/// `json` is the text of its payload.
pub fn dry_run_note(name: &str, json: &str) -> (r: String)
    ensures
        r@ == dry_run_note_spec(name@, json@),
{
    let mut text = chars_of("[DRY RUN] Would execute tool '");
    extend_str(&mut text, name);
    extend_str(&mut text, "' with arguments:\n");
    extend_str(&mut text, json);
    string_of(&text)
}

/// What goes into the history as the result of a call.
pub open spec fn result_content(outcome: Result<Seq<char>, ToolErrorView>) -> Seq<char> {
    match outcome {
        Ok(output) => output,
        Err(e) => "Error: "@ + e.message(),
    }
}

/// The file that a call wrote and what it did to it, where the call is a
/// `write_file` or `edit_file` that names its file, was carried out and
/// not only simulated, and succeeded. A `write_file` created the file
/// where there was none before the write, which `created` says, and
/// modified it where there was one; an `edit_file` modified it.
pub open spec fn change_of(
    call: ToolCallView,
    outcome: Result<Seq<char>, ToolErrorView>,
    simulated: bool,
    created: bool,
) -> Option<(Seq<char>, FileOperation)> {
    match (outcome, call.arguments.str_field("file_path"@)) {
        (Ok(_), Some(path)) => if simulated {
            None
        } else if call.name == "write_file"@ {
            Some(
                (
                    path,
                    if created {
                        FileOperation::Created
                    } else {
                        FileOperation::Modified
                    },
                ),
            )
        } else if call.name == "edit_file"@ {
            Some((path, FileOperation::Modified))
        } else {
            None
        },
        _ => None,
    }
}

/// The view of what a tool gave.
pub open spec fn outcome_view(r: Result<String, ToolError>) -> Result<Seq<char>, ToolErrorView> {
    match r {
        Ok(s) => Ok(s@),
        Err(e) => Err(e@),
    }
}

/// The view of a result that holds a text either way.
pub open spec fn outcome_text(r: Result<String, String>) -> Result<Seq<char>, Seq<char>> {
    match r {
        Ok(s) => Ok(s@),
        Err(e) => Err(e@),
    }
}

/// The step that takes the result of the call at hand: the result goes on
/// the list, a file that was written goes on record, and the loop turns to
/// the next call, or, after the last call, puts the results into the
/// history and goes to the top of the next iteration.
pub open spec fn settle_post(
    pre: LoopView,
    outcome: Result<Seq<char>, ToolErrorView>,
    simulated: bool,
    created: bool,
    now: u64,
    post: LoopView,
    action: LoopAction,
) -> bool {
    let call = pre.call();
    let results = pre.results.push(
        ToolResultView { call_id: call.id, content: result_content(outcome) },
    );
    let changes = match change_of(call, outcome, simulated, created) {
        Some((path, operation)) => pre.changes.insert(
            normalized(pre.working_directory, path),
            (operation, now),
        ),
        None => pre.changes,
    };
    if pre.cursor + 1 < pre.calls().len() {
        &&& post == (LoopView {
            phase: Phase::Gating,
            cursor: (pre.cursor + 1) as usize,
            results,
            changes,
            ..pre
        })
        &&& action is Proceed
    } else {
        &&& post == (LoopView {
            phase: Phase::CheckingCancel,
            cursor: 0,
            results: Seq::empty(),
            changes,
            history: pre.history.push(MessageView::ToolResults(results)),
            ..pre
        })
        &&& action is CheckCancel
    }
}

/// The step that carries the call at hand out: simulated, it gives its
/// result at once; a call that the dispatch refuses gives the error as its
/// result; any other call is handed out to be run.
pub open spec fn run_post(pre: LoopView, now: u64, post: LoopView, action: LoopAction) -> bool {
    let call = pre.call();
    if pre.dry_run {
        settle_post(
            pre,
            Ok(dry_run_text(call.name, call.arguments)),
            true,
            false,
            now,
            post,
            action,
        )
    } else {
        match dispatch_fault(call.name, call.arguments, pre.depth) {
            Some(e) => settle_post(pre, Err(e), false, false, now, post, action),
            None => {
                &&& post == (LoopView { phase: Phase::AwaitingTool, ..pre })
                &&& action matches LoopAction::RunTool(inv)
                &&& dispatched(
                    call.name,
                    call.arguments,
                    pre.working_directory,
                    pre.depth,
                    Ok(inv),
                )
            },
        }
    }
}

/// What the check for danger asks, if it asks anything: whether it is about
/// a command, and the question.
pub open spec fn danger_question_spec(pre: LoopView) -> Option<(bool, Seq<char>)> {
    let call = pre.call();
    let command = call.arguments.str_field("command"@);
    let path = call.arguments.str_field("file_path"@);
    if call.name == "bash"@ && pre.confirm_dangerous {
        if command is Some && dangerous_command_spec(command->0) is Some {
            Some((true, command_warning(dangerous_command_spec(command->0)->0, command->0)))
        } else {
            None
        }
    } else if call.name == "write_file"@ && pre.confirm_dangerous {
        if path is Some && dangerous_path_spec(path->0) is Some {
            Some((false, path_warning(dangerous_path_spec(path->0)->0, path->0)))
        } else {
            None
        }
    } else {
        None
    }
}

/// The step that looks for danger in the call at hand: a dangerous command
/// or a write to a sensitive path is put to whoever drives the loop for a
/// confirmation of its own; any other call is carried out.
pub open spec fn danger_post(pre: LoopView, now: u64, post: LoopView, action: LoopAction)
    -> bool {
    match danger_question_spec(pre) {
        Some((_, question)) => {
            &&& post == (LoopView { phase: Phase::AwaitingConfirm, ..pre })
            &&& action matches LoopAction::Confirm { message }
            &&& message@ == question
        },
        None => run_post(pre, now, post, action),
    }
}

/// The error that ends a turn where a dangerous operation was not
/// confirmed: that of a command for `bash`, that of a write for any other
/// tool.
pub open spec fn not_confirmed(pre: LoopView) -> TurnErrorView {
    if pre.call().name == "bash"@ {
        TurnErrorView::DangerousCommandRejected
    } else {
        TurnErrorView::DangerousWriteRejected
    }
}

/// The step that looks at the grants for the call at hand: a tool that is
/// not granted ends the turn; where a user watches and confirmations are
/// not skipped, a tool that was not approved for good is put to the user;
/// any other call goes on to the check for danger.
pub open spec fn gate_post(pre: LoopView, now: u64, post: LoopView, action: LoopAction) -> bool {
    let call = pre.call();
    if !pre.authorizes(call.name) {
        &&& post == pre.closed()
        &&& action matches LoopAction::Finish(Err(e))
        &&& e@ == TurnErrorView::PermissionDenied(call.name)
    } else if pre.interactive && !pre.skip_confirmations && !pre.approved.contains(call.name) {
        &&& post == (LoopView { phase: Phase::AwaitingDecision, ..pre })
        &&& action matches LoopAction::AskPermission { tool, args }
        &&& tool@ == call.name
        &&& shows(args@, call.arguments)
    } else {
        danger_post(pre, now, post, action)
    }
}

/// The view of what a completion gave.
pub open spec fn calls_message(outcome: CompletionOutcome) -> MessageView {
    MessageView::AssistantToolCalls {
        text: opt_view(outcome.text),
        calls: calls_view(outcome.tool_calls@),
    }
}

/// One step of the loop: what the state `pre` and the event `event` at the
/// time `now` lead to.
pub open spec fn step_post(
    pre: LoopView,
    event: LoopEvent,
    now: u64,
    post: LoopView,
    action: LoopAction,
) -> bool {
    match event {
        LoopEvent::Start { input } => if pre.phase is Idle {
            if pre.retrieval {
                &&& post == (LoopView {
                    phase: Phase::Enriching,
                    iterations: 0,
                    turn_start: pre.history.len() as usize,
                    pending_input: input@,
                    ..pre
                })
                &&& action matches LoopAction::Retrieve { query, limit }
                &&& query@ == input@
                &&& limit == RETRIEVAL_LIMIT
            } else {
                &&& post == (LoopView {
                    phase: Phase::CheckingCancel,
                    iterations: 0,
                    turn_start: pre.history.len() as usize,
                    history: pre.history.push(MessageView::UserText(input@)),
                    ..pre
                })
                &&& action is CheckCancel
            }
        } else {
            post == pre && action is Unexpected
        },
        LoopEvent::Retrieved(found) => if pre.phase is Enriching {
            &&& post == (LoopView {
                phase: Phase::CheckingCancel,
                history: pre.history.push(MessageView::UserText(pre.pending_input)),
                enriched: enriched_spec(
                    pre.pending_input,
                    match found {
                        Some(v) => Some(v@),
                        None => None,
                    },
                ),
                pending_input: Seq::empty(),
                ..pre
            })
            &&& action is CheckCancel
        } else {
            post == pre && action is Unexpected
        },
        LoopEvent::CancelState(cancelled) => if pre.phase is CheckingCancel {
            if cancelled {
                &&& post == pre.closed()
                &&& action matches LoopAction::Finish(Err(e))
                &&& e@ == TurnErrorView::Cancelled
            } else if pre.iterations >= pre.max_iterations {
                &&& post == pre.closed()
                &&& action matches LoopAction::Finish(Err(e))
                &&& e@ == TurnErrorView::IterationLimitExceeded(pre.max_iterations)
            } else {
                &&& post == (LoopView {
                    phase: Phase::AwaitingCompletion,
                    iterations: (pre.iterations + 1) as usize,
                    ..pre
                })
                &&& action matches LoopAction::RequestCompletion { iteration, enriched_input }
                &&& iteration == pre.iterations + 1
                &&& opt_view(enriched_input) == pre.enriched
            }
        } else {
            post == pre && action is Unexpected
        },
        LoopEvent::Completion(answer) => if pre.phase is AwaitingCompletion {
            match answer {
                Err(detail) => {
                    &&& post == pre.closed()
                    &&& action matches LoopAction::Finish(Err(e))
                    &&& e@ == (TurnErrorView::CompletionFailed {
                        streamed: pre.streaming,
                        detail: detail@,
                    })
                },
                Ok(outcome) => if outcome.tool_calls@.len() > 0 {
                    &&& post == (LoopView {
                        phase: Phase::Gating,
                        cursor: 0,
                        results: Seq::empty(),
                        history: pre.history.push(calls_message(outcome)),
                        ..pre
                    })
                    &&& action is Proceed
                } else {
                    match outcome.text {
                        Some(text) => {
                            &&& post == (LoopView {
                                usage: pre.usage.after(
                                    prompt_text_spec(pre.preamble, pre.history),
                                    text@,
                                ),
                                iteration_count: pre.iterations,
                                history: pre.history.push(MessageView::AssistantText(text@)),
                                ..pre.closed()
                            })
                            &&& action matches LoopAction::Finish(Ok(said))
                            &&& said@ == text@
                        },
                        None => {
                            &&& post == pre.closed()
                            &&& action matches LoopAction::Finish(Err(e))
                            &&& e@ == TurnErrorView::EmptyResponse
                        },
                    }
                },
            }
        } else {
            post == pre && action is Unexpected
        },
        LoopEvent::Proceed => if pre.phase is Gating {
            gate_post(pre, now, post, action)
        } else {
            post == pre && action is Unexpected
        },
        LoopEvent::Decision(decision) => if pre.phase is AwaitingDecision {
            match decision {
                Some(PermissionDecision::ApproveOnce) => danger_post(pre, now, post, action),
                Some(PermissionDecision::ApproveAll) => danger_post(
                    LoopView { approved: pre.approved.insert(pre.call().name), ..pre },
                    now,
                    post,
                    action,
                ),
                _ => {
                    &&& post == pre.closed()
                    &&& action matches LoopAction::Finish(Err(e))
                    &&& e@ == TurnErrorView::RejectedByUser
                },
            }
        } else {
            post == pre && action is Unexpected
        },
        LoopEvent::Confirmed(confirmed) => if pre.phase is AwaitingConfirm {
            if confirmed == Some(true) {
                run_post(pre, now, post, action)
            } else {
                &&& post == pre.closed()
                &&& action matches LoopAction::Finish(Err(e))
                &&& e@ == not_confirmed(pre)
            }
        } else {
            post == pre && action is Unexpected
        },
        LoopEvent::ToolFinished { result, created } => if pre.phase is AwaitingTool {
            settle_post(pre, outcome_view(result), false, created, now, post, action)
        } else {
            post == pre && action is Unexpected
        },
    }
}


/// A copy of a string that may be absent.
fn copy_opt(o: &Option<String>) -> (r: Option<String>)
    ensures
        opt_view(r) == opt_view(*o),
{
    match o {
        Some(s) => Some(s.clone()),
        None => None,
    }
}

/// The loop of one agent: its setup, the history of its conversation, what
/// its turns have changed, and where the turn at hand stands.
#[derive(Debug)]
pub struct AgentLoop {
    preamble: String,
    chat_history: Vec<Message>,
    confirm_dangerous: bool,
    streaming: bool,
    working_directory: String,
    file_changes: ChangeLedger,
    token_usage: TokenUsage,
    interactive: bool,
    approved_tools: NameMap<()>,
    context_size: usize,
    retrieval: bool,
    memory: bool,
    session_id: Option<String>,
    depth: usize,
    iteration_count: usize,
    max_iterations: usize,
    agent_id: String,
    permissions: GrantedPermissions,
    model_name: String,
    phase: Phase,
    iterations: usize,
    turn_start: usize,
    cursor: usize,
    results: Vec<ToolResult>,
    pending_input: String,
    enriched: Option<String>,
}

impl View for AgentLoop {
    type V = LoopView;

    closed spec fn view(&self) -> LoopView {
        LoopView {
            preamble: self.preamble@,
            confirm_dangerous: self.confirm_dangerous,
            streaming: self.streaming,
            working_directory: self.working_directory@,
            interactive: self.interactive,
            context_size: self.context_size,
            retrieval: self.retrieval,
            memory: self.memory,
            session_id: opt_view(self.session_id),
            depth: self.depth,
            max_iterations: self.max_iterations,
            agent_id: self.agent_id@,
            model_name: self.model_name@,
            grants_all: self.permissions.grants_all(),
            skip_confirmations: self.permissions.skips_confirmations(),
            dry_run: self.permissions.simulates(),
            granted: self.permissions.names(),
            history: history_view(self.chat_history@),
            usage: self.token_usage,
            changes: self.file_changes.entries(),
            approved: self.approved_tools@.dom(),
            iteration_count: self.iteration_count,
            phase: self.phase,
            iterations: self.iterations,
            turn_start: self.turn_start,
            cursor: self.cursor,
            results: results_view(self.results@),
            pending_input: self.pending_input@,
            enriched: opt_view(self.enriched),
        }
    }
}

/// The state of a loop that has just been set up.
pub open spec fn fresh_view(
    preamble: Seq<char>,
    confirm_dangerous: bool,
    streaming: bool,
    working_directory: Seq<char>,
    context_size: usize,
    retrieval: bool,
    memory: bool,
    session_id: Option<Seq<char>>,
    depth: usize,
    grants_all: bool,
    skip_confirmations: bool,
    dry_run: bool,
    granted: Set<Seq<char>>,
    model_name: Seq<char>,
    agent_id: Seq<char>,
) -> LoopView {
    LoopView {
        preamble,
        confirm_dangerous,
        streaming,
        working_directory,
        interactive: false,
        context_size,
        retrieval,
        memory,
        session_id,
        depth,
        max_iterations: if depth == 0 {
            DEFAULT_MAX_ITERATIONS
        } else {
            DEFAULT_SUBAGENT_MAX_ITERATIONS
        },
        agent_id,
        model_name,
        grants_all,
        skip_confirmations,
        dry_run,
        granted,
        history: Seq::empty(),
        usage: TokenUsage {
            prompt_tokens: 0,
            completion_tokens: 0,
            total_tokens: 0,
            request_count: 0,
        },
        changes: Map::empty(),
        approved: Set::empty(),
        iteration_count: 0,
        phase: Phase::Idle,
        iterations: 0,
        turn_start: 0,
        cursor: 0,
        results: Seq::empty(),
        pending_input: Seq::empty(),
        enriched: None,
    }
}

impl AgentLoop {
    /// The parts of the loop are in order, and the history has the shape
    /// that the phase calls for.
    pub closed spec fn wf(&self) -> bool {
        &&& self.file_changes.wf()
        &&& self.approved_tools.wf()
        &&& self.permissions.wf()
        &&& self@.inv()
    }

    /// In a loop whose parts are in order the history has the shape that
    /// the phase calls for.
    pub proof fn lemma_shape(&self)
        requires
            self.wf(),
        ensures
            self@.inv(),
    {
    }

    /// Sets a loop up at level `depth`, between turns and with an empty
    /// history. The main agent, at level 0, is called `main`; any other
    /// gets a name of its own that begins with `agent-`.
    pub fn new(
        preamble: String,
        confirm_dangerous: bool,
        streaming: bool,
        working_directory: String,
        context_size: usize,
        retrieval: bool,
        memory: bool,
        session_id: Option<String>,
        depth: usize,
        permissions: GrantedPermissions,
        model_name: String,
    ) -> (l: Self)
        requires
            permissions.wf(),
        ensures
            l.wf(),
            l@ == fresh_view(
                preamble@,
                confirm_dangerous,
                streaming,
                working_directory@,
                context_size,
                retrieval,
                memory,
                opt_view(session_id),
                depth,
                permissions.grants_all(),
                permissions.skips_confirmations(),
                permissions.simulates(),
                permissions.names(),
                model_name@,
                l@.agent_id,
            ),
            depth == 0 ==> l@.agent_id == "main"@,
            depth != 0 ==> crate::text::has_prefix(l@.agent_id, "agent-"@),
    {
        let max_iterations = if depth == 0 {
            DEFAULT_MAX_ITERATIONS
        } else {
            DEFAULT_SUBAGENT_MAX_ITERATIONS
        };
        let agent_id = if depth == 0 {
            "main".to_owned()
        } else {
            let id = joined("agent-", fresh_id().as_str());
            assert(id@.subrange(0, "agent-"@.len() as int) =~= "agent-"@);
            id
        };
        let l = AgentLoop {
            preamble,
            chat_history: Vec::new(),
            confirm_dangerous,
            streaming,
            working_directory,
            file_changes: ChangeLedger::new(),
            token_usage: TokenUsage {
                prompt_tokens: 0,
                completion_tokens: 0,
                total_tokens: 0,
                request_count: 0,
            },
            interactive: false,
            approved_tools: NameMap::new(),
            context_size,
            retrieval,
            memory,
            session_id,
            depth,
            iteration_count: 0,
            max_iterations,
            agent_id,
            permissions,
            model_name,
            phase: Phase::Idle,
            iterations: 0,
            turn_start: 0,
            cursor: 0,
            results: Vec::new(),
            pending_input: String::new(),
            enriched: None,
        };
        assert(l@ =~= fresh_view(
            preamble@,
            confirm_dangerous,
            streaming,
            working_directory@,
            context_size,
            retrieval,
            memory,
            opt_view(session_id),
            depth,
            permissions.grants_all(),
            permissions.skips_confirmations(),
            permissions.simulates(),
            permissions.names(),
            model_name@,
            l@.agent_id,
        ));
        l
    }

    /// Says whether a user watches the loop and can be asked.
    pub fn set_interactive(&mut self, interactive: bool)
        requires
            old(self).wf(),
        ensures
            final(self).wf(),
            final(self)@ == (LoopView { interactive, ..old(self)@ }),
    {
        self.interactive = interactive;
    }

    /// Sets the number of iterations that a turn may take.
    pub fn set_max_iterations(&mut self, max_iterations: usize)
        requires
            old(self).wf(),
        ensures
            final(self).wf(),
            final(self)@ == (LoopView { max_iterations, ..old(self)@ }),
    {
        self.max_iterations = max_iterations;
    }

    /// Sets the name under which the loop reports.
    pub fn set_agent_id(&mut self, agent_id: String)
        requires
            old(self).wf(),
        ensures
            final(self).wf(),
            final(self)@ == (LoopView { agent_id: agent_id@, ..old(self)@ }),
    {
        self.agent_id = agent_id;
    }

    /// The counters of the tokens that the requests took.
    pub fn get_token_usage(&self) -> (u: &TokenUsage)
        ensures
            *u == self@.usage,
    {
        &self.token_usage
    }

    /// The number of iterations that the last turn with an answer took.
    pub fn iteration_count(&self) -> (n: usize)
        ensures
            n == self@.iteration_count,
    {
        self.iteration_count
    }

    /// The number of messages in the history.
    pub fn history_len(&self) -> (n: usize)
        ensures
            n == self@.history.len(),
    {
        self.chat_history.len()
    }

    /// The messages of the history.
    pub fn messages(&self) -> (h: &Vec<Message>)
        ensures
            history_view(h@) == self@.history,
    {
        &self.chat_history
    }

    /// Where the loop stands.
    pub fn phase(&self) -> (p: Phase)
        ensures
            p == self@.phase,
    {
        self.phase
    }

    /// The size of the context window that is asked of the model.
    pub fn context_size(&self) -> (n: usize)
        ensures
            n == self@.context_size,
    {
        self.context_size
    }

    /// The level at which the agent stands.
    pub fn depth(&self) -> (d: usize)
        ensures
            d == self@.depth,
    {
        self.depth
    }

    /// The name under which the loop reports.
    pub fn agent_id(&self) -> (id: &String)
        ensures
            id@ == self@.agent_id,
    {
        &self.agent_id
    }

    /// The directory in which the agent works.
    pub fn working_directory(&self) -> (d: &String)
        ensures
            d@ == self@.working_directory,
    {
        &self.working_directory
    }

    /// The system prompt.
    pub fn preamble(&self) -> (p: &String)
        ensures
            p@ == self@.preamble,
    {
        &self.preamble
    }

    /// The number of files that the session wrote.
    pub fn file_changes_count(&self) -> (n: usize)
        requires
            self.wf(),
        ensures
            n == self@.changes.dom().len(),
    {
        proof {
            self.file_changes.lemma_count();
        }
        self.file_changes.count()
    }

    /// The files that the session wrote, in the order of their paths.
    pub fn get_file_changes_summary(&self) -> (r: Vec<&FileChange>)
        requires
            self.wf(),
        ensures
            r@.len() == self@.changes.dom().len(),
            forall|i: int|
                0 <= i < r@.len() ==> self@.changes.dom().contains((#[trigger] r@[i]).path@)
                    && self@.changes[r@[i].path@] == (r@[i].operation, r@[i].timestamp),
            forall|i: int, j: int|
                0 <= i < j < r@.len() ==> crate::names::lex_lt(
                    (#[trigger] r@[i]).path@,
                    (#[trigger] r@[j]).path@,
                ),
    {
        proof {
            self.file_changes.lemma_count();
            self.file_changes.lemma_listing();
        }
        let r = self.file_changes.summary();
        proof {
            assert forall|i: int| 0 <= i < r@.len() implies self@.changes.dom().contains(
                (#[trigger] r@[i]).path@,
            ) && self@.changes[r@[i].path@] == (r@[i].operation, r@[i].timestamp) by {
                let k = self.file_changes.paths()[i];
                assert(self.file_changes@.dom().contains(k));
                assert(*r@[i] == self.file_changes.listing()[i]);
            }
            assert forall|i: int, j: int| 0 <= i < j < r@.len() implies crate::names::lex_lt(
                (#[trigger] r@[i]).path@,
                (#[trigger] r@[j]).path@,
            ) by {
                assert(crate::names::lex_lt(
                    self.file_changes.paths()[i],
                    self.file_changes.paths()[j],
                ));
            }
        }
        r
    }

    /// The tools that the model is told of: those that every agent has;
    /// those of the long-term memory where a memory is attached; the
    /// delegation, with the level of this agent; and those of the code
    /// intelligence where it is available.
    pub fn get_tool_definitions(&self, code_intelligence: bool) -> (tools: Vec<
        crate::catalog::ToolDefinition,
    >)
        ensures
            crate::catalog::definitions_view(tools@) == crate::catalog::catalog_spec(
                self@.working_directory,
                self@.memory,
                self@.depth,
                code_intelligence,
            ),
    {
        crate::catalog::get_tool_definitions(
            self.working_directory.as_str(),
            self.memory,
            self.depth,
            code_intelligence,
        )
    }

    /// Forgets the files that the session wrote.
    pub fn clear_file_changes(&mut self)
        requires
            old(self).wf(),
        ensures
            final(self).wf(),
            final(self)@ == (LoopView { changes: Map::empty(), ..old(self)@ }),
    {
        self.file_changes.clear();
    }

    /// Empties the history. A turn that was under way is given up.
    pub fn clear_history(&mut self)
        requires
            old(self).wf(),
        ensures
            final(self).wf(),
            final(self)@ == (LoopView { history: Seq::empty(), ..old(self)@.closed() }),
    {
        self.chat_history.clear();
        self.phase = Phase::Idle;
        self.enriched = None;
        self.results = Vec::new();
        self.cursor = 0;
        self.pending_input = String::new();
    }

    /// Ends the turn.
    fn close(&mut self)
        requires
            old(self).wf(),
        ensures
            final(self).wf(),
            final(self)@ == old(self)@.closed(),
    {
        self.phase = Phase::Idle;
        self.enriched = None;
        self.results = Vec::new();
        self.cursor = 0;
        self.pending_input = String::new();
    }

    /// The tool call that is being worked on, with its payload: the one
    /// that a question to the user, or a tool that was handed out to be
    /// run, is about. Nothing where the loop is working on no tool call.
    pub fn current_call(&self) -> (r: Option<&ToolCall>)
        requires
            self.wf(),
        ensures
            match r {
                Some(c) => self@.handling_calls() && c@ == self@.call(),
                None => !self@.handling_calls(),
            },
    {
        match self.phase {
            Phase::Gating | Phase::AwaitingDecision | Phase::AwaitingConfirm | Phase::AwaitingTool => {
                Some(self.call_ref())
            },
            _ => None,
        }
    }

    /// The tool call that is being worked on.
    fn call_ref(&self) -> (c: &ToolCall)
        requires
            self.wf(),
            self@.handling_calls(),
        ensures
            c@ == self@.call(),
    {
        let n = self.chat_history.len();
        assert(self@.segment().last() == self@.history.last());
        match &self.chat_history[n - 1] {
            Message::AssistantToolCalls { calls, .. } => {
                assert(calls_view(calls@) == self@.calls());
                &calls[self.cursor]
            },
            _ => vstd::pervasive::unreached(),
        }
    }

    /// The number of tool calls that are being worked on.
    fn calls_len(&self) -> (n: usize)
        requires
            self.wf(),
            self@.handling_calls(),
        ensures
            n == self@.calls().len(),
    {
        let n = self.chat_history.len();
        assert(self@.segment().last() == self@.history.last());
        match &self.chat_history[n - 1] {
            Message::AssistantToolCalls { calls, .. } => {
                assert(calls_view(calls@) == self@.calls());
                calls.len()
            },
            _ => vstd::pervasive::unreached(),
        }
    }
}


/// The view of a question of the check for danger.
pub open spec fn question_view(q: Option<(bool, String)>) -> Option<(bool, Seq<char>)> {
    match q {
        Some((about_command, text)) => Some((about_command, text@)),
        None => None,
    }
}

/// The view of a file that a call wrote.
pub open spec fn change_view(c: Option<(String, FileOperation)>) -> Option<
    (Seq<char>, FileOperation),
> {
    match c {
        Some((path, operation)) => Some((path@, operation)),
        None => None,
    }
}

impl AgentLoop {
    /// What the check for danger asks about the call at hand.
    fn danger_question(&self) -> (q: Option<(bool, String)>)
        requires
            self.wf(),
            self@.handling_calls(),
        ensures
            question_view(q) == danger_question_spec(self@),
    {
        let call = self.call_ref();
        if str_eq(call.name.as_str(), "bash") && self.confirm_dangerous {
            match call.arguments.get_str("command") {
                Some(command) => {
                    match is_dangerous_command(command.as_str()) {
                        Some(pattern) => {
                            let mut m = chars_of("Dangerous command detected (");
                            extend_str(&mut m, pattern);
                            extend_str(&mut m, "): ");
                            extend_str(&mut m, truncate_string(command.as_str(), 50).as_str());
                            Some((true, string_of(&m)))
                        },
                        None => None,
                    }
                },
                None => None,
            }
        } else if str_eq(call.name.as_str(), "write_file") && self.confirm_dangerous {
            match call.arguments.get_str("file_path") {
                Some(path) => {
                    match is_dangerous_path(path.as_str()) {
                        Some(pattern) => {
                            let mut m = chars_of("Writing to sensitive path (");
                            extend_str(&mut m, pattern);
                            extend_str(&mut m, "): ");
                            extend_str(&mut m, path.as_str());
                            Some((false, string_of(&m)))
                        },
                        None => None,
                    }
                },
                None => None,
            }
        } else {
            None
        }
    }

    /// The file that the call at hand wrote, where `result` is what it
    /// gave.
    fn written_by(&self, result: &Result<String, ToolError>, simulated: bool, created: bool) -> (c:
        Option<(String, FileOperation)>)
        requires
            self.wf(),
            self@.handling_calls(),
        ensures
            change_view(c) == change_of(self@.call(), outcome_view(*result), simulated, created),
    {
        if simulated {
            return None;
        }
        let call = self.call_ref();
        match result {
            Ok(output) => {
                match call.arguments.get_str("file_path") {
                    Some(path) => {
                        if str_eq(call.name.as_str(), "write_file") {
                            let operation = if created {
                                FileOperation::Created
                            } else {
                                FileOperation::Modified
                            };
                            Some((path.clone(), operation))
                        } else if str_eq(call.name.as_str(), "edit_file") {
                            Some((path.clone(), FileOperation::Modified))
                        } else {
                            None
                        }
                    },
                    None => None,
                }
            },
            Err(_) => None,
        }
    }

    /// Puts the file on record that the call at hand wrote, if it wrote
    /// one.
    fn note_change(&mut self, change: Option<(String, FileOperation)>, now: u64)
        requires
            old(self).wf(),
        ensures
            final(self).wf(),
            final(self)@ == (LoopView {
                changes: match change_view(change) {
                    Some((path, operation)) => old(self)@.changes.insert(
                        normalized(old(self)@.working_directory, path),
                        (operation, now),
                    ),
                    None => old(self)@.changes,
                },
                ..old(self)@
            }),
    {
        match change {
            Some((path, operation)) => {
                self.file_changes.record(
                    self.working_directory.as_str(),
                    path.as_str(),
                    operation,
                    now,
                );
            },
            None => {},
        }
    }

    /// Puts the result of the call at hand on the list and turns to the
    /// next call.
    fn next_call(&mut self, entry: ToolResult)
        requires
            old(self).wf(),
            old(self)@.handling_calls(),
            old(self)@.cursor + 1 < old(self)@.calls().len(),
            entry@.call_id == old(self)@.call().id,
        ensures
            final(self).wf(),
            final(self)@ == (LoopView {
                phase: Phase::Gating,
                cursor: (old(self)@.cursor + 1) as usize,
                results: old(self)@.results.push(entry@),
                ..old(self)@
            }),
    {
        let ghost pre = self@;
        let total = self.calls_len();
        self.results.push(entry);
        self.cursor = self.cursor + 1;
        self.phase = Phase::Gating;
        proof {
            assert(results_view(self.results@) =~= pre.results.push(entry@));
            assert(self@.segment() == pre.segment());
            assert(self@.calls() == pre.calls());
            assert forall|j: int| 0 <= j < self@.cursor implies (#[trigger] self@.results[j]).call_id
                == self@.calls()[j].id by {
                if j < pre.cursor {
                    assert(self@.results[j] == pre.results[j]);
                }
            }
        }
    }

    /// Puts the result of the last call on the list, and the list into the
    /// history.
    fn finish_calls(&mut self, entry: ToolResult)
        requires
            old(self).wf(),
            old(self)@.handling_calls(),
            old(self)@.cursor + 1 == old(self)@.calls().len(),
            entry@.call_id == old(self)@.call().id,
        ensures
            final(self).wf(),
            final(self)@ == (LoopView {
                phase: Phase::CheckingCancel,
                cursor: 0,
                results: Seq::empty(),
                history: old(self)@.history.push(
                    MessageView::ToolResults(old(self)@.results.push(entry@)),
                ),
                ..old(self)@
            }),
    {
        let ghost pre = self@;
        let ghost listed = pre.results.push(entry@);
        self.results.push(entry);
        let mut done: Vec<ToolResult> = Vec::new();
        std::mem::swap(&mut self.results, &mut done);
        assert(results_view(done@) =~= listed);
        self.chat_history.push(Message::ToolResults(done));
        self.cursor = 0;
        self.phase = Phase::CheckingCancel;
        let n = self.chat_history.len();
        proof {
            reveal(open_turn);
            let post = self@;
            let seg = pre.segment();
            let seg2 = post.segment();
            let answer = MessageView::ToolResults(listed);
            assert(post.history =~= pre.history.push(answer));
            assert(seg2 =~= seg.push(answer));
            assert(seg.last() == pre.history.last());
            assert forall|j: int| 0 <= j < pre.calls().len() implies (#[trigger] listed[j]).call_id
                == pre.calls()[j].id by {
                if j < pre.cursor {
                    assert(listed[j] == pre.results[j]);
                }
            }
            assert(is_exchange(seg.last(), answer));
            assert forall|i: int| 1 <= i < seg2.len() && i % 2 == 0 implies is_exchange(
                seg2[i - 1],
                #[trigger] seg2[i],
            ) by {
                if i < seg.len() - 1 {
                    assert(seg.drop_last()[i] == seg2[i]);
                    assert(seg.drop_last()[i - 1] == seg2[i - 1]);
                } else {
                    assert(seg2[i - 1] == seg.last());
                }
            }
            assert(seg2[0] == seg.drop_last()[0]);
            assert(open_turn(seg2));
        }
    }

    /// Takes the result of the call at hand.
    fn settle(
        &mut self,
        result: Result<String, ToolError>,
        simulated: bool,
        created: bool,
        now: u64,
    ) -> (action: LoopAction)
        requires
            old(self).wf(),
            old(self)@.handling_calls(),
        ensures
            final(self).wf(),
            settle_post(
                old(self)@,
                outcome_view(result),
                simulated,
                created,
                now,
                final(self)@,
                action,
            ),
            !(action matches LoopAction::Finish(Ok(_))),
    {
        let ghost pre = self@;
        let change = self.written_by(&result, simulated, created);
        let id = self.call_ref().id.clone();
        let total = self.calls_len();
        let content = match result {
            Ok(output) => output,
            Err(e) => joined("Error: ", e.message().as_str()),
        };
        let entry = ToolResult { call_id: id, content };
        self.note_change(change, now);
        assert(self@.calls() == pre.calls());
        if self.cursor + 1 < total {
            self.next_call(entry);
            LoopAction::Proceed
        } else {
            self.finish_calls(entry);
            LoopAction::CheckCancel
        }
    }

    /// Carries the call at hand out.
    fn run_stage(&mut self, now: u64) -> (action: LoopAction)
        requires
            old(self).wf(),
            old(self)@.handling_calls(),
        ensures
            final(self).wf(),
            run_post(old(self)@, now, final(self)@, action),
            !(action matches LoopAction::Finish(Ok(_))),
    {
        if self.permissions.is_dry_run() {
            let call = self.call_ref();
            let text = dry_run_note(call.name.as_str(), call.arguments.to_pretty().as_str());
            return self.settle(Ok(text), true, false, now);
        }
        let call = self.call_ref();
        let dispatched = dispatch_tool(
            call.name.as_str(),
            &call.arguments,
            self.working_directory.as_str(),
            self.depth,
        );
        match dispatched {
            Ok(invocation) => {
                self.phase = Phase::AwaitingTool;
                LoopAction::RunTool(invocation)
            },
            Err(e) => self.settle(Err(e), false, false, now),
        }
    }

    /// Looks for danger in the call at hand.
    fn check_danger(&mut self, now: u64) -> (action: LoopAction)
        requires
            old(self).wf(),
            old(self)@.handling_calls(),
        ensures
            final(self).wf(),
            danger_post(old(self)@, now, final(self)@, action),
            !(action matches LoopAction::Finish(Ok(_))),
    {
        match self.danger_question() {
            Some((_, message)) => {
                self.phase = Phase::AwaitingConfirm;
                LoopAction::Confirm { message }
            },
            None => self.run_stage(now),
        }
    }

    /// Looks at the grants for the call at hand.
    fn gate(&mut self, now: u64) -> (action: LoopAction)
        requires
            old(self).wf(),
            old(self)@.handling_calls(),
        ensures
            final(self).wf(),
            gate_post(old(self)@, now, final(self)@, action),
            !(action matches LoopAction::Finish(Ok(_))),
    {
        let call = self.call_ref();
        if !self.permissions.is_granted(call.name.as_str()) {
            let tool = call.name.clone();
            self.close();
            return LoopAction::Finish(Err(TurnError::PermissionDenied(tool)));
        }
        if self.interactive && !self.permissions.should_skip_confirmations()
            && !self.approved_tools.contains_key(call.name.as_str()) {
            let tool = call.name.clone();
            let args = display_args(&call.arguments);
            self.phase = Phase::AwaitingDecision;
            return LoopAction::AskPermission { tool, args };
        }
        self.check_danger(now)
    }

    /// A turn begins.
    fn on_start(&mut self, input: String) -> (action: LoopAction)
        requires
            old(self).wf(),
        ensures
            final(self).wf(),
            step_post(old(self)@, LoopEvent::Start { input }, 0, final(self)@, action),
            !(action matches LoopAction::Finish(Ok(_))),
    {
        let ghost pre = self@;
        if self.phase != Phase::Idle {
            return LoopAction::Unexpected;
        }
        self.iterations = 0;
        self.turn_start = self.chat_history.len();
        if self.retrieval {
            let query = input.clone();
            self.pending_input = input;
            self.phase = Phase::Enriching;
            LoopAction::Retrieve { query, limit: RETRIEVAL_LIMIT }
        } else {
            self.chat_history.push(Message::UserText(input));
            self.phase = Phase::CheckingCancel;
            let n = self.chat_history.len();
            proof {
                reveal(open_turn);
                assert(self@.history =~= pre.history.push(MessageView::UserText(input@)));
                assert(self@.segment() =~= seq![MessageView::UserText(input@)]);
            }
            LoopAction::CheckCancel
        }
    }

    /// The retrieval answered.
    fn on_retrieved(&mut self, found: Option<Vec<RetrievedChunk>>) -> (action: LoopAction)
        requires
            old(self).wf(),
        ensures
            final(self).wf(),
            step_post(old(self)@, LoopEvent::Retrieved(found), 0, final(self)@, action),
            !(action matches LoopAction::Finish(Ok(_))),
    {
        let ghost pre = self@;
        if self.phase != Phase::Enriching {
            return LoopAction::Unexpected;
        }
        let mut input = String::new();
        std::mem::swap(&mut self.pending_input, &mut input);
        self.enriched = enrich(input.as_str(), &found);
        self.chat_history.push(Message::UserText(input));
        self.phase = Phase::CheckingCancel;
        let n = self.chat_history.len();
        proof {
            reveal(open_turn);
            assert(self@.history =~= pre.history.push(MessageView::UserText(pre.pending_input)));
            assert(self@.segment() =~= seq![MessageView::UserText(pre.pending_input)]);
        }
        LoopAction::CheckCancel
    }

    /// The top of an iteration.
    fn on_cancel_state(&mut self, cancelled: bool) -> (action: LoopAction)
        requires
            old(self).wf(),
        ensures
            final(self).wf(),
            step_post(old(self)@, LoopEvent::CancelState(cancelled), 0, final(self)@, action),
            !(action matches LoopAction::Finish(Ok(_))),
    {
        let ghost pre = self@;
        if self.phase != Phase::CheckingCancel {
            return LoopAction::Unexpected;
        }
        if cancelled {
            self.close();
            return LoopAction::Finish(Err(TurnError::Cancelled));
        }
        if self.iterations >= self.max_iterations {
            self.close();
            return LoopAction::Finish(Err(TurnError::IterationLimitExceeded(self.max_iterations)));
        }
        self.iterations = self.iterations + 1;
        self.phase = Phase::AwaitingCompletion;
        assert(self@.segment() == pre.segment());
        LoopAction::RequestCompletion {
            iteration: self.iterations,
            enriched_input: copy_opt(&self.enriched),
        }
    }

    /// The model asked for tools.
    fn on_tool_calls(&mut self, outcome: CompletionOutcome)
        requires
            old(self).wf(),
            old(self)@.phase is AwaitingCompletion,
            outcome.tool_calls@.len() > 0,
        ensures
            final(self).wf(),
            final(self)@ == (LoopView {
                phase: Phase::Gating,
                cursor: 0,
                results: Seq::empty(),
                history: old(self)@.history.push(calls_message(outcome)),
                ..old(self)@
            }),
    {
        let ghost pre = self@;
        let ghost request = calls_message(outcome);
        self.chat_history.push(
            Message::AssistantToolCalls { text: outcome.text, calls: outcome.tool_calls },
        );
        self.cursor = 0;
        self.results = Vec::new();
        self.phase = Phase::Gating;
        let n = self.chat_history.len();
        proof {
            assert(self@.history =~= pre.history.push(request));
            assert(self@.segment() =~= pre.segment().push(request));
            assert(self@.segment().drop_last() =~= pre.segment());
            assert(self@.history.last() == request);
        }
    }

    /// The model answered in text.
    fn on_text(&mut self, text: String) -> (said: String)
        requires
            old(self).wf(),
            old(self)@.phase is AwaitingCompletion,
        ensures
            final(self).wf(),
            said@ == text@,
            final(self)@ == (LoopView {
                usage: old(self)@.usage.after(
                    prompt_text_spec(old(self)@.preamble, old(self)@.history),
                    text@,
                ),
                iteration_count: old(self)@.iterations,
                history: old(self)@.history.push(MessageView::AssistantText(text@)),
                ..old(self)@.closed()
            }),
            completed_turn(final(self)@.segment()),
    {
        let ghost pre = self@;
        let prompt = prompt_text(self.preamble.as_str(), &self.chat_history);
        self.token_usage.add_estimated(prompt.as_str(), text.as_str());
        self.close();
        self.iteration_count = self.iterations;
        let said = text.clone();
        self.chat_history.push(Message::AssistantText(text));
        let n = self.chat_history.len();
        proof {
            let said_view = MessageView::AssistantText(text@);
            assert(self@.history =~= pre.history.push(said_view));
            assert(self@.segment() =~= pre.segment().push(said_view));
            assert(self@.segment().drop_last() =~= pre.segment());
        }
        said
    }

    /// The model answered, or the request failed.
    fn on_completion(&mut self, answer: Result<CompletionOutcome, String>) -> (action: LoopAction)
        requires
            old(self).wf(),
        ensures
            final(self).wf(),
            step_post(old(self)@, LoopEvent::Completion(answer), 0, final(self)@, action),
            action matches LoopAction::Finish(Ok(_)) ==> completed_turn(final(self)@.segment()),
    {
        if self.phase != Phase::AwaitingCompletion {
            return LoopAction::Unexpected;
        }
        match answer {
            Err(detail) => {
                self.close();
                LoopAction::Finish(
                    Err(TurnError::CompletionFailed { streamed: self.streaming, detail }),
                )
            },
            Ok(outcome) => {
                if outcome.tool_calls.len() > 0 {
                    self.on_tool_calls(outcome);
                    LoopAction::Proceed
                } else {
                    match outcome.text {
                        Some(text) => {
                            let said = self.on_text(text);
                            LoopAction::Finish(Ok(said))
                        },
                        None => {
                            self.close();
                            LoopAction::Finish(Err(TurnError::EmptyResponse))
                        },
                    }
                }
            },
        }
    }

    /// The user decided on the call at hand.
    fn on_decision(&mut self, decision: Option<PermissionDecision>, now: u64) -> (action:
        LoopAction)
        requires
            old(self).wf(),
        ensures
            final(self).wf(),
            step_post(old(self)@, LoopEvent::Decision(decision), now, final(self)@, action),
            !(action matches LoopAction::Finish(Ok(_))),
    {
        let ghost pre = self@;
        if self.phase != Phase::AwaitingDecision {
            return LoopAction::Unexpected;
        }
        match decision {
            Some(PermissionDecision::ApproveOnce) => self.check_danger(now),
            Some(PermissionDecision::ApproveAll) => {
                let tool = self.call_ref().name.clone();
                self.approved_tools.insert(tool, ());
                proof {
                    assert(self@ =~= (LoopView {
                        approved: pre.approved.insert(pre.call().name),
                        ..pre
                    }));
                }
                self.check_danger(now)
            },
            _ => {
                self.close();
                LoopAction::Finish(Err(TurnError::RejectedByUser))
            },
        }
    }

    /// The user confirmed a dangerous operation, or did not.
    fn on_confirmed(&mut self, confirmed: Option<bool>, now: u64) -> (action: LoopAction)
        requires
            old(self).wf(),
        ensures
            final(self).wf(),
            step_post(old(self)@, LoopEvent::Confirmed(confirmed), now, final(self)@, action),
            !(action matches LoopAction::Finish(Ok(_))),
    {
        if self.phase != Phase::AwaitingConfirm {
            return LoopAction::Unexpected;
        }
        let yes = match confirmed {
            Some(b) => b,
            None => false,
        };
        if yes {
            self.run_stage(now)
        } else {
            let about_command = str_eq(self.call_ref().name.as_str(), "bash");
            self.close();
            if about_command {
                LoopAction::Finish(Err(TurnError::DangerousCommandRejected))
            } else {
                LoopAction::Finish(Err(TurnError::DangerousWriteRejected))
            }
        }
    }

    /// Takes the event `event`, which happened at the time `now` in
    /// milliseconds of the caller's clock, moves to the next state, and
    /// says what is to be done next. An event that the loop does not wait
    /// for changes nothing.
    pub fn step(&mut self, event: LoopEvent, now: u64) -> (action: LoopAction)
        requires
            old(self).wf(),
        ensures
            final(self).wf(),
            step_post(old(self)@, event, now, final(self)@, action),
            action matches LoopAction::Finish(Ok(_)) ==> completed_turn(final(self)@.segment()),
    {
        match event {
            LoopEvent::Start { input } => self.on_start(input),
            LoopEvent::Retrieved(found) => self.on_retrieved(found),
            LoopEvent::CancelState(cancelled) => self.on_cancel_state(cancelled),
            LoopEvent::Completion(answer) => self.on_completion(answer),
            LoopEvent::Proceed => {
                if self.phase != Phase::Gating {
                    return LoopAction::Unexpected;
                }
                self.gate(now)
            },
            LoopEvent::Decision(decision) => self.on_decision(decision, now),
            LoopEvent::Confirmed(confirmed) => self.on_confirmed(confirmed, now),
            LoopEvent::ToolFinished { result, created } => {
                if self.phase != Phase::AwaitingTool {
                    return LoopAction::Unexpected;
                }
                self.settle(result, false, created, now)
            },
        }
    }
}


// ---------------------------------------------------------------------------
// Delegation
// ---------------------------------------------------------------------------

/// How a delegation ended.
#[derive(Debug)]
pub enum DelegationOutcome {
    /// The sub-agent answered.
    Completed { response: String, files_changed: usize, iterations: usize },
    /// The turn of the sub-agent failed with the given text.
    Failed(String),
    /// The sub-agent was given up after the given number of seconds.
    TimedOut(u64),
}

/// The system prompt of a sub-agent: that of its parent, and after it, set
/// off by an empty line, what the call adds.
pub open spec fn child_preamble(parent: Seq<char>, append: Option<Seq<char>>) -> Seq<char> {
    match append {
        Some(a) => parent + "\n\n"@ + a,
        None => parent,
    }
}

/// What goes back to the parent as the result of a delegation.
pub open spec fn delegation_result_spec(outcome: DelegationOutcome) -> Result<
    Seq<char>,
    ToolErrorView,
> {
    match outcome {
        DelegationOutcome::Completed { response, files_changed, iterations } => Ok(
            "Sub-agent completed successfully.\nResult: "@ + response@ + "\nFiles changed: "@
                + decimal_spec(files_changed as nat) + "\nIterations used: "@ + decimal_spec(
                iterations as nat,
            ),
        ),
        DelegationOutcome::Failed(e) => Err(ToolErrorView::Other("Sub-agent failed: "@ + e@)),
        DelegationOutcome::TimedOut(secs) => Err(
            ToolErrorView::Other(
                "Sub-agent timed out after "@ + decimal_spec(secs as nat) + " seconds"@,
            ),
        ),
    }
}

/// What goes back to the parent as the result of a delegation: a summary
/// of a turn that gave an answer, and an error for one that failed or ran
/// out of time.
pub fn delegation_result(outcome: DelegationOutcome) -> (r: Result<String, ToolError>)
    ensures
        outcome_view(r) == delegation_result_spec(outcome),
{
    match outcome {
        DelegationOutcome::Completed { response, files_changed, iterations } => {
            let mut out = chars_of("Sub-agent completed successfully.\nResult: ");
            extend_str(&mut out, response.as_str());
            extend_str(&mut out, "\nFiles changed: ");
            push_decimal(&mut out, files_changed as u64);
            extend_str(&mut out, "\nIterations used: ");
            push_decimal(&mut out, iterations as u64);
            Ok(string_of(&out))
        },
        DelegationOutcome::Failed(e) => Err(
            ToolError::Other(joined("Sub-agent failed: ", e.as_str())),
        ),
        DelegationOutcome::TimedOut(secs) => {
            let mut out = chars_of("Sub-agent timed out after ");
            push_decimal(&mut out, secs);
            extend_str(&mut out, " seconds");
            Err(ToolError::Other(string_of(&out)))
        },
    }
}

/// The seconds that a delegation is given.
pub fn delegation_timeout_secs(args: &SpawnAgentArgs) -> (secs: u64)
    ensures
        secs == match args.timeout_secs {
            Some(s) => s,
            None => DEFAULT_DELEGATION_TIMEOUT_SECS,
        },
{
    match args.timeout_secs {
        Some(s) => s,
        None => DEFAULT_DELEGATION_TIMEOUT_SECS,
    }
}

impl AgentLoop {
    /// Sets up the loop of a sub-agent for a delegation. The sub-agent
    /// stands one level deeper, works in the same directory under the same
    /// grants, starts with an empty history and does not stream. Tools that
    /// the user approved for good in this loop are not approved in the new
    /// one. No loop is set up at the deepest level.
    #[verifier::rlimit(60)]
    pub fn spawn_child(&self, args: &SpawnAgentArgs) -> (r: Result<AgentLoop, ToolError>)
        requires
            self.wf(),
        ensures
            match r {
                Ok(child) => {
                    &&& self@.depth < MAX_DEPTH
                    &&& child.wf()
                    &&& child@ == (LoopView {
                        interactive: self@.interactive,
                        max_iterations: match args.max_iterations {
                            Some(n) => n,
                            None => DEFAULT_SUBAGENT_MAX_ITERATIONS,
                        },
                        ..fresh_view(
                            child_preamble(self@.preamble, opt_view(args.preamble_append)),
                            self@.confirm_dangerous,
                            false,
                            self@.working_directory,
                            self@.context_size,
                            self@.retrieval,
                            self@.memory,
                            self@.session_id,
                            (self@.depth + 1) as usize,
                            self@.grants_all,
                            self@.skip_confirmations,
                            self@.dry_run,
                            self@.granted,
                            self@.model_name,
                            child@.agent_id,
                        )
                    })
                },
                Err(e) => self@.depth >= MAX_DEPTH && e@ == ToolErrorView::Other(
                    depth_exceeded_text(),
                ),
            },
    {
        if self.depth >= MAX_DEPTH {
            return Err(
                ToolError::other("Maximum agent depth (3) reached. Cannot spawn more sub-agents."),
            );
        }
        let preamble = match &args.preamble_append {
            Some(append) => crate::text::joined3(self.preamble.as_str(), "\n\n", append.as_str()),
            None => self.preamble.clone(),
        };
        let mut child = AgentLoop::new(
            preamble,
            self.confirm_dangerous,
            false,
            self.working_directory.clone(),
            self.context_size,
            self.retrieval,
            self.memory,
            copy_opt(&self.session_id),
            self.depth + 1,
            self.permissions.duplicate(),
            self.model_name.clone(),
        );
        let ghost made = child@;
        match args.max_iterations {
            Some(n) => {
                child.set_max_iterations(n);
            },
            None => {},
        }
        let ghost limited = child@;
        assert(limited == (LoopView {
            max_iterations: match args.max_iterations {
                Some(n) => n,
                None => DEFAULT_SUBAGENT_MAX_ITERATIONS,
            },
            ..made
        }));
        child.set_interactive(self.interactive);
        child.set_agent_id(fresh_id());
        assert(child@ == (LoopView {
            interactive: self@.interactive,
            agent_id: child@.agent_id,
            ..limited
        }));
        Ok(child)
    }
}

// ---------------------------------------------------------------------------
// What holds of every step
// ---------------------------------------------------------------------------

/// The number of requests to call tools among the messages.
pub open spec fn count_requests(segment: Seq<MessageView>) -> nat
    decreases segment.len(),
{
    if segment.len() == 0 {
        0
    } else {
        count_requests(segment.drop_last()) + if segment.last() is AssistantToolCalls {
            1nat
        } else {
            0nat
        }
    }
}

/// The number of messages with tool results among the messages.
pub open spec fn count_answers(segment: Seq<MessageView>) -> nat
    decreases segment.len(),
{
    if segment.len() == 0 {
        0
    } else {
        count_answers(segment.drop_last()) + if segment.last() is ToolResults {
            1nat
        } else {
            0nat
        }
    }
}

/// In a turn that waits for the model there are as many requests to call
/// tools as there are messages with results.
pub proof fn lemma_open_turn_counts(segment: Seq<MessageView>)
    requires
        open_turn(segment),
    ensures
        count_requests(segment) == count_answers(segment),
        count_requests(segment) == (segment.len() - 1) / 2,
    decreases segment.len(),
{
    reveal(open_turn);
    if segment.len() == 1 {
        assert(segment.drop_last().len() == 0);
        assert(count_requests(segment.drop_last()) == 0);
        assert(count_answers(segment.drop_last()) == 0);
    } else {
        let n = segment.len() as int;
        let answer = segment[n - 1];
        let request = segment[n - 2];
        assert(is_exchange(request, answer));
        let shorter = segment.drop_last().drop_last();
        assert(shorter.len() == n - 2);
        assert(shorter[0] == segment[0]);
        assert forall|i: int| 1 <= i < shorter.len() && i % 2 == 0 implies is_exchange(
            shorter[i - 1],
            #[trigger] shorter[i],
        ) by {
            assert(shorter[i] == segment[i]);
            assert(shorter[i - 1] == segment[i - 1]);
        }
        assert(open_turn(shorter));
        lemma_open_turn_counts(shorter);
        let middle = segment.drop_last();
        assert(middle.last() == request);
        assert(middle.drop_last() == shorter);
        assert(count_requests(middle) == count_requests(shorter) + 1);
        assert(count_answers(middle) == count_answers(shorter));
        assert(count_requests(segment) == count_requests(middle));
        assert(count_answers(segment) == count_answers(middle) + 1);
    }
}

/// In the messages of a turn that ended with an answer in text, the
/// instruction comes first and the answer last; between them a request to
/// call tools and the message with its results take turns, beginning with
/// a request; each message of results holds one result for each call of
/// the request before it, in order; and there are as many requests as
/// there are messages of results.
pub proof fn law_turn_alternates(segment: Seq<MessageView>)
    requires
        completed_turn(segment),
    ensures
        segment[0] is UserText,
        segment.last() is AssistantText,
        forall|i: int|
            1 <= i < segment.len() - 1 ==> if i % 2 == 1 {
                (#[trigger] segment[i]) is AssistantToolCalls
            } else {
                segment[i] is ToolResults && is_exchange(segment[i - 1], segment[i])
            },
        count_requests(segment) == count_answers(segment),
{
    reveal(open_turn);
    let body = segment.drop_last();
    lemma_open_turn_counts(body);
    assert(body[0] == segment[0]);
    assert forall|i: int| 1 <= i < segment.len() - 1 implies if i % 2 == 1 {
        (#[trigger] segment[i]) is AssistantToolCalls
    } else {
        segment[i] is ToolResults && is_exchange(segment[i - 1], segment[i])
    } by {
        if i % 2 == 1 {
            assert(is_exchange(body[i], body[i + 1]));
            assert(body[i] == segment[i]);
        } else {
            assert(is_exchange(body[i - 1], body[i]));
            assert(body[i] == segment[i]);
            assert(body[i - 1] == segment[i - 1]);
        }
    }
}

/// No step takes anything out of the history: a step leaves it as it was
/// or puts one message at its end.
pub proof fn law_history_grows(
    pre: LoopView,
    event: LoopEvent,
    now: u64,
    post: LoopView,
    action: LoopAction,
)
    requires
        step_post(pre, event, now, post, action),
    ensures
        post.history == pre.history || post.history == pre.history.push(post.history.last()),
        post.history.len() >= pre.history.len(),
        post.history.subrange(0, pre.history.len() as int) == pre.history,
{
    if post.history != pre.history {
        assert(post.history.len() == pre.history.len() + 1);
        assert(post.history.drop_last() == pre.history);
        assert(post.history =~= pre.history.push(post.history.last()));
    }
    assert(post.history.subrange(0, pre.history.len() as int) =~= pre.history);
}

/// No step changes the setup of a loop or its grants, and no step takes
/// back an approval that the user gave for good.
pub proof fn law_setup_kept(
    pre: LoopView,
    event: LoopEvent,
    now: u64,
    post: LoopView,
    action: LoopAction,
)
    requires
        step_post(pre, event, now, post, action),
    ensures
        post.preamble == pre.preamble,
        post.working_directory == pre.working_directory,
        post.depth == pre.depth,
        post.agent_id == pre.agent_id,
        post.interactive == pre.interactive,
        post.confirm_dangerous == pre.confirm_dangerous,
        post.grants_all == pre.grants_all,
        post.skip_confirmations == pre.skip_confirmations,
        post.dry_run == pre.dry_run,
        post.granted == pre.granted,
        pre.approved.subset_of(post.approved),
        forall|name: Seq<char>| post.authorizes(name) == pre.authorizes(name),
{
}

/// Every step keeps the shape of the history that its phase calls for, and
/// a step that ends a turn with an answer leaves the messages of a
/// completed turn. This holds of every state that a machine can hold: one
/// whose history has room for one message more, and whose tool calls can
/// be counted.
pub proof fn law_shape_kept(
    pre: LoopView,
    event: LoopEvent,
    now: u64,
    post: LoopView,
    action: LoopAction,
)
    requires
        pre.inv(),
        pre.history.len() < usize::MAX,
        pre.calls().len() <= usize::MAX,
        step_post(pre, event, now, post, action),
    ensures
        post.inv(),
        action matches LoopAction::Finish(Ok(_)) ==> completed_turn(post.segment()),
{
    reveal(open_turn);
    let seg = pre.segment();
    let seg2 = post.segment();
    if post.history == pre.history {
        if post.turn_start == pre.turn_start {
            assert(seg2 == seg);
            assert(post.calls() == pre.calls());
            if post.handling_calls() && pre.handling_calls() && post.cursor == pre.cursor + 1 {
                assert forall|j: int| 0 <= j < post.cursor implies (#[trigger] post.results[j]).call_id
                    == post.calls()[j].id by {
                    if j < pre.cursor {
                        assert(post.results[j] == pre.results[j]);
                    }
                }
            }
        }
    } else {
        law_history_grows(pre, event, now, post, action);
        let added = post.history.last();
        assert(post.history == pre.history.push(added));
        if post.turn_start == pre.turn_start && pre.turn_start < pre.history.len() {
            assert(seg2 =~= seg.push(added));
            assert(seg2.drop_last() =~= seg);
            if pre.handling_calls() {
                let listed = post.history.last()->ToolResults_0;
                assert(seg.last() == pre.history.last());
                assert forall|j: int| 0 <= j < pre.calls().len() implies (#[trigger] listed[j]).call_id
                    == pre.calls()[j].id by {
                    if j < pre.cursor {
                        assert(listed[j] == pre.results[j]);
                    }
                }
                assert(is_exchange(seg.last(), added));
                assert forall|i: int| 1 <= i < seg2.len() && i % 2 == 0 implies is_exchange(
                    seg2[i - 1],
                    #[trigger] seg2[i],
                ) by {
                    if i < seg.len() - 1 {
                        assert(seg.drop_last()[i] == seg2[i]);
                        assert(seg.drop_last()[i - 1] == seg2[i - 1]);
                    } else {
                        assert(seg2[i - 1] == seg.last());
                    }
                }
                assert(seg2[0] == seg.drop_last()[0]);
            }
        } else {
            assert(seg2 =~= seq![added]);
        }
    }
}

/// No step takes the count of iterations past the limit or changes the
/// limit; the count grows by one at a time, and it goes back to zero only
/// where a turn begins.
pub proof fn law_iterations_bounded(
    pre: LoopView,
    event: LoopEvent,
    now: u64,
    post: LoopView,
    action: LoopAction,
)
    requires
        step_post(pre, event, now, post, action),
        pre.iterations <= pre.max_iterations,
    ensures
        post.max_iterations == pre.max_iterations,
        post.iterations <= post.max_iterations,
        post.iterations == pre.iterations || post.iterations == pre.iterations + 1 || (event is Start
            && post.iterations == 0),
        post.iteration_count != pre.iteration_count ==> post.iteration_count == pre.iterations,
{
}

/// Only a step that ends a turn with an answer touches the counters of
/// tokens; it lowers none of them, and it counts one request more as long
/// as that number can grow.
pub proof fn law_requests_counted(
    pre: LoopView,
    event: LoopEvent,
    now: u64,
    post: LoopView,
    action: LoopAction,
)
    requires
        step_post(pre, event, now, post, action),
    ensures
        !(action matches LoopAction::Finish(Ok(_))) ==> post.usage == pre.usage,
        post.usage.prompt_tokens >= pre.usage.prompt_tokens,
        post.usage.completion_tokens >= pre.usage.completion_tokens,
        post.usage.total_tokens >= pre.usage.total_tokens,
        post.usage.request_count >= pre.usage.request_count,
        action matches LoopAction::Finish(Ok(_)) && pre.usage.request_count < usize::MAX
            ==> post.usage.request_count == pre.usage.request_count + 1,
{
}

/// A write that succeeded is on record as the driver found the file: a
/// file that was not there before the write as created, one that was
/// there as modified, at the time of the step and under the normalized
/// path.
pub proof fn law_write_on_record(
    pre: LoopView,
    result: Result<String, ToolError>,
    created: bool,
    now: u64,
    post: LoopView,
    action: LoopAction,
    path: Seq<char>,
)
    requires
        step_post(pre, LoopEvent::ToolFinished { result, created }, now, post, action),
        pre.phase is AwaitingTool,
        result is Ok,
        pre.call().name == "write_file"@,
        pre.call().arguments.str_field("file_path"@) == Some(path),
    ensures
        post.changes.dom().contains(normalized(pre.working_directory, path)),
        post.changes[normalized(pre.working_directory, path)] == (
            if created {
                FileOperation::Created
            } else {
                FileOperation::Modified
            },
            now,
        ),
{
}

/// No dangerous call is handed out to be run without a confirmation of
/// its own: where the check for danger has a question about the call at
/// hand, only the step that takes the confirmation hands the call out.
pub proof fn law_danger_needs_confirmation(
    pre: LoopView,
    event: LoopEvent,
    now: u64,
    post: LoopView,
    action: LoopAction,
)
    requires
        step_post(pre, event, now, post, action),
        pre.handling_calls(),
        danger_question_spec(pre) is Some,
        action is RunTool,
    ensures
        pre.phase is AwaitingConfirm,
        event == LoopEvent::Confirmed(Some(true)),
{
}

/// Under simulation no step hands a tool out to be run, and what stands in
/// for the output of a tool begins with the mark of a simulation.
pub proof fn law_dry_run_runs_nothing(
    pre: LoopView,
    event: LoopEvent,
    now: u64,
    post: LoopView,
    action: LoopAction,
)
    requires
        step_post(pre, event, now, post, action),
        pre.dry_run,
    ensures
        !(action is RunTool),
        post.dry_run,
        forall|name: Seq<char>, arguments: ArgValue|
            crate::text::has_prefix(#[trigger] dry_run_text(name, arguments), "[DRY RUN]"@),
{
    assert forall|name: Seq<char>, arguments: ArgValue|
        crate::text::has_prefix(#[trigger] dry_run_text(name, arguments), "[DRY RUN]"@) by {
        reveal_strlit("[DRY RUN] Would execute tool '");
        reveal_strlit("[DRY RUN]");
        let text = dry_run_text(name, arguments);
        assert(text.subrange(0, "[DRY RUN]"@.len() as int) =~= "[DRY RUN]"@);
    }
}

/// A delegation is refused at the deepest level and at no other: there the
/// dispatch gives the error whatever the payload holds, and above it the
/// payload alone decides.
pub proof fn law_delegation_depth(arguments: ArgValue, depth: usize)
    ensures
        depth >= MAX_DEPTH ==> dispatch_fault("delegate"@, arguments, depth) == Some(
            ToolErrorView::Other(depth_exceeded_text()),
        ),
        depth < MAX_DEPTH ==> dispatch_fault("delegate"@, arguments, depth)
            == SpawnAgentArgs::fault_of(arguments),
{
    reveal_strlit("delegate");
    assert("delegate"@[0] == 'd');
    reveal_strlit("read_file");
    assert("read_file"@[0] == 'r');
    reveal_strlit("write_file");
    assert("write_file"@[0] == 'w');
    reveal_strlit("edit_file");
    assert("edit_file"@[0] == 'e');
    reveal_strlit("list_dir");
    assert("list_dir"@[0] == 'l');
    reveal_strlit("bash");
    assert("bash"@[0] == 'b');
    reveal_strlit("grep");
    assert("grep"@[0] == 'g');
    reveal_strlit("glob");
    assert("glob"@[0] == 'g');
    reveal_strlit("bash_status");
    assert("bash_status"@[0] == 'b');
    reveal_strlit("bash_output");
    assert("bash_output"@[0] == 'b');
    reveal_strlit("bash_kill");
    assert("bash_kill"@[0] == 'b');
    reveal_strlit("bash_list");
    assert("bash_list"@[0] == 'b');
    reveal_strlit("web_fetch");
    assert("web_fetch"@[0] == 'w');
    reveal_strlit("web_search");
    assert("web_search"@[0] == 'w');
    reveal_strlit("math_calc");
    assert("math_calc"@[0] == 'm');
    reveal_strlit("store_key_memory");
    assert("store_key_memory"@[0] == 's');
    reveal_strlit("search_routine_memory");
    assert("search_routine_memory"@[0] == 's');
    reveal_strlit("search_key_memory");
    assert("search_key_memory"@[0] == 's');
}

} // verus!
