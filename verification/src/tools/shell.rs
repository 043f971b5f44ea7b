//! The tools that run commands and look after background processes.

use vstd::prelude::*;
use crate::error::{ToolError, ToolErrorView};
use crate::process_manager::{
    kill_outcome, not_found_text, not_running_text, ProcessInfo, ProcessInfoView, ProcessManager,
    ProcessStatus,
};
use crate::text::{
    chars_of, joined3, extend_chars, extend_str, push_decimal, decimal_spec, push_signed_decimal,
    signed_decimal_spec, string_of,
};
use crate::tool_args::{BashArgs, BashKillArgs, BashOutputArgs, BashStatusArgs};

verus! {

/// The seconds that a foreground command is given where the call sets no
/// time.
pub const DEFAULT_COMMAND_TIMEOUT_SECS: u64 = 600;

/// How chrono writes the time that lies `secs` seconds after the epoch, in
/// UTC and in the form `%Y-%m-%d %H:%M:%S UTC`; nothing for a number of
/// seconds that is out of chrono's range.
pub uninterp spec fn utc_text_of(secs: i64) -> Option<Seq<char>>;

/// `chrono::DateTime::from_timestamp` with no nanoseconds, followed by
/// `format` with `%Y-%m-%d %H:%M:%S UTC`. The result is named by
/// [`utc_text_of`]; nothing else is claimed of it.
#[verifier::external_body]
fn utc_text(secs: i64) -> (r: Option<String>)
    ensures
        crate::tool_args::opt_view(r) == utc_text_of(secs),
{
    match chrono::DateTime::from_timestamp(secs, 0) {
        Some(t) => Some(t.format("%Y-%m-%d %H:%M:%S UTC").to_string()),
        None => None,
    }
}

/// How a start time is shown: as a date and a time of day in UTC, or as
/// the number of seconds where the date cannot be had.
pub open spec fn start_time_text(secs: i64) -> Seq<char> {
    match utc_text_of(secs) {
        Some(t) => t,
        None => signed_decimal_spec(secs as int),
    }
}

/// How a start time is shown, where `date` is the date and the time of
/// day that stand for it, if any do.
pub fn shown_start_time(secs: i64, date: Option<String>) -> (r: String)
    ensures
        r@ == match date {
            Some(t) => t@,
            None => signed_decimal_spec(secs as int),
        },
{
    match date {
        Some(t) => t,
        None => {
            let mut v: Vec<char> = Vec::new();
            push_signed_decimal(&mut v, secs);
            string_of(&v)
        },
    }
}

/// How a start time is shown.
pub fn start_time(secs: i64) -> (r: String)
    ensures
        r@ == start_time_text(secs),
{
    shown_start_time(secs, utc_text(secs))
}

/// The word for how a process stands.
pub open spec fn status_word(status: ProcessStatus) -> Seq<char> {
    match status {
        ProcessStatus::Running => "Running"@,
        ProcessStatus::Completed => "Completed"@,
        ProcessStatus::Failed => "Failed"@,
    }
}

/// The words for how a process stands, within a sentence.
pub open spec fn status_phrase(status: ProcessStatus) -> Seq<char> {
    match status {
        ProcessStatus::Running => "still running"@,
        ProcessStatus::Completed => "completed"@,
        ProcessStatus::Failed => "failed"@,
    }
}

fn status_name(status: ProcessStatus) -> (r: &'static str)
    ensures
        r@ == status_word(status),
{
    match status {
        ProcessStatus::Running => "Running",
        ProcessStatus::Completed => "Completed",
        ProcessStatus::Failed => "Failed",
    }
}

/// The text of the error of a tool for an id that the registry does not
/// know.
pub open spec fn unknown_process_text(id: Seq<char>) -> Seq<char> {
    "Process "@ + id + " not found. It may have been cleaned up or the ID is incorrect."@
}

fn unknown_process(id: &str) -> (e: ToolError)
    ensures
        e@ == ToolErrorView::Other(unknown_process_text(id@)),
{
    ToolError::Other(
        joined3("Process ", id, " not found. It may have been cleaned up or the ID is incorrect."),
    )
}

// ---------------------------------------------------------------------------
// bash
// ---------------------------------------------------------------------------

/// The tool that runs a command.
#[derive(Debug, Default)]
pub struct BashCommand;

/// What `bash` gives for a command that was started in the background.
pub open spec fn background_started_text(id: Seq<char>, command: Seq<char>) -> Seq<char> {
    "Background process started with ID: "@ + id + "\nCommand: "@ + command
        + "\nUse bash_status to check progress, bash_output to get output, or bash_kill to terminate."@
}

/// What a command printed, both streams together.
pub open spec fn combined_output(stdout: Seq<char>, stderr: Seq<char>) -> Seq<char> {
    if stdout.len() == 0 && stderr.len() == 0 {
        "(no output)"@
    } else if stderr.len() == 0 {
        stdout
    } else if stdout.len() == 0 {
        stderr
    } else {
        stdout + "\n--- stderr ---\n"@ + stderr
    }
}

/// What `bash` gives for a command that ran in the foreground: what it
/// printed, and its exit code where it ended without success; -1 stands
/// for a code that is not known.
pub open spec fn bash_text(stdout: Seq<char>, stderr: Seq<char>, success: bool, code: Option<i32>)
    -> Seq<char> {
    if success {
        combined_output(stdout, stderr)
    } else {
        combined_output(stdout, stderr) + "\n[Exit code: "@ + signed_decimal_spec(
            match code {
                Some(c) => c as int,
                None => -1,
            },
        ) + "]"@
    }
}

impl BashCommand {
    /// The name of the tool.
    pub fn name() -> (r: &'static str)
        ensures
            r@ == "bash"@,
    {
        "bash"
    }

    /// Whether the command is to run in the background.
    pub fn in_background(args: &BashArgs) -> (r: bool)
        ensures
            r == (args.background == Some(true)),
    {
        match args.background {
            Some(b) => b,
            None => false,
        }
    }

    /// The seconds that the command is given in the foreground.
    pub fn timeout_secs(args: &BashArgs) -> (r: u64)
        ensures
            r == match args.timeout_secs {
                Some(s) => s,
                None => DEFAULT_COMMAND_TIMEOUT_SECS,
            },
    {
        match args.timeout_secs {
            Some(s) => s,
            None => DEFAULT_COMMAND_TIMEOUT_SECS,
        }
    }

    /// What the tool gives for a command that was started in the
    /// background under the id `id`.
    pub fn background_started(id: &str, command: &str) -> (r: String)
        ensures
            r@ == background_started_text(id@, command@),
    {
        let mut out = chars_of("Background process started with ID: ");
        extend_str(&mut out, id);
        extend_str(&mut out, "\nCommand: ");
        extend_str(&mut out, command);
        extend_str(
            &mut out,
            "\nUse bash_status to check progress, bash_output to get output, or bash_kill to terminate.",
        );
        string_of(&out)
    }

    /// What the tool gives for a command that ran in the foreground.
    pub fn render(stdout: &str, stderr: &str, success: bool, code: Option<i32>) -> (r: String)
        ensures
            r@ == bash_text(stdout@, stderr@, success, code),
    {
        let o = chars_of(stdout);
        let e = chars_of(stderr);
        let mut out: Vec<char> = if o.len() == 0 && e.len() == 0 {
            chars_of("(no output)")
        } else if e.len() == 0 {
            o
        } else if o.len() == 0 {
            e
        } else {
            let mut both = o;
            extend_str(&mut both, "\n--- stderr ---\n");
            extend_chars(&mut both, &e);
            both
        };
        if !success {
            let mut tail = chars_of("\n[Exit code: ");
            let shown: i64 = match code {
                Some(c) => c as i64,
                None => -1,
            };
            push_signed_decimal(&mut tail, shown);
            extend_str(&mut tail, "]");
            let ghost head = out@;
            extend_chars(&mut out, &tail);
            assert(out@ =~= head + "\n[Exit code: "@ + signed_decimal_spec(shown as int) + "]"@);
        }
        string_of(&out)
    }
}

// ---------------------------------------------------------------------------
// bash_status
// ---------------------------------------------------------------------------

/// The tool that says how a background process stands.
#[derive(Debug, Default)]
pub struct BashStatus;

/// The line with the exit code, where there is one.
pub open spec fn exit_code_line(code: Option<i32>, before: Seq<char>, after: Seq<char>) -> Seq<
    char,
> {
    match code {
        Some(c) => before + signed_decimal_spec(c as int) + after,
        None => Seq::empty(),
    }
}

fn exit_code_text(code: Option<i32>, before: &str, after: &str) -> (r: Vec<char>)
    ensures
        r@ == exit_code_line(code, before@, after@),
{
    match code {
        Some(c) => {
            let mut v = chars_of(before);
            push_signed_decimal(&mut v, c as i64);
            extend_str(&mut v, after);
            v
        },
        None => Vec::new(),
    }
}

/// What `bash_status` gives for a process on record whose start time is
/// shown as `started`.
pub open spec fn status_text_with(p: ProcessInfoView, started: Seq<char>) -> Seq<char> {
    "Process ID: "@ + p.id + "\nCommand: "@ + p.command + "\nStatus: "@ + status_word(p.status)
        + "\nStart time: "@ + started + exit_code_line(p.exit_code, "\nExit code: "@, ""@)
}

/// What `bash_status` gives for a process on record.
pub open spec fn status_text(p: ProcessInfoView) -> Seq<char> {
    status_text_with(p, start_time_text(p.start_time))
}

impl BashStatus {
    /// The name of the tool.
    pub fn name() -> (r: &'static str)
        ensures
            r@ == "bash_status"@,
    {
        "bash_status"
    }

    /// What the tool gives for a process on record whose start time is
    /// shown as `started`.
    pub fn render_with(p: &ProcessInfo, started: &str) -> (r: String)
        ensures
            r@ == status_text_with(p@, started@),
    {
        let mut out = chars_of("Process ID: ");
        extend_str(&mut out, p.id.as_str());
        extend_str(&mut out, "\nCommand: ");
        extend_str(&mut out, p.command.as_str());
        extend_str(&mut out, "\nStatus: ");
        extend_str(&mut out, status_name(p.status));
        extend_str(&mut out, "\nStart time: ");
        extend_str(&mut out, started);
        extend_chars(&mut out, &exit_code_text(p.exit_code, "\nExit code: ", ""));
        string_of(&out)
    }

    /// What the tool gives for a process on record.
    pub fn render(p: &ProcessInfo) -> (r: String)
        ensures
            r@ == status_text(p@),
    {
        Self::render_with(p, start_time(p.start_time).as_str())
    }

    /// Says how the process of the call stands, as far as the registry
    /// knows.
    pub fn call(manager: &ProcessManager, args: &BashStatusArgs) -> (r: Result<String, ToolError>)
        requires
            manager.wf(),
        ensures
            match r {
                Ok(text) => manager@.dom().contains(args.process_id@) && text@ == status_text(
                    manager@[args.process_id@],
                ),
                Err(e) => !manager@.dom().contains(args.process_id@) && e@
                    == ToolErrorView::Other(unknown_process_text(args.process_id@)),
            },
    {
        match manager.get_process(args.process_id.as_str()) {
            Some(p) => Ok(Self::render(&p)),
            None => Err(unknown_process(args.process_id.as_str())),
        }
    }
}

// ---------------------------------------------------------------------------
// bash_output
// ---------------------------------------------------------------------------

/// The tool that shows what a background process printed.
#[derive(Debug, Default)]
pub struct BashOutput;

/// One stream under its heading, where the stream is not empty.
pub open spec fn stream_section(heading: Seq<char>, text: Seq<char>) -> Seq<char> {
    if text.len() == 0 {
        Seq::empty()
    } else {
        heading + text + "\n"@
    }
}

/// What a background process printed so far, each stream under its
/// heading.
pub open spec fn streams_text(stdout: Seq<char>, stderr: Seq<char>) -> Seq<char> {
    if stdout.len() == 0 && stderr.len() == 0 {
        "(no output yet)"@
    } else {
        stream_section("=== STDOUT ===\n"@, stdout) + stream_section("=== STDERR ===\n"@, stderr)
    }
}

/// What `bash_output` gives for a process on record.
pub open spec fn output_text(p: ProcessInfoView) -> Seq<char> {
    streams_text(p.stdout, p.stderr) + "\n[Process "@ + p.id + " - "@ + status_phrase(p.status)
        + "]"@ + exit_code_line(p.exit_code, " [Exit code: "@, "]"@)
}

fn section(heading: &str, text: &str) -> (r: Vec<char>)
    ensures
        r@ == stream_section(heading@, text@),
{
    let t = chars_of(text);
    if t.len() == 0 {
        Vec::new()
    } else {
        let mut v = chars_of(heading);
        extend_chars(&mut v, &t);
        extend_str(&mut v, "\n");
        v
    }
}

impl BashOutput {
    /// The name of the tool.
    pub fn name() -> (r: &'static str)
        ensures
            r@ == "bash_output"@,
    {
        "bash_output"
    }

    /// What the tool gives for a process on record.
    pub fn render(p: &ProcessInfo) -> (r: String)
        ensures
            r@ == output_text(p@),
    {
        let mut out: Vec<char> = if chars_of(p.stdout.as_str()).len() == 0 && chars_of(
            p.stderr.as_str(),
        ).len() == 0 {
            chars_of("(no output yet)")
        } else {
            let mut v = section("=== STDOUT ===\n", p.stdout.as_str());
            extend_chars(&mut v, &section("=== STDERR ===\n", p.stderr.as_str()));
            v
        };
        extend_str(&mut out, "\n[Process ");
        extend_str(&mut out, p.id.as_str());
        extend_str(&mut out, " - ");
        let phrase = match p.status {
            ProcessStatus::Running => "still running",
            ProcessStatus::Completed => "completed",
            ProcessStatus::Failed => "failed",
        };
        extend_str(&mut out, phrase);
        extend_str(&mut out, "]");
        extend_chars(&mut out, &exit_code_text(p.exit_code, " [Exit code: ", "]"));
        string_of(&out)
    }

    /// Shows what the process of the call printed so far, as far as the
    /// registry kept it.
    pub fn call(manager: &ProcessManager, args: &BashOutputArgs) -> (r: Result<String, ToolError>)
        requires
            manager.wf(),
        ensures
            match r {
                Ok(text) => manager@.dom().contains(args.process_id@) && text@ == output_text(
                    manager@[args.process_id@],
                ),
                Err(e) => !manager@.dom().contains(args.process_id@) && e@
                    == ToolErrorView::Other(unknown_process_text(args.process_id@)),
            },
    {
        match manager.get_process(args.process_id.as_str()) {
            Some(p) => Ok(Self::render(&p)),
            None => Err(unknown_process(args.process_id.as_str())),
        }
    }
}

// ---------------------------------------------------------------------------
// bash_kill
// ---------------------------------------------------------------------------

/// The tool that ends a background process.
#[derive(Debug, Default)]
pub struct BashKill;

/// What `bash_kill` gives once the signal is sent.
pub open spec fn kill_sent_text(id: Seq<char>) -> Seq<char> {
    "Process "@ + id + " termination signal sent. Use bash_status to verify termination."@
}

impl BashKill {
    /// The name of the tool.
    pub fn name() -> (r: &'static str)
        ensures
            r@ == "bash_kill"@,
    {
        "bash_kill"
    }

    /// Which process of the system is to be sent the signal to end for the
    /// call: the one that the record names, or the error of the tool where
    /// the process is not on record, has ended, or has no known id.
    pub fn check(manager: &ProcessManager, args: &BashKillArgs) -> (r: Result<u32, ToolError>)
        requires
            manager.wf(),
        ensures
            match kill_outcome(manager@, args.process_id@) {
                Ok(pid) => r == Ok::<u32, ToolError>(pid),
                Err(text) => r matches Err(e) && e@ == ToolErrorView::Other(text),
            },
    {
        match manager.kill_process(args.process_id.as_str()) {
            Ok(pid) => Ok(pid),
            Err(text) => Err(ToolError::Other(text)),
        }
    }

    /// What the tool gives once the signal is sent.
    pub fn sent(args: &BashKillArgs) -> (r: String)
        ensures
            r@ == kill_sent_text(args.process_id@),
    {
        joined3(
            "Process ",
            args.process_id.as_str(),
            " termination signal sent. Use bash_status to verify termination.",
        )
    }
}

// ---------------------------------------------------------------------------
// bash_list
// ---------------------------------------------------------------------------

/// The tool that lists the background processes.
#[derive(Debug, Default)]
pub struct BashList;

/// One process as the list shows it, its start time shown as `started`.
pub open spec fn listed_process_with(p: ProcessInfoView, started: Seq<char>) -> Seq<char> {
    "ID: "@ + p.id + "\nCommand: "@ + p.command + "\nStatus: "@ + status_word(p.status)
        + "\nStarted: "@ + started + "\n"@ + exit_code_line(p.exit_code, "Exit code: "@, "\n"@)
        + "\n"@
}

/// One process as the list shows it.
pub open spec fn listed_process(p: ProcessInfoView) -> Seq<char> {
    listed_process_with(p, start_time_text(p.start_time))
}

/// The processes as the list shows them, one after the other.
pub open spec fn listed_processes(processes: Seq<ProcessInfo>) -> Seq<char>
    decreases processes.len(),
{
    if processes.len() == 0 {
        Seq::empty()
    } else {
        listed_processes(processes.drop_last()) + listed_process(processes.last()@)
    }
}

/// What `bash_list` gives for the processes on record.
pub open spec fn list_text(processes: Seq<ProcessInfo>) -> Seq<char> {
    if processes.len() == 0 {
        "No background processes running."@
    } else {
        "Background processes ("@ + decimal_spec(processes.len()) + ")\n\n"@ + listed_processes(
            processes,
        )
    }
}

/// One process as the list shows it, its start time shown as `started`.
pub fn listed_with(p: &ProcessInfo, started: &str) -> (r: String)
    ensures
        r@ == listed_process_with(p@, started@),
{
    let mut out = chars_of("ID: ");
    extend_str(&mut out, p.id.as_str());
    extend_str(&mut out, "\nCommand: ");
    extend_str(&mut out, p.command.as_str());
    extend_str(&mut out, "\nStatus: ");
    extend_str(&mut out, status_name(p.status));
    extend_str(&mut out, "\nStarted: ");
    extend_str(&mut out, started);
    extend_str(&mut out, "\n");
    extend_chars(&mut out, &exit_code_text(p.exit_code, "Exit code: ", "\n"));
    extend_str(&mut out, "\n");
    string_of(&out)
}

fn listed(p: &ProcessInfo) -> (r: Vec<char>)
    ensures
        r@ == listed_process(p@),
{
    chars_of(listed_with(p, start_time(p.start_time).as_str()).as_str())
}

impl BashList {
    /// The name of the tool.
    pub fn name() -> (r: &'static str)
        ensures
            r@ == "bash_list"@,
    {
        "bash_list"
    }

    /// What the tool gives for the given processes.
    pub fn render(processes: &Vec<ProcessInfo>) -> (r: String)
        ensures
            r@ == list_text(processes@),
    {
        if processes.len() == 0 {
            return "No background processes running.".to_owned();
        }
        let mut body: Vec<char> = Vec::new();
        let mut i: usize = 0;
        assert(processes@.take(0) =~= Seq::<ProcessInfo>::empty());
        while i < processes.len()
            invariant
                i <= processes@.len(),
                body@ == listed_processes(processes@.take(i as int)),
            decreases processes@.len() - i,
        {
            extend_chars(&mut body, &listed(&processes[i]));
            assert(processes@.take(i + 1).drop_last() == processes@.take(i as int));
            assert(processes@.take(i + 1).last() == processes@[i as int]);
            i += 1;
        }
        assert(processes@.take(processes@.len() as int) == processes@);
        let mut out = chars_of("Background processes (");
        push_decimal(&mut out, processes.len() as u64);
        extend_str(&mut out, ")\n\n");
        extend_chars(&mut out, &body);
        string_of(&out)
    }

    /// Lists the processes on record, in the order of their ids.
    pub fn call(manager: &ProcessManager) -> (r: String)
        requires
            manager.wf(),
        ensures
            exists|processes: Seq<ProcessInfo>|
                #![auto]
                processes.len() == manager.ids().len() && (forall|i: int|
                    0 <= i < processes.len() ==> (#[trigger] processes[i])@
                        == manager@[manager.ids()[i]]) && r@ == list_text(processes),
    {
        let processes = manager.list_processes();
        Self::render(&processes)
    }
}

} // verus!
