//! The registry of background processes.
//!
//! The registry keeps what is known of each process that was started in
//! the background: what it printed, capped to a fixed size, and how it
//! ended. It starts and reads nothing itself; whoever runs the processes
//! tells it of each line and of the end of each process.

use vstd::prelude::*;
use crate::ids::fresh_id;
use crate::names::NameMap;
use crate::text::{
    chars_of, joined3, extend_str, lemma_suffix_within, string_of_range, suffix_start,
    suffix_within, utf8_len,
};
use crate::tool_args::opt_view;

verus! {

/// The largest number of bytes kept of what a process printed to one
/// stream.
pub const MAX_OUTPUT_SIZE: usize = 102400;

/// How a background process stands.
#[derive(Debug, Clone, Copy, PartialEq, Eq, Structural)]
pub enum ProcessStatus {
    Running,
    Completed,
    Failed,
}

/// What is known of a background process. The start time is in seconds
/// since the epoch; `pid` is the id that the system gave the process, where
/// it is known.
#[derive(Debug, Clone)]
pub struct ProcessInfo {
    pub id: String,
    pub pid: Option<u32>,
    pub command: String,
    pub working_dir: Option<String>,
    pub status: ProcessStatus,
    pub stdout: String,
    pub stderr: String,
    pub exit_code: Option<i32>,
    pub start_time: i64,
}

/// What is known of a background process, over character sequences.
pub struct ProcessInfoView {
    pub id: Seq<char>,
    pub pid: Option<u32>,
    pub command: Seq<char>,
    pub working_dir: Option<Seq<char>>,
    pub status: ProcessStatus,
    pub stdout: Seq<char>,
    pub stderr: Seq<char>,
    pub exit_code: Option<i32>,
    pub start_time: i64,
}

impl View for ProcessInfo {
    type V = ProcessInfoView;

    open spec fn view(&self) -> ProcessInfoView {
        ProcessInfoView {
            id: self.id@,
            pid: self.pid,
            command: self.command@,
            working_dir: opt_view(self.working_dir),
            status: self.status,
            stdout: self.stdout@,
            stderr: self.stderr@,
            exit_code: self.exit_code,
            start_time: self.start_time,
        }
    }
}

impl ProcessInfoView {
    /// The record of a process that has just been started.
    pub open spec fn started(
        id: Seq<char>,
        command: Seq<char>,
        working_dir: Option<Seq<char>>,
        pid: Option<u32>,
        now: i64,
    ) -> ProcessInfoView {
        ProcessInfoView {
            id,
            pid,
            command,
            working_dir,
            status: ProcessStatus::Running,
            stdout: Seq::empty(),
            stderr: Seq::empty(),
            exit_code: None,
            start_time: now,
        }
    }

    /// Whether the process has ended.
    pub open spec fn ended(self) -> bool {
        !(self.status is Running)
    }

    /// The record once the process has ended with the given exit code. A
    /// process that had ended before stays as it was.
    pub open spec fn finished(self, exit_code: Option<i32>, success: bool) -> ProcessInfoView {
        if self.ended() {
            self
        } else {
            ProcessInfoView {
                exit_code,
                status: if success {
                    ProcessStatus::Completed
                } else {
                    ProcessStatus::Failed
                },
                ..self
            }
        }
    }

    /// Whether the record stays at a cleanup at the time `now` that lets
    /// ended processes be `max_age` seconds old.
    pub open spec fn kept(self, now: i64, max_age: i64) -> bool {
        self.status is Running || now - self.start_time < max_age
    }
}

/// A buffer after one more line: the line and a line feed at its end, and
/// of the whole the longest end that fits the cap.
pub open spec fn appended(buffer: Seq<char>, line: Seq<char>) -> Seq<char> {
    suffix_within(buffer + line + seq!['\n'], MAX_OUTPUT_SIZE as nat)
}

fn append_capped(buffer: &str, line: &str) -> (r: String)
    ensures
        r@ == appended(buffer@, line@),
        utf8_len(r@) <= MAX_OUTPUT_SIZE,
{
    let mut v = chars_of(buffer);
    extend_str(&mut v, line);
    v.push('\n');
    assert(v@ =~= buffer@ + line@ + seq!['\n']);
    let k = suffix_start(&v, MAX_OUTPUT_SIZE);
    proof {
        lemma_suffix_within(v@, MAX_OUTPUT_SIZE as nat);
    }
    string_of_range(&v, k, v.len())
}

fn copy_opt(o: &Option<String>) -> (r: Option<String>)
    ensures
        opt_view(r) == opt_view(*o),
{
    match o {
        Some(s) => Some(s.clone()),
        None => None,
    }
}

fn copy_info(p: &ProcessInfo) -> (r: ProcessInfo)
    ensures
        r@ == p@,
{
    ProcessInfo {
        id: p.id.clone(),
        pid: p.pid,
        command: p.command.clone(),
        working_dir: copy_opt(&p.working_dir),
        status: p.status,
        stdout: p.stdout.clone(),
        stderr: p.stderr.clone(),
        exit_code: p.exit_code,
        start_time: p.start_time,
    }
}

/// The text of the error for an id that the registry does not know.
pub open spec fn not_found_text(id: Seq<char>) -> Seq<char> {
    "Process "@ + id + " not found"@
}

/// The text of the error for a process that has ended.
pub open spec fn not_running_text(id: Seq<char>) -> Seq<char> {
    "Process "@ + id + " is not running"@
}

/// The text of the error for a process that cannot be put on record
/// because the id that was drawn for it is on record already.
pub open spec fn id_taken_text() -> Seq<char> {
    "Failed to spawn process: the id drawn for it is taken"@
}

/// The text of the error for a process that runs and whose id in the
/// system is not known.
pub open spec fn no_pid_text(id: Seq<char>) -> Seq<char> {
    "Failed to kill process: the system id of process "@ + id + " is not known"@
}

/// The view of what asking to end a process gave.
pub open spec fn kill_view(r: Result<u32, String>) -> Result<u32, Seq<char>> {
    match r {
        Ok(pid) => Ok(pid),
        Err(e) => Err(e@),
    }
}

/// What asking to end the process `id` gives in a registry with the
/// records `records`: the id that the system gave the process, where the
/// process is on record, runs, and has such an id; else the error.
pub open spec fn kill_outcome(records: Map<Seq<char>, ProcessInfoView>, id: Seq<char>) -> Result<
    u32,
    Seq<char>,
> {
    if !records.dom().contains(id) {
        Err(not_found_text(id))
    } else if records[id].ended() {
        Err(not_running_text(id))
    } else {
        match records[id].pid {
            Some(pid) => Ok(pid),
            None => Err(no_pid_text(id)),
        }
    }
}

/// The registry of background processes.
#[derive(Debug)]
pub struct ProcessManager {
    processes: NameMap<ProcessInfo>,
}

impl ProcessManager {
    /// The records are in the order of their ids, each stands under its own
    /// id, no buffer is over the cap, and a process that runs has no exit
    /// code.
    pub closed spec fn wf(&self) -> bool {
        &&& self.processes.wf()
        &&& forall|k: Seq<char>| #[trigger]
            self.processes@.dom().contains(k) ==> {
                &&& self.processes@[k].id@ == k
                &&& utf8_len(self.processes@[k].stdout@) <= MAX_OUTPUT_SIZE
                &&& utf8_len(self.processes@[k].stderr@) <= MAX_OUTPUT_SIZE
                &&& (self.processes@[k].status is Running ==> self.processes@[k].exit_code is None)
            }
    }

    /// The records by id.
    pub closed spec fn view(&self) -> Map<Seq<char>, ProcessInfoView> {
        Map::new(
            |k: Seq<char>| self.processes@.dom().contains(k),
            |k: Seq<char>| self.processes@[k]@,
        )
    }

    /// The ids on record, in the order of strings.
    pub closed spec fn ids(&self) -> Seq<Seq<char>> {
        self.processes.keys()
    }

    /// What the registry promises of every record.
    pub proof fn lemma_records(&self)
        requires
            self.wf(),
        ensures
            forall|k: Seq<char>| #[trigger]
                self@.dom().contains(k) ==> {
                    &&& self@[k].id == k
                    &&& utf8_len(self@[k].stdout) <= MAX_OUTPUT_SIZE
                    &&& utf8_len(self@[k].stderr) <= MAX_OUTPUT_SIZE
                    &&& (self@[k].status is Running ==> self@[k].exit_code is None)
                },
            crate::names::strictly_sorted(self.ids()),
            forall|i: int| 0 <= i < self.ids().len() ==> self@.dom().contains(#[trigger] self.ids()[i]),
            forall|k: Seq<char>|
                self@.dom().contains(k) ==> exists|i: int|
                    0 <= i < self.ids().len() && #[trigger] self.ids()[i] == k,
    {
        self.processes.lemma_listing();
    }

    /// A registry without records.
    pub fn new() -> (m: Self)
        ensures
            m.wf(),
            m@ == Map::<Seq<char>, ProcessInfoView>::empty(),
    {
        let m = ProcessManager { processes: NameMap::new() };
        assert(m@ =~= Map::<Seq<char>, ProcessInfoView>::empty());
        m
    }

    /// Puts a process on record that was started at the time `now` under
    /// the id `id`, and that the system knows as `pid`, and gives the id
    /// back. An id that is on record already is refused and nothing
    /// changes, so that no record is ever replaced by another process.
    pub fn register_new(
        &mut self,
        id: String,
        command: String,
        working_dir: Option<String>,
        pid: Option<u32>,
        now: i64,
    ) -> (r: Result<String, String>)
        requires
            old(self).wf(),
        ensures
            final(self).wf(),
            match r {
                Ok(given) => given@ == id@ && !old(self)@.dom().contains(id@) && final(self)@ == old(
                    self,
                )@.insert(
                    id@,
                    ProcessInfoView::started(id@, command@, opt_view(working_dir), pid, now),
                ),
                Err(e) => old(self)@.dom().contains(id@) && final(self)@ == old(self)@ && e@
                    == id_taken_text(),
            },
    {
        if self.processes.contains_key(id.as_str()) {
            proof {
                assert(self@.dom().contains(id@));
            }
            return Err("Failed to spawn process: the id drawn for it is taken".to_owned());
        }
        assert(!self@.dom().contains(id@));
        let info = ProcessInfo {
            id: id.clone(),
            pid,
            command,
            working_dir,
            status: ProcessStatus::Running,
            stdout: String::new(),
            stderr: String::new(),
            exit_code: None,
            start_time: now,
        };
        proof {
            assert(utf8_len(Seq::<char>::empty()) == 0);
        }
        self.processes.insert(id.clone(), info);
        assert(self@ =~= old(self)@.insert(
            id@,
            ProcessInfoView::started(id@, command@, opt_view(working_dir), pid, now),
        ));
        Ok(id)
    }

    /// Puts a process that was started at the time `now`, and that the
    /// system knows as `pid`, on record under an id drawn at random, and
    /// gives the id. The id is new: [`ProcessManager::register_new`]
    /// decides on the id that was drawn, so the call fails only where that
    /// id is on record already, and never on a registry without records.
    pub fn spawn_background(
        &mut self,
        command: String,
        working_dir: Option<String>,
        pid: Option<u32>,
        now: i64,
    ) -> (r: Result<String, String>)
        requires
            old(self).wf(),
        ensures
            final(self).wf(),
            match r {
                Ok(id) => !old(self)@.dom().contains(id@) && final(self)@ == old(self)@.insert(
                    id@,
                    ProcessInfoView::started(id@, command@, opt_view(working_dir), pid, now),
                ),
                Err(e) => final(self)@ == old(self)@ && e@ == id_taken_text(),
            },
            (forall|k: Seq<char>| !(#[trigger] old(self)@.dom().contains(k))) ==> r is Ok,
    {
        let id = fresh_id();
        self.register_new(id, command, working_dir, pid, now)
    }

    /// Takes note of a line that the process `id` printed to its standard
    /// output. An id that is not on record changes nothing.
    pub fn append_stdout(&mut self, id: &str, line: &str)
        requires
            old(self).wf(),
        ensures
            final(self).wf(),
            final(self)@ == if old(self)@.dom().contains(id@) {
                old(self)@.insert(
                    id@,
                    ProcessInfoView {
                        stdout: appended(old(self)@[id@].stdout, line@),
                        ..old(self)@[id@]
                    },
                )
            } else {
                old(self)@
            },
    {
        let updated = match self.processes.get(id) {
            Some(p) => {
                let mut q = copy_info(p);
                q.stdout = append_capped(p.stdout.as_str(), line);
                Some(q)
            },
            None => None,
        };
        match updated {
            Some(q) => {
                self.processes.insert(id.to_owned(), q);
                assert(self@ =~= old(self)@.insert(
                    id@,
                    ProcessInfoView {
                        stdout: appended(old(self)@[id@].stdout, line@),
                        ..old(self)@[id@]
                    },
                ));
            },
            None => {
                assert(self@ =~= old(self)@);
            },
        }
    }

    /// Takes note of a line that the process `id` printed to its standard
    /// error. An id that is not on record changes nothing.
    pub fn append_stderr(&mut self, id: &str, line: &str)
        requires
            old(self).wf(),
        ensures
            final(self).wf(),
            final(self)@ == if old(self)@.dom().contains(id@) {
                old(self)@.insert(
                    id@,
                    ProcessInfoView {
                        stderr: appended(old(self)@[id@].stderr, line@),
                        ..old(self)@[id@]
                    },
                )
            } else {
                old(self)@
            },
    {
        let updated = match self.processes.get(id) {
            Some(p) => {
                let mut q = copy_info(p);
                q.stderr = append_capped(p.stderr.as_str(), line);
                Some(q)
            },
            None => None,
        };
        match updated {
            Some(q) => {
                self.processes.insert(id.to_owned(), q);
                assert(self@ =~= old(self)@.insert(
                    id@,
                    ProcessInfoView {
                        stderr: appended(old(self)@[id@].stderr, line@),
                        ..old(self)@[id@]
                    },
                ));
            },
            None => {
                assert(self@ =~= old(self)@);
            },
        }
    }

    /// Takes note that the process `id` has ended: it completed where it
    /// ended in success, and failed where it did not. A process that had
    /// ended before, and an id that is not on record, change nothing.
    pub fn finish(&mut self, id: &str, exit_code: Option<i32>, success: bool)
        requires
            old(self).wf(),
        ensures
            final(self).wf(),
            final(self)@ == if old(self)@.dom().contains(id@) {
                old(self)@.insert(id@, old(self)@[id@].finished(exit_code, success))
            } else {
                old(self)@
            },
    {
        let updated = match self.processes.get(id) {
            Some(p) => {
                if p.status == ProcessStatus::Running {
                    let mut q = copy_info(p);
                    q.exit_code = exit_code;
                    q.status = if success {
                        ProcessStatus::Completed
                    } else {
                        ProcessStatus::Failed
                    };
                    Some(q)
                } else {
                    None
                }
            },
            None => None,
        };
        match updated {
            Some(q) => {
                self.processes.insert(id.to_owned(), q);
                assert(self@ =~= old(self)@.insert(
                    id@,
                    old(self)@[id@].finished(exit_code, success),
                ));
            },
            None => {
                proof {
                    assert(self@ =~= old(self)@);
                    if old(self)@.dom().contains(id@) {
                        assert(old(self)@.insert(
                            id@,
                            old(self)@[id@].finished(exit_code, success),
                        ) =~= old(self)@);
                    }
                }
            },
        }
    }

    /// What is known of the process `id`.
    pub fn get_process(&self, id: &str) -> (r: Option<ProcessInfo>)
        requires
            self.wf(),
        ensures
            match r {
                Some(p) => self@.dom().contains(id@) && p@ == self@[id@],
                None => !self@.dom().contains(id@),
            },
    {
        match self.processes.get(id) {
            Some(p) => Some(copy_info(p)),
            None => None,
        }
    }

    /// What is known of every process, in the order of the ids.
    pub fn list_processes(&self) -> (r: Vec<ProcessInfo>)
        requires
            self.wf(),
        ensures
            r@.len() == self.ids().len(),
            forall|i: int|
                0 <= i < r@.len() ==> (#[trigger] r@[i])@.id == self.ids()[i] && r@[i]@
                    == self@[self.ids()[i]],
    {
        let mut out: Vec<ProcessInfo> = Vec::new();
        let n = self.processes.len();
        let mut i: usize = 0;
        proof {
            self.processes.lemma_listing();
        }
        while i < n
            invariant
                i <= n,
                n == self.ids().len(),
                n == self.processes.values().len(),
                out@.len() == i,
                self.wf(),
                forall|j: int|
                    0 <= j < self.ids().len() ==> self.processes@.dom().contains(
                        #[trigger] self.processes.keys()[j],
                    ) && self.processes@[self.processes.keys()[j]] == self.processes.values()[j],
                forall|j: int|
                    0 <= j < i ==> (#[trigger] out@[j])@.id == self.ids()[j] && out@[j]@
                        == self@[self.ids()[j]],
            decreases n - i,
        {
            let p = self.processes.value_at(i);
            assert(self.processes@.dom().contains(self.processes.keys()[i as int]));
            out.push(copy_info(p));
            i += 1;
        }
        out
    }

    /// Which process of the system is to be sent the signal to end so that
    /// the process `id` ends: the one that the record of `id` names, where
    /// `id` is on record and runs. Nothing changes in the registry; the
    /// record changes when the end of the process is reported.
    pub fn kill_process(&self, id: &str) -> (r: Result<u32, String>)
        requires
            self.wf(),
        ensures
            kill_view(r) == kill_outcome(self@, id@),
    {
        match self.processes.get(id) {
            Some(p) => {
                if p.status != ProcessStatus::Running {
                    Err(joined3("Process ", id, " is not running"))
                } else {
                    match p.pid {
                        Some(pid) => Ok(pid),
                        None => Err(
                            joined3(
                                "Failed to kill process: the system id of process ",
                                id,
                                " is not known",
                            ),
                        ),
                    }
                }
            },
            None => Err(joined3("Process ", id, " not found")),
        }
    }

    /// Takes the records out of processes that have ended and were started
    /// `max_age` seconds before `now` or earlier. A process that runs stays
    /// on record.
    pub fn cleanup_old_processes(&mut self, now: i64, max_age: i64)
        requires
            old(self).wf(),
        ensures
            final(self).wf(),
            forall|k: Seq<char>|
                final(self)@.dom().contains(k) <==> old(self)@.dom().contains(k) && old(
                    self,
                )@[k].kept(now, max_age),
            forall|k: Seq<char>| #[trigger]
                final(self)@.dom().contains(k) ==> final(self)@[k] == old(self)@[k],
    {
        let mut stale: Vec<String> = Vec::new();
        let n = self.processes.len();
        let mut i: usize = 0;
        proof {
            self.processes.lemma_listing();
        }
        while i < n
            invariant
                i <= n,
                n == self.processes.keys().len(),
                n == self.processes.values().len(),
                self.wf(),
                forall|j: int|
                    0 <= j < n ==> self.processes@.dom().contains(
                        #[trigger] self.processes.keys()[j],
                    ) && self.processes@[self.processes.keys()[j]] == self.processes.values()[j],
                forall|s: int|
                    0 <= s < stale@.len() ==> self@.dom().contains((#[trigger] stale@[s])@)
                        && !self@[stale@[s]@].kept(now, max_age),
                forall|j: int|
                    0 <= j < i && !self@[self.processes.keys()[j]].kept(now, max_age)
                        ==> exists|s: int|
                        0 <= s < stale@.len() && (#[trigger] stale@[s])@ == self.processes.keys()[j],
            decreases n - i,
        {
            let p = self.processes.value_at(i);
            let ghost key = self.processes.keys()[i as int];
            assert(self.processes@.dom().contains(key));
            let running = p.status == ProcessStatus::Running;
            let young = (now as i128) - (p.start_time as i128) < (max_age as i128);
            if !(running || young) {
                let ghost before = stale@;
                stale.push(p.id.clone());
                assert forall|j: int|
                    0 <= j < i + 1 && !self@[self.processes.keys()[j]].kept(
                        now,
                        max_age,
                    ) implies exists|s: int|
                    0 <= s < stale@.len() && (#[trigger] stale@[s])@
                        == self.processes.keys()[j] by {
                    if j < i {
                        let s = choose|s: int|
                            0 <= s < before.len() && (#[trigger] before[s])@
                                == self.processes.keys()[j];
                        assert(stale@[s] == before[s]);
                    } else {
                        assert(stale@[before.len() as int]@ == key);
                    }
                }
            }
            i += 1;
        }
        let ghost start = self@;
        proof {
            assert forall|k: Seq<char>| start.dom().contains(k) && !start[k].kept(
                now,
                max_age,
            ) implies exists|s: int| 0 <= s < stale@.len() && (#[trigger] stale@[s])@ == k by {
                let j = choose|j: int|
                    0 <= j < self.processes.keys().len() && #[trigger] self.processes.keys()[j]
                        == k;
            }
        }
        let mut r: usize = 0;
        while r < stale.len()
            invariant
                r <= stale@.len(),
                self.wf(),
                forall|s: int|
                    0 <= s < stale@.len() ==> start.dom().contains((#[trigger] stale@[s])@)
                        && !start[stale@[s]@].kept(now, max_age),
                forall|k: Seq<char>|
                    self@.dom().contains(k) <==> start.dom().contains(k) && !(exists|s: int|
                        0 <= s < r && (#[trigger] stale@[s])@ == k),
                forall|k: Seq<char>| #[trigger] self@.dom().contains(k) ==> self@[k] == start[k],
            decreases stale@.len() - r,
        {
            let ghost before = self@;
            self.processes.remove(stale[r].as_str());
            proof {
                let gone = stale@[r as int]@;
                assert(self@ =~= before.remove(gone));
                assert forall|k: Seq<char>|
                    self@.dom().contains(k) <==> start.dom().contains(k) && !(exists|s: int|
                        0 <= s < r + 1 && (#[trigger] stale@[s])@ == k) by {
                    if start.dom().contains(k) && !(exists|s: int|
                        0 <= s < r + 1 && (#[trigger] stale@[s])@ == k) {
                        assert(!(exists|s: int| 0 <= s < r && (#[trigger] stale@[s])@ == k));
                        assert(k != gone);
                    }
                    if self@.dom().contains(k) {
                        assert(before.dom().contains(k));
                        assert(k != gone);
                        if exists|s: int| 0 <= s < r + 1 && (#[trigger] stale@[s])@ == k {
                            let s = choose|s: int| 0 <= s < r + 1 && (#[trigger] stale@[s])@ == k;
                            assert(s < r);
                        }
                    }
                }
            }
            r += 1;
        }
    }
}

/// Putting a process on record under an id that is not on record leaves
/// every record that was there as it was, and adds one record: that of a
/// process that runs, has printed nothing and has no exit code.
pub proof fn law_spawn_adds_one(
    before: Map<Seq<char>, ProcessInfoView>,
    id: Seq<char>,
    command: Seq<char>,
    working_dir: Option<Seq<char>>,
    pid: Option<u32>,
    now: i64,
)
    requires
        !before.dom().contains(id),
    ensures
        ({
            let after = before.insert(id, ProcessInfoView::started(id, command, working_dir, pid, now));
            &&& after.dom() == before.dom().insert(id)
            &&& forall|k: Seq<char>| #[trigger] before.dom().contains(k) ==> after[k] == before[k]
            &&& after[id].status is Running
            &&& after[id].command == command
            &&& after[id].working_dir == working_dir
            &&& after[id].stdout.len() == 0
            &&& after[id].stderr.len() == 0
            &&& after[id].exit_code is None
        }),
{
}

/// A process that has ended stays as it ended: neither a line that comes
/// late nor a second end changes how it stands or what its exit code is.
pub proof fn law_ended_stays_ended(p: ProcessInfoView, exit_code: Option<i32>, success: bool)
    requires
        p.ended(),
    ensures
        p.finished(exit_code, success) == p,
{
}

/// The end of a process that runs decides how it stands: it completed
/// where it ended in success, failed where it did not, and has the exit
/// code that was reported.
pub proof fn law_end_decides(p: ProcessInfoView, exit_code: Option<i32>, success: bool)
    requires
        p.status is Running,
    ensures
        p.finished(exit_code, success).status == if success {
            ProcessStatus::Completed
        } else {
            ProcessStatus::Failed
        },
        p.finished(exit_code, success).exit_code == exit_code,
        p.finished(exit_code, success).ended(),
        p.finished(exit_code, success).stdout == p.stdout,
        p.finished(exit_code, success).stderr == p.stderr,
{
}

/// A buffer never grows past the cap, and as long as everything fits
/// nothing is lost.
pub proof fn law_buffer_capped(buffer: Seq<char>, line: Seq<char>)
    ensures
        utf8_len(appended(buffer, line)) <= MAX_OUTPUT_SIZE,
        utf8_len(buffer + line + seq!['\n']) <= MAX_OUTPUT_SIZE ==> appended(buffer, line) == buffer
            + line + seq!['\n'],
{
    lemma_suffix_within(buffer + line + seq!['\n'], MAX_OUTPUT_SIZE as nat);
}

} // verus!
