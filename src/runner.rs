use vstd::prelude::*;
use crate::audit::{
    completion, completion_entries, entries_view, executing_line, executing_text, result_view,
    run_outcome, run_result, separator_line, separator_text, write_error_prefix, EntryKind,
    LogEntry,
};
use crate::boundary::described_error;
use crate::channel::{channel_of, file_name_of, LogChannel};
use crate::clock::timestamp;
use crate::root::{logs_dir_name, FsPath};

verus! {

/// What the host reports after performing the last action.
#[derive(Debug)]
pub enum Event {
    /// The action was performed.
    Done,
    /// The action failed; `reason` describes the failure.
    Failed { reason: String },
    /// The spawned process exited with this output, error output and exit
    /// code (`None` when it was ended by a signal).
    Exited { stdout: String, stderr: String, code: Option<i32> },
}

/// What the host is to do next.
#[derive(Debug)]
pub enum Action {
    /// Make sure the directory exists, creating it and its parents if missing.
    CreateDir { path: FsPath },
    /// Open the file for appending, creating it if absent.
    OpenLog { path: FsPath },
    /// Append the text to the open log file.
    Append { text: String },
    /// Run the command through a shell with `dir` as working directory.
    Spawn { command: String, dir: FsPath },
    /// The run is over; hand the result to the caller.
    Finish { result: Result<String, String> },
}

/// The model of an event.
pub enum EventView {
    Done,
    Failed(Seq<char>),
    Exited(Seq<char>, Seq<char>, Option<i32>),
}

/// The model of an action.
pub enum ActionView {
    CreateDir(Seq<Seq<char>>),
    OpenLog(Seq<Seq<char>>),
    Append(Seq<char>),
    Spawn(Seq<char>, Seq<Seq<char>>),
    Finish(Result<Seq<char>, Seq<char>>),
}

impl View for Event {
    type V = EventView;

    open spec fn view(&self) -> EventView {
        match self {
            Event::Done => EventView::Done,
            Event::Failed { reason } => EventView::Failed(reason@),
            Event::Exited { stdout, stderr, code } => EventView::Exited(stdout@, stderr@, *code),
        }
    }
}

impl View for Action {
    type V = ActionView;

    open spec fn view(&self) -> ActionView {
        match self {
            Action::CreateDir { path } => ActionView::CreateDir(path@),
            Action::OpenLog { path } => ActionView::OpenLog(path@),
            Action::Append { text } => ActionView::Append(text@),
            Action::Spawn { command, dir } => ActionView::Spawn(command@, dir@),
            Action::Finish { result } => ActionView::Finish(result_view(*result)),
        }
    }
}

/// Where a command run stands.
#[derive(Debug)]
pub enum Stage {
    EnsuringDir,
    OpeningLog,
    WritingSeparator,
    WritingCommand,
    Running,
    /// Appending the blocks that follow the process exit; `next` is the one
    /// whose append is in progress.
    Output { entries: Vec<LogEntry>, next: usize, result: Result<String, String> },
    Finished,
}

/// The model of a stage.
pub enum StageView {
    EnsuringDir,
    OpeningLog,
    WritingSeparator,
    WritingCommand,
    Running,
    Output(Seq<(EntryKind, Seq<char>)>, int, Result<Seq<char>, Seq<char>>),
    Finished,
}

impl View for Stage {
    type V = StageView;

    open spec fn view(&self) -> StageView {
        match self {
            Stage::EnsuringDir => StageView::EnsuringDir,
            Stage::OpeningLog => StageView::OpeningLog,
            Stage::WritingSeparator => StageView::WritingSeparator,
            Stage::WritingCommand => StageView::WritingCommand,
            Stage::Running => StageView::Running,
            Stage::Output { entries, next, result } => StageView::Output(
                entries_view(entries@),
                *next as int,
                result_view(*result),
            ),
            Stage::Finished => StageView::Finished,
        }
    }
}

/// The model of a run.
pub struct RunView {
    pub root: Seq<Seq<char>>,
    pub command: Seq<char>,
    pub stamp: Seq<char>,
    pub stage: StageView,
}

/// One run of a shell command with its audit record.
#[derive(Debug)]
pub struct Run {
    root: FsPath,
    command: String,
    stamp: String,
    stage: Stage,
}

impl View for Run {
    type V = RunView;

    closed spec fn view(&self) -> RunView {
        RunView { root: self.root@, command: self.command@, stamp: self.stamp@, stage: self.stage@ }
    }
}

/// The log file of a command run under a project root.
pub open spec fn log_path(root: Seq<Seq<char>>, command: Seq<char>) -> Seq<Seq<char>> {
    root.push(logs_dir_name()).push(file_name_of(channel_of(command)))
}

/// Whether a stage can take an event: a running process reports its exit or
/// a spawn failure; a finished run takes nothing; every other stage takes the
/// success or failure of its action.
pub open spec fn accepts(s: StageView, e: EventView) -> bool {
    match s {
        StageView::Running => !(e is Done),
        StageView::Finished => false,
        _ => !(e is Exited),
    }
}

/// The log file is open in this stage.
pub open spec fn log_open(s: StageView) -> bool {
    match s {
        StageView::EnsuringDir | StageView::OpeningLog | StageView::Finished => false,
        _ => true,
    }
}

/// The end of a run with an error: a prefix that names the failed step, then
/// the host's reason.
pub open spec fn finish_err(prefix: Seq<char>, reason: Seq<char>) -> ActionView {
    ActionView::Finish(Err(prefix + reason))
}

/// The next stage of a run and the action it asks for, on an event.
pub open spec fn next(r: RunView, e: EventView) -> (StageView, ActionView) {
    let ts = r.stamp;
    match r.stage {
        StageView::EnsuringDir => match e {
            EventView::Failed(m) => (StageView::Finished, finish_err("Failed to create logs directory: "@, m)),
            _ => (StageView::OpeningLog, ActionView::OpenLog(log_path(r.root, r.command))),
        },
        StageView::OpeningLog => match e {
            EventView::Failed(m) => (StageView::Finished, finish_err("Failed to open log file: "@, m)),
            _ => (StageView::WritingSeparator, ActionView::Append(separator_text(ts))),
        },
        StageView::WritingSeparator => match e {
            EventView::Failed(m) => (StageView::Finished, finish_err(write_error_prefix(EntryKind::Separator), m)),
            _ => (StageView::WritingCommand, ActionView::Append(executing_text(ts, r.command))),
        },
        StageView::WritingCommand => match e {
            EventView::Failed(m) => (StageView::Finished, finish_err(write_error_prefix(EntryKind::Executing), m)),
            _ => (StageView::Running, ActionView::Spawn(r.command, r.root)),
        },
        StageView::Running => match e {
            EventView::Exited(out, err, code) => {
                let es = completion(ts, out, err, code);
                (StageView::Output(es, 0, run_outcome(out, err, code)), ActionView::Append(es[0].1))
            },
            EventView::Failed(m) => (StageView::Finished, finish_err("Gagal menjalankan command: "@, m)),
            _ => (StageView::Finished, ActionView::Finish(Err(Seq::empty()))),
        },
        StageView::Output(es, k, res) => match e {
            EventView::Failed(m) => (StageView::Finished, finish_err(write_error_prefix(es[k].0), m)),
            _ => if k + 1 < es.len() {
                (StageView::Output(es, k + 1, res), ActionView::Append(es[k + 1].1))
            } else {
                (StageView::Finished, ActionView::Finish(res))
            },
        },
        StageView::Finished => (StageView::Finished, ActionView::Finish(Err(Seq::empty()))),
    }
}

/// The error for a failed append of a block of the given kind.
fn write_error(kind: EntryKind, reason: &str) -> (r: String)
    ensures
        r@ == write_error_prefix(kind) + reason@,
{
    match kind {
        EntryKind::Separator | EntryKind::Executing => described_error("Failed to write to log: ", reason),
        EntryKind::Stdout => described_error("Failed to write stdout to log: ", reason),
        EntryKind::Stderr => described_error("Failed to write stderr to log: ", reason),
        EntryKind::Success => described_error("Failed to write success to log: ", reason),
        EntryKind::Failure => described_error("Failed to write error to log: ", reason),
    }
}

impl Run {
    /// In the output stage, the block being appended is one of the blocks.
    pub closed spec fn wf(&self) -> bool {
        match &self.stage {
            Stage::Output { entries, next, .. } => *next < entries@.len(),
            _ => true,
        }
    }

    /// Begins a run of `command` under `root`, stamped `stamp`; the first
    /// action makes sure the logs directory exists.
    pub fn with_stamp(root: FsPath, command: String, stamp: String) -> (r: (Run, Action))
        ensures
            r.0.wf(),
            r.0@ == (RunView { root: root@, command: command@, stamp: stamp@, stage: StageView::EnsuringDir }),
            r.1@ == ActionView::CreateDir(root@.push(logs_dir_name())),
    {
        let dir = root.logs_dir();
        (Run { root, command, stamp, stage: Stage::EnsuringDir }, Action::CreateDir { path: dir })
    }

    /// Begins a run of `command` under `root`, stamped with the local time now.
    pub fn start(root: FsPath, command: String) -> (r: (Run, Action))
        ensures
            r.0.wf(),
            r.0@.root == root@,
            r.0@.command == command@,
            r.0@.stage == StageView::EnsuringDir,
            r.1@ == ActionView::CreateDir(root@.push(logs_dir_name())),
    {
        Run::with_stamp(root, command, timestamp())
    }

    /// Whether the run can take `e` now.
    pub fn accepts(&self, e: &Event) -> (r: bool)
        ensures
            r == accepts(self@.stage, e@),
    {
        match (&self.stage, e) {
            (Stage::Running, Event::Done) => false,
            (Stage::Running, _) => true,
            (Stage::Finished, _) => false,
            (_, Event::Exited { .. }) => false,
            _ => true,
        }
    }

    /// Whether the run is over.
    pub fn is_finished(&self) -> (r: bool)
        ensures
            r == (self@.stage is Finished),
    {
        matches!(self.stage, Stage::Finished)
    }

    /// Takes the outcome of the last action and returns the next one.
    pub fn step(&mut self, e: Event) -> (a: Action)
        requires
            old(self).wf(),
            accepts(old(self)@.stage, e@),
        ensures
            final(self).wf(),
            final(self)@.root == old(self)@.root,
            final(self)@.command == old(self)@.command,
            final(self)@.stamp == old(self)@.stamp,
            final(self)@.stage == next(old(self)@, e@).0,
            a@ == next(old(self)@, e@).1,
    {
        let mut stage = Stage::Finished;
        core::mem::swap(&mut stage, &mut self.stage);
        match stage {
            Stage::EnsuringDir => match e {
                Event::Failed { reason } => Action::Finish {
                    result: Err(described_error("Failed to create logs directory: ", reason.as_str())),
                },
                _ => {
                    self.stage = Stage::OpeningLog;
                    let channel = LogChannel::classify(self.command.as_str());
                    Action::OpenLog { path: self.root.logs_dir().join(channel.file_name()) }
                },
            },
            Stage::OpeningLog => match e {
                Event::Failed { reason } => Action::Finish {
                    result: Err(described_error("Failed to open log file: ", reason.as_str())),
                },
                _ => {
                    self.stage = Stage::WritingSeparator;
                    Action::Append { text: separator_line(self.stamp.as_str()) }
                },
            },
            Stage::WritingSeparator => match e {
                Event::Failed { reason } => Action::Finish {
                    result: Err(write_error(EntryKind::Separator, reason.as_str())),
                },
                _ => {
                    self.stage = Stage::WritingCommand;
                    Action::Append { text: executing_line(self.stamp.as_str(), self.command.as_str()) }
                },
            },
            Stage::WritingCommand => match e {
                Event::Failed { reason } => Action::Finish {
                    result: Err(write_error(EntryKind::Executing, reason.as_str())),
                },
                _ => {
                    self.stage = Stage::Running;
                    Action::Spawn { command: self.command.clone(), dir: self.root.copy() }
                },
            },
            Stage::Running => match e {
                Event::Exited { stdout, stderr, code } => {
                    let entries = completion_entries(self.stamp.as_str(), stdout.as_str(), stderr.as_str(), code);
                    let result = run_result(stdout.as_str(), stderr.as_str(), code);
                    proof {
                        assert(entries_view(entries@).len() == entries@.len());
                    }
                    let text = entries[0].text.clone();
                    proof {
                        assert(entries_view(entries@)[0] == entries@[0]@);
                    }
                    self.stage = Stage::Output { entries, next: 0, result };
                    Action::Append { text }
                },
                Event::Failed { reason } => Action::Finish {
                    result: Err(described_error("Gagal menjalankan command: ", reason.as_str())),
                },
                Event::Done => Action::Finish { result: Err(String::new()) },
            },
            Stage::Output { entries, next, result } => match e {
                Event::Failed { reason } => {
                    proof {
                        assert(entries_view(entries@)[next as int] == entries@[next as int]@);
                    }
                    Action::Finish { result: Err(write_error(entries[next].kind, reason.as_str())) }
                },
                _ => if entries.len() - next > 1 {
                    let text = entries[next + 1].text.clone();
                    proof {
                        assert(entries_view(entries@)[next + 1] == entries@[next + 1]@);
                    }
                    self.stage = Stage::Output { entries, next: next + 1, result };
                    Action::Append { text }
                } else {
                    Action::Finish { result }
                },
            },
            Stage::Finished => Action::Finish { result: Err(String::new()) },
        }
    }
}

/// A run writes to its log only once the logs directory and the log file are
/// there. A run begins by asking for the logs directory (see `Run::start`).
/// The stage that opens the log file is entered only when that succeeded, the
/// open asks for the channel's file under the logs directory, the log counts
/// as open only once the open succeeded, and every append happens while it
/// is open.
pub proof fn lemma_dir_and_log_before_write(r: RunView, e: EventView)
    requires
        accepts(r.stage, e),
    ensures
        next(r, e).0 is OpeningLog ==> r.stage is EnsuringDir && e is Done,
        next(r, e).1 is OpenLog ==> r.stage is EnsuringDir && e is Done
            && next(r, e).1 == ActionView::OpenLog(log_path(r.root, r.command)),
        !log_open(r.stage) && log_open(next(r, e).0) ==> r.stage is OpeningLog && e is Done,
        next(r, e).1 is Append ==> log_open(r.stage) || r.stage is OpeningLog,
        next(r, e).1 is Append ==> log_open(next(r, e).0),
{
}

} // verus!
