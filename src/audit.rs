use vstd::prelude::*;
use crate::text::{decimal, decimal_text, occurs_at, occurs_in};

verus! {

/// What a block of a log record holds.
#[derive(Clone, Copy, Debug, PartialEq, Eq, Structural)]
pub enum EntryKind {
    Separator,
    Executing,
    Stdout,
    Stderr,
    Success,
    Failure,
}

/// One block of text appended to a log file.
#[derive(Debug)]
pub struct LogEntry {
    pub kind: EntryKind,
    pub text: String,
}

impl View for LogEntry {
    type V = (EntryKind, Seq<char>);

    open spec fn view(&self) -> (EntryKind, Seq<char>) {
        (self.kind, self.text@)
    }
}

/// The views of a sequence of log entries.
pub open spec fn entries_view(v: Seq<LogEntry>) -> Seq<(EntryKind, Seq<char>)> {
    v.map_values(|e: LogEntry| e@)
}

/// The view of a caller-visible result.
pub open spec fn result_view(r: Result<String, String>) -> Result<Seq<char>, Seq<char>> {
    match r {
        Ok(s) => Ok(s@),
        Err(e) => Err(e@),
    }
}

/// The line that opens the record of a run.
pub open spec fn separator_text(ts: Seq<char>) -> Seq<char> {
    "\n["@ + ts + "] ═══════════════════════════════════════\n"@
}

/// The line that gives the command text of a run.
pub open spec fn executing_text(ts: Seq<char>, command: Seq<char>) -> Seq<char> {
    "["@ + ts + "] 🚀 EXECUTING: "@ + command + "\n"@
}

/// The block that holds the output of a run.
pub open spec fn stdout_text(ts: Seq<char>, out: Seq<char>) -> Seq<char> {
    "["@ + ts + "] STDOUT:\n"@ + out + "\n"@
}

/// The block that holds the error output of a run.
pub open spec fn stderr_text(ts: Seq<char>, err: Seq<char>) -> Seq<char> {
    "["@ + ts + "] STDERR:\n"@ + err + "\n"@
}

/// The outcome line of a successful run.
pub open spec fn success_text(ts: Seq<char>) -> Seq<char> {
    "["@ + ts + "] ✅ SUCCESS - Exit code: 0\n"@
}

/// The outcome line of a failed run, with its exit code.
pub open spec fn failure_text(ts: Seq<char>, code: int) -> Seq<char> {
    "["@ + ts + "] ❌ FAILED - Exit code: "@ + decimal(code) + "\n"@
}

/// The line that records a message sent by the user interface.
pub open spec fn action_text(ts: Seq<char>, message: Seq<char>) -> Seq<char> {
    "["@ + ts + "] "@ + message + "\n"@
}

/// The error returned for a command that exited unsuccessfully.
pub open spec fn failure_message(code: int, err: Seq<char>) -> Seq<char> {
    "Command gagal (exit code "@ + decimal(code) + "):\n"@ + err
}

/// A run succeeded when the process exited with code 0.
pub open spec fn succeeded(code: Option<i32>) -> bool {
    code == Some(0i32)
}

/// The exit code that a run records: the process's own, or -1 when it has
/// none (it was ended by a signal).
pub open spec fn recorded_code(code: Option<i32>) -> int {
    match code {
        Some(c) => c as int,
        None => -1,
    }
}

/// The blocks appended once the process has exited: the output block when
/// the output is non-empty, the error block likewise, then the outcome line.
pub open spec fn completion(ts: Seq<char>, out: Seq<char>, err: Seq<char>, code: Option<i32>) -> Seq<(EntryKind, Seq<char>)> {
    let o = if out.len() > 0 { seq![(EntryKind::Stdout, stdout_text(ts, out))] } else { Seq::empty() };
    let e = if err.len() > 0 { seq![(EntryKind::Stderr, stderr_text(ts, err))] } else { Seq::empty() };
    let last = if succeeded(code) {
        (EntryKind::Success, success_text(ts))
    } else {
        (EntryKind::Failure, failure_text(ts, recorded_code(code)))
    };
    o + e + seq![last]
}

/// What a run returns to its caller once the process has exited.
pub open spec fn run_outcome(out: Seq<char>, err: Seq<char>, code: Option<i32>) -> Result<Seq<char>, Seq<char>> {
    if succeeded(code) {
        Ok(out)
    } else {
        Err(failure_message(recorded_code(code), err))
    }
}

/// The prefix of the error returned when appending a block of this kind fails.
pub open spec fn write_error_prefix(k: EntryKind) -> Seq<char> {
    match k {
        EntryKind::Separator | EntryKind::Executing => "Failed to write to log: "@,
        EntryKind::Stdout => "Failed to write stdout to log: "@,
        EntryKind::Stderr => "Failed to write stderr to log: "@,
        EntryKind::Success => "Failed to write success to log: "@,
        EntryKind::Failure => "Failed to write error to log: "@,
    }
}

/// The line that opens the record of a run.
pub fn separator_line(ts: &str) -> (r: String)
    ensures
        r@ == separator_text(ts@),
{
    let mut s = String::from_str("\n[");
    s.append(ts);
    s.append("] ═══════════════════════════════════════\n");
    s
}

/// The line that gives the command text of a run.
pub fn executing_line(ts: &str, command: &str) -> (r: String)
    ensures
        r@ == executing_text(ts@, command@),
{
    let mut s = String::from_str("[");
    s.append(ts);
    s.append("] 🚀 EXECUTING: ");
    s.append(command);
    s.append("\n");
    s
}

/// The block that holds the output of a run.
pub fn stdout_block(ts: &str, out: &str) -> (r: String)
    ensures
        r@ == stdout_text(ts@, out@),
{
    let mut s = String::from_str("[");
    s.append(ts);
    s.append("] STDOUT:\n");
    s.append(out);
    s.append("\n");
    s
}

/// The block that holds the error output of a run.
pub fn stderr_block(ts: &str, err: &str) -> (r: String)
    ensures
        r@ == stderr_text(ts@, err@),
{
    let mut s = String::from_str("[");
    s.append(ts);
    s.append("] STDERR:\n");
    s.append(err);
    s.append("\n");
    s
}

/// The outcome line of a successful run.
pub fn success_line(ts: &str) -> (r: String)
    ensures
        r@ == success_text(ts@),
{
    let mut s = String::from_str("[");
    s.append(ts);
    s.append("] ✅ SUCCESS - Exit code: 0\n");
    s
}

/// The outcome line of a failed run, with its exit code.
pub fn failure_line(ts: &str, code: i32) -> (r: String)
    ensures
        r@ == failure_text(ts@, code as int),
{
    let digits = decimal_text(code);
    let mut s = String::from_str("[");
    s.append(ts);
    s.append("] ❌ FAILED - Exit code: ");
    s.append(digits.as_str());
    s.append("\n");
    s
}

/// The line that records a message sent by the user interface.
pub fn action_line(ts: &str, message: &str) -> (r: String)
    ensures
        r@ == action_text(ts@, message@),
{
    let mut s = String::from_str("[");
    s.append(ts);
    s.append("] ");
    s.append(message);
    s.append("\n");
    s
}

/// The error returned for a command that exited unsuccessfully.
pub fn failure_error(code: i32, err: &str) -> (r: String)
    ensures
        r@ == failure_message(code as int, err@),
{
    let digits = decimal_text(code);
    let mut s = String::from_str("Command gagal (exit code ");
    s.append(digits.as_str());
    s.append("):\n");
    s.append(err);
    s
}

/// The exit code that a run records for a process exit.
pub fn exit_code(code: Option<i32>) -> (r: i32)
    ensures
        r as int == recorded_code(code),
{
    match code {
        Some(c) => c,
        None => -1,
    }
}

/// The blocks to append once the process has exited.
pub fn completion_entries(ts: &str, out: &str, err: &str, code: Option<i32>) -> (r: Vec<LogEntry>)
    ensures
        entries_view(r@) == completion(ts@, out@, err@, code),
{
    let mut v: Vec<LogEntry> = Vec::new();
    if out.unicode_len() > 0 {
        v.push(LogEntry { kind: EntryKind::Stdout, text: stdout_block(ts, out) });
    }
    if err.unicode_len() > 0 {
        v.push(LogEntry { kind: EntryKind::Stderr, text: stderr_block(ts, err) });
    }
    if code == Some(0i32) {
        v.push(LogEntry { kind: EntryKind::Success, text: success_line(ts) });
    } else {
        v.push(LogEntry { kind: EntryKind::Failure, text: failure_line(ts, exit_code(code)) });
    }
    assert(entries_view(v@) =~= completion(ts@, out@, err@, code));
    v
}

/// What a run returns once the process has exited: the output on success,
/// else an error that gives the exit code and the error output.
pub fn run_result(out: &str, err: &str, code: Option<i32>) -> (r: Result<String, String>)
    ensures
        result_view(r) == run_outcome(out@, err@, code),
{
    if code == Some(0i32) {
        Ok(String::from_str(out))
    } else {
        Err(failure_error(exit_code(code), err))
    }
}

/// A run that succeeded with output and no error output appends exactly one
/// output block, no error block, and then the success line with exit code 0.
pub proof fn lemma_quiet_success(ts: Seq<char>, out: Seq<char>)
    requires
        out.len() > 0,
    ensures
        completion(ts, out, Seq::empty(), Some(0i32)) == seq![
            (EntryKind::Stdout, stdout_text(ts, out)),
            (EntryKind::Success, success_text(ts)),
        ],
        run_outcome(out, Seq::empty(), Some(0i32)) == Ok::<Seq<char>, Seq<char>>(out),
{
    assert(completion(ts, out, Seq::empty(), Some(0i32)) =~= seq![
        (EntryKind::Stdout, stdout_text(ts, out)),
        (EntryKind::Success, success_text(ts)),
    ]);
}

/// A run whose process exited with a non-zero code returns an error that
/// holds the code and the error output, and its last block is the failure
/// line, which holds the code too.
pub proof fn lemma_failure_reported(ts: Seq<char>, out: Seq<char>, err: Seq<char>, c: i32)
    requires
        c != 0,
    ensures
        run_outcome(out, err, Some(c)) is Err,
        occurs_in(run_outcome(out, err, Some(c))->Err_0, decimal(c as int)),
        occurs_in(run_outcome(out, err, Some(c))->Err_0, err),
        completion(ts, out, err, Some(c)).last() == (EntryKind::Failure, failure_text(ts, c as int)),
        occurs_in(failure_text(ts, c as int), decimal(c as int)),
{
    let m = failure_message(c as int, err);
    let p = "Command gagal (exit code "@;
    let d = decimal(c as int);
    let q = "):\n"@;
    assert(m.subrange(p.len() as int, (p.len() + d.len()) as int) =~= d);
    assert(occurs_at(m, d, p.len() as int));
    assert(m.subrange(m.len() - err.len(), m.len() as int) =~= err);
    assert(occurs_at(m, err, m.len() - err.len()));
    let f = failure_text(ts, c as int);
    let fp = "["@ + ts + "] ❌ FAILED - Exit code: "@;
    assert(f.subrange(fp.len() as int, (fp.len() + d.len()) as int) =~= d);
    assert(occurs_at(f, d, fp.len() as int));
}

} // verus!
