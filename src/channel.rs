use vstd::prelude::*;
use crate::text::{contains, occurs_in};

verus! {

/// The audit-log destination of a command run.
#[derive(Clone, Copy, Debug, PartialEq, Eq, Structural)]
pub enum LogChannel {
    Start,
    Stop,
    Status,
    DockerStart,
    DockerStop,
    DockerRestart,
    Generic,
}

/// The channels that a marker selects, highest priority first.
pub open spec fn priority_table() -> Seq<LogChannel> {
    seq![
        LogChannel::Start,
        LogChannel::Stop,
        LogChannel::Status,
        LogChannel::DockerStart,
        LogChannel::DockerStop,
        LogChannel::DockerRestart,
    ]
}

/// The substring of a command that selects a channel; `Generic` has none.
pub open spec fn marker(c: LogChannel) -> Seq<char> {
    match c {
        LogChannel::Start => "start.sh"@,
        LogChannel::Stop => "stop.sh"@,
        LogChannel::Status => "status.sh"@,
        LogChannel::DockerStart => "docker start"@,
        LogChannel::DockerStop => "docker stop"@,
        LogChannel::DockerRestart => "docker restart"@,
        LogChannel::Generic => Seq::empty(),
    }
}

/// The channel of a command: the first table entry whose marker occurs in it,
/// else `Generic`.
pub open spec fn channel_of(command: Seq<char>) -> LogChannel {
    if occurs_in(command, marker(LogChannel::Start)) {
        LogChannel::Start
    } else if occurs_in(command, marker(LogChannel::Stop)) {
        LogChannel::Stop
    } else if occurs_in(command, marker(LogChannel::Status)) {
        LogChannel::Status
    } else if occurs_in(command, marker(LogChannel::DockerStart)) {
        LogChannel::DockerStart
    } else if occurs_in(command, marker(LogChannel::DockerStop)) {
        LogChannel::DockerStop
    } else if occurs_in(command, marker(LogChannel::DockerRestart)) {
        LogChannel::DockerRestart
    } else {
        LogChannel::Generic
    }
}

/// Name of the log file that holds a channel's records.
pub open spec fn file_name_of(c: LogChannel) -> Seq<char> {
    match c {
        LogChannel::Start => "gui_start.log"@,
        LogChannel::Stop => "gui_stop.log"@,
        LogChannel::Status => "gui_status.log"@,
        LogChannel::DockerStart => "gui_docker_start.log"@,
        LogChannel::DockerStop => "gui_docker_stop.log"@,
        LogChannel::DockerRestart => "gui_docker_restart.log"@,
        LogChannel::Generic => "gui_commands.log"@,
    }
}

impl LogChannel {
    /// Selects the channel of a command by its text.
    pub fn classify(command: &str) -> (r: LogChannel)
        ensures
            r == channel_of(command@),
    {
        if contains(command, "start.sh") {
            LogChannel::Start
        } else if contains(command, "stop.sh") {
            LogChannel::Stop
        } else if contains(command, "status.sh") {
            LogChannel::Status
        } else if contains(command, "docker start") {
            LogChannel::DockerStart
        } else if contains(command, "docker stop") {
            LogChannel::DockerStop
        } else if contains(command, "docker restart") {
            LogChannel::DockerRestart
        } else {
            LogChannel::Generic
        }
    }

    /// The log file name of this channel.
    pub fn file_name(&self) -> (r: &'static str)
        ensures
            r@ == file_name_of(*self),
    {
        match self {
            LogChannel::Start => "gui_start.log",
            LogChannel::Stop => "gui_stop.log",
            LogChannel::Status => "gui_status.log",
            LogChannel::DockerStart => "gui_docker_start.log",
            LogChannel::DockerStop => "gui_docker_stop.log",
            LogChannel::DockerRestart => "gui_docker_restart.log",
            LogChannel::Generic => "gui_commands.log",
        }
    }
}

/// A command that holds the marker of some table entry is logged to exactly one
/// entry of the table: the first whose marker it holds. The returned index `j`
/// is that entry: no earlier entry's marker occurs in the command, and no other
/// entry names the same channel.
pub proof fn lemma_first_marker_wins(command: Seq<char>, k: int) -> (j: int)
    requires
        0 <= k < priority_table().len(),
        occurs_in(command, marker(priority_table()[k])),
    ensures
        0 <= j <= k,
        priority_table()[j] == channel_of(command),
        channel_of(command) != LogChannel::Generic,
        occurs_in(command, marker(priority_table()[j])),
        forall|i: int| 0 <= i < j ==> !occurs_in(command, marker(#[trigger] priority_table()[i])),
        forall|i: int|
            0 <= i < priority_table().len() && i != j ==> #[trigger] priority_table()[i] != channel_of(command),
{
    let t = priority_table();
    let c = channel_of(command);
    let o0 = occurs_in(command, marker(LogChannel::Start));
    let o1 = occurs_in(command, marker(LogChannel::Stop));
    let o2 = occurs_in(command, marker(LogChannel::Status));
    let o3 = occurs_in(command, marker(LogChannel::DockerStart));
    let o4 = occurs_in(command, marker(LogChannel::DockerStop));
    let o5 = occurs_in(command, marker(LogChannel::DockerRestart));
    assert(t[0] == LogChannel::Start && t[1] == LogChannel::Stop && t[2] == LogChannel::Status
        && t[3] == LogChannel::DockerStart && t[4] == LogChannel::DockerStop
        && t[5] == LogChannel::DockerRestart);
    if o0 { 0 }
    else if o1 { 1 }
    else if o2 { 2 }
    else if o3 { 3 }
    else if o4 { 4 }
    else { 5 }
}

} // verus!
