use vstd::prelude::*;
use crate::root::{logs_dir_name, FsPath};
use crate::text::{digits, natural_text};

verus! {

/// The output of the container status query: the tool's output when it
/// succeeded, else an empty JSON array, as a missing container runtime is no
/// error for a status query.
pub fn docker_status_output(success: bool, stdout: &str) -> (r: String)
    ensures
        r@ == (if success { stdout@ } else { "[]"@ }),
{
    if success {
        String::from_str(stdout)
    } else {
        String::from_str("[]")
    }
}

/// The arguments of the container runtime that tail the last `lines` lines
/// of a container's log.
pub fn docker_logs_args(container: &str, lines: u32) -> (r: Vec<String>)
    ensures
        r@.len() == 4,
        r@[0]@ == "logs"@,
        r@[1]@ == "--tail"@,
        r@[2]@ == digits(lines as nat),
        r@[3]@ == container@,
{
    let mut v: Vec<String> = Vec::new();
    v.push(String::from_str("logs"));
    v.push(String::from_str("--tail"));
    v.push(natural_text(lines));
    v.push(String::from_str(container));
    v
}

/// The result of a container log query: both output streams when the tool
/// succeeded, else a "not found" error naming the container.
pub fn docker_logs_result(container: &str, success: bool, stdout: &str, stderr: &str) -> (r: Result<String, String>)
    ensures
        success ==> r is Ok && r->Ok_0@ == stdout@ + stderr@,
        !success ==> r is Err && r->Err_0@ == "Container "@ + container@ + " not found"@,
{
    if success {
        let mut s = String::from_str(stdout);
        s.append(stderr);
        Ok(s)
    } else {
        let mut s = String::from_str("Container ");
        s.append(container);
        s.append(" not found");
        Err(s)
    }
}

/// The path of a log file under the project root.
pub fn log_file_path(root: &FsPath, filename: &str) -> (r: FsPath)
    ensures
        r@ == root@.push(logs_dir_name()).push(filename@),
{
    root.logs_dir().join(filename)
}

/// The path of the log that records messages of the user interface.
pub fn actions_log_path(root: &FsPath) -> (r: FsPath)
    ensures
        r@ == root@.push(logs_dir_name()).push("gui_actions.log"@),
{
    root.logs_dir().join("gui_actions.log")
}

/// The error for a log file that does not exist.
pub fn missing_log_error(filename: &str) -> (r: String)
    ensures
        r@ == "Log file tidak ditemukan: "@ + filename@,
{
    let mut s = String::from_str("Log file tidak ditemukan: ");
    s.append(filename);
    s
}

/// The error for a folder that does not exist under the project root.
pub fn missing_folder_error(folder: &str) -> (r: String)
    ensures
        r@ == "Folder tidak ditemukan: "@ + folder@,
{
    let mut s = String::from_str("Folder tidak ditemukan: ");
    s.append(folder);
    s
}

/// The shell command that opens `path` with the desktop's file manager
/// program `opener`, with the path quoted.
pub fn open_folder_command(opener: &str, path: &str) -> (r: String)
    ensures
        r@ == opener@ + " '"@ + path@ + "'"@,
{
    let mut s = String::from_str(opener);
    s.append(" '");
    s.append(path);
    s.append("'");
    s
}

/// The message returned once a folder was opened.
pub fn folder_opened_message(folder: &str) -> (r: String)
    ensures
        r@ == "Folder "@ + folder@ + " dibuka"@,
{
    let mut s = String::from_str("Folder ");
    s.append(folder);
    s.append(" dibuka");
    s
}

/// An error of a host operation, described: the operation's prefix and the
/// host's reason.
pub fn described_error(prefix: &str, reason: &str) -> (r: String)
    ensures
        r@ == prefix@ + reason@,
{
    let mut s = String::from_str(prefix);
    s.append(reason);
    s
}

} // verus!
