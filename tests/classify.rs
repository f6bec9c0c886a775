use control_panel::channel::LogChannel;
use control_panel::text::{contains, decimal_text, natural_text};

#[test]
fn each_marker_selects_its_channel() {
    assert_eq!(LogChannel::classify("bash scripts/start.sh"), LogChannel::Start);
    assert_eq!(LogChannel::classify("./scripts/stop.sh"), LogChannel::Stop);
    assert_eq!(LogChannel::classify("sh status.sh --all"), LogChannel::Status);
    assert_eq!(LogChannel::classify("docker start web"), LogChannel::DockerStart);
    assert_eq!(LogChannel::classify("docker stop web"), LogChannel::DockerStop);
    assert_eq!(LogChannel::classify("docker restart web"), LogChannel::DockerRestart);
    assert_eq!(LogChannel::classify("echo hello"), LogChannel::Generic);
    assert_eq!(LogChannel::classify(""), LogChannel::Generic);
}

#[test]
fn first_marker_in_priority_wins() {
    assert_eq!(LogChannel::classify("docker stop db && ./start.sh"), LogChannel::Start);
    assert_eq!(LogChannel::classify("status.sh; stop.sh"), LogChannel::Stop);
    assert_eq!(LogChannel::classify("docker restart a; docker start b"), LogChannel::DockerStart);
}

#[test]
fn channel_file_names() {
    assert_eq!(LogChannel::Start.file_name(), "gui_start.log");
    assert_eq!(LogChannel::Stop.file_name(), "gui_stop.log");
    assert_eq!(LogChannel::Status.file_name(), "gui_status.log");
    assert_eq!(LogChannel::DockerStart.file_name(), "gui_docker_start.log");
    assert_eq!(LogChannel::DockerStop.file_name(), "gui_docker_stop.log");
    assert_eq!(LogChannel::DockerRestart.file_name(), "gui_docker_restart.log");
    assert_eq!(LogChannel::Generic.file_name(), "gui_commands.log");
}

#[test]
fn substring_search() {
    assert!(contains("abcabd", "abd"));
    assert!(contains("abc", ""));
    assert!(contains("", ""));
    assert!(!contains("ab", "abc"));
    assert!(!contains("start.s", "start.sh"));
    assert!(contains("héllo wörld", "ö"));
}

#[test]
fn decimal_rendering() {
    assert_eq!(natural_text(0), "0");
    assert_eq!(natural_text(120), "120");
    assert_eq!(natural_text(u32::MAX), "4294967295");
    assert_eq!(decimal_text(7), "7");
    assert_eq!(decimal_text(-1), "-1");
    assert_eq!(decimal_text(i32::MIN), "-2147483648");
    assert_eq!(decimal_text(i32::MAX), "2147483647");
}

#[test]
fn action_line_format() {
    assert_eq!(
        control_panel::audit::action_line("2024-05-01 10:20:30", "clicked start"),
        "[2024-05-01 10:20:30] clicked start\n"
    );
}
