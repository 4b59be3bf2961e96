use hypaper::cli::{
    has_hyscene_extension, list_output, plan_command, response_output, wallpaper_dirs, CliPlan,
    Commands, DaemonAction, ResponseOutput,
};
use hypaper::types::{DaemonCommand, DaemonResponse, StatusInfo};

fn sent(cmd: Commands) -> (DaemonCommand, bool, bool) {
    match plan_command(cmd) {
        CliPlan::Send { command, is_status, want_json } => (command, is_status, want_json),
        other => panic!("expected a request, got {other:?}"),
    }
}

#[test]
fn local_subcommands_need_no_daemon() {
    match plan_command(Commands::Completions { shell: clap_complete::aot::Shell::Bash }) {
        CliPlan::Completions(shell) => assert_eq!(shell, clap_complete::aot::Shell::Bash),
        other => panic!("unexpected {other:?}"),
    }
    assert!(matches!(plan_command(Commands::Daemon { action: DaemonAction::Start }), CliPlan::StartDaemon));
    assert!(matches!(
        plan_command(Commands::List { installed: true, system: false }),
        CliPlan::List { installed: true, system: false }
    ));
}

#[test]
fn subcommands_become_daemon_requests() {
    match sent(Commands::SetWallpaper { wallpaper: "rain".to_string(), monitor: Some("DP-1".to_string()) }) {
        (DaemonCommand::SetWallpaper { path, monitor }, false, false) => {
            assert_eq!(path, "rain");
            assert_eq!(monitor.as_deref(), Some("DP-1"));
        }
        other => panic!("unexpected {other:?}"),
    }
    assert!(matches!(sent(Commands::Stop), (DaemonCommand::Stop, false, false)));
    assert!(matches!(sent(Commands::Pause), (DaemonCommand::Pause, false, false)));
    assert!(matches!(sent(Commands::Resume), (DaemonCommand::Resume, false, false)));
    assert!(matches!(sent(Commands::Reload), (DaemonCommand::Reload, false, false)));
    assert!(matches!(sent(Commands::Status { json: true }), (DaemonCommand::GetStatus, true, true)));
    assert!(matches!(sent(Commands::Status { json: false }), (DaemonCommand::GetStatus, true, false)));
    assert!(matches!(sent(Commands::Daemon { action: DaemonAction::Stop }), (DaemonCommand::Stop, false, false)));
    assert!(matches!(
        sent(Commands::Daemon { action: DaemonAction::Status }),
        (DaemonCommand::GetStatus, true, false)
    ));
}

#[test]
fn list_directories_follow_flags() {
    let home = Some("/home/ann");
    let user = "/home/ann/.local/share/hypaper/wallpapers".to_string();
    let system = "/usr/share/hypaper/wallpapers".to_string();
    assert_eq!(wallpaper_dirs(false, false, home), vec![user.clone(), system.clone()]);
    assert_eq!(wallpaper_dirs(true, false, home), vec![user.clone()]);
    assert_eq!(wallpaper_dirs(false, true, home), vec![system.clone()]);
    assert_eq!(wallpaper_dirs(true, true, home), vec![user, system.clone()]);
    assert_eq!(wallpaper_dirs(false, false, None), vec![system.clone()]);
    assert!(wallpaper_dirs(true, false, None).is_empty());
    assert_eq!(wallpaper_dirs(false, false, Some("/home/ann/")), vec![
        "/home/ann/.local/share/hypaper/wallpapers".to_string(),
        system
    ]);
}

#[test]
fn hyscene_extension_matches_path_extension() {
    let samples = [
        "rain.hyscene", "rain.HYSCENE", ".hyscene", "a.b.hyscene", "hyscene", "rain.hyscene.bak",
        "rain.", "..", ".", "", "x.hyscene ", "..hyscene", "a..hyscene",
    ];
    for name in samples {
        let expected = std::path::Path::new(name).extension().and_then(|e| e.to_str()) == Some("hyscene");
        assert_eq!(has_hyscene_extension(name), expected, "{name:?}");
    }
    assert!(has_hyscene_extension("rain.hyscene"));
    assert!(!has_hyscene_extension(".hyscene"));
}

#[test]
fn list_prints_paths_or_notice() {
    let found = vec!["/a/rain.hyscene".to_string(), "/b/snow.hyscene".to_string()];
    assert_eq!(list_output(found.clone()), found);
    assert_eq!(list_output(Vec::new()), vec!["No wallpapers found.".to_string()]);
}

fn stdout(o: ResponseOutput) -> Vec<String> {
    match o {
        ResponseOutput::Stdout(lines) => lines,
        other => panic!("expected stdout, got {other:?}"),
    }
}

#[test]
fn status_response_prints_table() {
    let info = StatusInfo { daemon_running: true, wallpaper: Some("/s/rain.hyscene".to_string()), uptime_secs: 42 };
    let lines = stdout(response_output(DaemonResponse::Status(info), true, false));
    assert_eq!(lines, vec![
        format!("{:<16} {}", "daemon:", "running"),
        format!("{:<16} {}", "wallpaper:", "/s/rain.hyscene"),
        format!("{:<16} {}", "uptime:", "42s"),
    ]);
    assert_eq!(lines[2], "uptime:          42s");
}

#[test]
fn status_response_without_wallpaper() {
    let info = StatusInfo { daemon_running: false, wallpaper: None, uptime_secs: 0 };
    let lines = stdout(response_output(DaemonResponse::Status(info), true, false));
    assert_eq!(lines, vec![
        "daemon:          stopped".to_string(),
        "wallpaper:       (none)".to_string(),
        "uptime:          0s".to_string(),
    ]);
}

#[test]
fn status_response_as_json() {
    let info = StatusInfo { daemon_running: true, wallpaper: None, uptime_secs: 7 };
    match response_output(DaemonResponse::Status(info), true, true) {
        ResponseOutput::StatusJson(i) => {
            assert!(i.daemon_running);
            assert_eq!(i.uptime_secs, 7);
        }
        other => panic!("unexpected {other:?}"),
    }
}

#[test]
fn acknowledgement_of_status_means_running() {
    assert_eq!(stdout(response_output(DaemonResponse::Success, true, true)), vec!["{\"daemon_running\":true}".to_string()]);
    assert_eq!(stdout(response_output(DaemonResponse::Success, true, false)), vec![
        format!("{:<16} running", "daemon:"),
        format!("{:<16} (none)", "wallpaper:"),
        format!("{:<16} unknown", "uptime:"),
    ]);
}

#[test]
fn other_responses_print_ok_or_error() {
    assert_eq!(stdout(response_output(DaemonResponse::Success, false, false)), vec!["OK".to_string()]);
    let info = StatusInfo { daemon_running: true, wallpaper: None, uptime_secs: 1 };
    assert_eq!(stdout(response_output(DaemonResponse::Status(info), false, true)), vec!["OK".to_string()]);
    match response_output(DaemonResponse::Error("no scene".to_string()), false, false) {
        ResponseOutput::Stderr(line) => assert_eq!(line, "Error: no scene"),
        other => panic!("unexpected {other:?}"),
    }
}

use hypaper::cli::reply_payload;

#[test]
fn empty_reply_is_an_acknowledgement() {
    assert_eq!(reply_payload(0, ""), None);
    assert_eq!(reply_payload(9, "  \"Ok\"\n"), Some("\"Ok\""));
    assert_eq!(reply_payload(1, "\n"), Some(""));
}
