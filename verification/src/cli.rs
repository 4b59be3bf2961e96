//! `hypaperctl`'s decisions: which request a subcommand becomes, where
//! wallpapers are listed from, how the daemon's reply is read, and what a
//! response prints.
use vstd::prelude::*;

use crate::daemon::join_path;
use crate::daemon::join_relative;
use crate::text::{decimal, format_decimal, pad_right, pad_right_str, trim, trim_str};
use crate::types::{DaemonCommand, DaemonResponse, StatusInfo};

verus! {

/// Actions available under the `daemon` subcommand.
#[derive(Debug, Clone, Copy, PartialEq, Eq, Structural)]
pub enum DaemonAction {
    /// Start the daemon in the background.
    Start,
    /// Stop the running daemon.
    Stop,
    /// Show the daemon's current status.
    Status,
}

/// All subcommands exposed by `hypaperctl`.
#[derive(Debug)]
pub enum Commands {
    /// Set a wallpaper by name or file path.
    SetWallpaper {
        /// Wallpaper name or path to a `.hyscene` file.
        wallpaper: String,
        /// Target a specific monitor by connector name (e.g. `DP-1`).
        monitor: Option<String>,
    },
    /// Stop the current wallpaper and clear the surface.
    Stop,
    /// Pause the current wallpaper (last frame stays visible).
    Pause,
    /// Resume the paused wallpaper.
    Resume,
    /// Reload the current wallpaper from disk.
    Reload,
    /// Show daemon status.
    Status {
        /// Output the status as JSON instead of human-readable text.
        json: bool,
    },
    /// List available wallpapers.
    List {
        /// Show only user-installed wallpapers.
        installed: bool,
        /// Show only system-wide wallpapers.
        system: bool,
    },
    /// Manage the `hypaperd` daemon process.
    Daemon {
        /// Daemon lifecycle action.
        action: DaemonAction,
    },
    /// Print shell completion script to stdout.
    Completions {
        /// Target shell.
        shell: clap_complete::aot::Shell,
    },
}

/// What `hypaperctl` does for a subcommand.
#[derive(Debug)]
pub enum CliPlan {
    /// Print the completion script for `shell`; no daemon is needed.
    Completions(clap_complete::aot::Shell),
    /// Spawn `hypaperd` and exit; no running daemon is needed.
    StartDaemon,
    /// List `.hyscene` files from the file system; no daemon is needed.
    List { installed: bool, system: bool },
    /// Check that the daemon runs, send `command`, and print the response
    /// (as a status report when `is_status`, as JSON when `want_json`).
    Send { command: DaemonCommand, is_status: bool, want_json: bool },
}

/// The plan for `cmd`.
pub open spec fn plan_spec(cmd: Commands) -> CliPlan {
    match cmd {
        Commands::Completions { shell } => CliPlan::Completions(shell),
        Commands::Daemon { action: DaemonAction::Start } => CliPlan::StartDaemon,
        Commands::List { installed, system } => CliPlan::List { installed, system },
        Commands::SetWallpaper { wallpaper, monitor } => CliPlan::Send {
            command: DaemonCommand::SetWallpaper { path: wallpaper, monitor },
            is_status: false,
            want_json: false,
        },
        Commands::Stop => CliPlan::Send {
            command: DaemonCommand::Stop,
            is_status: false,
            want_json: false,
        },
        Commands::Pause => CliPlan::Send {
            command: DaemonCommand::Pause,
            is_status: false,
            want_json: false,
        },
        Commands::Resume => CliPlan::Send {
            command: DaemonCommand::Resume,
            is_status: false,
            want_json: false,
        },
        Commands::Reload => CliPlan::Send {
            command: DaemonCommand::Reload,
            is_status: false,
            want_json: false,
        },
        Commands::Status { json } => CliPlan::Send {
            command: DaemonCommand::GetStatus,
            is_status: true,
            want_json: json,
        },
        Commands::Daemon { action: DaemonAction::Stop } => CliPlan::Send {
            command: DaemonCommand::Stop,
            is_status: false,
            want_json: false,
        },
        Commands::Daemon { action: DaemonAction::Status } => CliPlan::Send {
            command: DaemonCommand::GetStatus,
            is_status: true,
            want_json: false,
        },
    }
}

/// Decides what `hypaperctl` does for `cmd`: completions, starting the
/// daemon and listing wallpapers are handled locally; every other
/// subcommand becomes a [`DaemonCommand`] sent over the socket.
pub fn plan_command(cmd: Commands) -> (p: CliPlan)
    ensures
        p == plan_spec(cmd),
        match cmd {
            Commands::List { installed, system } => p == (CliPlan::List { installed, system }),
            Commands::Completions { shell } => p == CliPlan::Completions(shell),
            Commands::Daemon { action: DaemonAction::Start } => p is StartDaemon,
            Commands::Status { json } => p matches CliPlan::Send { command, is_status, want_json }
                && command is GetStatus && is_status && want_json == json,
            _ => p matches CliPlan::Send { want_json, .. } && !want_json,
        },
{
    match cmd {
        Commands::Completions { shell } => CliPlan::Completions(shell),
        Commands::Daemon { action: DaemonAction::Start } => CliPlan::StartDaemon,
        Commands::List { installed, system } => CliPlan::List { installed, system },
        Commands::SetWallpaper { wallpaper, monitor } => CliPlan::Send {
            command: DaemonCommand::SetWallpaper { path: wallpaper, monitor },
            is_status: false,
            want_json: false,
        },
        Commands::Stop => CliPlan::Send {
            command: DaemonCommand::Stop,
            is_status: false,
            want_json: false,
        },
        Commands::Pause => CliPlan::Send {
            command: DaemonCommand::Pause,
            is_status: false,
            want_json: false,
        },
        Commands::Resume => CliPlan::Send {
            command: DaemonCommand::Resume,
            is_status: false,
            want_json: false,
        },
        Commands::Reload => CliPlan::Send {
            command: DaemonCommand::Reload,
            is_status: false,
            want_json: false,
        },
        Commands::Status { json } => CliPlan::Send {
            command: DaemonCommand::GetStatus,
            is_status: true,
            want_json: json,
        },
        Commands::Daemon { action: DaemonAction::Stop } => CliPlan::Send {
            command: DaemonCommand::Stop,
            is_status: false,
            want_json: false,
        },
        Commands::Daemon { action: DaemonAction::Status } => CliPlan::Send {
            command: DaemonCommand::GetStatus,
            is_status: true,
            want_json: false,
        },
    }
}

/// Listing needs no daemon and carries the command-line flags unchanged
/// (with neither flag both directories are listed); a status request is
/// the only request shown as a status report, and the only one that may
/// ask for JSON.
pub proof fn law_plan_keeps_flags(cmd: Commands)
    ensures
        cmd matches Commands::List { installed, system } ==> plan_spec(cmd) == (CliPlan::List {
            installed,
            system,
        }),
        plan_spec(cmd) matches CliPlan::Send { command, is_status, want_json } ==> (is_status
            <==> command is GetStatus) && (want_json ==> cmd matches Commands::Status { json: true }),
{
}

// ---------------------------------------------------------------------------
// Listing wallpapers
// ---------------------------------------------------------------------------

/// The directories `hypaperctl list` reads: the user directory
/// `$HOME/.local/share/hypaper/wallpapers` (when `$HOME` is set) and the
/// system directory `/usr/share/hypaper/wallpapers`; `--installed` alone keeps
/// the user one, `--system` alone the system one.
pub open spec fn list_dirs_spec(only_installed: bool, only_system: bool, home: Option<Seq<char>>) -> Seq<
    Seq<char>,
> {
    let user: Seq<Seq<char>> = match home {
        Some(h) => seq![join_path(h, ".local/share/hypaper/wallpapers"@)],
        None => Seq::empty(),
    };
    let system = "/usr/share/hypaper/wallpapers"@;
    if only_installed && !only_system {
        user
    } else if !only_installed && only_system {
        seq![system]
    } else {
        user.push(system)
    }
}

/// The character sequences of a list of strings.
pub open spec fn views(v: Seq<String>) -> Seq<Seq<char>> {
    v.map_values(|s: String| s@)
}

/// The directories to list wallpapers from, given the flags and `$HOME`.
pub fn wallpaper_dirs(only_installed: bool, only_system: bool, home: Option<&str>) -> (r: Vec<String>)
    ensures
        views(r@) == list_dirs_spec(
            only_installed,
            only_system,
            match home {
                Some(h) => Some(h@),
                None => None,
            },
        ),
{
    let mut dirs: Vec<String> = Vec::new();
    let include_user = !(!only_installed && only_system);
    let include_system = !(only_installed && !only_system);
    if include_user {
        match home {
            Some(h) => {
                dirs.push(join_relative(h, ".local/share/hypaper/wallpapers"));
            },
            None => {},
        }
    }
    if include_system {
        dirs.push(String::from_str("/usr/share/hypaper/wallpapers"));
    }
    assert(views(dirs@) =~= list_dirs_spec(
        only_installed,
        only_system,
        match home {
            Some(h) => Some(h@),
            None => None,
        },
    ));
    dirs
}

/// Whether `c` occurs at `i` and nowhere after it in `s`.
pub open spec fn last_at(s: Seq<char>, c: char, i: int) -> bool {
    0 <= i < s.len() && s[i] == c && forall|k: int| i < k < s.len() ==> s[k] != c
}

/// The extension of a file name (`Path::extension`): what follows its last
/// `.`, unless there is no `.`, the only `.` is the first character, or the
/// name is `..`.
pub open spec fn extension_spec(name: Seq<char>) -> Option<Seq<char>> {
    if name == seq!['.', '.'] {
        None
    } else if exists|i: int| #[trigger] last_at(name, '.', i) {
        let i = choose|i: int| #[trigger] last_at(name, '.', i);
        if i == 0 {
            None
        } else {
            Some(name.subrange(i + 1, name.len() as int))
        }
    } else {
        None
    }
}

/// Whether a directory entry named `name` is a `.hyscene` bundle.
pub fn has_hyscene_extension(name: &str) -> (r: bool)
    ensures
        r == (extension_spec(name@) == Some("hyscene"@)),
{
    let n = name.unicode_len();
    if n == 2 && name.get_char(0) == '.' && name.get_char(1) == '.' {
        assert(name@ =~= seq!['.', '.']);
        return false;
    }
    assert(name@ != seq!['.', '.']) by {
        if name@ == seq!['.', '.'] {
            assert(n == 2 && name@[0] == '.' && name@[1] == '.');
        }
    }
    let mut j: usize = n;
    while j > 0 && name.get_char(j - 1) != '.'
        invariant
            n == name@.len(),
            j <= n,
            forall|k: int| j <= k < n ==> name@[k] != '.',
        decreases j,
    {
        j = j - 1;
    }
    if j == 0 {
        assert forall|i: int| !last_at(name@, '.', i) by {
            if 0 <= i < n {
                assert(name@[i] != '.');
            }
        }
        return false;
    }
    let dot = j - 1;
    assert(last_at(name@, '.', dot as int));
    let ghost chosen = choose|i: int| #[trigger] last_at(name@, '.', i);
    assert(chosen == dot) by {
        if chosen < dot {
            assert(name@[dot as int] != '.');
        } else if chosen > dot {
            assert(name@[chosen] != '.');
        }
    }
    if dot == 0 {
        return false;
    }
    let ext = name.substring_char(dot + 1, n);
    crate::text::str_eq(ext, "hyscene")
}

/// What `hypaperctl list` prints after scanning: the paths found, or a
/// notice that there are none.
pub fn list_output(found: Vec<String>) -> (r: Vec<String>)
    ensures
        found@.len() > 0 ==> r@ == found@,
        found@.len() == 0 ==> views(r@) == seq!["No wallpapers found."@],
{
    if found.len() > 0 {
        found
    } else {
        let mut v: Vec<String> = Vec::new();
        v.push(String::from_str("No wallpapers found."));
        assert(views(v@) =~= seq!["No wallpapers found."@]);
        v
    }
}

// ---------------------------------------------------------------------------
// Reading the daemon's reply
// ---------------------------------------------------------------------------

/// What to decode as the daemon's reply, given how many bytes the first
/// line read took and the line itself: nothing when the daemon closed the
/// connection without replying (an acknowledgement, `Ok`), else the line
/// without surrounding whitespace.
pub fn reply_payload(bytes_read: usize, line: &str) -> (r: Option<&str>)
    ensures
        bytes_read == 0 ==> r is None,
        bytes_read > 0 ==> (r matches Some(t) && t@ == trim(line@)),
{
    if bytes_read == 0 {
        None
    } else {
        Some(trim_str(line))
    }
}

// ---------------------------------------------------------------------------
// Printing responses
// ---------------------------------------------------------------------------

/// What `hypaperctl` prints for a daemon response.
#[derive(Debug)]
pub enum ResponseOutput {
    /// Lines for standard output.
    Stdout(Vec<String>),
    /// The status, pretty-printed as JSON on standard output.
    StatusJson(StatusInfo),
    /// One line for standard error.
    Stderr(String),
}

/// Model of [`ResponseOutput`] with lines as character sequences.
pub enum OutputModel {
    Stdout(Seq<Seq<char>>),
    StatusJson(StatusInfo),
    Stderr(Seq<char>),
}

/// The model of an output.
pub open spec fn output_model(o: ResponseOutput) -> OutputModel {
    match o {
        ResponseOutput::Stdout(lines) => OutputModel::Stdout(views(lines@)),
        ResponseOutput::StatusJson(info) => OutputModel::StatusJson(info),
        ResponseOutput::Stderr(line) => OutputModel::Stderr(line@),
    }
}

/// A status line: the label left-aligned in 16 columns, a space, the value
/// (`format!("{:<16} {}", label, value)`).
pub open spec fn label_line(label: Seq<char>, value: Seq<char>) -> Seq<char> {
    pad_right(label, 16) + seq![' '] + value
}

/// The status table for `info`.
pub open spec fn status_table(info: StatusInfo) -> Seq<Seq<char>> {
    seq![
        label_line("daemon:"@, if info.daemon_running { "running"@ } else { "stopped"@ }),
        label_line(
            "wallpaper:"@,
            match info.wallpaper {
                Some(w) => w@,
                None => "(none)"@,
            },
        ),
        label_line("uptime:"@, decimal(info.uptime_secs as nat) + "s"@),
    ]
}

/// What is printed for `response`: a status response to a status request is
/// shown as a table (or as JSON); a bare acknowledgement of a status request
/// means the daemon is running; errors go to standard error; anything else
/// prints `OK`.
pub open spec fn response_output_spec(response: DaemonResponse, is_status: bool, want_json: bool) -> OutputModel {
    match response {
        DaemonResponse::Status(info) => if is_status {
            if want_json {
                OutputModel::StatusJson(info)
            } else {
                OutputModel::Stdout(status_table(info))
            }
        } else {
            OutputModel::Stdout(seq!["OK"@])
        },
        DaemonResponse::Success => if is_status {
            if want_json {
                OutputModel::Stdout(seq!["{\"daemon_running\":true}"@])
            } else {
                OutputModel::Stdout(
                    seq![
                        label_line("daemon:"@, "running"@),
                        label_line("wallpaper:"@, "(none)"@),
                        label_line("uptime:"@, "unknown"@),
                    ],
                )
            }
        } else {
            OutputModel::Stdout(seq!["OK"@])
        },
        DaemonResponse::Error(e) => OutputModel::Stderr("Error: "@ + e@),
    }
}

fn label_line_str(label: &str, value: &str) -> (r: String)
    ensures
        r@ == label_line(label@, value@),
{
    proof {
        reveal_strlit(" ");
    }
    let padded = pad_right_str(label, 16);
    let r = padded.concat(" ").concat(value);
    assert(r@ =~= label_line(label@, value@));
    r
}

fn single_line(s: &str) -> (r: ResponseOutput)
    ensures
        output_model(r) == OutputModel::Stdout(seq![s@]),
{
    let mut v: Vec<String> = Vec::new();
    v.push(String::from_str(s));
    assert(views(v@) =~= seq![s@]);
    ResponseOutput::Stdout(v)
}

fn three_lines(a: String, b: String, c: String) -> (r: ResponseOutput)
    ensures
        output_model(r) == OutputModel::Stdout(seq![a@, b@, c@]),
{
    let mut v: Vec<String> = Vec::new();
    v.push(a);
    v.push(b);
    v.push(c);
    assert(views(v@) =~= seq![a@, b@, c@]);
    ResponseOutput::Stdout(v)
}

/// Decides what to print for `response` (see [`response_output_spec`]).
pub fn response_output(response: DaemonResponse, is_status: bool, want_json: bool) -> (r: ResponseOutput)
    ensures
        output_model(r) == response_output_spec(response, is_status, want_json),
{
    match response {
        DaemonResponse::Status(info) => {
            if is_status {
                if want_json {
                    ResponseOutput::StatusJson(info)
                } else {
                    let state = if info.daemon_running {
                        "running"
                    } else {
                        "stopped"
                    };
                    let daemon = label_line_str("daemon:", state);
                    let wallpaper = match &info.wallpaper {
                        Some(w) => label_line_str("wallpaper:", w.as_str()),
                        None => label_line_str("wallpaper:", "(none)"),
                    };
                    let secs = format_decimal(info.uptime_secs);
                    let uptime_text = secs.concat("s");
                    let uptime = label_line_str("uptime:", uptime_text.as_str());
                    assert(daemon@ == status_table(info)[0]);
                    assert(wallpaper@ == status_table(info)[1]);
                    assert(uptime@ == status_table(info)[2]);
                    let r = three_lines(daemon, wallpaper, uptime);
                    assert(seq![daemon@, wallpaper@, uptime@] =~= status_table(info));
                    r
                }
            } else {
                single_line("OK")
            }
        },
        DaemonResponse::Success => {
            if is_status {
                if want_json {
                    single_line("{\"daemon_running\":true}")
                } else {
                    three_lines(
                        label_line_str("daemon:", "running"),
                        label_line_str("wallpaper:", "(none)"),
                        label_line_str("uptime:", "unknown"),
                    )
                }
            } else {
                single_line("OK")
            }
        },
        DaemonResponse::Error(e) => ResponseOutput::Stderr(
            String::from_str("Error: ").concat(e.as_str()),
        ),
    }
}

} // verus!
