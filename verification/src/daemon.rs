//! The daemon's decisions: configuration defaults, runtime state, battery
//! detection from sysfs readings, the wallpaper manager's state machine that
//! the main loop drives with IPC commands and Hyprland events, and which
//! assets and script a scene archive provides.
use vstd::prelude::*;

use crate::hyprland::HyprlandEvent;
use crate::scene::{
    archive_member_bytes, archive_member_text, zip_archive_readable, zip_member_bytes,
    zip_member_lookup, zip_member_text, ArchiveError,
};
use crate::text::{starts_with, str_eq, trim, trim_str};
use crate::types::{DaemonCommand, Layer, LayerKind, Scene, StatusInfo};

verus! {

// ---------------------------------------------------------------------------
// Paths and configuration
// ---------------------------------------------------------------------------

/// `base` joined with the relative path `rel` (`PathBuf::join` on Unix): a
/// separator is inserted unless `base` is empty or already ends with `/`.
pub open spec fn join_path(base: Seq<char>, rel: Seq<char>) -> Seq<char> {
    if base.len() == 0 || base.last() == '/' {
        base + rel
    } else {
        base + seq!['/'] + rel
    }
}

/// Joins the relative path `rel` onto `base`.
pub fn join_relative(base: &str, rel: &str) -> (r: String)
    ensures
        r@ == join_path(base@, rel@),
{
    let n = base.unicode_len();
    let s = String::from_str(base);
    if n == 0 || base.get_char(n - 1) == '/' {
        s.concat(rel)
    } else {
        proof {
            reveal_strlit("/");
        }
        let s2 = s.concat("/");
        let r = s2.concat(rel);
        assert(r@ =~= join_path(base@, rel@));
        r
    }
}

/// The IPC socket path: `$XDG_RUNTIME_DIR/hypaper.sock`, or
/// `/tmp/hypaper.sock` when the variable is unset.
pub open spec fn socket_path_spec(xdg_runtime_dir: Option<Seq<char>>) -> Seq<char> {
    match xdg_runtime_dir {
        Some(d) => join_path(d, "hypaper.sock"@),
        None => "/tmp/hypaper.sock"@,
    }
}

/// Computes the IPC socket path from the value of `$XDG_RUNTIME_DIR`.
pub fn default_socket_path(xdg_runtime_dir: Option<&str>) -> (r: String)
    ensures
        r@ == socket_path_spec(
            match xdg_runtime_dir {
                Some(d) => Some(d@),
                None => None,
            },
        ),
{
    match xdg_runtime_dir {
        Some(d) => join_relative(d, "hypaper.sock"),
        None => String::from_str("/tmp/hypaper.sock"),
    }
}

/// IPC serialization format used on the Unix domain socket.
#[derive(Debug, Clone, Copy, PartialEq, Eq, Structural)]
pub enum IpcFormat {
    /// MessagePack binary encoding (compact, fast).
    MsgPack,
    /// Newline-delimited JSON (human-readable, easy to debug with `nc`).
    Json,
}

/// Runtime configuration for `hypaperd`.
#[derive(Debug, Clone)]
pub struct DaemonConfig {
    /// Directory where `.hyscene` bundles are searched.
    pub wallpapers_dir: String,
    /// Log filter string forwarded to the tracing subscriber (e.g. `"info"`).
    pub log_level: String,
    /// Path of the Unix domain socket exposed to `hypaperctl`.
    pub socket_path: String,
    /// IPC serialization format.
    pub ipc_format: IpcFormat,
    /// Maximum render frame rate in frames per second.
    pub max_fps: u32,
    /// When `true`, switch to `fps_on_battery` while on battery power.
    pub reduce_on_battery: bool,
    /// Frame rate used when `reduce_on_battery` is active.
    pub fps_on_battery: u32,
    /// Pause rendering while a fullscreen window occupies the monitor.
    pub pause_on_fullscreen: bool,
    /// Pause rendering while the system is on battery power.
    pub pause_on_battery: bool,
}

/// Optional string to optional character sequence.
pub open spec fn opt_view(o: Option<&str>) -> Option<Seq<char>> {
    match o {
        Some(s) => Some(s@),
        None => None,
    }
}

/// The scene directory: `$HOME/.local/share/hypaper/scenes`, or
/// `/usr/share/hypaper/scenes` when `$HOME` is unset.
pub open spec fn wallpapers_dir_spec(home: Option<Seq<char>>) -> Seq<char> {
    match home {
        Some(h) => join_path(h, ".local/share/hypaper/scenes"@),
        None => "/usr/share/hypaper/scenes"@,
    }
}

impl DaemonConfig {
    /// The compiled-in defaults, given the values of `$XDG_RUNTIME_DIR` and
    /// `$HOME` (`None` when a variable is unset).
    pub fn with_environment(xdg_runtime_dir: Option<&str>, home: Option<&str>) -> (c: Self)
        ensures
            c.socket_path@ == socket_path_spec(opt_view(xdg_runtime_dir)),
            c.wallpapers_dir@ == wallpapers_dir_spec(opt_view(home)),
            c.log_level@ == "info"@,
            c.ipc_format == IpcFormat::Json,
            c.max_fps == 60,
            c.reduce_on_battery,
            c.fps_on_battery == 30,
            c.pause_on_fullscreen,
            !c.pause_on_battery,
    {
        let socket_path = default_socket_path(xdg_runtime_dir);
        let wallpapers_dir = match home {
            Some(h) => join_relative(h, ".local/share/hypaper/scenes"),
            None => String::from_str("/usr/share/hypaper/scenes"),
        };
        DaemonConfig {
            wallpapers_dir,
            log_level: String::from_str("info"),
            socket_path,
            ipc_format: IpcFormat::Json,
            max_fps: 60,
            reduce_on_battery: true,
            fps_on_battery: 30,
            pause_on_fullscreen: true,
            pause_on_battery: false,
        }
    }
}

/// The daemon's configuration file, `$HOME/.config/hypaper/daemon.toml`;
/// none when `$HOME` is unset.
pub open spec fn config_file_spec(home: Option<Seq<char>>) -> Option<Seq<char>> {
    match home {
        Some(h) => Some(join_path(h, ".config/hypaper/daemon.toml"@)),
        None => None,
    }
}

/// Where the daemon looks for its configuration file, given `$HOME`.  The
/// file is only reported when present: its settings are not read, and the
/// defaults of [`DaemonConfig::with_environment`] apply.
pub fn config_file_path(home: Option<&str>) -> (r: Option<String>)
    ensures
        match r {
            Some(p) => config_file_spec(opt_view(home)) == Some(p@),
            None => config_file_spec(opt_view(home)) is None,
        },
{
    match home {
        Some(h) => Some(join_relative(h, ".config/hypaper/daemon.toml")),
        None => None,
    }
}

/// The render ticker's period in nanoseconds for `max_fps` frames per
/// second (integer division).
pub fn frame_interval_ns(max_fps: u32) -> (r: u64)
    requires
        max_fps > 0,
    ensures
        r == 1_000_000_000int / (max_fps as int),
{
    1_000_000_000u64 / (max_fps as u64)
}

// ---------------------------------------------------------------------------
// Battery detection
// ---------------------------------------------------------------------------

/// One entry of `/sys/class/power_supply`: its name and, when the file could
/// be read, the contents of its `online` file.
#[derive(Debug, Clone)]
pub struct PowerSupplyEntry {
    /// Directory entry name (e.g. `"AC"`, `"ACAD"`, `"BAT0"`).
    pub name: String,
    /// Contents of `<entry>/online`, or `None` when it could not be read.
    pub online: Option<String>,
}

/// Whether the machine runs on battery, given the power-supply entries in
/// directory order: the first AC adapter (name starting with `AC`) whose
/// `online` file was read decides; its adapter is connected when the trimmed
/// contents are `1`.  Without such an adapter (a desktop) the answer is `false`.
pub open spec fn on_battery_spec(entries: Seq<PowerSupplyEntry>) -> bool
    decreases entries.len(),
{
    if entries.len() == 0 {
        false
    } else {
        let e = entries[0];
        if is_ac_adapter(e.name@) && e.online is Some {
            !(trim(e.online.unwrap()@) == "1"@)
        } else {
            on_battery_spec(entries.drop_first())
        }
    }
}

/// Whether a power-supply entry name denotes an AC adapter.
pub open spec fn is_ac_adapter(name: Seq<char>) -> bool {
    2 <= name.len() && name.subrange(0, 2) == "AC"@
}

/// Returns `true` if the system is currently running on battery power.
///
/// `entries` are the readable entries of `/sys/class/power_supply` in
/// directory order.  An `online` value of `1` means the AC adapter is
/// connected; `0` means it is disconnected.  Returns `false` when no AC
/// adapter entry is found, which covers desktops that have no battery.
pub fn is_on_battery(entries: &Vec<PowerSupplyEntry>) -> (r: bool)
    ensures
        r == on_battery_spec(entries@),
{
    let n = entries.len();
    let mut i: usize = 0;
    assert(entries@.subrange(0, n as int) == entries@);
    while i < n
        invariant
            n == entries@.len(),
            i <= n,
            on_battery_spec(entries@) == on_battery_spec(entries@.subrange(i as int, n as int)),
        decreases n - i,
    {
        let e = &entries[i];
        let ghost rest = entries@.subrange(i as int, n as int);
        assert(rest[0] == entries@[i as int]);
        assert(rest.drop_first() == entries@.subrange(i + 1, n as int));
        proof {
            reveal_strlit("AC");
        }
        if starts_with(e.name.as_str(), "AC") {
            match &e.online {
                Some(content) => {
                    let online = str_eq(trim_str(content.as_str()), "1");
                    return !online;
                },
                None => {},
            }
        }
        i = i + 1;
    }
    false
}

/// Without an AC adapter entry (a desktop), the machine is on mains power.
pub proof fn law_no_adapter_means_mains(entries: Seq<PowerSupplyEntry>)
    requires
        forall|i: int| 0 <= i < entries.len() ==> !is_ac_adapter(#[trigger] entries[i].name@),
    ensures
        !on_battery_spec(entries),
    decreases entries.len(),
{
    if entries.len() > 0 {
        let rest = entries.drop_first();
        assert forall|i: int| 0 <= i < rest.len() implies !is_ac_adapter(#[trigger] rest[i].name@) by {
            assert(rest[i] == entries[i + 1]);
        }
        law_no_adapter_means_mains(rest);
        assert(!is_ac_adapter(entries[0].name@));
    }
}

// ---------------------------------------------------------------------------
// Daemon runtime state
// ---------------------------------------------------------------------------

/// `Instant::now()`: the current time.  Nothing is stated of the result.
#[verifier::external_body]
fn instant_now() -> std::time::Instant {
    std::time::Instant::now()
}

/// `Instant::elapsed`: the time since `start`.  Nothing is stated of the
/// result, which depends on the clock.
#[verifier::external_body]
fn instant_elapsed(start: &std::time::Instant) -> std::time::Duration {
    start.elapsed()
}

/// `Duration::as_secs`: the whole seconds of `d`.  Nothing is stated of the
/// result, since the duration is opaque here.
#[verifier::external_body]
fn duration_as_secs(d: &std::time::Duration) -> u64 {
    d.as_secs()
}

fn clone_opt_string(o: &Option<String>) -> (r: Option<String>)
    ensures
        r == *o,
{
    match o {
        Some(s) => Some(s.clone()),
        None => None,
    }
}

/// Internal runtime state of the `hypaperd` daemon.
#[derive(Debug)]
pub struct DaemonState {
    /// Path to the currently loaded `.hyscene` file, if any.
    pub current_wallpaper: Option<String>,
    /// Whether rendering is currently paused.
    pub paused: bool,
    /// Instant at which the daemon was started; used to compute uptime.
    pub start_time: std::time::Instant,
}

impl DaemonState {
    /// Creates a fresh `DaemonState` with no wallpaper loaded and rendering active.
    pub fn new() -> (s: Self)
        ensures
            s.current_wallpaper is None,
            !s.paused,
    {
        Self::started_at(instant_now())
    }

    /// A fresh `DaemonState` whose uptime counts from `start_time`: no
    /// wallpaper loaded and rendering active.
    pub fn started_at(start_time: std::time::Instant) -> (s: Self)
        ensures
            s.current_wallpaper is None,
            !s.paused,
            s.start_time == start_time,
    {
        DaemonState { current_wallpaper: None, paused: false, start_time }
    }

    /// The status snapshot for a given uptime: the daemon is running and
    /// reports its current wallpaper.
    pub fn status_with_uptime(&self, uptime_secs: u64) -> (r: StatusInfo)
        ensures
            r.daemon_running,
            r.wallpaper == self.current_wallpaper,
            r.uptime_secs == uptime_secs,
    {
        StatusInfo {
            daemon_running: true,
            wallpaper: clone_opt_string(&self.current_wallpaper),
            uptime_secs,
        }
    }

    /// Builds a [`StatusInfo`] snapshot from the current state; the uptime is
    /// the number of whole seconds since `start_time`.
    pub fn to_status_info(&self) -> (r: StatusInfo)
        ensures
            r.daemon_running,
            r.wallpaper == self.current_wallpaper,
    {
        let elapsed = instant_elapsed(&self.start_time);
        self.status_with_uptime(duration_as_secs(&elapsed))
    }
}

impl Default for DaemonState {
    fn default() -> (s: Self)
        ensures
            s.current_wallpaper is None,
            !s.paused,
    {
        Self::new()
    }
}

// ---------------------------------------------------------------------------
// Wallpaper manager state machine
// ---------------------------------------------------------------------------

/// The script callback that a Hyprland event asks for.
#[derive(Debug, Clone, Copy, PartialEq, Eq, Structural)]
pub enum ScriptCall {
    /// `on_workspace_change(from, to)`.
    WorkspaceChange { from: i64, to: i64 },
    /// `on_fullscreen(active)`.
    Fullscreen(bool),
}

/// What the main loop does in response to a [`DaemonCommand`].
#[derive(Debug, Clone)]
pub enum CommandAction {
    /// Load `path` on `monitor` (all monitors when `None`).
    SetWallpaper { path: String, monitor: Option<String> },
    /// Leave the main loop; the wallpaper has been stopped.
    Shutdown,
    /// Nothing more to do for this command.
    Continue,
    /// Report the daemon status.
    ReportStatus,
    /// A reload was requested but no wallpaper is loaded.
    NothingToReload,
    /// The command is not implemented yet.
    NotImplemented(DaemonCommand),
}

/// The state of the wallpaper lifecycle that the daemon's decisions read:
/// which monitors show a wallpaper, the loaded scene, pause state, whether
/// the scene's script is loaded and the last known workspace.
///
/// The per-monitor renderers and surfaces themselves are owned by the
/// application, keyed by the same connector names.
#[derive(Debug, Clone)]
pub struct WallpaperManager {
    /// Connector names (e.g. `"DP-1"`) of the monitors that show a wallpaper.
    pub monitors: Vec<String>,
    /// Path of the most recently loaded `.hyscene` file.
    pub current_path: Option<String>,
    /// Whether rendering is currently paused by the user.
    pub paused: bool,
    /// Whether the scene's `scripts/logic.rhai` is compiled and loaded.
    pub script_loaded: bool,
    /// Last known Hyprland workspace id; used as `from` in `on_workspace_change`.
    pub current_workspace: i64,
}

/// The manager with rendering paused.
pub open spec fn paused_spec(m: WallpaperManager) -> WallpaperManager {
    WallpaperManager { paused: true, ..m }
}

/// The manager with rendering resumed.
pub open spec fn resumed_spec(m: WallpaperManager) -> WallpaperManager {
    WallpaperManager { paused: false, ..m }
}

/// The monitors to render this frame: none while paused, otherwise all.
pub open spec fn frame_targets_spec(m: WallpaperManager) -> Seq<String> {
    if m.paused {
        Seq::empty()
    } else {
        m.monitors@
    }
}

/// The callback a Hyprland event asks for: none without a loaded script;
/// workspace changes and fullscreen changes are the handled events.
pub open spec fn script_call_spec(m: WallpaperManager, event: HyprlandEvent) -> Option<ScriptCall> {
    if !m.script_loaded {
        None
    } else {
        match event {
            HyprlandEvent::WorkspaceChanged { id } => Some(
                ScriptCall::WorkspaceChange { from: m.current_workspace, to: id as i64 },
            ),
            HyprlandEvent::FullscreenEntered => Some(ScriptCall::Fullscreen(true)),
            HyprlandEvent::FullscreenExited => Some(ScriptCall::Fullscreen(false)),
            _ => None,
        }
    }
}

/// The manager after a handled event: a workspace change becomes the
/// current workspace.
pub open spec fn committed_spec(m: WallpaperManager, event: HyprlandEvent) -> WallpaperManager {
    match event {
        HyprlandEvent::WorkspaceChanged { id } => WallpaperManager {
            current_workspace: id as i64,
            ..m
        },
        _ => m,
    }
}

/// The manager after a wallpaper was set from `path`.
pub open spec fn recorded_spec(m: WallpaperManager, path: String, script_loaded: bool) -> WallpaperManager {
    WallpaperManager { current_path: Some(path), script_loaded, ..m }
}

/// The monitors other than `name`, in order.
pub open spec fn without_monitor(ms: Seq<String>, name: Seq<char>) -> Seq<String>
    decreases ms.len(),
{
    if ms.len() == 0 {
        ms
    } else {
        let rest = without_monitor(ms.drop_last(), name);
        if ms.last()@ == name {
            rest
        } else {
            rest.push(ms.last())
        }
    }
}

/// Whether no connector name occurs twice in `ms`.
pub open spec fn distinct_names(ms: Seq<String>) -> bool {
    forall|i: int, j: int| 0 <= i < j < ms.len() ==> (#[trigger] ms[i])@ != (#[trigger] ms[j])@
}

impl WallpaperManager {
    /// The manager's invariant: the monitor list is keyed by connector name,
    /// so each monitor is listed once.
    pub open spec fn wf(self) -> bool {
        distinct_names(self.monitors@)
    }
}

/// Removing `name` leaves only monitors of `ms` other than `name`, and
/// keeps a list without repeated names free of them.
proof fn lemma_without_monitor_distinct(ms: Seq<String>, name: Seq<char>)
    ensures
        forall|k: int|
            0 <= k < without_monitor(ms, name).len() ==> (#[trigger] without_monitor(ms, name)[k])@
                != name && ms.contains(without_monitor(ms, name)[k]),
        distinct_names(ms) ==> distinct_names(without_monitor(ms, name)),
    decreases ms.len(),
{
    if ms.len() > 0 {
        let init = ms.drop_last();
        lemma_without_monitor_distinct(init, name);
        let rest = without_monitor(init, name);
        if distinct_names(ms) {
            assert forall|a: int, b: int| 0 <= a < b < init.len() implies (#[trigger] init[a])@
                != (#[trigger] init[b])@ by {
                assert(init[a] == ms[a] && init[b] == ms[b]);
            }
        }
        assert forall|k: int| 0 <= k < rest.len() implies ms.contains(#[trigger] rest[k]) by {
            let i = choose|i: int| 0 <= i < init.len() && init[i] == rest[k];
            assert(ms[i] == init[i]);
        }
        if ms.last()@ != name {
            let w = rest.push(ms.last());
            assert forall|k: int| 0 <= k < w.len() implies (#[trigger] w[k])@ != name && ms.contains(
                w[k],
            ) by {
                if k < rest.len() {
                    assert(w[k] == rest[k]);
                } else {
                    assert(ms[ms.len() - 1] == ms.last());
                }
            }
            if distinct_names(ms) {
                assert forall|a: int, b: int| 0 <= a < b < w.len() implies (#[trigger] w[a])@
                    != (#[trigger] w[b])@ by {
                    assert(w[a] == rest[a]);
                    if b < rest.len() {
                        assert(w[b] == rest[b]);
                    } else {
                        let i = choose|i: int| 0 <= i < init.len() && init[i] == rest[a];
                        assert(ms[i] == init[i]);
                        assert(w[b] == ms[ms.len() - 1]);
                    }
                }
            }
        }
    }
}

/// The state change and action of the main loop for `cmd`.
pub open spec fn command_spec(m: WallpaperManager, cmd: DaemonCommand) -> (WallpaperManager, CommandAction) {
    match cmd {
        DaemonCommand::SetWallpaper { path, monitor } => (
            m,
            CommandAction::SetWallpaper { path, monitor },
        ),
        DaemonCommand::Stop => (
            WallpaperManager { monitors: m.monitors, current_path: None, ..m },
            CommandAction::Shutdown,
        ),
        DaemonCommand::Pause => (paused_spec(m), CommandAction::Continue),
        DaemonCommand::Resume => (resumed_spec(m), CommandAction::Continue),
        DaemonCommand::GetStatus => (m, CommandAction::ReportStatus),
        DaemonCommand::Reload => match m.current_path {
            Some(p) => (m, CommandAction::SetWallpaper { path: p, monitor: None }),
            None => (m, CommandAction::NothingToReload),
        },
        other => (m, CommandAction::NotImplemented(other)),
    }
}

impl WallpaperManager {
    /// Creates a `WallpaperManager` with no active wallpapers.
    pub fn new() -> (m: Self)
        ensures
            m.wf(),
            m.monitors@.len() == 0,
            m.current_path is None,
            !m.paused,
            !m.script_loaded,
            m.current_workspace == 0,
    {
        WallpaperManager {
            monitors: Vec::new(),
            current_path: None,
            paused: false,
            script_loaded: false,
            current_workspace: 0,
        }
    }

    /// Pauses rendering; the last displayed frame remains on screen.
    pub fn pause(&mut self)
        ensures
            *final(self) == paused_spec(*old(self)),
            final(self).paused,
            final(self).monitors == old(self).monitors && final(self).current_path == old(
                self,
            ).current_path,
    {
        self.paused = true;
    }

    /// Resumes rendering after a previous [`pause`](Self::pause).
    pub fn resume(&mut self)
        ensures
            *final(self) == resumed_spec(*old(self)),
            !final(self).paused,
            final(self).monitors == old(self).monitors && final(self).current_path == old(
                self,
            ).current_path,
    {
        self.paused = false;
    }

    /// Drops all per-monitor wallpapers and forgets the loaded scene.
    pub fn stop(&mut self)
        ensures
            final(self).wf(),
            final(self).monitors@.len() == 0,
            final(self).current_path is None,
            final(self).paused == old(self).paused,
            final(self).script_loaded == old(self).script_loaded,
            final(self).current_workspace == old(self).current_workspace,
    {
        self.monitors = Vec::new();
        self.current_path = None;
    }

    /// The monitors to render this frame: none while paused, otherwise every
    /// monitor that shows a wallpaper.
    pub fn frame_targets(&self) -> (r: Vec<String>)
        ensures
            r@ == frame_targets_spec(*self),
            self.paused ==> r@.len() == 0,
            !self.paused ==> r@ == self.monitors@,
            self.wf() ==> distinct_names(r@),
    {
        if self.paused {
            return Vec::new();
        }
        let mut out: Vec<String> = Vec::new();
        let n = self.monitors.len();
        let mut i: usize = 0;
        while i < n
            invariant
                n == self.monitors@.len(),
                i <= n,
                out@ == self.monitors@.subrange(0, i as int),
            decreases n - i,
        {
            out.push(self.monitors[i].clone());
            i = i + 1;
            assert(out@ =~= self.monitors@.subrange(0, i as int));
        }
        assert(self.monitors@.subrange(0, n as int) == self.monitors@);
        out
    }

    /// The monitors a wallpaper is set on: the requested one, or every
    /// detected monitor when none is requested.
    pub fn target_monitors(requested: Option<String>, detected: Vec<String>) -> (r: Vec<String>)
        ensures
            match requested {
                Some(name) => r@ == seq![name],
                None => r@ == detected@,
            },
    {
        match requested {
            Some(name) => {
                let mut v: Vec<String> = Vec::new();
                v.push(name);
                v
            },
            None => detected,
        }
    }

    /// Forgets the wallpaper of monitor `name` (its old renderer and surface
    /// are dropped before a new one is created).
    pub fn remove_monitor(&mut self, name: &str)
        ensures
            final(self).monitors@ == without_monitor(old(self).monitors@, name@),
            old(self).wf() ==> final(self).wf(),
            final(self).current_path == old(self).current_path,
            final(self).paused == old(self).paused,
            final(self).script_loaded == old(self).script_loaded,
            final(self).current_workspace == old(self).current_workspace,
    {
        let ghost orig = self.monitors@;
        proof {
            lemma_without_monitor_distinct(orig, name@);
        }
        let mut kept: Vec<String> = Vec::new();
        let n = self.monitors.len();
        let mut i: usize = 0;
        while i < n
            invariant
                n == self.monitors@.len(),
                orig == self.monitors@,
                i <= n,
                kept@ == without_monitor(orig.subrange(0, i as int), name@),
            decreases n - i,
        {
            let keep = !str_eq(self.monitors[i].as_str(), name);
            proof {
                let next = orig.subrange(0, i + 1);
                assert(next.drop_last() == orig.subrange(0, i as int));
                assert(next.last() == orig[i as int]);
            }
            if keep {
                kept.push(self.monitors[i].clone());
            }
            i = i + 1;
        }
        assert(orig.subrange(0, n as int) == orig);
        self.monitors = kept;
    }

    /// Records that monitor `name` now shows the wallpaper.
    pub fn insert_monitor(&mut self, name: String)
        ensures
            final(self).monitors@ == without_monitor(old(self).monitors@, name@).push(name),
            old(self).wf() ==> final(self).wf(),
            final(self).current_path == old(self).current_path,
            final(self).paused == old(self).paused,
            final(self).script_loaded == old(self).script_loaded,
            final(self).current_workspace == old(self).current_workspace,
    {
        proof {
            lemma_without_monitor_distinct(self.monitors@, name@);
        }
        self.remove_monitor(name.as_str());
        let ghost kept = self.monitors@;
        self.monitors.push(name);
        proof {
            let w = self.monitors@;
            if distinct_names(kept) {
                assert forall|a: int, b: int| 0 <= a < b < w.len() implies (#[trigger] w[a])@
                    != (#[trigger] w[b])@ by {
                    assert(w[a] == kept[a]);
                    if b < kept.len() {
                        assert(w[b] == kept[b]);
                    }
                }
            }
        }
    }

    /// Records the scene at `path` as the current wallpaper, and whether its
    /// script was loaded.
    pub fn record_wallpaper(&mut self, path: String, script_loaded: bool)
        ensures
            *final(self) == recorded_spec(*old(self), path, script_loaded),
            final(self).current_path == Some(path),
            final(self).script_loaded == script_loaded,
            final(self).monitors == old(self).monitors && final(self).paused == old(self).paused,
    {
        self.current_path = Some(path);
        self.script_loaded = script_loaded;
    }

    /// The script callback that `event` asks for, if any.  Without a loaded
    /// script, and for events other than workspace and fullscreen changes,
    /// there is none.
    pub fn on_hyprland_event(&self, event: &HyprlandEvent) -> (r: Option<ScriptCall>)
        ensures
            r == script_call_spec(*self, *event),
            !self.script_loaded ==> r is None,
            (event is WindowFocused || event is MonitorAdded || event is MonitorRemoved
                || event is MonitorFocused) ==> r is None,
            self.script_loaded && event is FullscreenEntered ==> r == Some(ScriptCall::Fullscreen(true)),
            self.script_loaded && event is FullscreenExited ==> r == Some(ScriptCall::Fullscreen(false)),
            self.script_loaded && event is WorkspaceChanged ==> r == Some(
                ScriptCall::WorkspaceChange { from: self.current_workspace, to: event->id as i64 },
            ),
    {
        if !self.script_loaded {
            return None;
        }
        match event {
            HyprlandEvent::WorkspaceChanged { id } => Some(
                ScriptCall::WorkspaceChange { from: self.current_workspace, to: *id as i64 },
            ),
            HyprlandEvent::FullscreenEntered => Some(ScriptCall::Fullscreen(true)),
            HyprlandEvent::FullscreenExited => Some(ScriptCall::Fullscreen(false)),
            _ => None,
        }
    }

    /// Records an event whose callback ran successfully: a workspace change
    /// becomes the current workspace.
    pub fn commit_hyprland_event(&mut self, event: &HyprlandEvent)
        ensures
            *final(self) == committed_spec(*old(self), *event),
            event is WorkspaceChanged ==> final(self).current_workspace == event->id as i64,
            !(event is WorkspaceChanged) ==> *final(self) == *old(self),
            final(self).monitors == old(self).monitors && final(self).paused == old(self).paused,
    {
        match event {
            HyprlandEvent::WorkspaceChanged { id } => {
                self.current_workspace = *id as i64;
            },
            _ => {},
        }
    }

    /// Applies `cmd` from the IPC socket and returns what the main loop must
    /// do next: `Stop` stops the wallpaper and shuts down, `Pause` and
    /// `Resume` toggle rendering, `Reload` re-sets the current wallpaper on
    /// all monitors.
    pub fn handle_command(&mut self, cmd: DaemonCommand) -> (r: CommandAction)
        ensures
            final(self).monitors@ == (if cmd is Stop { Seq::empty() } else { old(self).monitors@ }),
            old(self).wf() ==> final(self).wf(),
            (WallpaperManager { monitors: old(self).monitors, ..*final(self) }, r) == command_spec(
                *old(self),
                cmd,
            ),
            cmd is Stop ==> r is Shutdown && final(self).current_path is None,
            cmd is Pause ==> r is Continue && final(self).paused,
            cmd is Resume ==> r is Continue && !final(self).paused,
            cmd is GetStatus ==> r is ReportStatus && final(self).paused == old(self).paused,
            !(cmd is Stop) ==> final(self).current_path == old(self).current_path,
            !(cmd is Pause) && !(cmd is Resume) ==> final(self).paused == old(self).paused,
            cmd is Reload ==> match old(self).current_path {
                Some(p) => r == (CommandAction::SetWallpaper { path: p, monitor: None }),
                None => r is NothingToReload,
            },
            cmd matches DaemonCommand::SetWallpaper { path, monitor } ==> r == (
            CommandAction::SetWallpaper { path, monitor }),
    {
        match cmd {
            DaemonCommand::SetWallpaper { path, monitor } => CommandAction::SetWallpaper {
                path,
                monitor,
            },
            DaemonCommand::Stop => {
                self.stop();
                CommandAction::Shutdown
            },
            DaemonCommand::Pause => {
                self.pause();
                CommandAction::Continue
            },
            DaemonCommand::Resume => {
                self.resume();
                CommandAction::Continue
            },
            DaemonCommand::GetStatus => CommandAction::ReportStatus,
            DaemonCommand::Reload => match &self.current_path {
                Some(p) => CommandAction::SetWallpaper { path: p.clone(), monitor: None },
                None => CommandAction::NothingToReload,
            },
            other => CommandAction::NotImplemented(other),
        }
    }
}

/// The image assets a scene needs uploaded: the `src` of each image layer,
/// in layer order.
pub open spec fn image_sources_spec(layers: Seq<Layer>) -> Seq<String>
    decreases layers.len(),
{
    if layers.len() == 0 {
        Seq::empty()
    } else {
        let rest = image_sources_spec(layers.drop_last());
        match layers.last().kind {
            LayerKind::Image(img) => rest.push(img.src),
            _ => rest,
        }
    }
}

/// The asset paths of the scene's image layers, in layer order; these are
/// read from the archive and uploaded when a monitor's wallpaper is set.
pub fn image_sources(scene: &Scene) -> (r: Vec<String>)
    ensures
        r@ == image_sources_spec(scene.layers@),
{
    let mut out: Vec<String> = Vec::new();
    let n = scene.layers.len();
    let mut i: usize = 0;
    while i < n
        invariant
            n == scene.layers@.len(),
            i <= n,
            out@ == image_sources_spec(scene.layers@.subrange(0, i as int)),
        decreases n - i,
    {
        let ghost next = scene.layers@.subrange(0, i + 1);
        assert(next.drop_last() == scene.layers@.subrange(0, i as int));
        assert(next.last() == scene.layers@[i as int]);
        match &scene.layers[i].kind {
            LayerKind::Image(img) => {
                out.push(img.src.clone());
            },
            _ => {},
        }
        i = i + 1;
    }
    assert(scene.layers@.subrange(0, n as int) == scene.layers@);
    out
}

// ---------------------------------------------------------------------------
// Scene assets
// ---------------------------------------------------------------------------

/// Name of the optional script member of a `.hyscene` archive.
pub open spec fn script_name() -> Seq<char> {
    "scripts/logic.rhai"@
}

/// The source of the scene's script, read from the bytes of its archive:
/// `scripts/logic.rhai` as text, or `None` when the archive has no such
/// member or it cannot be read (a scene without a script is not an error).
pub fn scene_script_source(archive: &[u8]) -> (r: Option<String>)
    ensures
        r is Some <==> (
            zip_archive_readable(archive@)
            && zip_member_lookup(archive@, script_name()) == Some(true)
            && zip_member_text(archive@, script_name()) is Some
        ),
        r matches Some(s) ==> zip_member_text(archive@, script_name()) == Some(s@),
{
    match archive_member_text(archive, "scripts/logic.rhai") {
        Ok(source) => Some(source),
        Err(_) => None,
    }
}

/// An image asset read from a scene archive, ready to be uploaded.
#[derive(Debug)]
pub struct ImageAsset {
    /// Path of the asset inside the archive (the layer's `src`).
    pub src: String,
    /// Contents of the asset.
    pub bytes: Vec<u8>,
}

/// Why the image assets of a scene could not be read.
#[derive(Debug)]
pub enum AssetError {
    /// The bytes are not a readable ZIP archive.
    Archive(zip::result::ZipError),
    /// The asset `src` exists but its contents could not be read.
    Read(String, std::io::Error),
}

/// What reading one image asset leads to.
pub enum AssetStep {
    /// The asset's contents are uploaded.
    Load(Seq<u8>),
    /// The asset is not in the archive (or cannot be opened) and is skipped.
    Skip,
    /// Loading the wallpaper fails.
    Fail,
}

/// The step for the asset `src` of the archive made of the bytes `archive`:
/// an unreadable archive fails; a member that is absent or cannot be opened
/// is skipped; an opened member is loaded, or fails when its contents
/// cannot be read.
pub open spec fn asset_step(archive: Seq<u8>, src: Seq<char>) -> AssetStep {
    if !zip_archive_readable(archive) {
        AssetStep::Fail
    } else if zip_member_lookup(archive, src) != Some(true) {
        AssetStep::Skip
    } else {
        match zip_member_bytes(archive, src) {
            Some(b) => AssetStep::Load(b),
            None => AssetStep::Fail,
        }
    }
}

/// The assets loaded for the image sources `srcs`, in order, or the first
/// source whose step fails.
pub open spec fn assets_spec(archive: Seq<u8>, srcs: Seq<String>) -> Result<Seq<(Seq<char>, Seq<u8>)>, Seq<char>>
    decreases srcs.len(),
{
    if srcs.len() == 0 {
        Ok(Seq::empty())
    } else {
        match assets_spec(archive, srcs.drop_last()) {
            Err(first) => Err(first),
            Ok(loaded) => match asset_step(archive, srcs.last()@) {
                AssetStep::Load(b) => Ok(loaded.push((srcs.last()@, b))),
                AssetStep::Skip => Ok(loaded),
                AssetStep::Fail => Err(srcs.last()@),
            },
        }
    }
}

/// The model of a list of assets: each source with its contents.
pub open spec fn asset_views(v: Seq<ImageAsset>) -> Seq<(Seq<char>, Seq<u8>)> {
    v.map_values(|a: ImageAsset| (a.src@, a.bytes@))
}

/// Folds the outcome of reading the asset `src` into the assets read so
/// far: its contents are appended; an absent or unopenable member is
/// skipped; an unreadable archive or unreadable contents is an error.
pub fn take_asset(loaded: &mut Vec<ImageAsset>, src: String, read: Result<Vec<u8>, ArchiveError>) -> (r: Result<(), AssetError>)
    ensures
        match read {
            Ok(b) => r is Ok && final(loaded)@ == old(loaded)@.push(ImageAsset { src, bytes: b }),
            Err(ArchiveError::MemberMissing) => r is Ok && final(loaded)@ == old(loaded)@,
            Err(ArchiveError::Member(_)) => r is Ok && final(loaded)@ == old(loaded)@,
            Err(ArchiveError::Archive(e)) => r == Err::<(), AssetError>(AssetError::Archive(e))
                && final(loaded)@ == old(loaded)@,
            Err(ArchiveError::Io(e)) => r == Err::<(), AssetError>(AssetError::Read(src, e))
                && final(loaded)@ == old(loaded)@,
        },
{
    match read {
        Ok(bytes) => {
            loaded.push(ImageAsset { src, bytes });
            Ok(())
        },
        Err(ArchiveError::MemberMissing) => Ok(()),
        Err(ArchiveError::Member(_)) => Ok(()),
        Err(ArchiveError::Archive(e)) => Err(AssetError::Archive(e)),
        Err(ArchiveError::Io(e)) => Err(AssetError::Read(src, e)),
    }
}

/// Reads the image assets of `scene` out of the bytes of its archive, in
/// layer order.  Assets missing from the archive are skipped; the first
/// asset whose contents cannot be read stops the loading with an error.
pub fn load_image_assets(archive: &[u8], scene: &Scene) -> (r: Result<Vec<ImageAsset>, AssetError>)
    ensures
        match r {
            Ok(v) => assets_spec(archive@, image_sources_spec(scene.layers@)) == Ok::<
                Seq<(Seq<char>, Seq<u8>)>,
                Seq<char>,
            >(asset_views(v@)),
            Err(AssetError::Archive(_)) => !zip_archive_readable(archive@)
                && assets_spec(archive@, image_sources_spec(scene.layers@)) is Err,
            Err(AssetError::Read(src, _)) => zip_archive_readable(archive@)
                && assets_spec(archive@, image_sources_spec(scene.layers@)) == Err::<
                Seq<(Seq<char>, Seq<u8>)>,
                Seq<char>,
            >(src@),
        },
{
    let srcs = image_sources(scene);
    let mut loaded: Vec<ImageAsset> = Vec::new();
    let n = srcs.len();
    let mut i: usize = 0;
    assert(asset_views(loaded@) =~= Seq::<(Seq<char>, Seq<u8>)>::empty());
    assert(srcs@.subrange(0, 0) =~= Seq::<String>::empty());
    while i < n
        invariant
            n == srcs@.len(),
            srcs@ == image_sources_spec(scene.layers@),
            i <= n,
            assets_spec(archive@, srcs@.subrange(0, i as int)) == Ok::<
                Seq<(Seq<char>, Seq<u8>)>,
                Seq<char>,
            >(asset_views(loaded@)),
        decreases n - i,
    {
        let ghost prefix = srcs@.subrange(0, i + 1);
        assert(prefix.drop_last() == srcs@.subrange(0, i as int));
        assert(prefix.last() == srcs@[i as int]);
        let src = srcs[i].clone();
        let read = archive_member_bytes(archive, src.as_str());
        proof {
            lemma_lookup_cases(zip_member_lookup(archive@, src@));
        }
        let ghost before = loaded@;
        match take_asset(&mut loaded, src, read) {
            Ok(()) => {},
            Err(e) => {
                proof {
                    lemma_assets_fail_propagates(archive@, srcs@, i as int + 1);
                }
                return Err(e);
            },
        }
        assert(asset_views(loaded@) =~= asset_views(before) || asset_views(loaded@) =~= asset_views(before).push(
            (srcs@[i as int]@, loaded@.last().bytes@),
        ));
        i = i + 1;
    }
    assert(srcs@.subrange(0, n as int) == srcs@);
    Ok(loaded)
}

/// A member lookup is absent, a success or a failure.
proof fn lemma_lookup_cases(l: Option<bool>)
    ensures
        l is None || l == Some(true) || l == Some(false),
{
}

/// A failure in a prefix of the sources is the failure of every longer
/// prefix.
proof fn lemma_assets_fail_propagates(archive: Seq<u8>, srcs: Seq<String>, k: int)
    requires
        0 <= k <= srcs.len(),
        assets_spec(archive, srcs.subrange(0, k)) is Err,
    ensures
        assets_spec(archive, srcs) == assets_spec(archive, srcs.subrange(0, k)),
    decreases srcs.len() - k,
{
    if k < srcs.len() {
        let next = srcs.subrange(0, k + 1);
        assert(next.drop_last() == srcs.subrange(0, k));
        lemma_assets_fail_propagates(archive, srcs, k + 1);
    } else {
        assert(srcs.subrange(0, k) == srcs);
    }
}

/// Pausing and then resuming leaves a running manager exactly as it was.
pub proof fn law_resume_undoes_pause(m: WallpaperManager)
    requires
        !m.paused,
    ensures
        resumed_spec(paused_spec(m)) == m,
{
}

/// While rendering is paused, no monitor is rendered; after resuming, every
/// monitor showing a wallpaper is.
pub proof fn law_pause_stops_frames(m: WallpaperManager)
    ensures
        frame_targets_spec(paused_spec(m)).len() == 0,
        frame_targets_spec(resumed_spec(paused_spec(m))) == m.monitors@,
{
}

/// `Reload` after a wallpaper was set re-sets that same scene on all monitors.
pub proof fn law_reload_reapplies_current(m: WallpaperManager, path: String, script_loaded: bool)
    ensures
        command_spec(recorded_spec(m, path, script_loaded), DaemonCommand::Reload).1
            == (CommandAction::SetWallpaper { path, monitor: None }),
{
}

/// Only workspace and fullscreen changes call back into the script: every
/// other event asks for no callback, entering and leaving fullscreen ask for
/// `on_fullscreen(true)` and `on_fullscreen(false)`, and a workspace change
/// asks for `on_workspace_change` from the last workspace to the new one.
pub proof fn law_callbacks_follow_the_event(m: WallpaperManager, event: HyprlandEvent)
    ensures
        (event is WindowFocused || event is MonitorAdded || event is MonitorRemoved
            || event is MonitorFocused) ==> script_call_spec(m, event) is None,
        m.script_loaded && event is FullscreenEntered ==> script_call_spec(m, event) == Some(
            ScriptCall::Fullscreen(true),
        ),
        m.script_loaded && event is FullscreenExited ==> script_call_spec(m, event) == Some(
            ScriptCall::Fullscreen(false),
        ),
        m.script_loaded && event is WorkspaceChanged ==> script_call_spec(m, event) == Some(
            ScriptCall::WorkspaceChange { from: m.current_workspace, to: event->id as i64 },
        ),
        !(event is WorkspaceChanged) ==> committed_spec(m, event) == m,
{
}

/// Without a loaded script, Hyprland events call no callback.
pub proof fn law_no_script_no_callback(m: WallpaperManager, event: HyprlandEvent)
    requires
        !m.script_loaded,
    ensures
        script_call_spec(m, event) == None::<ScriptCall>,
{
}

/// The `from` of a workspace callback is the workspace of the last handled
/// workspace change.
pub proof fn law_workspace_from_tracks_last_change(m: WallpaperManager, a: u32, b: u32)
    requires
        m.script_loaded,
    ensures
        script_call_spec(
            committed_spec(m, HyprlandEvent::WorkspaceChanged { id: a }),
            HyprlandEvent::WorkspaceChanged { id: b },
        ) == Some(ScriptCall::WorkspaceChange { from: a as i64, to: b as i64 }),
{
}

/// Removing a monitor twice removes no more than removing it once.
proof fn lemma_without_monitor_idempotent(ms: Seq<String>, name: Seq<char>)
    ensures
        without_monitor(without_monitor(ms, name), name) == without_monitor(ms, name),
    decreases ms.len(),
{
    if ms.len() > 0 {
        lemma_without_monitor_idempotent(ms.drop_last(), name);
        let rest = without_monitor(ms.drop_last(), name);
        if ms.last()@ != name {
            assert(rest.push(ms.last()).drop_last() == rest);
        }
    }
}

/// Removing a monitor undoes inserting it: the other monitors are left as
/// they were, in order; and inserting a monitor that is already shown
/// changes nothing.
pub proof fn law_remove_undoes_insert(m: WallpaperManager, name: String)
    ensures
        without_monitor(without_monitor(m.monitors@, name@).push(name), name@) == without_monitor(
            m.monitors@,
            name@,
        ),
        without_monitor(without_monitor(m.monitors@, name@).push(name), name@).push(name)
            == without_monitor(m.monitors@, name@).push(name),
{
    let rest = without_monitor(m.monitors@, name@);
    assert(rest.push(name).drop_last() == rest);
    lemma_without_monitor_idempotent(m.monitors@, name@);
}

impl Default for WallpaperManager {
    fn default() -> (m: Self)
        ensures
            m.wf(),
            m.monitors@.len() == 0,
            m.current_path is None,
            !m.paused,
            !m.script_loaded,
            m.current_workspace == 0,
    {
        Self::new()
    }
}

} // verus!
