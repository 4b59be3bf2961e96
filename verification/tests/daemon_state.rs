use hypaper::daemon::{
    default_socket_path, image_sources, is_on_battery, join_relative, CommandAction, DaemonConfig,
    DaemonState, IpcFormat, PowerSupplyEntry, ScriptCall, WallpaperManager,
};
use hypaper::hyprland::HyprlandEvent;
use hypaper::types::{
    BlendMode, DaemonCommand, FitMode, ImageLayer, Layer, LayerBase, LayerKind, Scene, SceneConfig,
    SceneMeta, ShaderLayer, UniformValue,
};

#[test]
fn config_defaults_with_environment() {
    let c = DaemonConfig::with_environment(Some("/run/user/1000"), Some("/home/ann"));
    assert_eq!(c.socket_path, "/run/user/1000/hypaper.sock");
    assert_eq!(c.wallpapers_dir, "/home/ann/.local/share/hypaper/scenes");
    assert_eq!(c.log_level, "info");
    assert_eq!(c.ipc_format, IpcFormat::Json);
    assert_eq!(c.max_fps, 60);
    assert!(c.reduce_on_battery);
    assert_eq!(c.fps_on_battery, 30);
    assert!(c.pause_on_fullscreen);
    assert!(!c.pause_on_battery);
}

#[test]
fn config_defaults_without_environment() {
    let c = DaemonConfig::with_environment(None, None);
    assert_eq!(c.socket_path, "/tmp/hypaper.sock");
    assert_eq!(c.wallpapers_dir, "/usr/share/hypaper/scenes");
}

#[test]
fn socket_path_joins_runtime_dir() {
    assert_eq!(default_socket_path(Some("/run/user/1000/")), "/run/user/1000/hypaper.sock");
    assert_eq!(default_socket_path(Some("")), "hypaper.sock");
    assert_eq!(default_socket_path(None), "/tmp/hypaper.sock");
}

#[test]
fn join_relative_matches_path_join() {
    for base in ["", "/", "/a", "/a/", "a", "a/b", "/run/user/1000"] {
        for rel in ["x", "x/y", ".local/share"] {
            let expected = std::path::Path::new(base).join(rel);
            assert_eq!(join_relative(base, rel), expected.to_str().unwrap(), "{base:?} + {rel:?}");
        }
    }
}

fn entry(name: &str, online: Option<&str>) -> PowerSupplyEntry {
    PowerSupplyEntry { name: name.to_string(), online: online.map(|s| s.to_string()) }
}

#[test]
fn battery_detection_reads_first_ac_adapter() {
    assert!(is_on_battery(&vec![entry("BAT0", None), entry("AC", Some("0\n"))]));
    assert!(!is_on_battery(&vec![entry("AC", Some("1\n"))]));
    assert!(!is_on_battery(&vec![entry("ACAD", Some(" 1 "))]));
    assert!(is_on_battery(&vec![entry("ACAD", Some("1 0"))]));
    assert!(is_on_battery(&vec![entry("AC", None), entry("AC0", Some("0"))]));
    assert!(!is_on_battery(&vec![entry("AC0", Some("1")), entry("AC1", Some("0"))]));
}

#[test]
fn desktop_without_adapter_is_on_mains() {
    assert!(!is_on_battery(&Vec::new()));
    assert!(!is_on_battery(&vec![entry("BAT0", Some("0")), entry("ucsi-source-psy", Some("0"))]));
    assert!(!is_on_battery(&vec![entry("A", Some("0")), entry("ac", Some("0"))]));
}

#[test]
fn daemon_state_starts_idle() {
    let s = DaemonState::new();
    assert!(s.current_wallpaper.is_none());
    assert!(!s.paused);
    let info = s.to_status_info();
    assert!(info.daemon_running);
    assert!(info.wallpaper.is_none());
    let d = DaemonState::default();
    assert!(d.current_wallpaper.is_none() && !d.paused);
}

#[test]
fn status_reports_wallpaper_and_uptime() {
    let mut s = DaemonState::new();
    s.current_wallpaper = Some("/scenes/rain.hyscene".to_string());
    let info = s.status_with_uptime(42);
    assert!(info.daemon_running);
    assert_eq!(info.wallpaper.as_deref(), Some("/scenes/rain.hyscene"));
    assert_eq!(info.uptime_secs, 42);
    assert_eq!(s.to_status_info().wallpaper.as_deref(), Some("/scenes/rain.hyscene"));
}

fn names(v: &[String]) -> Vec<&str> {
    v.iter().map(|s| s.as_str()).collect()
}

#[test]
fn manager_starts_empty() {
    let m = WallpaperManager::new();
    assert!(m.monitors.is_empty());
    assert!(m.current_path.is_none());
    assert!(!m.paused && !m.script_loaded);
    assert_eq!(m.current_workspace, 0);
    assert!(WallpaperManager::default().monitors.is_empty());
}

#[test]
fn pause_stops_frames_and_resume_restores_them() {
    let mut m = WallpaperManager::new();
    m.insert_monitor("DP-1".to_string());
    m.insert_monitor("HDMI-A-1".to_string());
    assert_eq!(names(&m.frame_targets()), ["DP-1", "HDMI-A-1"]);
    m.pause();
    assert!(m.paused);
    assert!(m.frame_targets().is_empty());
    m.resume();
    assert!(!m.paused);
    assert_eq!(names(&m.frame_targets()), ["DP-1", "HDMI-A-1"]);
}

#[test]
fn inserting_a_monitor_again_replaces_it() {
    let mut m = WallpaperManager::new();
    m.insert_monitor("DP-1".to_string());
    m.insert_monitor("DP-2".to_string());
    m.insert_monitor("DP-1".to_string());
    assert_eq!(names(&m.monitors), ["DP-2", "DP-1"]);
    m.remove_monitor("DP-2");
    assert_eq!(names(&m.monitors), ["DP-1"]);
    m.remove_monitor("HDMI-A-1");
    assert_eq!(names(&m.monitors), ["DP-1"]);
}

#[test]
fn target_monitors_prefers_requested() {
    let detected = vec!["DP-1".to_string(), "DP-2".to_string()];
    assert_eq!(names(&WallpaperManager::target_monitors(Some("DP-9".to_string()), detected.clone())), ["DP-9"]);
    assert_eq!(names(&WallpaperManager::target_monitors(None, detected)), ["DP-1", "DP-2"]);
    assert!(WallpaperManager::target_monitors(None, Vec::new()).is_empty());
}

#[test]
fn stop_forgets_monitors_and_scene() {
    let mut m = WallpaperManager::new();
    m.insert_monitor("DP-1".to_string());
    m.record_wallpaper("/s/a.hyscene".to_string(), true);
    let action = m.handle_command(DaemonCommand::Stop);
    assert!(matches!(action, CommandAction::Shutdown));
    assert!(m.monitors.is_empty());
    assert!(m.current_path.is_none());
    assert!(m.script_loaded);
}

#[test]
fn commands_map_to_actions() {
    let mut m = WallpaperManager::new();
    m.insert_monitor("DP-1".to_string());
    match m.handle_command(DaemonCommand::SetWallpaper {
        path: "/s/rain.hyscene".to_string(),
        monitor: Some("DP-1".to_string()),
    }) {
        CommandAction::SetWallpaper { path, monitor } => {
            assert_eq!(path, "/s/rain.hyscene");
            assert_eq!(monitor.as_deref(), Some("DP-1"));
        }
        other => panic!("unexpected {other:?}"),
    }
    assert!(matches!(m.handle_command(DaemonCommand::Pause), CommandAction::Continue));
    assert!(m.paused);
    assert!(matches!(m.handle_command(DaemonCommand::Resume), CommandAction::Continue));
    assert!(!m.paused);
    assert!(matches!(m.handle_command(DaemonCommand::GetStatus), CommandAction::ReportStatus));
    assert!(matches!(m.handle_command(DaemonCommand::Reload), CommandAction::NothingToReload));
    match m.handle_command(DaemonCommand::SetLayerOpacity { id: "bg".to_string(), opacity: 0.5f32.to_bits() }) {
        CommandAction::NotImplemented(DaemonCommand::SetLayerOpacity { id, opacity }) => {
            assert_eq!(id, "bg");
            assert_eq!(f32::from_bits(opacity), 0.5);
        }
        other => panic!("unexpected {other:?}"),
    }
    let cmd = DaemonCommand::SetUniform {
        layer: "fx".to_string(),
        name: "u_time".to_string(),
        value: UniformValue::Float(1.0f32.to_bits()),
    };
    assert!(matches!(m.handle_command(cmd), CommandAction::NotImplemented(DaemonCommand::SetUniform { .. })));
    assert_eq!(names(&m.monitors), ["DP-1"]);
}

#[test]
fn reload_reapplies_current_wallpaper() {
    let mut m = WallpaperManager::new();
    m.record_wallpaper("/s/snow.hyscene".to_string(), false);
    assert_eq!(m.current_path.as_deref(), Some("/s/snow.hyscene"));
    match m.handle_command(DaemonCommand::Reload) {
        CommandAction::SetWallpaper { path, monitor } => {
            assert_eq!(path, "/s/snow.hyscene");
            assert!(monitor.is_none());
        }
        other => panic!("unexpected {other:?}"),
    }
}

#[test]
fn events_without_script_call_nothing() {
    let m = WallpaperManager::new();
    assert_eq!(m.on_hyprland_event(&HyprlandEvent::WorkspaceChanged { id: 3 }), None);
    assert_eq!(m.on_hyprland_event(&HyprlandEvent::FullscreenEntered), None);
}

#[test]
fn workspace_callbacks_track_last_workspace() {
    let mut m = WallpaperManager::new();
    m.record_wallpaper("/s/a.hyscene".to_string(), true);
    let first = HyprlandEvent::WorkspaceChanged { id: 2 };
    assert_eq!(m.on_hyprland_event(&first), Some(ScriptCall::WorkspaceChange { from: 0, to: 2 }));
    m.commit_hyprland_event(&first);
    assert_eq!(m.current_workspace, 2);
    let second = HyprlandEvent::WorkspaceChanged { id: 5 };
    assert_eq!(m.on_hyprland_event(&second), Some(ScriptCall::WorkspaceChange { from: 2, to: 5 }));
    assert_eq!(m.on_hyprland_event(&HyprlandEvent::FullscreenEntered), Some(ScriptCall::Fullscreen(true)));
    assert_eq!(m.on_hyprland_event(&HyprlandEvent::FullscreenExited), Some(ScriptCall::Fullscreen(false)));
    let other = HyprlandEvent::MonitorAdded { name: "DP-3".to_string() };
    assert_eq!(m.on_hyprland_event(&other), None);
    m.commit_hyprland_event(&other);
    assert_eq!(m.current_workspace, 2);
}

fn layer(id: &str, kind: LayerKind) -> Layer {
    Layer {
        base: LayerBase {
            id: id.to_string(),
            z_index: 0,
            visible: true,
            opacity: 1.0f32.to_bits(),
            blend_mode: BlendMode::Normal,
        },
        kind,
    }
}

#[test]
fn image_sources_lists_image_layers_in_order() {
    let scene = Scene {
        meta: SceneMeta {
            name: "S".to_string(),
            author: "A".to_string(),
            version: "1.0.0".to_string(),
            engine_version: "0.1.0".to_string(),
        },
        config: SceneConfig { fps: 30, resolution: [1920, 1080] },
        layers: vec![
            layer("bg", LayerKind::Image(ImageLayer { src: "bg.png".to_string(), fit_mode: FitMode::Fill })),
            layer("fx", LayerKind::Shader(ShaderLayer { src: "fx.wgsl".to_string(), uniforms: Vec::new() })),
            layer("fg", LayerKind::Image(ImageLayer { src: "fg.png".to_string(), fit_mode: FitMode::Fit })),
        ],
        audio: None,
        hyprland: None,
    };
    assert_eq!(names(&image_sources(&scene)), ["bg.png", "fg.png"]);
}

use hypaper::daemon::{config_file_path, frame_interval_ns};

#[test]
fn config_file_lives_under_home() {
    assert_eq!(config_file_path(Some("/home/ann")).as_deref(), Some("/home/ann/.config/hypaper/daemon.toml"));
    assert!(config_file_path(None).is_none());
}

#[test]
fn frame_interval_divides_a_second() {
    assert_eq!(frame_interval_ns(60), 16_666_666);
    assert_eq!(frame_interval_ns(30), 33_333_333);
    assert_eq!(frame_interval_ns(1), 1_000_000_000);
    assert_eq!(frame_interval_ns(144), 6_944_444);
}

#[test]
fn removing_an_inserted_monitor_restores_the_others() {
    let mut m = WallpaperManager::new();
    m.insert_monitor("DP-1".to_string());
    m.insert_monitor("DP-2".to_string());
    m.insert_monitor("HDMI-A-1".to_string());
    m.remove_monitor("HDMI-A-1");
    assert_eq!(names(&m.monitors), ["DP-1", "DP-2"]);
    m.insert_monitor("DP-2".to_string());
    let once = m.monitors.clone();
    m.insert_monitor("DP-2".to_string());
    assert_eq!(m.monitors, once);
    assert_eq!(names(&m.monitors), ["DP-1", "DP-2"]);
}

#[test]
fn started_at_counts_from_the_given_instant() {
    let start = std::time::Instant::now();
    let s = DaemonState::started_at(start);
    assert_eq!(s.start_time, start);
    assert!(s.current_wallpaper.is_none() && !s.paused);
}

#[test]
fn monitors_are_listed_once() {
    let mut m = WallpaperManager::new();
    for name in ["DP-1", "DP-1", "HDMI-A-1", "DP-1"] {
        m.insert_monitor(name.to_string());
    }
    assert_eq!(names(&m.frame_targets()), ["HDMI-A-1", "DP-1"]);
}
