use hypaper::wayland::{
    create_surface, find_monitor, list_monitors, MonitorInfo, OutputData, OutputEvent,
    SurfaceConfig, WaylandError,
};

#[test]
fn placeholder_names_by_index() {
    let d = OutputData::placeholder(0);
    assert_eq!(d.name, "output-0");
    assert_eq!((d.width, d.height), (0, 0));
    assert_eq!(OutputData::placeholder(12).name, "output-12");
}

#[test]
fn events_update_output_data() {
    let mut d = OutputData::placeholder(3);
    d.apply_event(OutputEvent::Mode { width: 2560, height: 1440 });
    assert_eq!(d.name, "output-3");
    assert_eq!((d.width, d.height), (2560, 1440));
    d.apply_event(OutputEvent::Name("DP-1".to_string()));
    assert_eq!(d.name, "DP-1");
    assert_eq!((d.width, d.height), (2560, 1440));
    d.apply_event(OutputEvent::Mode { width: 0, height: 1080 });
    assert_eq!((d.width, d.height), (2560, 1440));
    d.apply_event(OutputEvent::Mode { width: -5, height: -5 });
    assert_eq!((d.width, d.height), (2560, 1440));
    d.apply_event(OutputEvent::Other);
    assert_eq!(d.name, "DP-1");
    d.apply_event(OutputEvent::Mode { width: 1920, height: 1080 });
    assert_eq!((d.width, d.height), (1920, 1080));
}

fn outputs() -> Vec<OutputData> {
    vec![
        OutputData { name: "DP-1".to_string(), width: 1920, height: 1080 },
        OutputData { name: "HDMI-A-1".to_string(), width: 3840, height: 2160 },
        OutputData { name: "DP-1".to_string(), width: 800, height: 600 },
    ]
}

#[test]
fn list_monitors_keeps_order_and_metadata() {
    let ms = list_monitors(&outputs());
    assert_eq!(ms.len(), 3);
    assert_eq!(ms[0].name, "DP-1");
    assert_eq!((ms[1].name.as_str(), ms[1].width, ms[1].height), ("HDMI-A-1", 3840, 2160));
    assert_eq!((ms[2].width, ms[2].height), (800, 600));
    assert!(list_monitors(&Vec::new()).is_empty());
}

#[test]
fn find_monitor_returns_first_match() {
    let ms: Vec<MonitorInfo> = list_monitors(&outputs());
    let m = find_monitor(&ms, "DP-1").expect("DP-1 is connected");
    assert_eq!((m.width, m.height), (1920, 1080));
    let h = find_monitor(&ms, "HDMI-A-1").expect("HDMI-A-1 is connected");
    assert_eq!(h.width, 3840);
    assert!(find_monitor(&ms, "DP-2").is_none());
    assert!(find_monitor(&ms, "dp-1").is_none());
    assert!(find_monitor(&Vec::new(), "DP-1").is_none());
}

#[test]
fn create_surface_reports_connection_error() {
    let config = SurfaceConfig { monitor_name: Some("DP-1".to_string()), width: 1920, height: 1080 };
    assert!(matches!(create_surface(config), Err(WaylandError::Connection)));
    let config = SurfaceConfig { monitor_name: None, width: 0, height: 0 };
    assert!(matches!(create_surface(config), Err(WaylandError::Connection)));
}
