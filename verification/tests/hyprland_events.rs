use hypaper::hyprland::{get_socket_path, parse_event, HyprlandError, HyprlandEvent};

#[test]
fn test_workspace_event() {
    // Arrange
    let line = "workspace>>2";

    // Act
    let event = parse_event(line).unwrap();

    // Assert
    assert!(matches!(event, HyprlandEvent::WorkspaceChanged { id: 2 }));
}

#[test]
fn test_focusedwindow_event() {
    // Arrange
    let line = "focusedwindow>>firefox,Mozilla Firefox";

    // Act
    let event = parse_event(line).unwrap();

    // Assert
    let HyprlandEvent::WindowFocused { class, title } = event else {
        panic!("expected WindowFocused");
    };
    assert_eq!(class, "firefox");
    assert_eq!(title, "Mozilla Firefox");
}

#[test]
fn test_fullscreen_entered() {
    // Arrange
    let line = "fullscreen>>1";

    // Act
    let event = parse_event(line).unwrap();

    // Assert
    assert!(matches!(event, HyprlandEvent::FullscreenEntered));
}

#[test]
fn test_fullscreen_exited() {
    // Arrange
    let line = "fullscreen>>0";

    // Act
    let event = parse_event(line).unwrap();

    // Assert
    assert!(matches!(event, HyprlandEvent::FullscreenExited));
}

#[test]
fn test_monitor_added() {
    // Arrange
    let line = "monitoradded>>DP-1";

    // Act
    let event = parse_event(line).unwrap();

    // Assert
    let HyprlandEvent::MonitorAdded { name } = event else {
        panic!("expected MonitorAdded");
    };
    assert_eq!(name, "DP-1");
}

#[test]
fn test_unknown_event_returns_error() {
    // Arrange
    let line = "unknownevent>>somedata";

    // Act
    let result = parse_event(line);

    // Assert
    assert!(matches!(result, Err(HyprlandError::ParseError(_))));
}

#[test]
fn test_focusedwindow_title_with_comma() {
    // Arrange
    let line = "focusedwindow>>firefox,My Video, Part 2";

    // Act
    let event = parse_event(line).unwrap();

    // Assert
    let HyprlandEvent::WindowFocused { class, title } = event else {
        panic!("expected WindowFocused");
    };
    assert_eq!(class, "firefox");
    assert_eq!(title, "My Video, Part 2");
}

fn parse_error_message(line: &str) -> String {
    match parse_event(line) {
        Err(HyprlandError::ParseError(m)) => m,
        other => panic!("expected a parse error, got {other:?}"),
    }
}

#[test]
fn unknown_event_message_quotes_the_name() {
    assert_eq!(parse_error_message("unknownevent>>somedata"), "unknown event: \"unknownevent\"");
}

#[test]
fn line_without_separator_is_malformed() {
    assert_eq!(parse_error_message("workspace 2"), "malformed event line: \"workspace 2\"");
    assert_eq!(parse_error_message("workspace>2"), "malformed event line: \"workspace>2\"");
    assert_eq!(parse_error_message(""), "malformed event line: \"\"");
}

#[test]
fn debug_form_escapes_special_characters() {
    assert_eq!(
        parse_error_message("a\"b\n"),
        format!("malformed event line: {:?}", "a\"b\n")
    );
}

#[test]
fn workspace_id_is_trimmed_and_may_carry_a_plus() {
    assert!(matches!(parse_event("workspace>> 7 \t").unwrap(), HyprlandEvent::WorkspaceChanged { id: 7 }));
    assert!(matches!(parse_event("workspace>>+12").unwrap(), HyprlandEvent::WorkspaceChanged { id: 12 }));
    assert!(matches!(parse_event("workspace>>007").unwrap(), HyprlandEvent::WorkspaceChanged { id: 7 }));
    assert!(matches!(
        parse_event("workspace>>4294967295").unwrap(),
        HyprlandEvent::WorkspaceChanged { id: 4294967295 }
    ));
}

#[test]
fn invalid_workspace_ids_are_rejected() {
    assert_eq!(parse_error_message("workspace>>4294967296"), "invalid workspace id: \"4294967296\"");
    assert_eq!(parse_error_message("workspace>>-1"), "invalid workspace id: \"-1\"");
    assert_eq!(parse_error_message("workspace>>+"), "invalid workspace id: \"+\"");
    assert_eq!(parse_error_message("workspace>>"), "invalid workspace id: \"\"");
    assert_eq!(parse_error_message("workspace>>named"), "invalid workspace id: \"named\"");
}

#[test]
fn first_separator_splits_the_line() {
    // The data keeps any further `>>`.
    let event = parse_event("monitoradded>>>>X").unwrap();
    let HyprlandEvent::MonitorAdded { name } = event else {
        panic!("expected MonitorAdded");
    };
    assert_eq!(name, ">>X");
}

#[test]
fn fullscreen_value_must_be_zero_or_one() {
    assert!(matches!(parse_event("fullscreen>> 1\n").unwrap(), HyprlandEvent::FullscreenEntered));
    assert_eq!(parse_error_message("fullscreen>> 2 "), "invalid fullscreen value: \"2\"");
}

#[test]
fn monitor_events_trim_the_name() {
    let HyprlandEvent::MonitorRemoved { name } = parse_event("monitorremoved>> HDMI-A-1 ").unwrap() else {
        panic!("expected MonitorRemoved");
    };
    assert_eq!(name, "HDMI-A-1");
}

#[test]
fn activemon_keeps_the_monitor_name_only() {
    let HyprlandEvent::MonitorFocused { name } = parse_event("activemon>>DP-2,3").unwrap() else {
        panic!("expected MonitorFocused");
    };
    assert_eq!(name, "DP-2");
    assert_eq!(parse_error_message("activemon>>DP-2"), "malformed activemon data: \"DP-2\"");
}

#[test]
fn focusedwindow_without_comma_is_malformed() {
    assert_eq!(
        parse_error_message("focusedwindow>>firefox"),
        "malformed focusedwindow data: \"firefox\""
    );
}

#[test]
fn socket_path_uses_the_instance_signature() {
    assert_eq!(get_socket_path(Some("abc_123")).unwrap(), "/tmp/hypr/abc_123/.socket2.sock");
    assert!(matches!(get_socket_path(None), Err(HyprlandError::SocketNotFound)));
}

#[test]
fn workspace_ids_round_trip_through_event_lines() {
    for id in [0u32, 1, 9, 10, 42, 65_536, u32::MAX] {
        match parse_event(&format!("workspace>>{id}")) {
            Ok(HyprlandEvent::WorkspaceChanged { id: parsed }) => assert_eq!(parsed, id),
            other => panic!("unexpected {other:?}"),
        }
    }
}
