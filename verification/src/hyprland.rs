//! Hyprland IPC: typed events, errors, the event-line parser and the event
//! socket path.
//!
//! Hyprland emits events on `.socket2.sock` as lines of the form
//! `event>>data`.
use vstd::prelude::*;

use crate::text::{
    debug_repr, decimal, find_char, find_pair, first_index_of, first_pair_index,
    lemma_decimal_parses, message_with_debug, pair_at, parse_u32, parse_u32_spec, str_eq, trim,
    trim_str,
};

verus! {

/// Events emitted by the Hyprland IPC socket.
#[derive(Debug, Clone)]
pub enum HyprlandEvent {
    /// The active workspace changed.
    WorkspaceChanged {
        /// Numeric workspace identifier.
        id: u32,
    },
    /// A window received focus.
    WindowFocused {
        /// Window class (application name).
        class: String,
        /// Window title.
        title: String,
    },
    /// A window entered fullscreen mode.
    FullscreenEntered,
    /// The fullscreen window was closed or restored.
    FullscreenExited,
    /// A new monitor was connected.
    MonitorAdded {
        /// Connector name (e.g. `"DP-1"`).
        name: String,
    },
    /// A monitor was disconnected.
    MonitorRemoved {
        /// Connector name of the removed monitor.
        name: String,
    },
    /// The focused monitor changed.
    MonitorFocused {
        /// Connector name of the newly focused monitor.
        name: String,
    },
}

/// Mathematical model of a [`HyprlandEvent`]: strings become character sequences.
pub enum HyprlandEventView {
    WorkspaceChanged { id: u32 },
    WindowFocused { class: Seq<char>, title: Seq<char> },
    FullscreenEntered,
    FullscreenExited,
    MonitorAdded { name: Seq<char> },
    MonitorRemoved { name: Seq<char> },
    MonitorFocused { name: Seq<char> },
}

impl View for HyprlandEvent {
    type V = HyprlandEventView;

    open spec fn view(&self) -> HyprlandEventView {
        match self {
            HyprlandEvent::WorkspaceChanged { id } => HyprlandEventView::WorkspaceChanged { id: *id },
            HyprlandEvent::WindowFocused { class, title } => HyprlandEventView::WindowFocused {
                class: class@,
                title: title@,
            },
            HyprlandEvent::FullscreenEntered => HyprlandEventView::FullscreenEntered,
            HyprlandEvent::FullscreenExited => HyprlandEventView::FullscreenExited,
            HyprlandEvent::MonitorAdded { name } => HyprlandEventView::MonitorAdded { name: name@ },
            HyprlandEvent::MonitorRemoved { name } => HyprlandEventView::MonitorRemoved {
                name: name@,
            },
            HyprlandEvent::MonitorFocused { name } => HyprlandEventView::MonitorFocused {
                name: name@,
            },
        }
    }
}

/// All errors that can occur when communicating with the Hyprland compositor.
#[derive(Debug)]
pub enum HyprlandError {
    /// No Hyprland socket was found; the compositor is likely not running.
    SocketNotFound,
    /// An I/O error on the Unix socket.
    Io(std::io::Error),
    /// An event line from the socket could not be parsed.
    ParseError(String),
}

/// The event name of a line: everything before the first `>>`.
pub open spec fn event_name(line: Seq<char>, p: int) -> Seq<char> {
    line.subrange(0, p)
}

/// The event data of a line: everything after the first `>>`.
pub open spec fn event_data(line: Seq<char>, p: int) -> Seq<char> {
    line.subrange(p + 2, line.len() as int)
}

/// What the data part of a `workspace` event yields.
pub open spec fn workspace_spec(data: Seq<char>) -> Result<HyprlandEventView, Seq<char>> {
    match parse_u32_spec(trim(data)) {
        Some(id) => Ok(HyprlandEventView::WorkspaceChanged { id }),
        None => Err("invalid workspace id: "@ + debug_repr(data)),
    }
}

/// What the data part of a `focusedwindow` event yields: the class is
/// everything before the first comma, the title everything after it (the
/// title may itself contain commas).
pub open spec fn focused_window_spec(data: Seq<char>) -> Result<HyprlandEventView, Seq<char>> {
    match first_index_of(data, ',') {
        Some(c) => Ok(
            HyprlandEventView::WindowFocused {
                class: data.subrange(0, c),
                title: data.subrange(c + 1, data.len() as int),
            },
        ),
        None => Err("malformed focusedwindow data: "@ + debug_repr(data)),
    }
}

/// What the data part of a `fullscreen` event yields.
pub open spec fn fullscreen_spec(data: Seq<char>) -> Result<HyprlandEventView, Seq<char>> {
    let v = trim(data);
    if v == "1"@ {
        Ok(HyprlandEventView::FullscreenEntered)
    } else if v == "0"@ {
        Ok(HyprlandEventView::FullscreenExited)
    } else {
        Err("invalid fullscreen value: "@ + debug_repr(v))
    }
}

/// What the data part of an `activemon` event (`monitor,workspace`) yields.
pub open spec fn active_monitor_spec(data: Seq<char>) -> Result<HyprlandEventView, Seq<char>> {
    match first_index_of(data, ',') {
        Some(c) => Ok(HyprlandEventView::MonitorFocused { name: data.subrange(0, c) }),
        None => Err("malformed activemon data: "@ + debug_repr(data)),
    }
}

/// What an event named `event` with payload `data` yields.
pub open spec fn event_spec(event: Seq<char>, data: Seq<char>) -> Result<HyprlandEventView, Seq<char>> {
    if event == "workspace"@ {
        workspace_spec(data)
    } else if event == "focusedwindow"@ {
        focused_window_spec(data)
    } else if event == "fullscreen"@ {
        fullscreen_spec(data)
    } else if event == "monitoradded"@ {
        Ok(HyprlandEventView::MonitorAdded { name: trim(data) })
    } else if event == "monitorremoved"@ {
        Ok(HyprlandEventView::MonitorRemoved { name: trim(data) })
    } else if event == "activemon"@ {
        active_monitor_spec(data)
    } else {
        Err("unknown event: "@ + debug_repr(event))
    }
}

/// What [`parse_event`] yields for `line`: the event, or the message of the
/// `ParseError`.
pub open spec fn parse_event_spec(line: Seq<char>) -> Result<HyprlandEventView, Seq<char>> {
    match first_pair_index(line, '>') {
        None => Err("malformed event line: "@ + debug_repr(line)),
        Some(p) => event_spec(event_name(line, p), event_data(line, p)),
    }
}

/// Whether `r` is the outcome that `parse_event_spec` describes.
pub open spec fn parse_event_outcome(
    r: Result<HyprlandEvent, HyprlandError>,
    expected: Result<HyprlandEventView, Seq<char>>,
) -> bool {
    match (r, expected) {
        (Ok(e), Ok(v)) => e@ == v,
        (Err(HyprlandError::ParseError(m)), Err(msg)) => m@ == msg,
        _ => false,
    }
}

fn parse_error(prefix: &str, s: &str) -> (r: HyprlandError)
    ensures
        r matches HyprlandError::ParseError(m) && m@ == prefix@ + debug_repr(s@),
{
    HyprlandError::ParseError(message_with_debug(prefix, s))
}

fn workspace_event(data: &str) -> (r: Result<HyprlandEvent, HyprlandError>)
    ensures
        parse_event_outcome(r, workspace_spec(data@)),
{
    match parse_u32(trim_str(data)) {
        Some(id) => Ok(HyprlandEvent::WorkspaceChanged { id }),
        None => Err(parse_error("invalid workspace id: ", data)),
    }
}

fn focused_window_event(data: &str) -> (r: Result<HyprlandEvent, HyprlandError>)
    ensures
        parse_event_outcome(r, focused_window_spec(data@)),
{
    match find_char(data, ',') {
        Some(c) => {
            let dn = data.unicode_len();
            let class = String::from_str(data.substring_char(0, c));
            let title = String::from_str(data.substring_char(c + 1, dn));
            Ok(HyprlandEvent::WindowFocused { class, title })
        },
        None => Err(parse_error("malformed focusedwindow data: ", data)),
    }
}

fn fullscreen_event(data: &str) -> (r: Result<HyprlandEvent, HyprlandError>)
    ensures
        parse_event_outcome(r, fullscreen_spec(data@)),
{
    let v = trim_str(data);
    if str_eq(v, "1") {
        Ok(HyprlandEvent::FullscreenEntered)
    } else if str_eq(v, "0") {
        Ok(HyprlandEvent::FullscreenExited)
    } else {
        Err(parse_error("invalid fullscreen value: ", v))
    }
}

fn active_monitor_event(data: &str) -> (r: Result<HyprlandEvent, HyprlandError>)
    ensures
        parse_event_outcome(r, active_monitor_spec(data@)),
{
    match find_char(data, ',') {
        Some(c) => {
            let name = String::from_str(data.substring_char(0, c));
            Ok(HyprlandEvent::MonitorFocused { name })
        },
        None => Err(parse_error("malformed activemon data: ", data)),
    }
}

fn event_from_parts(event: &str, data: &str) -> (r: Result<HyprlandEvent, HyprlandError>)
    ensures
        parse_event_outcome(r, event_spec(event@, data@)),
{
    if str_eq(event, "workspace") {
        workspace_event(data)
    } else if str_eq(event, "focusedwindow") {
        focused_window_event(data)
    } else if str_eq(event, "fullscreen") {
        fullscreen_event(data)
    } else if str_eq(event, "monitoradded") {
        Ok(HyprlandEvent::MonitorAdded { name: String::from_str(trim_str(data)) })
    } else if str_eq(event, "monitorremoved") {
        Ok(HyprlandEvent::MonitorRemoved { name: String::from_str(trim_str(data)) })
    } else if str_eq(event, "activemon") {
        active_monitor_event(data)
    } else {
        Err(parse_error("unknown event: ", event))
    }
}

/// Parses one line from the Hyprland event socket into a [`HyprlandEvent`].
///
/// Expected line format: `event>>data` (no trailing newline).  Supported
/// events: `workspace`, `focusedwindow`, `fullscreen`, `monitoradded`,
/// `monitorremoved`, `activemon`.  Malformed lines, unrecognised events and
/// data of the wrong shape give [`HyprlandError::ParseError`].
pub fn parse_event(line: &str) -> (r: Result<HyprlandEvent, HyprlandError>)
    ensures
        parse_event_outcome(r, parse_event_spec(line@)),
{
    match find_pair(line, '>') {
        Some(p) => {
            let n = line.unicode_len();
            let event = line.substring_char(0, p);
            let data = line.substring_char(p + 2, n);
            event_from_parts(event, data)
        },
        None => Err(parse_error("malformed event line: ", line)),
    }
}

/// A line `name>>data` whose name has no `>` splits at the `>>` after the name.
proof fn lemma_split_after_name(name: Seq<char>, data: Seq<char>)
    requires
        forall|k: int| 0 <= k < name.len() ==> name[k] != '>',
    ensures
        first_pair_index(name + seq!['>', '>'] + data, '>') == Some(name.len() as int),
        event_name(name + seq!['>', '>'] + data, name.len() as int) == name,
        event_data(name + seq!['>', '>'] + data, name.len() as int) == data,
{
    let line = name + seq!['>', '>'] + data;
    let p = name.len() as int;
    assert(line[p] == '>' && line[p + 1] == '>');
    assert(pair_at(line, '>', p));
    let w = choose|i: int| #[trigger] pair_at(line, '>', i) && forall|k: int| 0 <= k < i ==> !pair_at(line, '>', k);
    assert forall|k: int| 0 <= k < p implies !pair_at(line, '>', k) by {
        assert(line[k] == name[k]);
    }
    if w < p {
        assert(line[w] == name[w]);
    }
    assert(event_name(line, p) =~= name);
    assert(event_data(line, p) =~= data);
}

proof fn lemma_first_comma(class: Seq<char>, title: Seq<char>)
    requires
        forall|k: int| 0 <= k < class.len() ==> class[k] != ',',
    ensures
        focused_window_spec(class + seq![','] + title) == Ok::<HyprlandEventView, Seq<char>>(
            HyprlandEventView::WindowFocused { class, title },
        ),
{
    let data = class + seq![','] + title;
    let c = class.len() as int;
    assert(data[c] == ',');
    assert(forall|k: int| 0 <= k < c ==> data[k] == class[k]);
    let w = choose|i: int|
        0 <= i < data.len() && data[i] == ',' && forall|k: int| 0 <= k < i ==> data[k] != ',';
    assert(first_index_of(data, ',') == Some(c)) by {
        if w < c {
            assert(data[w] == class[w]);
        } else if w > c {
            assert(data[c] != ',');
        }
    }
    assert(data.subrange(0, c) =~= class);
    assert(data.subrange(c + 1, data.len() as int) =~= title);
}

proof fn lemma_focused_window_name()
    ensures
        forall|k: int| 0 <= k < "focusedwindow"@.len() ==> "focusedwindow"@[k] != '>',
        "focusedwindow"@ != "workspace"@,
{
    reveal_strlit("focusedwindow");
    reveal_strlit("workspace");
    assert("focusedwindow"@.len() != "workspace"@.len());
}

proof fn lemma_event_spec_focused(data: Seq<char>)
    ensures
        event_spec("focusedwindow"@, data) == focused_window_spec(data),
{
    lemma_focused_window_name();
}

/// A `focusedwindow` line splits at the first comma only: a window class
/// without commas and any title, commas included, come back unchanged.
pub proof fn law_focused_window_title_keeps_commas(class: Seq<char>, title: Seq<char>)
    requires
        forall|k: int| 0 <= k < class.len() ==> class[k] != ',',
    ensures
        parse_event_spec("focusedwindow"@ + seq!['>', '>'] + (class + seq![','] + title)) == Ok::<
            HyprlandEventView,
            Seq<char>,
        >(HyprlandEventView::WindowFocused { class, title }),
{
    let data = class + seq![','] + title;
    lemma_focused_window_name();
    lemma_split_after_name("focusedwindow"@, data);
    lemma_event_spec_focused(data);
    lemma_first_comma(class, title);
}

/// A `workspace` line carrying a workspace id in decimal parses back to that id.
pub proof fn law_workspace_id_round_trip(id: u32)
    ensures
        parse_event_spec("workspace"@ + seq!['>', '>'] + decimal(id as nat)) == Ok::<
            HyprlandEventView,
            Seq<char>,
        >(HyprlandEventView::WorkspaceChanged { id }),
{
    reveal_strlit("workspace");
    lemma_split_after_name("workspace"@, decimal(id as nat));
    lemma_decimal_parses(id);
}

/// Path of Hyprland's event socket for an instance signature:
/// `/tmp/hypr/<signature>/.socket2.sock`.
pub open spec fn socket_path_spec(signature: Seq<char>) -> Seq<char> {
    "/tmp/hypr/"@ + signature + "/.socket2.sock"@
}

/// Returns the path to Hyprland's event socket (`.socket2.sock`) for the value
/// of `$HYPRLAND_INSTANCE_SIGNATURE`.
///
/// Returns [`HyprlandError::SocketNotFound`] when the variable is not set
/// (`signature` is `None`).
pub fn get_socket_path(signature: Option<&str>) -> (r: Result<String, HyprlandError>)
    ensures
        match signature {
            Some(sig) => r matches Ok(p) && p@ == socket_path_spec(sig@),
            None => r matches Err(HyprlandError::SocketNotFound),
        },
{
    match signature {
        Some(sig) => {
            let p = String::from_str("/tmp/hypr/").concat(sig).concat("/.socket2.sock");
            Ok(p)
        },
        None => Err(HyprlandError::SocketNotFound),
    }
}

} // verus!
