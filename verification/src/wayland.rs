//! Wayland bookkeeping: the monitors reported by the compositor's
//! `wl_output` events, layer-surface configuration, and the error type.
//!
//! The protocol objects themselves live in the application; the library
//! keeps the per-output metadata they report and answers monitor queries.
use vstd::prelude::*;

use crate::text::{decimal, format_decimal, str_eq};

verus! {

/// All errors that can occur when interacting with the Wayland compositor.
#[derive(Debug)]
pub enum WaylandError {
    /// The process could not connect to a running Wayland compositor.
    Connection,
    /// The compositor does not advertise the `zwlr_layer_shell_v1` global.
    LayerShellNotSupported,
    /// The compositor rejected the layer surface creation request.
    SurfaceCreation,
    /// An unclassified Wayland error with a human-readable description.
    Other(String),
}

/// Metadata describing a single connected monitor as reported by the compositor.
#[derive(Debug, Clone)]
pub struct MonitorInfo {
    /// Connector name as reported by the compositor (e.g. `"DP-1"`).
    ///
    /// Falls back to `"output-N"` on compositors that do not advertise
    /// `wl_output` version 4 (which introduced the `name` event).
    pub name: String,
    /// Current mode width in pixels, or `0` if no mode event was received.
    pub width: u32,
    /// Current mode height in pixels, or `0` if no mode event was received.
    pub height: u32,
}

/// Metadata accumulated from `wl_output` events for a single output.
#[derive(Debug, Clone)]
pub struct OutputData {
    /// Output name; initialised to `"output-N"`, updated by `Name` events.
    pub name: String,
    /// Current mode width.
    pub width: u32,
    /// Current mode height.
    pub height: u32,
}

/// The `wl_output` events that output metadata depends on.
#[derive(Debug, Clone)]
pub enum OutputEvent {
    /// The connector name (`wl_output` version 4 and later).
    Name(String),
    /// An advertised mode, in pixels.
    Mode { width: i32, height: i32 },
    /// Any other `wl_output` event.
    Other,
}

/// The fallback name of the output at `index`: `output-<index>`.
pub open spec fn placeholder_name(index: nat) -> Seq<char> {
    "output-"@ + decimal(index)
}

impl OutputData {
    /// Metadata of a freshly bound output, before any event: named
    /// `output-<index>`, no mode.
    pub fn placeholder(index: usize) -> (d: Self)
        ensures
            d.name@ == placeholder_name(index as nat),
            d.width == 0,
            d.height == 0,
    {
        let name = String::from_str("output-").concat(format_decimal(index as u64).as_str());
        OutputData { name, width: 0, height: 0 }
    }

    /// Applies a `wl_output` event: a name replaces the name; a mode with
    /// positive dimensions replaces the dimensions (compositors send the
    /// current mode last); anything else changes nothing.
    pub fn apply_event(&mut self, event: OutputEvent)
        ensures
            match event {
                OutputEvent::Name(n) => final(self).name == n && final(self).width == old(
                    self,
                ).width && final(self).height == old(self).height,
                OutputEvent::Mode { width, height } => if width > 0 && height > 0 {
                    final(self).name == old(self).name && final(self).width == width as u32
                        && final(self).height == height as u32
                } else {
                    *final(self) == *old(self)
                },
                OutputEvent::Other => *final(self) == *old(self),
            },
    {
        match event {
            OutputEvent::Name(n) => {
                self.name = n;
            },
            OutputEvent::Mode { width, height } => {
                if width > 0 && height > 0 {
                    self.width = width as u32;
                    self.height = height as u32;
                }
            },
            OutputEvent::Other => {},
        }
    }
}

/// Whether `m` describes the output `d`.
pub open spec fn describes(m: MonitorInfo, d: OutputData) -> bool {
    m.name == d.name && m.width == d.width && m.height == d.height
}

/// Returns metadata for every output, in the order they were bound.
pub fn list_monitors(outputs: &Vec<OutputData>) -> (r: Vec<MonitorInfo>)
    ensures
        r@.len() == outputs@.len(),
        forall|i: int| 0 <= i < outputs@.len() ==> describes(#[trigger] r@[i], outputs@[i]),
{
    let mut out: Vec<MonitorInfo> = Vec::new();
    let n = outputs.len();
    let mut i: usize = 0;
    while i < n
        invariant
            n == outputs@.len(),
            i <= n,
            out@.len() == i,
            forall|k: int| 0 <= k < i ==> describes(#[trigger] out@[k], outputs@[k]),
        decreases n - i,
    {
        let d = &outputs[i];
        out.push(MonitorInfo { name: d.name.clone(), width: d.width, height: d.height });
        i = i + 1;
    }
    out
}

/// The first monitor in `ms` named `name`, if any.
pub open spec fn find_monitor_spec(ms: Seq<MonitorInfo>, name: Seq<char>) -> Option<MonitorInfo>
    decreases ms.len(),
{
    if ms.len() == 0 {
        None
    } else if ms[0].name@ == name {
        Some(ms[0])
    } else {
        find_monitor_spec(ms.drop_first(), name)
    }
}

/// Finds the first monitor with connector name `name`.
pub fn find_monitor(monitors: &Vec<MonitorInfo>, name: &str) -> (r: Option<MonitorInfo>)
    ensures
        r == find_monitor_spec(monitors@, name@),
{
    let n = monitors.len();
    let mut i: usize = 0;
    assert(monitors@.subrange(0, n as int) == monitors@);
    while i < n
        invariant
            n == monitors@.len(),
            i <= n,
            find_monitor_spec(monitors@, name@) == find_monitor_spec(
                monitors@.subrange(i as int, n as int),
                name@,
            ),
        decreases n - i,
    {
        let ghost rest = monitors@.subrange(i as int, n as int);
        assert(rest[0] == monitors@[i as int]);
        assert(rest.drop_first() == monitors@.subrange(i + 1, n as int));
        let m = &monitors[i];
        if str_eq(m.name.as_str(), name) {
            return Some(MonitorInfo { name: m.name.clone(), width: m.width, height: m.height });
        }
        i = i + 1;
    }
    None
}

/// Configuration used when creating a [`WaylandSurface`].
#[derive(Debug, Clone)]
pub struct SurfaceConfig {
    /// Connector name of the target monitor (e.g. `"DP-1"`), or `None` for
    /// the compositor's default output.
    pub monitor_name: Option<String>,
    /// Desired surface width in pixels.
    pub width: u32,
    /// Desired surface height in pixels.
    pub height: u32,
}

/// A `zwlr_layer_surface_v1` surface anchored behind all windows on a monitor.
///
/// The layer-shell backend does not create surfaces yet, so no value of this
/// type is ever produced.
pub struct WaylandSurface {
    _priv: (),
}

/// Creates a layer-shell surface for a monitor according to `config`.
///
/// The layer-shell backend is not implemented yet: every request fails with
/// [`WaylandError::Connection`].
pub fn create_surface(config: SurfaceConfig) -> (r: Result<WaylandSurface, WaylandError>)
    ensures
        r matches Err(WaylandError::Connection),
{
    Err(WaylandError::Connection)
}

} // verus!
