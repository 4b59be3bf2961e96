//! Shared data types: scenes, layers, audio, Hyprland settings and the IPC
//! messages exchanged between `hypaperctl` and `hypaperd`.
//!
//! Real-valued settings (opacity, speed, volume, ...) are carried as the
//! 32-bit IEEE-754 bit pattern of the single-precision value.  The library
//! never computes with them; it moves them from the manifest into the scene.
use std::collections::HashMap;
use vstd::prelude::*;

verus! {

/// Configuration for a scene's audio track.
#[derive(Debug, Clone)]
pub struct AudioConfig {
    /// Path to the audio asset inside the `.hyscene` bundle.
    pub src: String,
    /// Playback volume, clamped to `[0.0, 1.0]` (bit pattern).
    pub volume: u32,
    /// Whether the track loops when it reaches the end.
    pub loop_: bool,
    /// Duration of the fade-in effect in seconds (bit pattern).
    pub fade_in: u32,
    /// Duration of the fade-out effect in seconds (bit pattern).
    pub fade_out: u32,
    /// Pause playback when the wallpaper is paused.
    pub pause_with_wallpaper: bool,
    /// Whether audio-reactive features are enabled.
    pub reactive: bool,
    /// Name of the audio capture source (e.g. a PipeWire sink name).
    pub reactive_source: String,
    /// Signal level in `[0, 1]` that triggers reactivity (bit pattern).
    pub reactive_threshold: u32,
    /// Gain multiplier applied to the reactive signal (bit pattern).
    pub reactive_gain: u32,
}

/// Hyprland integration settings embedded in a scene.
#[derive(Debug, Clone)]
pub struct HyprlandConfig {
    /// Pause the wallpaper when any window enters fullscreen.
    pub pause_on_fullscreen: bool,
    /// Pause the wallpaper when the system is on battery power.
    pub pause_on_battery: bool,
    /// Enable cursor-driven parallax effect.
    pub parallax: bool,
    /// Parallax motion intensity multiplier (bit pattern).
    pub parallax_intensity: u32,
    /// Per-workspace scene path overrides, keyed by workspace ID.
    pub workspaces: HashMap<u32, String>,
    /// Scene path used for workspaces not listed in `workspaces`.
    pub default_workspace: Option<String>,
}

/// Available blend modes for compositing a layer onto the framebuffer.
#[derive(Debug, Clone, Copy, PartialEq, Eq, Structural)]
pub enum BlendMode {
    /// Standard alpha compositing.
    Normal,
    /// Additive blending (source colour added to destination).
    Additive,
}

/// Properties common to every layer kind.
#[derive(Debug, Clone)]
pub struct LayerBase {
    /// Unique identifier for this layer within the scene.
    pub id: String,
    /// Rendering order; higher values are drawn on top.
    pub z_index: i32,
    /// Whether the layer is currently rendered.
    pub visible: bool,
    /// Layer opacity, clamped to `[0.0, 1.0]` (bit pattern).
    pub opacity: u32,
    /// Compositing blend mode applied when drawing this layer.
    pub blend_mode: BlendMode,
}

/// How a raster asset is scaled to fill the output surface.
#[derive(Debug, Clone, Copy, PartialEq, Eq, Structural)]
pub enum FitMode {
    /// Scale uniformly to cover the entire surface (may crop edges).
    Fill,
    /// Scale uniformly to fit inside the surface (may letterbox).
    Fit,
    /// Stretch non-uniformly to fill exactly.
    Stretch,
}

/// A static image layer.
#[derive(Debug, Clone)]
pub struct ImageLayer {
    /// Path to the image asset inside the `.hyscene` bundle.
    pub src: String,
    /// How the image is scaled to fit the output surface.
    pub fit_mode: FitMode,
}

/// A video layer.
#[derive(Debug, Clone)]
pub struct VideoLayer {
    /// Path to the video asset inside the `.hyscene` bundle.
    pub src: String,
    /// How the video frames are scaled to fit the output surface.
    pub fit_mode: FitMode,
    /// Whether the video loops when it reaches the end.
    pub loop_: bool,
    /// Playback speed multiplier, `1.0` being normal speed (bit pattern).
    pub speed: u32,
    /// Whether the video's audio tracks are silenced.
    pub muted: bool,
}

/// A typed value passed as a uniform to a shader (components as bit patterns).
#[derive(Debug, Clone, Copy)]
pub enum UniformValue {
    /// Single value.
    Float(u32),
    /// Two-component vector.
    Vec2([u32; 2]),
    /// Three-component vector.
    Vec3([u32; 3]),
    /// Four-component vector.
    Vec4([u32; 4]),
}

/// A GPU shader layer with configurable uniforms.
#[derive(Debug, Clone)]
pub struct ShaderLayer {
    /// Path to the shader source file inside the `.hyscene` bundle.
    pub src: String,
    /// Named uniform values passed to the shader each frame, in the order the
    /// raw manifest lists them (a TOML table, so each name once).
    pub uniforms: Vec<(String, UniformValue)>,
}

/// Where new particles are spawned.
#[derive(Debug, Clone, Copy, PartialEq, Eq, Structural)]
pub enum EmitterMode {
    /// Particles spawn along the top edge.
    Top,
    /// Particles spawn along the bottom edge.
    Bottom,
    /// Particles spawn along all four edges.
    Edges,
    /// Particles spawn at a fixed point `(x, y)` in normalised `[0, 1]`
    /// coordinates (bit patterns).
    Point(u32, u32),
    /// Particles spawn at random positions across the entire surface.
    Fullscreen,
}

/// A CPU-driven particle system layer.
#[derive(Debug, Clone)]
pub struct ParticleLayer {
    /// Path to the particle texture inside the `.hyscene` bundle.
    pub texture: String,
    /// Maximum number of live particles at any time.
    pub count: u32,
    /// Particles emitted per second (bit pattern).
    pub emit_rate: u32,
    /// How long each particle lives, in seconds (bit pattern).
    pub lifetime: u32,
    /// Horizontal velocity applied to newly emitted particles (bit pattern).
    pub velocity_x: u32,
    /// Vertical velocity applied to newly emitted particles (bit pattern).
    pub velocity_y: u32,
    /// Initial size of each particle in pixels (bit pattern).
    pub size: u32,
    /// Initial opacity of each particle, clamped to `[0.0, 1.0]` (bit pattern).
    pub opacity: u32,
    /// Downward acceleration applied to particles each second (bit pattern).
    pub gravity: u32,
    /// Emission origin strategy.
    pub emitter: EmitterMode,
}

/// Discriminated union of all supported layer kinds.
#[derive(Debug, Clone)]
pub enum LayerKind {
    /// A static image.
    Image(ImageLayer),
    /// A video clip.
    Video(VideoLayer),
    /// A shader.
    Shader(ShaderLayer),
    /// A particle system.
    Particles(ParticleLayer),
}

/// A single compositing layer in a scene.
#[derive(Debug, Clone)]
pub struct Layer {
    /// Properties common to all layer kinds.
    pub base: LayerBase,
    /// Layer-kind-specific configuration.
    pub kind: LayerKind,
}

/// Metadata stored in the `.hyscene` manifest.
#[derive(Debug, Clone)]
pub struct SceneMeta {
    /// Human-readable name of the scene.
    pub name: String,
    /// Author of the scene.
    pub author: String,
    /// Scene version string (e.g. `"1.0.0"`).
    pub version: String,
    /// Minimum engine version required to run this scene.
    pub engine_version: String,
}

/// Rendering configuration for a scene.
#[derive(Debug, Clone, Copy)]
pub struct SceneConfig {
    /// Target frame rate in frames per second.
    pub fps: u32,
    /// Output resolution as `[width, height]` in pixels.
    pub resolution: [u32; 2],
}

/// Top-level scene descriptor loaded from a `.hyscene` bundle.
#[derive(Debug, Clone)]
pub struct Scene {
    /// Scene metadata (name, author, versions).
    pub meta: SceneMeta,
    /// Rendering configuration (fps, resolution).
    pub config: SceneConfig,
    /// Ordered list of compositing layers (bottom-to-top by `z_index`).
    pub layers: Vec<Layer>,
    /// Optional background audio track.
    pub audio: Option<AudioConfig>,
    /// Optional Hyprland-specific integration settings.
    pub hyprland: Option<HyprlandConfig>,
}

/// Commands sent by `hypaperctl` to the daemon.
#[derive(Debug, Clone)]
pub enum DaemonCommand {
    /// Load and display a scene file, optionally on a specific monitor.
    SetWallpaper {
        /// Absolute path to the `.hyscene` file.
        path: String,
        /// Connector name of the target monitor, or `None` for all monitors.
        monitor: Option<String>,
    },
    /// Shut down the daemon gracefully.
    Stop,
    /// Pause rendering (the last rendered frame remains visible).
    Pause,
    /// Resume previously paused rendering.
    Resume,
    /// Reload the current scene from disk.
    Reload,
    /// Request a [`StatusInfo`] snapshot.
    GetStatus,
    /// Adjust a layer's opacity at runtime without reloading the scene.
    SetLayerOpacity {
        /// Target layer identifier.
        id: String,
        /// New opacity value in `[0, 1]` (bit pattern).
        opacity: u32,
    },
    /// Override a shader uniform value at runtime.
    SetUniform {
        /// Identifier of the target shader layer.
        layer: String,
        /// Name of the uniform variable in the shader source.
        name: String,
        /// New value to assign.
        value: UniformValue,
    },
}

/// Responses sent by the daemon back to `hypaperctl`.
#[derive(Debug, Clone)]
pub enum DaemonResponse {
    /// Command was accepted and executed successfully (`Ok` on the wire).
    Success,
    /// Response to a [`DaemonCommand::GetStatus`] request.
    Status(StatusInfo),
    /// The command failed; contains a human-readable description.
    Error(String),
}

/// Point-in-time snapshot of the daemon's runtime state.
#[derive(Debug, Clone)]
pub struct StatusInfo {
    /// Whether the daemon process is currently running.
    pub daemon_running: bool,
    /// Path to the currently loaded scene, if any.
    pub wallpaper: Option<String>,
    /// Number of seconds since the daemon started.
    pub uptime_secs: u64,
}

} // verus!
