//! Scene manifests: the raw `scene.toml` structures, the scene error type,
//! and the validation that turns a raw manifest into a [`Scene`].
//!
//! The library reads the manifest's text out of the archive's bytes;
//! reading the file and deserialising the TOML text happen in the
//! application, which hands the raw manifest back as plain values.
use std::collections::HashMap;
use vstd::prelude::*;

use crate::text::{debug_repr, message_with_debug, parse_u32, parse_u32_spec, str_eq};
use crate::types::{
    AudioConfig, BlendMode, EmitterMode, FitMode, HyprlandConfig, ImageLayer, Layer, LayerBase,
    LayerKind, ParticleLayer, Scene, SceneConfig, SceneMeta, ShaderLayer, UniformValue, VideoLayer,
};

verus! {

broadcast use vstd::std_specs::hash::group_hash_axioms;

/// All errors that can occur when loading a `.hyscene` file.
#[derive(Debug)]
pub enum SceneError {
    /// A ZIP-level error (corrupt archive, unsupported compression, etc.).
    Zip(zip::result::ZipError),
    /// An I/O error while reading the archive or its entries.
    Io(std::io::Error),
    /// The `scene.toml` manifest could not be deserialized.
    Toml(toml::de::Error),
    /// The archive does not contain a `scene.toml` entry at its root.
    MissingManifest,
    /// The manifest was parsed successfully but failed semantic validation.
    Validation(String),
}

/// Raw `[meta]` section.
#[derive(Debug)]
pub struct RawMeta {
    /// Human-readable scene name.
    pub name: String,
    /// Scene author.
    pub author: String,
    /// Scene version string.
    pub version: String,
    /// Minimum engine version required.
    pub engine_version: String,
}

/// Raw `[config]` section.
#[derive(Debug)]
pub struct RawSceneConfig {
    /// Target frame rate in frames per second.
    pub fps: u32,
    /// Output resolution as `[width, height]`.
    pub resolution: [u32; 2],
}

/// One element of a uniform array in the manifest.
#[derive(Debug)]
pub enum RawUniformItem {
    /// A TOML float or integer, converted to single precision (bit pattern).
    Number(u32),
    /// Any other TOML value.
    Other,
}

/// A uniform value as written in the manifest.
#[derive(Debug)]
pub enum RawUniform {
    /// A TOML float or integer, converted to single precision (bit pattern).
    Number(u32),
    /// A TOML array.
    Array(Vec<RawUniformItem>),
    /// Any other TOML value (string, boolean, date, table).
    Other,
}

/// Raw image layer fields.
#[derive(Debug)]
pub struct RawImageConfig {
    /// Asset path inside the bundle.
    pub src: String,
    /// Scale mode string (`"Fill"`, `"Fit"`, or `"Stretch"`).
    pub fit_mode: String,
}

/// Raw video layer fields.
#[derive(Debug)]
pub struct RawVideoConfig {
    /// Asset path inside the bundle.
    pub src: String,
    /// Scale mode string.
    pub fit_mode: String,
    /// Whether the video loops.
    pub loop_: bool,
    /// Playback speed multiplier (bit pattern).
    pub speed: u32,
    /// Whether the video's audio is silenced.
    pub muted: bool,
}

/// Raw shader layer fields.
#[derive(Debug)]
pub struct RawShaderConfig {
    /// Shader source path inside the bundle.
    pub src: String,
    /// Uniform values by name (the entries of a TOML table); each must be a
    /// number or an array of 2–4 numbers.
    pub uniforms: Vec<(String, RawUniform)>,
}

/// Raw particle system layer fields.
#[derive(Debug)]
pub struct RawParticlesConfig {
    /// Particle texture path inside the bundle.
    pub texture: String,
    /// Maximum live particle count.
    pub count: u32,
    /// Particles emitted per second (bit pattern).
    pub emit_rate: u32,
    /// Particle lifetime in seconds (bit pattern).
    pub lifetime: u32,
    /// Initial horizontal velocity (bit pattern).
    pub velocity_x: u32,
    /// Initial vertical velocity (bit pattern).
    pub velocity_y: u32,
    /// Initial particle size in pixels (bit pattern).
    pub size: u32,
    /// Per-particle opacity (bit pattern); clamped to `[0.0, 1.0]` when converted.
    pub opacity: u32,
    /// Downward acceleration per second (bit pattern).
    pub gravity: u32,
    /// Emitter mode string (`"Top"`, `"Bottom"`, `"Edges"`, `"Fullscreen"`, `"Point"`).
    pub emitter: String,
    /// X coordinate for the `Point` emitter in normalised space (bit pattern).
    pub emitter_x: Option<u32>,
    /// Y coordinate for the `Point` emitter in normalised space (bit pattern).
    pub emitter_y: Option<u32>,
}

/// Kind-specific layer configuration, tagged by variant name in TOML.
#[derive(Debug)]
pub enum RawLayerConfig {
    /// Static image configuration.
    Image(RawImageConfig),
    /// Video clip configuration.
    Video(RawVideoConfig),
    /// Shader configuration.
    Shader(RawShaderConfig),
    /// Particle system configuration.
    Particles(RawParticlesConfig),
}

/// One entry from the `[[layers]]` array.
#[derive(Debug)]
pub struct RawLayer {
    /// Unique layer identifier.
    pub id: String,
    /// Rendering order; higher values drawn on top.
    pub z_index: i32,
    /// Whether the layer is rendered.
    pub visible: bool,
    /// Layer opacity (bit pattern); clamped to `[0.0, 1.0]` when converted.
    pub opacity: u32,
    /// Blend mode string (`"Normal"` or `"Additive"`).
    pub blend_mode: String,
    /// Kind-specific configuration.
    pub config: RawLayerConfig,
}

/// Raw `[audio]` section.
#[derive(Debug)]
pub struct RawAudio {
    /// Audio asset path inside the bundle.
    pub src: String,
    /// Playback volume (bit pattern); clamped to `[0.0, 1.0]` when converted.
    pub volume: u32,
    /// Whether the track loops.
    pub loop_: bool,
    /// Fade-in duration in seconds (bit pattern).
    pub fade_in: u32,
    /// Fade-out duration in seconds (bit pattern).
    pub fade_out: u32,
    /// Pause audio when the wallpaper is paused.
    pub pause_with_wallpaper: bool,
    /// Whether audio-reactive features are active.
    pub reactive: bool,
    /// Name of the audio capture source.
    pub reactive_source: String,
    /// Signal threshold that triggers reactivity (bit pattern).
    pub reactive_threshold: u32,
    /// Gain applied to the reactive signal (bit pattern).
    pub reactive_gain: u32,
}

/// Raw `[hyprland]` section.
#[derive(Debug)]
pub struct RawHyprland {
    /// Pause on fullscreen windows.
    pub pause_on_fullscreen: bool,
    /// Pause on battery power.
    pub pause_on_battery: bool,
    /// Enable cursor parallax effect.
    pub parallax: bool,
    /// Parallax intensity multiplier (bit pattern).
    pub parallax_intensity: u32,
    /// Per-workspace scene overrides (the entries of a TOML table); keys are
    /// workspace ID strings.
    pub workspaces: Vec<(String, String)>,
    /// Fallback scene for unlisted workspaces.
    pub default_workspace: Option<String>,
}

/// Top-level structure of a `scene.toml` manifest.
#[derive(Debug)]
pub struct RawScene {
    /// `[meta]` section.
    pub meta: RawMeta,
    /// `[config]` section.
    pub config: RawSceneConfig,
    /// `[[layers]]` array.
    pub layers: Vec<RawLayer>,
    /// Optional `[audio]` section.
    pub audio: Option<RawAudio>,
    /// Optional `[hyprland]` section.
    pub hyprland: Option<RawHyprland>,
}

// ---------------------------------------------------------------------------
// Specification of the conversion
// ---------------------------------------------------------------------------

/// Whether `r` is the outcome described by `expected`: the same value, or a
/// `Validation` error with the expected message.
pub open spec fn outcome<T>(r: Result<T, SceneError>, expected: Result<T, Seq<char>>) -> bool {
    match (r, expected) {
        (Ok(a), Ok(b)) => a == b,
        (Err(SceneError::Validation(m)), Err(msg)) => m@ == msg,
        _ => false,
    }
}

/// Whether `r` is a `Validation` error with message `msg`.
pub open spec fn is_validation(r: SceneError, msg: Seq<char>) -> bool {
    r matches SceneError::Validation(m) && m@ == msg
}

/// What `validate_config` yields: the config when the frame rate and both
/// resolution components are positive.
pub open spec fn config_spec(raw: RawSceneConfig) -> Result<SceneConfig, Seq<char>> {
    if raw.fps == 0 {
        Err("fps must be greater than 0"@)
    } else if raw.resolution[0] == 0 || raw.resolution[1] == 0 {
        Err("resolution width and height must both be greater than 0"@)
    } else {
        Ok(SceneConfig { fps: raw.fps, resolution: raw.resolution })
    }
}

/// What `parse_blend_mode` yields for `s`.
pub open spec fn blend_mode_spec(s: Seq<char>) -> Result<BlendMode, Seq<char>> {
    if s == "Normal"@ {
        Ok(BlendMode::Normal)
    } else if s == "Additive"@ {
        Ok(BlendMode::Additive)
    } else {
        Err("unknown blend_mode: "@ + debug_repr(s))
    }
}

/// What `parse_fit_mode` yields for `s`.
pub open spec fn fit_mode_spec(s: Seq<char>) -> Result<FitMode, Seq<char>> {
    if s == "Fill"@ {
        Ok(FitMode::Fill)
    } else if s == "Fit"@ {
        Ok(FitMode::Fit)
    } else if s == "Stretch"@ {
        Ok(FitMode::Stretch)
    } else {
        Err("unknown fit_mode: "@ + debug_repr(s))
    }
}

/// What `parse_emitter_mode` yields: a `Point` emitter needs both coordinates.
pub open spec fn emitter_spec(s: Seq<char>, x: Option<u32>, y: Option<u32>) -> Result<
    EmitterMode,
    Seq<char>,
> {
    if s == "Top"@ {
        Ok(EmitterMode::Top)
    } else if s == "Bottom"@ {
        Ok(EmitterMode::Bottom)
    } else if s == "Edges"@ {
        Ok(EmitterMode::Edges)
    } else if s == "Fullscreen"@ {
        Ok(EmitterMode::Fullscreen)
    } else if s == "Point"@ {
        match (x, y) {
            (None, _) => Err("Point emitter requires emitter_x"@),
            (Some(_), None) => Err("Point emitter requires emitter_y"@),
            (Some(px), Some(py)) => Ok(EmitterMode::Point(px, py)),
        }
    } else {
        Err("unknown emitter mode: "@ + debug_repr(s))
    }
}

/// Whether every element of a uniform array is a number.
pub open spec fn all_numbers(items: Seq<RawUniformItem>) -> bool {
    forall|i: int| 0 <= i < items.len() ==> #[trigger] items[i] is Number
}

/// The number held by a uniform array element.
pub open spec fn item_value(item: RawUniformItem) -> u32 {
    match item {
        RawUniformItem::Number(b) => b,
        RawUniformItem::Other => 0,
    }
}

/// What `convert_uniform` yields: a number, or an array of 2, 3 or 4 numbers.
pub open spec fn uniform_spec(value: RawUniform) -> Result<UniformValue, Seq<char>> {
    match value {
        RawUniform::Number(b) => Ok(UniformValue::Float(b)),
        RawUniform::Array(items) => {
            let s = items@;
            if !all_numbers(s) {
                Err("uniform array must contain only numbers"@)
            } else if s.len() == 2 {
                Ok(UniformValue::Vec2([item_value(s[0]), item_value(s[1])]))
            } else if s.len() == 3 {
                Ok(UniformValue::Vec3([item_value(s[0]), item_value(s[1]), item_value(s[2])]))
            } else if s.len() == 4 {
                Ok(
                    UniformValue::Vec4(
                        [item_value(s[0]), item_value(s[1]), item_value(s[2]), item_value(s[3])],
                    ),
                )
            } else {
                Err("uniform array must have 2, 3, or 4 elements"@)
            }
        },
        RawUniform::Other => Err("uniform value must be a number or an array of numbers"@),
    }
}

/// The message of the first uniform in `us` that does not convert, if any.
pub open spec fn uniforms_error(us: Seq<(String, RawUniform)>) -> Option<Seq<char>>
    decreases us.len(),
{
    if us.len() == 0 {
        None
    } else {
        match uniforms_error(us.drop_last()) {
            Some(m) => Some(m),
            None => match uniform_spec(us.last().1) {
                Ok(_) => None,
                Err(m) => Some(m),
            },
        }
    }
}

/// Whether `out` holds the converted uniforms of `us`, name for name, in order.
pub open spec fn uniforms_convert(
    us: Seq<(String, RawUniform)>,
    out: Seq<(String, UniformValue)>,
) -> bool {
    &&& out.len() == us.len()
    &&& forall|i: int|
        0 <= i < us.len() ==> {
            &&& (#[trigger] out[i]).0 == us[i].0
            &&& uniform_spec(us[i].1) == Ok::<UniformValue, Seq<char>>(out[i].1)
        }
}

/// The message with which `convert_layer_config` rejects `c`, if any.
pub open spec fn layer_config_error(c: RawLayerConfig) -> Option<Seq<char>> {
    match c {
        RawLayerConfig::Image(i) => match fit_mode_spec(i.fit_mode@) {
            Ok(_) => None,
            Err(m) => Some(m),
        },
        RawLayerConfig::Video(v) => match fit_mode_spec(v.fit_mode@) {
            Ok(_) => None,
            Err(m) => Some(m),
        },
        RawLayerConfig::Shader(s) => uniforms_error(s.uniforms@),
        RawLayerConfig::Particles(p) => match emitter_spec(p.emitter@, p.emitter_x, p.emitter_y) {
            Ok(_) => None,
            Err(m) => Some(m),
        },
    }
}

/// Whether `k` is the converted form of `c` (when `c` converts).
pub open spec fn layer_config_converts(c: RawLayerConfig, k: LayerKind) -> bool {
    match (c, k) {
        (RawLayerConfig::Image(i), LayerKind::Image(o)) => {
            &&& o.src == i.src
            &&& fit_mode_spec(i.fit_mode@) == Ok::<FitMode, Seq<char>>(o.fit_mode)
        },
        (RawLayerConfig::Video(v), LayerKind::Video(o)) => {
            &&& o.src == v.src
            &&& fit_mode_spec(v.fit_mode@) == Ok::<FitMode, Seq<char>>(o.fit_mode)
            &&& o.loop_ == v.loop_
            &&& o.speed == v.speed
            &&& o.muted == v.muted
        },
        (RawLayerConfig::Shader(s), LayerKind::Shader(o)) => {
            &&& o.src == s.src
            &&& uniforms_convert(s.uniforms@, o.uniforms@)
        },
        (RawLayerConfig::Particles(p), LayerKind::Particles(o)) => {
            &&& o.texture == p.texture
            &&& o.count == p.count
            &&& o.emit_rate == p.emit_rate
            &&& o.lifetime == p.lifetime
            &&& o.velocity_x == p.velocity_x
            &&& o.velocity_y == p.velocity_y
            &&& o.size == p.size
            &&& o.opacity == clamp_unit_bits(p.opacity)
            &&& o.gravity == p.gravity
            &&& emitter_spec(p.emitter@, p.emitter_x, p.emitter_y) == Ok::<EmitterMode, Seq<char>>(
                o.emitter,
            )
        },
        _ => false,
    }
}

/// The message with which `convert_layer` rejects `raw`, if any: the blend
/// mode is checked before the kind-specific configuration.
pub open spec fn layer_error(raw: RawLayer) -> Option<Seq<char>> {
    match blend_mode_spec(raw.blend_mode@) {
        Err(m) => Some(m),
        Ok(_) => layer_config_error(raw.config),
    }
}

/// Whether `l` is the converted form of `raw`.
pub open spec fn layer_converts(raw: RawLayer, l: Layer) -> bool {
    &&& l.base.id == raw.id
    &&& l.base.z_index == raw.z_index
    &&& l.base.visible == raw.visible
    &&& l.base.opacity == clamp_unit_bits(raw.opacity)
    &&& blend_mode_spec(raw.blend_mode@) == Ok::<BlendMode, Seq<char>>(l.base.blend_mode)
    &&& layer_config_converts(raw.config, l.kind)
}

/// The message of the first layer in `ls` that does not convert, if any.
pub open spec fn layers_error(ls: Seq<RawLayer>) -> Option<Seq<char>>
    decreases ls.len(),
{
    if ls.len() == 0 {
        None
    } else {
        match layers_error(ls.drop_last()) {
            Some(m) => Some(m),
            None => layer_error(ls.last()),
        }
    }
}

/// Whether `out` holds the converted layers of `ls`, in the same order.
pub open spec fn layers_convert(ls: Seq<RawLayer>, out: Seq<Layer>) -> bool {
    &&& out.len() == ls.len()
    &&& forall|i: int| 0 <= i < ls.len() ==> layer_converts(ls[i], #[trigger] out[i])
}

/// The bit pattern of `f32::clamp(x, 0.0, 1.0)` for the single-precision
/// value `x` with bit pattern `b`: a NaN and both zeros are kept, a negative
/// value becomes `0.0`, a value above `1.0` (infinity included) becomes
/// `1.0`, and any other value is kept.
pub open spec fn clamp_unit_bits(b: u32) -> u32 {
    let magnitude = b & 0x7FFF_FFFFu32;
    if magnitude > 0x7F80_0000u32 {
        b
    } else if b >= 0x8000_0000u32 {
        if magnitude == 0 {
            b
        } else {
            0x0000_0000u32
        }
    } else if b > 0x3F80_0000u32 {
        0x3F80_0000u32
    } else {
        b
    }
}

/// Clamps the single-precision value with bit pattern `b` to `[0.0, 1.0]`
/// (see [`clamp_unit_bits`]).
pub fn clamp_unit(b: u32) -> (r: u32)
    ensures
        r == clamp_unit_bits(b),
{
    let magnitude = b & 0x7FFF_FFFFu32;
    if magnitude > 0x7F80_0000u32 {
        b
    } else if b >= 0x8000_0000u32 {
        if magnitude == 0 {
            b
        } else {
            0x0000_0000u32
        }
    } else if b > 0x3F80_0000u32 {
        0x3F80_0000u32
    } else {
        b
    }
}

/// Whether `a` is the converted form of `raw`: a field-for-field copy, with
/// the volume clamped to `[0.0, 1.0]`.
pub open spec fn audio_converts(raw: RawAudio, a: AudioConfig) -> bool {
    &&& a.src == raw.src
    &&& a.volume == clamp_unit_bits(raw.volume)
    &&& a.loop_ == raw.loop_
    &&& a.fade_in == raw.fade_in
    &&& a.fade_out == raw.fade_out
    &&& a.pause_with_wallpaper == raw.pause_with_wallpaper
    &&& a.reactive == raw.reactive
    &&& a.reactive_source == raw.reactive_source
    &&& a.reactive_threshold == raw.reactive_threshold
    &&& a.reactive_gain == raw.reactive_gain
}

/// The message for the first workspace key in `ws` that is not a `u32`, if any.
pub open spec fn workspaces_error(ws: Seq<(String, String)>) -> Option<Seq<char>>
    decreases ws.len(),
{
    if ws.len() == 0 {
        None
    } else {
        match workspaces_error(ws.drop_last()) {
            Some(m) => Some(m),
            None => if parse_u32_spec(ws.last().0@) is Some {
                None
            } else {
                Some("invalid workspace id: "@ + debug_repr(ws.last().0@))
            },
        }
    }
}

/// The workspace map built from `ws`: entries are inserted in order, so a
/// later key that parses to the same id replaces an earlier one.
pub open spec fn workspaces_map(ws: Seq<(String, String)>) -> Map<u32, String>
    decreases ws.len(),
{
    if ws.len() == 0 {
        Map::empty()
    } else {
        workspaces_map(ws.drop_last()).insert(
            parse_u32_spec(ws.last().0@).unwrap(),
            ws.last().1,
        )
    }
}

/// Whether `h` is the converted form of `raw` (when `raw` converts).
pub open spec fn hyprland_converts(raw: RawHyprland, h: HyprlandConfig) -> bool {
    &&& h.pause_on_fullscreen == raw.pause_on_fullscreen
    &&& h.pause_on_battery == raw.pause_on_battery
    &&& h.parallax == raw.parallax
    &&& h.parallax_intensity == raw.parallax_intensity
    &&& h.workspaces@ == workspaces_map(raw.workspaces@)
    &&& h.default_workspace == raw.default_workspace
}

/// The message with which `raw_to_scene` rejects `raw`, if any.  The config
/// is validated first, then the layers in order, then the Hyprland section.
pub open spec fn scene_error(raw: RawScene) -> Option<Seq<char>> {
    match config_spec(raw.config) {
        Err(m) => Some(m),
        Ok(_) => match layers_error(raw.layers@) {
            Some(m) => Some(m),
            None => match raw.hyprland {
                Some(h) => workspaces_error(h.workspaces@),
                None => None,
            },
        },
    }
}

/// Whether `s` is the scene described by the valid manifest `raw`.
pub open spec fn scene_converts(raw: RawScene, s: Scene) -> bool {
    &&& s.meta.name == raw.meta.name
    &&& s.meta.author == raw.meta.author
    &&& s.meta.version == raw.meta.version
    &&& s.meta.engine_version == raw.meta.engine_version
    &&& config_spec(raw.config) == Ok::<SceneConfig, Seq<char>>(s.config)
    &&& layers_convert(raw.layers@, s.layers@)
    &&& match (raw.audio, s.audio) {
        (None, None) => true,
        (Some(ra), Some(a)) => audio_converts(ra, a),
        _ => false,
    }
    &&& match (raw.hyprland, s.hyprland) {
        (None, None) => true,
        (Some(rh), Some(h)) => hyprland_converts(rh, h),
        _ => false,
    }
}

// ---------------------------------------------------------------------------
// Conversion
// ---------------------------------------------------------------------------

fn validation(msg: &str) -> (e: SceneError)
    ensures
        is_validation(e, msg@),
{
    SceneError::Validation(String::from_str(msg))
}

fn validation_debug(prefix: &str, s: &str) -> (e: SceneError)
    ensures
        is_validation(e, prefix@ + debug_repr(s@)),
{
    SceneError::Validation(message_with_debug(prefix, s))
}

/// Checks that the frame rate and both resolution components are positive.
pub fn validate_config(raw: RawSceneConfig) -> (r: Result<SceneConfig, SceneError>)
    ensures
        outcome(r, config_spec(raw)),
        r is Ok <==> (raw.fps > 0 && raw.resolution[0] > 0 && raw.resolution[1] > 0),
        r matches Ok(c) ==> c.fps == raw.fps && c.resolution == raw.resolution,
{
    if raw.fps == 0 {
        return Err(validation("fps must be greater than 0"));
    }
    if raw.resolution[0] == 0 || raw.resolution[1] == 0 {
        return Err(validation("resolution width and height must both be greater than 0"));
    }
    Ok(SceneConfig { fps: raw.fps, resolution: raw.resolution })
}

/// Parses a blend mode name: `"Normal"` or `"Additive"`.
pub fn parse_blend_mode(s: &str) -> (r: Result<BlendMode, SceneError>)
    ensures
        outcome(r, blend_mode_spec(s@)),
{
    if str_eq(s, "Normal") {
        Ok(BlendMode::Normal)
    } else if str_eq(s, "Additive") {
        Ok(BlendMode::Additive)
    } else {
        Err(validation_debug("unknown blend_mode: ", s))
    }
}

/// Parses a fit mode name: `"Fill"`, `"Fit"` or `"Stretch"`.
pub fn parse_fit_mode(s: &str) -> (r: Result<FitMode, SceneError>)
    ensures
        outcome(r, fit_mode_spec(s@)),
{
    if str_eq(s, "Fill") {
        Ok(FitMode::Fill)
    } else if str_eq(s, "Fit") {
        Ok(FitMode::Fit)
    } else if str_eq(s, "Stretch") {
        Ok(FitMode::Stretch)
    } else {
        Err(validation_debug("unknown fit_mode: ", s))
    }
}

/// Parses an emitter mode name; `"Point"` takes its coordinates from `x` and `y`.
pub fn parse_emitter_mode(s: &str, x: Option<u32>, y: Option<u32>) -> (r: Result<
    EmitterMode,
    SceneError,
>)
    ensures
        outcome(r, emitter_spec(s@, x, y)),
{
    if str_eq(s, "Top") {
        Ok(EmitterMode::Top)
    } else if str_eq(s, "Bottom") {
        Ok(EmitterMode::Bottom)
    } else if str_eq(s, "Edges") {
        Ok(EmitterMode::Edges)
    } else if str_eq(s, "Fullscreen") {
        Ok(EmitterMode::Fullscreen)
    } else if str_eq(s, "Point") {
        let px = match x {
            Some(v) => v,
            None => {
                return Err(validation("Point emitter requires emitter_x"));
            },
        };
        let py = match y {
            Some(v) => v,
            None => {
                return Err(validation("Point emitter requires emitter_y"));
            },
        };
        Ok(EmitterMode::Point(px, py))
    } else {
        Err(validation_debug("unknown emitter mode: ", s))
    }
}

/// Converts a manifest uniform: a number, or an array of 2, 3 or 4 numbers.
pub fn convert_uniform(value: RawUniform) -> (r: Result<UniformValue, SceneError>)
    ensures
        outcome(r, uniform_spec(value)),
{
    match value {
        RawUniform::Number(b) => Ok(UniformValue::Float(b)),
        RawUniform::Array(items) => {
            let n = items.len();
            if !items_all_numbers(&items) {
                return Err(validation("uniform array must contain only numbers"));
            }
            assert(all_numbers(items@));
            if n == 2 {
                Ok(UniformValue::Vec2([item_number(&items[0]), item_number(&items[1])]))
            } else if n == 3 {
                Ok(
                    UniformValue::Vec3(
                        [item_number(&items[0]), item_number(&items[1]), item_number(&items[2])],
                    ),
                )
            } else if n == 4 {
                Ok(
                    UniformValue::Vec4(
                        [
                            item_number(&items[0]),
                            item_number(&items[1]),
                            item_number(&items[2]),
                            item_number(&items[3]),
                        ],
                    ),
                )
            } else {
                Err(validation("uniform array must have 2, 3, or 4 elements"))
            }
        },
        RawUniform::Other => Err(
            validation("uniform value must be a number or an array of numbers"),
        ),
    }
}

fn items_all_numbers(items: &Vec<RawUniformItem>) -> (r: bool)
    ensures
        r == all_numbers(items@),
{
    let n = items.len();
    let mut i: usize = 0;
    while i < n
        invariant
            n == items@.len(),
            i <= n,
            forall|k: int| 0 <= k < i ==> #[trigger] items@[k] is Number,
        decreases n - i,
    {
        match &items[i] {
            RawUniformItem::Number(_) => {},
            RawUniformItem::Other => {
                return false;
            },
        }
        i = i + 1;
    }
    true
}

fn item_number(item: &RawUniformItem) -> (r: u32)
    ensures
        r == item_value(*item),
{
    match item {
        RawUniformItem::Number(b) => *b,
        RawUniformItem::Other => 0,
    }
}

fn convert_uniforms(us: Vec<(String, RawUniform)>) -> (r: Result<
    Vec<(String, UniformValue)>,
    SceneError,
>)
    ensures
        match r {
            Ok(out) => uniforms_error(us@) is None && uniforms_convert(us@, out@),
            Err(e) => uniforms_error(us@) matches Some(m) && is_validation(e, m),
        },
{
    let ghost orig = us@;
    let mut rest = us;
    let mut out: Vec<(String, UniformValue)> = Vec::new();
    let n = rest.len();
    let mut i: usize = 0;
    while i < n
        invariant
            n == orig.len(),
            orig == us@,
            i <= n,
            rest@ == orig.subrange(i as int, n as int),
            uniforms_error(orig.subrange(0, i as int)) is None,
            uniforms_convert(orig.subrange(0, i as int), out@),
        decreases n - i,
    {
        let (name, raw) = rest.remove(0);
        let ghost pre = orig.subrange(0, i as int);
        let ghost next = orig.subrange(0, i + 1);
        assert(next.drop_last() == pre);
        assert(next.last() == orig[i as int]);
        match convert_uniform(raw) {
            Ok(v) => {
                out.push((name, v));
            },
            Err(e) => {
                proof {
                    lemma_uniforms_error_prefix(orig, i as int + 1);
                }
                return Err(e);
            },
        }
        i = i + 1;
        assert(rest@ =~= orig.subrange(i as int, n as int));
    }
    assert(orig.subrange(0, n as int) == orig);
    Ok(out)
}

proof fn lemma_uniforms_error_prefix(s: Seq<(String, RawUniform)>, k: int)
    requires
        0 <= k <= s.len(),
        uniforms_error(s.subrange(0, k)) is Some,
    ensures
        uniforms_error(s) == uniforms_error(s.subrange(0, k)),
    decreases s.len() - k,
{
    if k < s.len() {
        assert(s.drop_last().subrange(0, k) == s.subrange(0, k));
        lemma_uniforms_error_prefix(s.drop_last(), k);
    } else {
        assert(s.subrange(0, k) == s);
    }
}

/// Converts the kind-specific part of a layer.
pub fn convert_layer_config(config: RawLayerConfig) -> (r: Result<LayerKind, SceneError>)
    ensures
        match r {
            Ok(k) => layer_config_error(config) is None && layer_config_converts(config, k),
            Err(e) => layer_config_error(config) matches Some(m) && is_validation(e, m),
        },
{
    match config {
        RawLayerConfig::Image(c) => {
            let fit_mode = parse_fit_mode(c.fit_mode.as_str())?;
            Ok(LayerKind::Image(ImageLayer { src: c.src, fit_mode }))
        },
        RawLayerConfig::Video(c) => {
            let fit_mode = parse_fit_mode(c.fit_mode.as_str())?;
            Ok(
                LayerKind::Video(
                    VideoLayer {
                        src: c.src,
                        fit_mode,
                        loop_: c.loop_,
                        speed: c.speed,
                        muted: c.muted,
                    },
                ),
            )
        },
        RawLayerConfig::Shader(c) => {
            let uniforms = convert_uniforms(c.uniforms)?;
            Ok(LayerKind::Shader(ShaderLayer { src: c.src, uniforms }))
        },
        RawLayerConfig::Particles(c) => {
            let emitter = parse_emitter_mode(c.emitter.as_str(), c.emitter_x, c.emitter_y)?;
            Ok(
                LayerKind::Particles(
                    ParticleLayer {
                        texture: c.texture,
                        count: c.count,
                        emit_rate: c.emit_rate,
                        lifetime: c.lifetime,
                        velocity_x: c.velocity_x,
                        velocity_y: c.velocity_y,
                        size: c.size,
                        opacity: clamp_unit(c.opacity),
                        gravity: c.gravity,
                        emitter,
                    },
                ),
            )
        },
    }
}

/// Converts one manifest layer; the blend mode is checked first.
pub fn convert_layer(raw: RawLayer) -> (r: Result<Layer, SceneError>)
    ensures
        match r {
            Ok(l) => layer_error(raw) is None && layer_converts(raw, l),
            Err(e) => layer_error(raw) matches Some(m) && is_validation(e, m),
        },
        r matches Ok(l) ==> (l.base.id == raw.id && l.base.z_index == raw.z_index
            && l.base.visible == raw.visible && l.base.opacity == clamp_unit_bits(raw.opacity)),
{
    let blend_mode = parse_blend_mode(raw.blend_mode.as_str())?;
    let base = LayerBase {
        id: raw.id,
        z_index: raw.z_index,
        visible: raw.visible,
        opacity: clamp_unit(raw.opacity),
        blend_mode,
    };
    let kind = convert_layer_config(raw.config)?;
    Ok(Layer { base, kind })
}

fn convert_layers(ls: Vec<RawLayer>) -> (r: Result<Vec<Layer>, SceneError>)
    ensures
        match r {
            Ok(out) => layers_error(ls@) is None && layers_convert(ls@, out@),
            Err(e) => layers_error(ls@) matches Some(m) && is_validation(e, m),
        },
{
    let ghost orig = ls@;
    let mut rest = ls;
    let mut out: Vec<Layer> = Vec::new();
    let n = rest.len();
    let mut i: usize = 0;
    while i < n
        invariant
            n == orig.len(),
            orig == ls@,
            i <= n,
            rest@ == orig.subrange(i as int, n as int),
            layers_error(orig.subrange(0, i as int)) is None,
            layers_convert(orig.subrange(0, i as int), out@),
        decreases n - i,
    {
        let raw = rest.remove(0);
        let ghost pre = orig.subrange(0, i as int);
        let ghost next = orig.subrange(0, i + 1);
        assert(next.drop_last() == pre);
        assert(next.last() == orig[i as int]);
        match convert_layer(raw) {
            Ok(l) => {
                out.push(l);
            },
            Err(e) => {
                proof {
                    lemma_layers_error_prefix(orig, i as int + 1);
                }
                return Err(e);
            },
        }
        i = i + 1;
        assert(rest@ =~= orig.subrange(i as int, n as int));
    }
    assert(orig.subrange(0, n as int) == orig);
    Ok(out)
}

proof fn lemma_layers_error_prefix(s: Seq<RawLayer>, k: int)
    requires
        0 <= k <= s.len(),
        layers_error(s.subrange(0, k)) is Some,
    ensures
        layers_error(s) == layers_error(s.subrange(0, k)),
    decreases s.len() - k,
{
    if k < s.len() {
        assert(s.drop_last().subrange(0, k) == s.subrange(0, k));
        lemma_layers_error_prefix(s.drop_last(), k);
    } else {
        assert(s.subrange(0, k) == s);
    }
}

/// Copies the `[audio]` section into an [`AudioConfig`], clamping the
/// volume to `[0.0, 1.0]`.
pub fn convert_audio(raw: RawAudio) -> (a: AudioConfig)
    ensures
        audio_converts(raw, a),
{
    AudioConfig {
        src: raw.src,
        volume: clamp_unit(raw.volume),
        loop_: raw.loop_,
        fade_in: raw.fade_in,
        fade_out: raw.fade_out,
        pause_with_wallpaper: raw.pause_with_wallpaper,
        reactive: raw.reactive,
        reactive_source: raw.reactive_source,
        reactive_threshold: raw.reactive_threshold,
        reactive_gain: raw.reactive_gain,
    }
}

proof fn lemma_workspaces_error_prefix(s: Seq<(String, String)>, k: int)
    requires
        0 <= k <= s.len(),
        workspaces_error(s.subrange(0, k)) is Some,
    ensures
        workspaces_error(s) == workspaces_error(s.subrange(0, k)),
    decreases s.len() - k,
{
    if k < s.len() {
        assert(s.drop_last().subrange(0, k) == s.subrange(0, k));
        lemma_workspaces_error_prefix(s.drop_last(), k);
    } else {
        assert(s.subrange(0, k) == s);
    }
}

/// Converts the `[hyprland]` section; every workspace key must be a `u32`.
pub fn convert_hyprland(raw: RawHyprland) -> (r: Result<HyprlandConfig, SceneError>)
    ensures
        match r {
            Ok(h) => workspaces_error(raw.workspaces@) is None && hyprland_converts(raw, h),
            Err(e) => workspaces_error(raw.workspaces@) matches Some(m) && is_validation(e, m),
        },
{
    let ghost orig = raw.workspaces@;
    let mut rest = raw.workspaces;
    let mut workspaces: HashMap<u32, String> = HashMap::new();
    let n = rest.len();
    let mut i: usize = 0;
    while i < n
        invariant
            n == orig.len(),
            orig == raw.workspaces@,
            i <= n,
            rest@ == orig.subrange(i as int, n as int),
            workspaces_error(orig.subrange(0, i as int)) is None,
            workspaces@ == workspaces_map(orig.subrange(0, i as int)),
        decreases n - i,
    {
        let (key, value) = rest.remove(0);
        let ghost pre = orig.subrange(0, i as int);
        let ghost next = orig.subrange(0, i + 1);
        assert(next.drop_last() == pre);
        assert(next.last() == orig[i as int]);
        match parse_u32(key.as_str()) {
            Some(id) => {
                workspaces.insert(id, value);
            },
            None => {
                proof {
                    lemma_workspaces_error_prefix(orig, i as int + 1);
                }
                return Err(validation_debug("invalid workspace id: ", key.as_str()));
            },
        }
        i = i + 1;
        assert(rest@ =~= orig.subrange(i as int, n as int));
    }
    assert(orig.subrange(0, n as int) == orig);
    Ok(
        HyprlandConfig {
            pause_on_fullscreen: raw.pause_on_fullscreen,
            pause_on_battery: raw.pause_on_battery,
            parallax: raw.parallax,
            parallax_intensity: raw.parallax_intensity,
            workspaces,
            default_workspace: raw.default_workspace,
        },
    )
}

/// Converting a manifest keeps every layer, in order, with the id,
/// drawing order (`z_index`) and visibility the manifest gives it.
pub proof fn law_layers_keep_identity_and_order(raw: RawScene, s: Scene)
    requires
        scene_converts(raw, s),
    ensures
        s.layers@.len() == raw.layers@.len(),
        forall|i: int|
            0 <= i < raw.layers@.len() ==> {
                &&& (#[trigger] s.layers@[i]).base.z_index == raw.layers@[i].z_index
                &&& s.layers@[i].base.id == raw.layers@[i].id
                &&& s.layers@[i].base.visible == raw.layers@[i].visible
            },
{
    assert forall|i: int| 0 <= i < raw.layers@.len() implies {
        &&& (#[trigger] s.layers@[i]).base.z_index == raw.layers@[i].z_index
        &&& s.layers@[i].base.id == raw.layers@[i].id
        &&& s.layers@[i].base.visible == raw.layers@[i].visible
    } by {
        assert(layer_converts(raw.layers@[i], s.layers@[i]));
    }
}

/// Validates a raw manifest and converts it into a [`Scene`].
///
/// The config is validated first, then each layer in order, then the
/// Hyprland section; the first failure is returned as
/// [`SceneError::Validation`].
pub fn raw_to_scene(raw: RawScene) -> (r: Result<Scene, SceneError>)
    ensures
        match r {
            Ok(s) => scene_error(raw) is None && scene_converts(raw, s),
            Err(e) => scene_error(raw) matches Some(m) && is_validation(e, m),
        },
        r matches Ok(s) ==> (s.layers@.len() == raw.layers@.len() && forall|i: int|
            0 <= i < raw.layers@.len() ==> {
                &&& (#[trigger] s.layers@[i]).base.z_index == raw.layers@[i].z_index
                &&& s.layers@[i].base.id == raw.layers@[i].id
                &&& s.layers@[i].base.visible == raw.layers@[i].visible
            }),
        r matches Ok(s) ==> (s.config.fps == raw.config.fps && s.config.resolution
            == raw.config.resolution && s.meta.name == raw.meta.name),
        (raw.config.fps == 0 || raw.config.resolution[0] == 0 || raw.config.resolution[1] == 0)
            ==> r is Err,
{
    let meta = SceneMeta {
        name: raw.meta.name,
        author: raw.meta.author,
        version: raw.meta.version,
        engine_version: raw.meta.engine_version,
    };
    let config = validate_config(raw.config)?;
    let layers = convert_layers(raw.layers)?;
    let audio = match raw.audio {
        Some(a) => Some(convert_audio(a)),
        None => None,
    };
    let hyprland = match raw.hyprland {
        Some(h) => Some(convert_hyprland(h)?),
        None => None,
    };
    Ok(Scene { meta, config, layers, audio, hyprland })
}

// ---------------------------------------------------------------------------
// Reading members of the archive
// ---------------------------------------------------------------------------

/// Name of the manifest member at the root of a `.hyscene` archive.
pub open spec fn manifest_name() -> Seq<char> {
    "scene.toml"@
}

/// Why a member of a ZIP archive could not be read.
#[derive(Debug)]
pub enum ArchiveError {
    /// The bytes are not a readable ZIP archive.
    Archive(zip::result::ZipError),
    /// The archive has no member of that name.
    MemberMissing,
    /// The member exists but could not be opened.
    Member(zip::result::ZipError),
    /// The member's contents could not be read (as UTF-8 text, for text).
    Io(std::io::Error),
}

/// Whether `zip::ZipArchive::new` accepts the bytes `archive` as a ZIP
/// archive.  It depends on the bytes alone.
pub uninterp spec fn zip_archive_readable(archive: Seq<u8>) -> bool;

/// What `ZipArchive::by_name` does for `name` on the archive made of the
/// bytes `archive`: `None` when it reports `ZipError::FileNotFound` (the
/// archive has no such member), `Some(true)` when it opens the member,
/// `Some(false)` when it fails otherwise.  It depends on the bytes and the
/// name alone.
pub uninterp spec fn zip_member_lookup(archive: Seq<u8>, name: Seq<char>) -> Option<bool>;

/// What `Read::read_to_string` gives for the opened member `name` of the
/// archive made of the bytes `archive`: its text, or `None` when its
/// contents cannot be read as UTF-8.  It depends on the bytes and the name
/// alone.
pub uninterp spec fn zip_member_text(archive: Seq<u8>, name: Seq<char>) -> Option<Seq<char>>;

/// What `Read::read_to_end` gives for the opened member `name` of the
/// archive made of the bytes `archive`: its contents, or `None` when they
/// cannot be read.  It depends on the bytes and the name alone.
pub uninterp spec fn zip_member_bytes(archive: Seq<u8>, name: Seq<char>) -> Option<Seq<u8>>;

/// Reads member `name` of an in-memory ZIP archive as text with
/// `zip::ZipArchive::new`, `ZipArchive::by_name` and `Read::read_to_string`.
///
/// Trusted: the contract claims that each error variant comes back exactly
/// when the step it names fails (`ZipArchive::new`, named
/// `zip_archive_readable`; then `by_name`, named `zip_member_lookup`, with
/// `FileNotFound` or another error), and that a text comes back exactly
/// when the member opens and `read_to_string` succeeds, the text being
/// `zip_member_text`; an I/O error is what remains.
#[verifier::external_body]
pub(crate) fn archive_member_text(archive: &[u8], name: &str) -> (r: Result<String, ArchiveError>)
    ensures
        r matches Err(ArchiveError::Archive(_)) <==> !zip_archive_readable(archive@),
        r matches Err(ArchiveError::MemberMissing) <==> (
            zip_archive_readable(archive@)
            && zip_member_lookup(archive@, name@) is None
        ),
        r matches Err(ArchiveError::Member(_)) <==> (
            zip_archive_readable(archive@)
            && zip_member_lookup(archive@, name@) == Some(false)
        ),
        r is Ok <==> (
            zip_archive_readable(archive@)
            && zip_member_lookup(archive@, name@) == Some(true)
            && zip_member_text(archive@, name@) is Some
        ),
        r matches Ok(s) ==> zip_member_text(archive@, name@) == Some(s@),
{
    let mut zip = match zip::ZipArchive::new(std::io::Cursor::new(archive)) {
        Ok(z) => z,
        Err(e) => return Err(ArchiveError::Archive(e)),
    };
    let mut member = match zip.by_name(name) {
        Ok(m) => m,
        Err(zip::result::ZipError::FileNotFound) => return Err(ArchiveError::MemberMissing),
        Err(e) => return Err(ArchiveError::Member(e)),
    };
    let mut text = String::new();
    match std::io::Read::read_to_string(&mut member, &mut text) {
        Ok(_) => Ok(text),
        Err(e) => Err(ArchiveError::Io(e)),
    }
}

/// Reads member `name` of an in-memory ZIP archive as bytes with
/// `zip::ZipArchive::new`, `ZipArchive::by_name` and `Read::read_to_end`.
///
/// Trusted: as for [`archive_member_text`], with `read_to_end` and the
/// contents `zip_member_bytes` in place of the text.
#[verifier::external_body]
pub(crate) fn archive_member_bytes(archive: &[u8], name: &str) -> (r: Result<Vec<u8>, ArchiveError>)
    ensures
        r matches Err(ArchiveError::Archive(_)) <==> !zip_archive_readable(archive@),
        r matches Err(ArchiveError::MemberMissing) <==> (
            zip_archive_readable(archive@)
            && zip_member_lookup(archive@, name@) is None
        ),
        r matches Err(ArchiveError::Member(_)) <==> (
            zip_archive_readable(archive@)
            && zip_member_lookup(archive@, name@) == Some(false)
        ),
        r is Ok <==> (
            zip_archive_readable(archive@)
            && zip_member_lookup(archive@, name@) == Some(true)
            && zip_member_bytes(archive@, name@) is Some
        ),
        r matches Ok(v) ==> zip_member_bytes(archive@, name@) == Some(v@),
{
    let mut zip = match zip::ZipArchive::new(std::io::Cursor::new(archive)) {
        Ok(z) => z,
        Err(e) => return Err(ArchiveError::Archive(e)),
    };
    let mut member = match zip.by_name(name) {
        Ok(m) => m,
        Err(zip::result::ZipError::FileNotFound) => return Err(ArchiveError::MemberMissing),
        Err(e) => return Err(ArchiveError::Member(e)),
    };
    let mut bytes = Vec::new();
    match std::io::Read::read_to_end(&mut member, &mut bytes) {
        Ok(_) => Ok(bytes),
        Err(e) => Err(ArchiveError::Io(e)),
    }
}

/// The scene error for the outcome of reading the manifest member: a
/// missing member is a missing manifest; archive and member errors are ZIP
/// errors; I/O errors are passed on unchanged.
pub open spec fn manifest_read_spec(read: Result<String, ArchiveError>) -> Result<String, SceneError> {
    match read {
        Ok(text) => Ok(text),
        Err(ArchiveError::Archive(e)) => Err(SceneError::Zip(e)),
        Err(ArchiveError::MemberMissing) => Err(SceneError::MissingManifest),
        Err(ArchiveError::Member(e)) => Err(SceneError::Zip(e)),
        Err(ArchiveError::Io(e)) => Err(SceneError::Io(e)),
    }
}

/// Maps the outcome of reading the manifest member to the scene's result.
pub fn manifest_from_read(read: Result<String, ArchiveError>) -> (r: Result<String, SceneError>)
    ensures
        r == manifest_read_spec(read),
{
    match read {
        Ok(text) => Ok(text),
        Err(ArchiveError::Archive(e)) => Err(SceneError::Zip(e)),
        Err(ArchiveError::MemberMissing) => Err(SceneError::MissingManifest),
        Err(ArchiveError::Member(e)) => Err(SceneError::Zip(e)),
        Err(ArchiveError::Io(e)) => Err(SceneError::Io(e)),
    }
}

/// Reads the `scene.toml` manifest out of the bytes of a `.hyscene` archive.
///
/// The manifest text comes back when the archive holds a readable UTF-8
/// `scene.toml` at its root; [`SceneError::MissingManifest`] when the
/// archive has no such member; [`SceneError::Zip`] when the bytes are not a
/// readable archive or the member cannot be opened; [`SceneError::Io`] when
/// the member opens but its contents cannot be read as text.
pub fn read_manifest(archive: &[u8]) -> (r: Result<String, SceneError>)
    ensures
        r is Ok <==> (
            zip_archive_readable(archive@)
            && zip_member_lookup(archive@, manifest_name()) == Some(true)
            && zip_member_text(archive@, manifest_name()) is Some
        ),
        r matches Ok(s) ==> zip_member_text(archive@, manifest_name()) == Some(s@),
        r matches Err(SceneError::MissingManifest) <==> (
            zip_archive_readable(archive@)
            && zip_member_lookup(archive@, manifest_name()) is None
        ),
        !zip_archive_readable(archive@) ==> r matches Err(SceneError::Zip(_)),
        (zip_archive_readable(archive@) && zip_member_lookup(archive@, manifest_name()) == Some(
            false,
        )) ==> r matches Err(SceneError::Zip(_)),
        (zip_archive_readable(archive@) && zip_member_lookup(archive@, manifest_name()) == Some(
            true,
        ) && zip_member_text(archive@, manifest_name()) is None) ==> r matches Err(SceneError::Io(_)),
        r matches Err(e) ==> (e is MissingManifest || e is Zip || e is Io),
{
    let read = archive_member_text(archive, "scene.toml");
    manifest_from_read(read)
}

} // verus!
