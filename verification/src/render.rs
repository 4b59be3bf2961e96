//! Renderer-side types, image decoding and surface-format choice, the
//! workspace-driven parallax state and particle emission.
//!
//! GPU work and the per-frame arithmetic on real numbers happen in the
//! application; real values are carried here as 32-bit IEEE-754 bit patterns.
use vstd::prelude::*;

verus! {

/// How a texture is scaled to fill the output surface.
#[derive(Debug, Clone, Copy, PartialEq, Eq, Structural)]
pub enum FitMode {
    /// Scale uniformly to cover the entire surface (may crop edges).
    Fill,
    /// Scale uniformly to fit inside the surface (may letterbox).
    ///
    /// The UV coordinates computed for this mode may extend outside `[0, 1]`.
    Fit,
    /// Stretch non-uniformly to fill exactly (no cropping, no letterboxing).
    Stretch,
}

impl Default for FitMode {
    /// The default fit mode is [`FitMode::Fill`].
    fn default() -> (m: Self)
        ensures
            m == FitMode::Fill,
    {
        FitMode::Fill
    }
}

/// All errors that can occur in the renderer.
#[derive(Debug)]
pub enum RendererError {
    /// No suitable wgpu adapter was found on this system.
    NoAdapter,
    /// The wgpu logical device could not be created.
    DeviceCreation(String),
    /// A texture could not be decoded or uploaded to the GPU.
    Texture(String),
    /// A wgpu surface could not be created from the provided Wayland handles.
    Surface(String),
    /// A per-frame rendering error (surface texture acquisition, encoding, etc.).
    Render(String),
    /// An I/O error while reading an asset from disk.
    Io(std::io::Error),
}

// ---------------------------------------------------------------------------
// Textures and surface formats
// ---------------------------------------------------------------------------

/// An image decoded to 8-bit RGBA, ready to be uploaded as a texture.
#[derive(Debug)]
pub struct DecodedTexture {
    /// Width in pixels.
    pub width: u32,
    /// Height in pixels.
    pub height: u32,
    /// The pixels, row by row, four bytes (R, G, B, A) each.
    pub rgba: Vec<u8>,
}

/// What `image::load_from_memory` followed by `DynamicImage::to_rgba8` makes
/// of the encoded image `bytes`: the width, height and RGBA pixels, or the
/// text of the decoding error.  It depends on the bytes alone.
pub uninterp spec fn decoded_rgba(bytes: Seq<u8>) -> Result<(u32, u32, Seq<u8>), Seq<char>>;

/// Decodes an encoded image (PNG, JPEG, GIF, WebP, BMP; the format is
/// guessed from the bytes) with `image::load_from_memory` and converts it to
/// RGBA with `to_rgba8`.
///
/// Trusted: the contract claims only that the result is `decoded_rgba` of
/// the bytes; decoding is the `image` crate's.  The crate documents no
/// input on which decoding panics (the reader's default limits turn an
/// oversized image into an error), so `requires` leaves no input out; that
/// no decoder panics on malformed bytes is not stated by its documentation
/// either.
#[verifier::external_body]
fn decode_rgba(bytes: &[u8]) -> (r: Result<DecodedTexture, String>)
    ensures
        match r {
            Ok(t) => decoded_rgba(bytes@) == Ok::<(u32, u32, Seq<u8>), Seq<char>>((t.width, t.height, t.rgba@)),
            Err(m) => decoded_rgba(bytes@) == Err::<(u32, u32, Seq<u8>), Seq<char>>(m@),
        },
{
    match image::load_from_memory(bytes) {
        Ok(img) => {
            let rgba = img.to_rgba8();
            let (width, height) = rgba.dimensions();
            Ok(DecodedTexture { width, height, rgba: rgba.into_raw() })
        },
        Err(e) => Err(e.to_string()),
    }
}

/// Decodes the bytes of an image asset for upload: its pixels as RGBA, or
/// [`RendererError::Texture`] with the decoder's message.
pub fn decode_texture(bytes: &[u8]) -> (r: Result<DecodedTexture, RendererError>)
    ensures
        match r {
            Ok(t) => decoded_rgba(bytes@) == Ok::<(u32, u32, Seq<u8>), Seq<char>>((t.width, t.height, t.rgba@)),
            Err(RendererError::Texture(m)) => decoded_rgba(bytes@) == Err::<(u32, u32, Seq<u8>), Seq<char>>(m@),
            Err(_) => false,
        },
{
    texture_from_decode(decode_rgba(bytes))
}

/// The renderer's result for the outcome of decoding an image: the decoded
/// texture, or the decoder's message as [`RendererError::Texture`].
pub fn texture_from_decode(decoded: Result<DecodedTexture, String>) -> (r: Result<DecodedTexture, RendererError>)
    ensures
        match decoded {
            Ok(t) => r == Ok::<DecodedTexture, RendererError>(t),
            Err(m) => r == Err::<DecodedTexture, RendererError>(RendererError::Texture(m)),
        },
{
    match decoded {
        Ok(t) => Ok(t),
        Err(m) => Err(RendererError::Texture(m)),
    }
}

/// Checks the raw Wayland handles a GPU surface is made from, given whether
/// the `wl_display` and the `wl_surface` pointers are non-null: the display
/// is checked first, and a null pointer is a [`RendererError::Surface`].
pub fn check_surface_handles(display_present: bool, surface_present: bool) -> (r: Result<(), RendererError>)
    ensures
        display_present && surface_present ==> r is Ok,
        !display_present ==> (r matches Err(RendererError::Surface(m)) && m@ == "null wl_display pointer"@),
        display_present && !surface_present ==> (r matches Err(RendererError::Surface(m)) && m@
            == "null wl_surface pointer"@),
{
    if !display_present {
        return Err(RendererError::Surface(String::from_str("null wl_display pointer")));
    }
    if !surface_present {
        return Err(RendererError::Surface(String::from_str("null wl_surface pointer")));
    }
    Ok(())
}

/// The index of the first sRGB format among the surface's supported
/// formats, else of the first format, else none.
pub open spec fn surface_format_spec(srgb: Seq<bool>) -> Option<int> {
    if exists|i: int| 0 <= i < srgb.len() && srgb[i] {
        Some(choose|i: int| 0 <= i < srgb.len() && srgb[i] && forall|k: int| 0 <= k < i ==> !srgb[k])
    } else if srgb.len() > 0 {
        Some(0)
    } else {
        None
    }
}

/// Picks the swap-chain format from the surface's supported formats, given
/// for each whether it is sRGB: the first sRGB format, else the first
/// format; [`RendererError::Surface`] when the surface supports none.
pub fn pick_surface_format(srgb: &Vec<bool>) -> (r: Result<usize, RendererError>)
    ensures
        match r {
            Ok(i) => surface_format_spec(srgb@) == Some(i as int),
            Err(RendererError::Surface(m)) => surface_format_spec(srgb@) is None
                && m@ == "no supported surface format"@,
            Err(_) => false,
        },
{
    let n = srgb.len();
    let mut i: usize = 0;
    while i < n
        invariant
            n == srgb@.len(),
            i <= n,
            forall|k: int| 0 <= k < i ==> !srgb@[k],
        decreases n - i,
    {
        if srgb[i] {
            proof {
                let w = choose|j: int| 0 <= j < srgb@.len() && srgb@[j] && forall|k: int| 0 <= k < j ==> !srgb@[k];
                assert(0 <= i < srgb@.len() && srgb@[i as int] && forall|k: int| 0 <= k < i ==> !srgb@[k]);
                assert(w == i as int) by {
                    if w < i {
                        assert(!srgb@[w]);
                    } else if w > i {
                        assert(!srgb@[i as int]);
                    }
                }
            }
            return Ok(i);
        }
        i = i + 1;
    }
    if n > 0 {
        Ok(0)
    } else {
        Err(RendererError::Surface(String::from_str("no supported surface format")))
    }
}

/// Bit pattern of the single-precision value `0.0`.
pub const ZERO_BITS: u32 = 0x0000_0000u32;

/// Bit pattern of the single-precision value `5.0`, the default lerp speed.
pub const DEFAULT_SPEED_BITS: u32 = 0x40A0_0000u32;

/// Bit pattern of the single-precision value `0.3`: seconds after a
/// workspace change before the parallax target resets to the origin.
pub const SLIDE_RESET_BITS: u32 = 0x3E99_999Au32;

/// Sign bit of a single-precision value.
pub const SIGN_BIT: u32 = 0x8000_0000u32;

/// Bit pattern of the negation of the value with bit pattern `b`: IEEE-754
/// negation flips the sign bit and nothing else.
pub open spec fn negated(b: u32) -> u32 {
    b ^ SIGN_BIT
}

/// Parallax offset state for workspace-synchronised slide animations.
///
/// On a workspace change, [`on_workspace_change`](ParallaxState::on_workspace_change)
/// kicks the target offset in the appropriate direction; each frame the
/// application interpolates the live offset toward the target and resets the
/// target to the centre once `slide_reset_timer` runs out.
#[derive(Debug, Clone, Copy)]
pub struct ParallaxState {
    /// Current parallax offset in normalised screen coordinates (X axis).
    pub offset_x: u32,
    /// Current parallax offset in normalised screen coordinates (Y axis).
    pub offset_y: u32,
    /// Target offset the live offset is interpolating toward (X axis).
    pub target_x: u32,
    /// Target offset the live offset is interpolating toward (Y axis).
    pub target_y: u32,
    /// Maximum displacement amplitude as a fraction of the viewport (e.g. `0.05`).
    pub intensity: u32,
    /// Lerp speed factor applied per frame.
    pub speed: u32,
    /// Countdown in seconds until the slide target is reset to the origin.
    pub slide_reset_timer: u32,
}

/// The state after a workspace change from `from` to `to`: moving to a
/// higher workspace slides left (target `-intensity`), to a lower one slides
/// right (target `+intensity`); the vertical target is centred and the reset
/// timer armed.  Staying on the same workspace changes nothing.
pub open spec fn workspace_change_spec(p: ParallaxState, from: u32, to: u32) -> ParallaxState {
    if to > from {
        ParallaxState {
            target_x: negated(p.intensity),
            target_y: ZERO_BITS,
            slide_reset_timer: SLIDE_RESET_BITS,
            ..p
        }
    } else if to < from {
        ParallaxState {
            target_x: p.intensity,
            target_y: ZERO_BITS,
            slide_reset_timer: SLIDE_RESET_BITS,
            ..p
        }
    } else {
        p
    }
}

impl ParallaxState {
    /// Creates a state with the given `intensity` and a lerp speed of `5.0`;
    /// all offsets, targets and the timer start at zero.
    pub fn new(intensity: u32) -> (p: Self)
        ensures
            p.offset_x == ZERO_BITS && p.offset_y == ZERO_BITS,
            p.target_x == ZERO_BITS && p.target_y == ZERO_BITS,
            p.intensity == intensity,
            p.speed == DEFAULT_SPEED_BITS,
            p.slide_reset_timer == ZERO_BITS,
    {
        ParallaxState {
            offset_x: ZERO_BITS,
            offset_y: ZERO_BITS,
            target_x: ZERO_BITS,
            target_y: ZERO_BITS,
            intensity,
            speed: DEFAULT_SPEED_BITS,
            slide_reset_timer: ZERO_BITS,
        }
    }

    /// Sets an explicit `(x, y)` target offset, overriding any in-progress slide.
    pub fn set_target(&mut self, x: u32, y: u32)
        ensures
            *final(self) == (ParallaxState { target_x: x, target_y: y, ..*old(self) }),
    {
        self.target_x = x;
        self.target_y = y;
    }

    /// Triggers a directional slide kick when the active workspace changes
    /// (see [`workspace_change_spec`]).
    pub fn on_workspace_change(&mut self, from: u32, to: u32)
        ensures
            *final(self) == workspace_change_spec(*old(self), from, to),
            from == to ==> *final(self) == *old(self),
            from != to ==> final(self).target_y == ZERO_BITS && final(self).slide_reset_timer
                == SLIDE_RESET_BITS,
            to > from ==> final(self).target_x == negated(old(self).intensity),
            to < from ==> final(self).target_x == old(self).intensity,
            final(self).offset_x == old(self).offset_x && final(self).offset_y == old(self).offset_y,
            final(self).intensity == old(self).intensity && final(self).speed == old(self).speed,
    {
        if to > from {
            self.target_x = self.intensity ^ SIGN_BIT;
        } else if to < from {
            self.target_x = self.intensity;
        } else {
            return;
        }
        self.target_y = ZERO_BITS;
        self.slide_reset_timer = SLIDE_RESET_BITS;
    }

    /// Returns the current parallax offset as `[offset_x, offset_y]`.
    pub fn get_offset(&self) -> (r: [u32; 2])
        ensures
            r@ == seq![self.offset_x, self.offset_y],
    {
        [self.offset_x, self.offset_y]
    }
}

// ---------------------------------------------------------------------------
// Particle emission
// ---------------------------------------------------------------------------

/// Multiplier of the particle system's linear congruential generator.
pub const LCG_MULTIPLIER: u64 = 6364136223846793005u64;

/// Increment of the particle system's linear congruential generator.
pub const LCG_INCREMENT: u64 = 1442695040888963407u64;

/// Initial generator state of a new particle system.
pub const DEFAULT_SEED: u64 = 0xdeadbeef_cafebabe_u64;

/// The generator state after `seed`: `seed * LCG_MULTIPLIER + LCG_INCREMENT`
/// modulo 2^64.
pub open spec fn lcg_next(seed: u64) -> u64 {
    vstd::wrapping::u64_specs::wrapping_add(
        vstd::wrapping::u64_specs::wrapping_mul(seed, LCG_MULTIPLIER),
        LCG_INCREMENT,
    )
}

/// Advances the generator and returns the top 31 bits of the new state, the
/// integer from which a random draw in `[0, 1]` is scaled.
pub fn next_random_bits(seed: &mut u64) -> (r: u32)
    ensures
        *final(seed) == lcg_next(*old(seed)),
        r as u64 == *final(seed) >> 33,
{
    *seed = seed.wrapping_mul(LCG_MULTIPLIER).wrapping_add(LCG_INCREMENT);
    let s = *seed;
    assert(s >> 33 < 0x8000_0000u64) by (bit_vector);
    (s >> 33) as u32
}

/// How many particles an update emits: the whole particles owed by the
/// emission accumulator, but never more than the free room below the
/// system's particle limit.
pub open spec fn emit_count_spec(live: nat, max_count: nat, owed: nat) -> nat {
    if live >= max_count {
        0
    } else if owed < max_count - live {
        owed
    } else {
        (max_count - live) as nat
    }
}

/// The number of particles to spawn, given the live particles, the limit
/// and the whole particles owed this update.
pub fn particles_to_emit(live: usize, max_count: u32, owed: u32) -> (r: usize)
    ensures
        r == emit_count_spec(live as nat, max_count as nat, owed as nat),
{
    let max = max_count as usize;
    if live >= max {
        0
    } else if (owed as usize) < max - live {
        owed as usize
    } else {
        max - live
    }
}

/// Negating twice gives back the value negated.
pub proof fn law_negation_involutive(b: u32)
    ensures
        negated(negated(b)) == b,
{
    assert((b ^ 0x8000_0000u32) ^ 0x8000_0000u32 == b) by (bit_vector);
}

/// A workspace change in either direction centres the vertical target and
/// arms the reset timer; only the horizontal target depends on the
/// direction, and the live offsets, intensity and speed are untouched.
pub proof fn law_workspace_change_centres_vertically(p: ParallaxState, from: u32, to: u32)
    requires
        from != to,
    ensures
        workspace_change_spec(p, from, to).target_y == ZERO_BITS,
        workspace_change_spec(p, from, to).slide_reset_timer == SLIDE_RESET_BITS,
        workspace_change_spec(p, from, to).target_x == (if to > from {
            negated(p.intensity)
        } else {
            p.intensity
        }),
        workspace_change_spec(p, from, to).offset_x == p.offset_x,
        workspace_change_spec(p, from, to).offset_y == p.offset_y,
        workspace_change_spec(p, from, to).intensity == p.intensity,
        workspace_change_spec(p, from, to).speed == p.speed,
{
}

/// Switching to a higher workspace and back again kicks the target to
/// opposite sides: first to `-intensity`, then to `+intensity`.
pub proof fn law_slide_back_reverses(p: ParallaxState, a: u32, b: u32)
    requires
        a < b,
    ensures
        workspace_change_spec(p, a, b).target_x == negated(p.intensity),
        workspace_change_spec(workspace_change_spec(p, a, b), b, a).target_x == p.intensity,
        workspace_change_spec(workspace_change_spec(p, a, b), b, a).slide_reset_timer
            == SLIDE_RESET_BITS,
{
}

} // verus!
