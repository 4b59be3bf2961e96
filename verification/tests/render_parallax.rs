use hypaper::render::{
    next_random_bits, particles_to_emit, FitMode, ParallaxState, DEFAULT_SEED, DEFAULT_SPEED_BITS,
    LCG_INCREMENT, LCG_MULTIPLIER, SLIDE_RESET_BITS,
};

fn f(bits: u32) -> f32 {
    f32::from_bits(bits)
}

#[test]
fn test_new_starts_at_zero() {
    let p = ParallaxState::new(0.05f32.to_bits());
    assert_eq!(p.get_offset().map(f), [0.0, 0.0]);
}

#[test]
fn test_workspace_change_forward_sets_negative_target() {
    let mut p = ParallaxState::new(0.05f32.to_bits());
    p.on_workspace_change(1, 2);
    assert!(f(p.target_x) < 0.0);
    assert_eq!(f(p.target_x), -0.05);
}

#[test]
fn test_workspace_change_backward_sets_positive_target() {
    let mut p = ParallaxState::new(0.05f32.to_bits());
    p.on_workspace_change(3, 1);
    assert!(f(p.target_x) > 0.0);
    assert_eq!(f(p.target_x), 0.05);
}

#[test]
fn test_workspace_change_equal_is_noop() {
    let mut p = ParallaxState::new(0.05f32.to_bits());
    p.on_workspace_change(2, 2);
    assert_eq!(f(p.target_x), 0.0);
    assert_eq!(f(p.slide_reset_timer), 0.0);
}

#[test]
fn test_set_target_overrides_slide() {
    let mut p = ParallaxState::new(0.05f32.to_bits());
    p.on_workspace_change(1, 2);
    p.set_target(0.1f32.to_bits(), 0.2f32.to_bits());
    assert_eq!(f(p.target_x), 0.1);
    assert_eq!(f(p.target_y), 0.2);
}

#[test]
fn new_uses_default_speed_and_keeps_intensity() {
    let p = ParallaxState::new(0.05f32.to_bits());
    assert_eq!(f(p.speed), 5.0);
    assert_eq!(p.speed, DEFAULT_SPEED_BITS);
    assert_eq!(f(p.intensity), 0.05);
    assert_eq!(f(p.target_y), 0.0);
}

#[test]
fn workspace_change_arms_reset_timer_and_centres_vertically() {
    let mut p = ParallaxState::new(0.05f32.to_bits());
    p.set_target(0.1f32.to_bits(), 0.2f32.to_bits());
    p.on_workspace_change(4, 7);
    assert_eq!(f(p.target_y), 0.0);
    assert_eq!(f(p.slide_reset_timer), 0.3);
    assert_eq!(p.slide_reset_timer, SLIDE_RESET_BITS);
}

#[test]
fn slide_forward_then_back_reverses_direction() {
    let mut p = ParallaxState::new(0.08f32.to_bits());
    p.on_workspace_change(1, 5);
    assert_eq!(f(p.target_x), -0.08);
    p.on_workspace_change(5, 1);
    assert_eq!(f(p.target_x), 0.08);
    assert_eq!(f(p.slide_reset_timer), 0.3);
}

#[test]
fn negating_a_negative_intensity_gives_positive_target() {
    let mut p = ParallaxState::new((-0.25f32).to_bits());
    p.on_workspace_change(0, 1);
    assert_eq!(f(p.target_x), 0.25);
}

#[test]
fn fit_mode_default_is_fill() {
    assert_eq!(FitMode::default(), FitMode::Fill);
}

#[test]
fn random_bits_follow_the_generator() {
    let mut seed = DEFAULT_SEED;
    let expected_state = DEFAULT_SEED.wrapping_mul(LCG_MULTIPLIER).wrapping_add(LCG_INCREMENT);
    let r = next_random_bits(&mut seed);
    assert_eq!(seed, expected_state);
    assert_eq!(r as u64, expected_state >> 33);
    assert_eq!(LCG_MULTIPLIER, 6364136223846793005);
    assert_eq!(LCG_INCREMENT, 1442695040888963407);
    let r2 = next_random_bits(&mut seed);
    assert_eq!(r2 as u64, seed >> 33);
    assert!(r2 < 0x8000_0000);
}

#[test]
fn random_bits_from_zero_seed() {
    let mut seed = 0u64;
    let r = next_random_bits(&mut seed);
    assert_eq!(seed, 1442695040888963407);
    assert_eq!(r as u64, 1442695040888963407u64 >> 33);
}

#[test]
fn emission_is_capped_by_free_room() {
    assert_eq!(particles_to_emit(0, 200, 10), 10);
    assert_eq!(particles_to_emit(195, 200, 10), 5);
    assert_eq!(particles_to_emit(200, 200, 10), 0);
    assert_eq!(particles_to_emit(250, 200, 3), 0);
    assert_eq!(particles_to_emit(10, 200, 0), 0);
    assert_eq!(particles_to_emit(0, 0, 4), 0);
}

use hypaper::render::{decode_texture, pick_surface_format, RendererError};

#[test]
fn decode_texture_yields_rgba_pixels() {
    let img = image::RgbaImage::from_raw(2, 1, vec![255, 0, 0, 255, 0, 0, 255, 128]).unwrap();
    let mut png = std::io::Cursor::new(Vec::new());
    img.write_to(&mut png, image::ImageFormat::Png).unwrap();
    let t = decode_texture(png.get_ref()).unwrap();
    assert_eq!((t.width, t.height), (2, 1));
    assert_eq!(t.rgba, vec![255, 0, 0, 255, 0, 0, 255, 128]);
}

#[test]
fn decode_texture_reports_decoder_message() {
    let bytes = b"definitely not an image";
    let expected = image::load_from_memory(bytes).unwrap_err().to_string();
    match decode_texture(bytes) {
        Err(RendererError::Texture(m)) => assert_eq!(m, expected),
        other => panic!("unexpected {other:?}"),
    }
}

#[test]
fn surface_format_prefers_first_srgb() {
    assert_eq!(pick_surface_format(&vec![false, true, true]).unwrap(), 1);
    assert_eq!(pick_surface_format(&vec![true, false]).unwrap(), 0);
    assert_eq!(pick_surface_format(&vec![false, false]).unwrap(), 0);
    match pick_surface_format(&Vec::new()) {
        Err(RendererError::Surface(m)) => assert_eq!(m, "no supported surface format"),
        other => panic!("unexpected {other:?}"),
    }
}

use hypaper::render::{texture_from_decode, DecodedTexture};

#[test]
fn decode_outcome_maps_to_texture_error() {
    let ok = texture_from_decode(Ok(DecodedTexture { width: 1, height: 1, rgba: vec![1, 2, 3, 4] })).unwrap();
    assert_eq!((ok.width, ok.height, ok.rgba), (1, 1, vec![1, 2, 3, 4]));
    match texture_from_decode(Err("bad header".to_string())) {
        Err(RendererError::Texture(m)) => assert_eq!(m, "bad header"),
        other => panic!("unexpected {other:?}"),
    }
}

use hypaper::render::check_surface_handles;

#[test]
fn surface_handles_must_be_non_null() {
    assert!(check_surface_handles(true, true).is_ok());
    match check_surface_handles(false, false) {
        Err(RendererError::Surface(m)) => assert_eq!(m, "null wl_display pointer"),
        other => panic!("unexpected {other:?}"),
    }
    match check_surface_handles(true, false) {
        Err(RendererError::Surface(m)) => assert_eq!(m, "null wl_surface pointer"),
        other => panic!("unexpected {other:?}"),
    }
}
