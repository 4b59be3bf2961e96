use std::io::Write;

use hypaper::scene::{read_manifest, SceneError};

fn make_zip(files: &[(&str, &[u8])]) -> Vec<u8> {
    let mut zip = zip::ZipWriter::new(std::io::Cursor::new(Vec::new()));
    let options = zip::write::SimpleFileOptions::default();
    for (name, content) in files {
        zip.start_file(*name, options).unwrap();
        zip.write_all(content).unwrap();
    }
    zip.finish().unwrap().into_inner()
}

const MINIMAL_TOML: &str = r#"
[meta]
name = "Test Scene"
author = "Test Author"
version = "1.0.0"
engine_version = "0.1.0"
"#;

#[test]
fn test_empty_zip_returns_missing_manifest() {
    let bytes = make_zip(&[]);
    let result = read_manifest(&bytes);
    assert!(matches!(result, Err(SceneError::MissingManifest)));
}

#[test]
fn manifest_text_is_read_from_the_root() {
    let bytes = make_zip(&[("bg.png", b"\x89PNG"), ("scene.toml", MINIMAL_TOML.as_bytes())]);
    assert_eq!(read_manifest(&bytes).unwrap(), MINIMAL_TOML);
}

#[test]
fn nested_manifest_does_not_count() {
    let bytes = make_zip(&[("sub/scene.toml", MINIMAL_TOML.as_bytes())]);
    assert!(matches!(read_manifest(&bytes), Err(SceneError::MissingManifest)));
}

#[test]
fn corrupt_archive_is_a_zip_error() {
    assert!(matches!(read_manifest(b"not a zip archive"), Err(SceneError::Zip(_))));
    assert!(matches!(read_manifest(&[]), Err(SceneError::Zip(_))));
}

#[test]
fn non_utf8_manifest_is_an_io_error() {
    let bytes = make_zip(&[("scene.toml", b"name = \"\xff\xfe\"")]);
    assert!(matches!(read_manifest(&bytes), Err(SceneError::Io(_))));
}

use hypaper::daemon::{load_image_assets, scene_script_source, AssetError};
use hypaper::types::{
    BlendMode, FitMode, ImageLayer, Layer, LayerBase, LayerKind, Scene, SceneConfig, SceneMeta,
    VideoLayer,
};

fn layer(id: &str, kind: LayerKind) -> Layer {
    Layer {
        base: LayerBase {
            id: id.to_string(),
            z_index: 0,
            visible: true,
            opacity: 1.0f32.to_bits(),
            blend_mode: BlendMode::Normal,
        },
        kind,
    }
}

fn image(src: &str) -> LayerKind {
    LayerKind::Image(ImageLayer { src: src.to_string(), fit_mode: FitMode::Fill })
}

fn scene(layers: Vec<Layer>) -> Scene {
    Scene {
        meta: SceneMeta {
            name: "S".to_string(),
            author: "A".to_string(),
            version: "1.0.0".to_string(),
            engine_version: "0.1.0".to_string(),
        },
        config: SceneConfig { fps: 30, resolution: [1920, 1080] },
        layers,
        audio: None,
        hyprland: None,
    }
}

fn stored_zip(files: &[(&str, &[u8])]) -> Vec<u8> {
    let mut zip = zip::ZipWriter::new(std::io::Cursor::new(Vec::new()));
    let options = zip::write::SimpleFileOptions::default().compression_method(zip::CompressionMethod::Stored);
    for (name, content) in files {
        zip.start_file(*name, options).unwrap();
        zip.write_all(content).unwrap();
    }
    zip.finish().unwrap().into_inner()
}

#[test]
fn script_source_is_read_when_present() {
    let script = "fn on_init() { set_audio_muted(true); }";
    let bytes = make_zip(&[("scene.toml", MINIMAL_TOML.as_bytes()), ("scripts/logic.rhai", script.as_bytes())]);
    assert_eq!(scene_script_source(&bytes).as_deref(), Some(script));
}

#[test]
fn scene_without_script_has_none() {
    let bytes = make_zip(&[("scene.toml", MINIMAL_TOML.as_bytes()), ("logic.rhai", b"fn on_init() {}")]);
    assert!(scene_script_source(&bytes).is_none());
    assert!(scene_script_source(b"garbage").is_none());
    let bytes = make_zip(&[("scripts/logic.rhai", b"\xff\xfe")]);
    assert!(scene_script_source(&bytes).is_none());
}

#[test]
fn image_assets_are_read_in_layer_order() {
    let bytes = make_zip(&[("fg.png", b"FG"), ("bg.png", b"BACKGROUND"), ("clip.mp4", b"V")]);
    let s = scene(vec![
        layer("bg", image("bg.png")),
        layer(
            "clip",
            LayerKind::Video(VideoLayer {
                src: "clip.mp4".to_string(),
                fit_mode: FitMode::Fill,
                loop_: true,
                speed: 1.0f32.to_bits(),
                muted: false,
            }),
        ),
        layer("missing", image("missing.png")),
        layer("fg", image("fg.png")),
    ]);
    let assets = load_image_assets(&bytes, &s).unwrap();
    assert_eq!(assets.len(), 2);
    assert_eq!(assets[0].src, "bg.png");
    assert_eq!(assets[0].bytes, b"BACKGROUND");
    assert_eq!(assets[1].src, "fg.png");
    assert_eq!(assets[1].bytes, b"FG");
}

#[test]
fn unreadable_archive_fails_asset_loading() {
    let s = scene(vec![layer("bg", image("bg.png"))]);
    assert!(matches!(load_image_assets(b"not a zip", &s), Err(AssetError::Archive(_))));
    assert!(load_image_assets(b"not a zip", &scene(Vec::new())).unwrap().is_empty());
}

#[test]
fn corrupt_asset_contents_stop_loading() {
    let mut bytes = stored_zip(&[("a.png", b"AAAAAAAAAAAAAAAA"), ("b.png", b"BBBBBBBBBBBBBBBB")]);
    let at = bytes.windows(16).position(|w| w == b"BBBBBBBBBBBBBBBB").unwrap();
    bytes[at] = b'X';
    let s = scene(vec![layer("a", image("a.png")), layer("b", image("b.png")), layer("c", image("c.png"))]);
    match load_image_assets(&bytes, &s) {
        Err(AssetError::Read(src, _)) => assert_eq!(src, "b.png"),
        other => panic!("unexpected {other:?}"),
    }
}

use hypaper::daemon::{take_asset, ImageAsset};
use hypaper::scene::{manifest_from_read, ArchiveError};

#[test]
fn read_outcomes_map_to_scene_errors() {
    assert_eq!(manifest_from_read(Ok("x = 1".to_string())).unwrap(), "x = 1");
    assert!(matches!(manifest_from_read(Err(ArchiveError::MemberMissing)), Err(SceneError::MissingManifest)));
    let io = std::io::Error::new(std::io::ErrorKind::InvalidData, "bad utf-8");
    assert!(matches!(manifest_from_read(Err(ArchiveError::Io(io))), Err(SceneError::Io(_))));
    let z = zip::result::ZipError::FileNotFound;
    assert!(matches!(manifest_from_read(Err(ArchiveError::Member(z))), Err(SceneError::Zip(_))));
}

#[test]
fn asset_outcomes_fold_into_the_list() {
    let mut loaded: Vec<ImageAsset> = Vec::new();
    take_asset(&mut loaded, "a.png".to_string(), Ok(vec![1, 2])).unwrap();
    take_asset(&mut loaded, "b.png".to_string(), Err(ArchiveError::MemberMissing)).unwrap();
    assert_eq!(loaded.len(), 1);
    assert_eq!(loaded[0].src, "a.png");
    let io = std::io::Error::new(std::io::ErrorKind::InvalidData, "checksum");
    match take_asset(&mut loaded, "c.png".to_string(), Err(ArchiveError::Io(io))) {
        Err(AssetError::Read(src, _)) => assert_eq!(src, "c.png"),
        other => panic!("unexpected {other:?}"),
    }
    assert_eq!(loaded.len(), 1);
}
