//! Verified core of the Hypaper wallpaper engine.
//!
//! The library holds the decisions of the engine: parsing Hyprland event
//! lines, validating and converting scene manifests, the daemon's wallpaper
//! state machine, command-line planning and output rendering, and the
//! bookkeeping of Wayland outputs.  Everything that touches the GPU, the
//! compositor, sockets or the file system lives in the application crate.

pub mod text;
pub mod foreign;
pub mod hyprland;
pub mod scene;
pub mod types;
pub mod daemon;
pub mod cli;
pub mod wayland;
pub mod render;
pub mod script;
