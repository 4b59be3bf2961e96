//! Declarations of types from std and from outside crates that the library's
//! own types carry through unchanged.  Verus sees none of their contents.
use vstd::prelude::*;

verus! {

/// `std::io::Error`, carried by the I/O variants of the error enums.
#[verifier::external_type_specification]
#[verifier::external_body]
pub struct ExIoError(std::io::Error);

/// `std::time::Instant`, the daemon's start time.
#[verifier::external_type_specification]
#[verifier::external_body]
pub struct ExInstant(std::time::Instant);

/// `zip::result::ZipError`, carried by `SceneError::Zip`.
#[verifier::external_type_specification]
#[verifier::external_body]
pub struct ExZipError(zip::result::ZipError);

/// `toml::de::Error`, carried by `SceneError::Toml`.
#[verifier::external_type_specification]
#[verifier::external_body]
pub struct ExTomlError(toml::de::Error);

/// `clap_complete::aot::Shell`, the target shell of `hypaperctl completions`.
#[verifier::external_type_specification]
#[verifier::external_body]
pub struct ExShell(clap_complete::aot::Shell);

} // verus!
