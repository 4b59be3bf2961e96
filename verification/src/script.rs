//! Error type of the scene scripting engine.
use vstd::prelude::*;

verus! {

/// All errors that can occur during script compilation or execution.
#[derive(Debug)]
pub enum ScriptError {
    /// The script source failed to parse or compile.
    Compile(String),
    /// A runtime error occurred while executing a script callback.
    Runtime(String),
    /// An I/O error while reading a script file from disk.
    Io(std::io::Error),
}

} // verus!
